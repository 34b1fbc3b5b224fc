//! The event mode byte.
//!
//! A single byte carries four small fields:
//! bit 0 is the timestamp unit (set: clock ticks; clear: real time),
//! bit 1 the time mode (absolute or relative),
//! bits 2..4 the length class (fixed record, variable payload, or
//! variable payload in user memory), and
//! bit 4 the delivery priority.

use vstd::prelude::*;

verus! {

/// Timestamp-unit field value: timestamps count clock ticks.
pub const TIME_STAMP_TICK: u8 = 1;

/// Timestamp-unit field value: timestamps are real time (seconds and
/// nanoseconds).
pub const TIME_STAMP_REAL: u8 = 0;

/// Mask of the timestamp-unit field (bit 0).
pub const TIME_STAMP_MASK: u8 = 1;

/// Time-mode field value: the timestamp is absolute.
pub const TIME_MODE_ABS: u8 = 0;

/// Time-mode field value: the timestamp is relative to the current time.
pub const TIME_MODE_REL: u8 = 2;

/// Mask of the time-mode field (bit 1).
pub const TIME_MODE_MASK: u8 = 2;

/// Length-class field value: the event is the fixed record alone.
pub const EVENT_LENGTH_FIXED: u8 = 0;

/// Length-class field value: a variable payload follows the fixed record.
pub const EVENT_LENGTH_VARIABLE: u8 = 4;

/// Length-class field value: the variable payload lives in user memory.
pub const EVENT_LENGTH_VARUSR: u8 = 8;

/// Mask of the length-class field (bits 2..4).
pub const EVENT_LENGTH_MASK: u8 = 12;

/// Priority field value: normal delivery.
pub const PRIORITY_NORMAL: u8 = 0;

/// Priority field value: the event should be processed before others.
pub const PRIORITY_HIGH: u8 = 16;

/// Mask of the priority field (bit 4).
pub const PRIORITY_MASK: u8 = 16;

/// The event mode byte.
#[derive(Debug, Copy, Clone, PartialEq, Eq, Structural)]
pub struct EventFlags(pub u8);

impl EventFlags {
    /// The timestamp-unit field (bit 0).
    pub open spec fn spec_timestamp_type(self) -> u8 {
        self.0 % 2
    }

    /// Whether timestamps count clock ticks.
    pub open spec fn spec_is_time_tick(self) -> bool {
        self.spec_timestamp_type() == TIME_STAMP_TICK
    }

    /// The time-mode field (bit 1), still in place.
    pub open spec fn spec_timemode_type(self) -> u8 {
        ((self.0 / 2) % 2 * 2) as u8
    }

    /// The length-class field (bits 2..4), still in place.
    pub open spec fn spec_length_type(self) -> u8 {
        ((self.0 / 4) % 4 * 4) as u8
    }

    /// The priority field (bit 4), still in place.
    pub open spec fn spec_priority_type(self) -> u8 {
        ((self.0 / 16) % 2 * 16) as u8
    }

    /// The timestamp-unit field of the byte.
    pub fn timestamp_type(&self) -> (r: u8)
        ensures
            r == self.spec_timestamp_type(),
    {
        self.0 % 2
    }

    /// Whether timestamps count clock ticks.
    pub fn is_time_tick(&self) -> (r: bool)
        ensures
            r == self.spec_is_time_tick(),
    {
        self.timestamp_type() == TIME_STAMP_TICK
    }

    /// Whether timestamps are real time.
    pub fn is_time_real(&self) -> (r: bool)
        ensures
            r == !self.spec_is_time_tick(),
    {
        self.timestamp_type() == TIME_STAMP_REAL
    }

    /// The time-mode field of the byte.
    pub fn timemode_type(&self) -> (r: u8)
        ensures
            r == self.spec_timemode_type(),
    {
        self.0 / 2 % 2 * 2
    }

    /// Whether the timestamp is absolute.
    pub fn is_time_absolute(&self) -> (r: bool)
        ensures
            r == (self.spec_timemode_type() == TIME_MODE_ABS),
    {
        self.timemode_type() == TIME_MODE_ABS
    }

    /// Whether the timestamp is relative to the current time.
    pub fn is_time_relative(&self) -> (r: bool)
        ensures
            r == (self.spec_timemode_type() == TIME_MODE_REL),
    {
        self.timemode_type() == TIME_MODE_REL
    }

    /// The length-class field of the byte.
    pub fn length_type(&self) -> (r: u8)
        ensures
            r == self.spec_length_type(),
    {
        self.0 / 4 % 4 * 4
    }

    /// Whether the event is the fixed record alone.
    pub fn is_lenght_fixed(&self) -> (r: bool)
        ensures
            r == (self.spec_length_type() == EVENT_LENGTH_FIXED),
    {
        self.length_type() == EVENT_LENGTH_FIXED
    }

    /// Whether a variable payload follows the fixed record.
    pub fn is_lenght_variable(&self) -> (r: bool)
        ensures
            r == (self.spec_length_type() == EVENT_LENGTH_VARIABLE),
    {
        self.length_type() == EVENT_LENGTH_VARIABLE
    }

    /// Whether the variable payload lives in user memory.
    pub fn is_lenght_varusr(&self) -> (r: bool)
        ensures
            r == (self.spec_length_type() == EVENT_LENGTH_VARUSR),
    {
        self.length_type() == EVENT_LENGTH_VARUSR
    }

    /// The priority field of the byte.
    pub fn priority_type(&self) -> (r: u8)
        ensures
            r == self.spec_priority_type(),
    {
        self.0 / 16 % 2 * 16
    }

    /// Whether the event should be processed before others.
    pub fn is_priority_high(&self) -> (r: bool)
        ensures
            r == (self.spec_priority_type() == PRIORITY_HIGH),
    {
        self.priority_type() == PRIORITY_HIGH
    }
}

} // verus!
