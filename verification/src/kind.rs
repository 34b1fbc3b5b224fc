//! Event kinds and their single-byte wire codes.
//!
//! The wire tag is one byte, partitioned into bands; the band decides which
//! payload shape is valid for the event.  Codes outside the known bands are
//! deliberately absorbed into the terminal [`EventKind::Nop`] kind instead
//! of being treated as errors, matching the producer's convention for its
//! reserved ranges.

use vstd::prelude::*;

verus! {

/// Sequencer event kind, one per known wire code.
#[derive(Debug, Copy, Clone, Hash, PartialEq, Eq, Structural)]
pub enum EventKind {
    /// system status; payload: result pair
    System,
    /// returned result status; payload: result pair
    Result,
    /// note on and off with duration; payload: note
    Note,
    /// note on; payload: note
    Noteon,
    /// note off; payload: note
    Noteoff,
    /// key pressure change (aftertouch); payload: note
    Keypress,
    /// controller; payload: control
    Controller,
    /// program change; payload: control
    Pgmchange,
    /// channel pressure; payload: control
    Chanpress,
    /// pitchwheel, from -8192 to 8191; payload: control
    Pitchbend,
    /// 14 bit controller value; payload: control
    Control14,
    /// 14 bit NRPN; payload: control
    Nonregparam,
    /// 14 bit RPN; payload: control
    Regparam,
    /// song position pointer; payload: control
    Songpos,
    /// song select with song ID number; payload: control
    Songsel,
    /// midi time code quarter frame; payload: control
    Qframe,
    /// SMF time signature; payload: control
    Timesign,
    /// SMF key signature; payload: control
    Keysign,
    /// MIDI real time start message; payload: queue control
    Start,
    /// MIDI real time continue message; payload: queue control
    Continue,
    /// MIDI real time stop message; payload: queue control
    Stop,
    /// set tick queue position; payload: queue control
    SetposTick,
    /// set real-time queue position; payload: queue control
    SetposTime,
    /// (SMF) tempo; payload: queue control
    Tempo,
    /// MIDI real time clock message; payload: queue control
    Clock,
    /// MIDI real time tick message; payload: queue control
    Tick,
    /// queue timer skew; payload: queue control
    QueueSkew,
    /// sync position changed; payload: queue control
    SyncPos,
    /// tune request; no payload
    TuneRequest,
    /// reset to power-on state; no payload
    Reset,
    /// active sensing; no payload
    Sensing,
    /// echo-back event; payload: 12 raw bytes
    Echo,
    /// OSS emulation raw event; payload: 12 raw bytes
    Oss,
    /// new client has connected; payload: address
    ClientStart,
    /// client has left the system; payload: address
    ClientExit,
    /// client status/info has changed; payload: address
    ClientChange,
    /// new port was created; payload: address
    PortStart,
    /// port was deleted from system; payload: address
    PortExit,
    /// port status/info has changed; payload: address
    PortChange,
    /// ports connected; payload: connection pair
    PortSubscribed,
    /// ports disconnected; payload: connection pair
    PortUnsubscribed,
    /// user-defined fixed-size event; payload: 12 raw bytes
    Usr0,
    /// user-defined fixed-size event; payload: 12 raw bytes
    Usr1,
    /// user-defined fixed-size event; payload: 12 raw bytes
    Usr2,
    /// user-defined fixed-size event; payload: 12 raw bytes
    Usr3,
    /// user-defined fixed-size event; payload: 12 raw bytes
    Usr4,
    /// user-defined fixed-size event; payload: 12 raw bytes
    Usr5,
    /// user-defined fixed-size event; payload: 12 raw bytes
    Usr6,
    /// user-defined fixed-size event; payload: 12 raw bytes
    Usr7,
    /// user-defined fixed-size event; payload: 12 raw bytes
    Usr8,
    /// user-defined fixed-size event; payload: 12 raw bytes
    Usr9,
    /// system exclusive data; payload: variable-length bytes
    Sysex,
    /// error event; payload: variable-length bytes
    Bounce,
    /// reserved for user apps; payload: variable-length bytes
    UsrVar0,
    /// reserved for user apps; payload: variable-length bytes
    UsrVar1,
    /// reserved for user apps; payload: variable-length bytes
    UsrVar2,
    /// reserved for user apps; payload: variable-length bytes
    UsrVar3,
    /// reserved for user apps; payload: variable-length bytes
    UsrVar4,
    /// NOP, also the sink for unknown codes; no payload
    Nop,
}

/// The wire code of a kind.
pub open spec fn kind_code(k: EventKind) -> u8 {
    match k {
        EventKind::System => 0,
        EventKind::Result => 1,
        EventKind::Note => 5,
        EventKind::Noteon => 6,
        EventKind::Noteoff => 7,
        EventKind::Keypress => 8,
        EventKind::Controller => 10,
        EventKind::Pgmchange => 11,
        EventKind::Chanpress => 12,
        EventKind::Pitchbend => 13,
        EventKind::Control14 => 14,
        EventKind::Nonregparam => 15,
        EventKind::Regparam => 16,
        EventKind::Songpos => 20,
        EventKind::Songsel => 21,
        EventKind::Qframe => 22,
        EventKind::Timesign => 23,
        EventKind::Keysign => 24,
        EventKind::Start => 30,
        EventKind::Continue => 31,
        EventKind::Stop => 32,
        EventKind::SetposTick => 33,
        EventKind::SetposTime => 34,
        EventKind::Tempo => 35,
        EventKind::Clock => 36,
        EventKind::Tick => 37,
        EventKind::QueueSkew => 38,
        EventKind::SyncPos => 39,
        EventKind::TuneRequest => 40,
        EventKind::Reset => 41,
        EventKind::Sensing => 42,
        EventKind::Echo => 50,
        EventKind::Oss => 51,
        EventKind::ClientStart => 60,
        EventKind::ClientExit => 61,
        EventKind::ClientChange => 62,
        EventKind::PortStart => 63,
        EventKind::PortExit => 64,
        EventKind::PortChange => 65,
        EventKind::PortSubscribed => 66,
        EventKind::PortUnsubscribed => 67,
        EventKind::Usr0 => 90,
        EventKind::Usr1 => 91,
        EventKind::Usr2 => 92,
        EventKind::Usr3 => 93,
        EventKind::Usr4 => 94,
        EventKind::Usr5 => 95,
        EventKind::Usr6 => 96,
        EventKind::Usr7 => 97,
        EventKind::Usr8 => 98,
        EventKind::Usr9 => 99,
        EventKind::Sysex => 130,
        EventKind::Bounce => 131,
        EventKind::UsrVar0 => 135,
        EventKind::UsrVar1 => 136,
        EventKind::UsrVar2 => 137,
        EventKind::UsrVar3 => 138,
        EventKind::UsrVar4 => 139,
        EventKind::Nop => 255,
    }
}

/// The kind a wire code resolves to; codes outside the known bands give
/// [`EventKind::Nop`].
pub open spec fn kind_from_code(v: u8) -> EventKind {
    if v == 0 {
        EventKind::System
    } else if v == 1 {
        EventKind::Result
    } else if v == 5 {
        EventKind::Note
    } else if v == 6 {
        EventKind::Noteon
    } else if v == 7 {
        EventKind::Noteoff
    } else if v == 8 {
        EventKind::Keypress
    } else if v == 10 {
        EventKind::Controller
    } else if v == 11 {
        EventKind::Pgmchange
    } else if v == 12 {
        EventKind::Chanpress
    } else if v == 13 {
        EventKind::Pitchbend
    } else if v == 14 {
        EventKind::Control14
    } else if v == 15 {
        EventKind::Nonregparam
    } else if v == 16 {
        EventKind::Regparam
    } else if v == 20 {
        EventKind::Songpos
    } else if v == 21 {
        EventKind::Songsel
    } else if v == 22 {
        EventKind::Qframe
    } else if v == 23 {
        EventKind::Timesign
    } else if v == 24 {
        EventKind::Keysign
    } else if v == 30 {
        EventKind::Start
    } else if v == 31 {
        EventKind::Continue
    } else if v == 32 {
        EventKind::Stop
    } else if v == 33 {
        EventKind::SetposTick
    } else if v == 34 {
        EventKind::SetposTime
    } else if v == 35 {
        EventKind::Tempo
    } else if v == 36 {
        EventKind::Clock
    } else if v == 37 {
        EventKind::Tick
    } else if v == 38 {
        EventKind::QueueSkew
    } else if v == 39 {
        EventKind::SyncPos
    } else if v == 40 {
        EventKind::TuneRequest
    } else if v == 41 {
        EventKind::Reset
    } else if v == 42 {
        EventKind::Sensing
    } else if v == 50 {
        EventKind::Echo
    } else if v == 51 {
        EventKind::Oss
    } else if v == 60 {
        EventKind::ClientStart
    } else if v == 61 {
        EventKind::ClientExit
    } else if v == 62 {
        EventKind::ClientChange
    } else if v == 63 {
        EventKind::PortStart
    } else if v == 64 {
        EventKind::PortExit
    } else if v == 65 {
        EventKind::PortChange
    } else if v == 66 {
        EventKind::PortSubscribed
    } else if v == 67 {
        EventKind::PortUnsubscribed
    } else if v == 90 {
        EventKind::Usr0
    } else if v == 91 {
        EventKind::Usr1
    } else if v == 92 {
        EventKind::Usr2
    } else if v == 93 {
        EventKind::Usr3
    } else if v == 94 {
        EventKind::Usr4
    } else if v == 95 {
        EventKind::Usr5
    } else if v == 96 {
        EventKind::Usr6
    } else if v == 97 {
        EventKind::Usr7
    } else if v == 98 {
        EventKind::Usr8
    } else if v == 99 {
        EventKind::Usr9
    } else if v == 130 {
        EventKind::Sysex
    } else if v == 131 {
        EventKind::Bounce
    } else if v == 135 {
        EventKind::UsrVar0
    } else if v == 136 {
        EventKind::UsrVar1
    } else if v == 137 {
        EventKind::UsrVar2
    } else if v == 138 {
        EventKind::UsrVar3
    } else if v == 139 {
        EventKind::UsrVar4
    } else {
        EventKind::Nop
    }
}

/// Whether a wire code lies in one of the known bands (255 included: it is
/// the explicit code of the terminal kind).
pub open spec fn is_known_code(v: u8) -> bool {
    ||| v <= 1
    ||| 5 <= v <= 8
    ||| 10 <= v <= 16
    ||| 20 <= v <= 24
    ||| 30 <= v <= 42
    ||| 50 <= v <= 51
    ||| 60 <= v <= 67
    ||| 90 <= v <= 99
    ||| 130 <= v <= 131
    ||| 135 <= v <= 139
    ||| v == 255
}

/// Whether a kind belongs to the variable-length extension band.
pub open spec fn is_ext_kind(k: EventKind) -> bool {
    match k {
        EventKind::Sysex
        | EventKind::Bounce
        | EventKind::UsrVar0
        | EventKind::UsrVar1
        | EventKind::UsrVar2
        | EventKind::UsrVar3
        | EventKind::UsrVar4 => true,
        _ => false,
    }
}

impl EventKind {
    /// The wire code of this kind.
    pub fn code(self) -> (r: u8)
        ensures
            r == kind_code(self),
    {
        match self {
            EventKind::System => 0,
            EventKind::Result => 1,
            EventKind::Note => 5,
            EventKind::Noteon => 6,
            EventKind::Noteoff => 7,
            EventKind::Keypress => 8,
            EventKind::Controller => 10,
            EventKind::Pgmchange => 11,
            EventKind::Chanpress => 12,
            EventKind::Pitchbend => 13,
            EventKind::Control14 => 14,
            EventKind::Nonregparam => 15,
            EventKind::Regparam => 16,
            EventKind::Songpos => 20,
            EventKind::Songsel => 21,
            EventKind::Qframe => 22,
            EventKind::Timesign => 23,
            EventKind::Keysign => 24,
            EventKind::Start => 30,
            EventKind::Continue => 31,
            EventKind::Stop => 32,
            EventKind::SetposTick => 33,
            EventKind::SetposTime => 34,
            EventKind::Tempo => 35,
            EventKind::Clock => 36,
            EventKind::Tick => 37,
            EventKind::QueueSkew => 38,
            EventKind::SyncPos => 39,
            EventKind::TuneRequest => 40,
            EventKind::Reset => 41,
            EventKind::Sensing => 42,
            EventKind::Echo => 50,
            EventKind::Oss => 51,
            EventKind::ClientStart => 60,
            EventKind::ClientExit => 61,
            EventKind::ClientChange => 62,
            EventKind::PortStart => 63,
            EventKind::PortExit => 64,
            EventKind::PortChange => 65,
            EventKind::PortSubscribed => 66,
            EventKind::PortUnsubscribed => 67,
            EventKind::Usr0 => 90,
            EventKind::Usr1 => 91,
            EventKind::Usr2 => 92,
            EventKind::Usr3 => 93,
            EventKind::Usr4 => 94,
            EventKind::Usr5 => 95,
            EventKind::Usr6 => 96,
            EventKind::Usr7 => 97,
            EventKind::Usr8 => 98,
            EventKind::Usr9 => 99,
            EventKind::Sysex => 130,
            EventKind::Bounce => 131,
            EventKind::UsrVar0 => 135,
            EventKind::UsrVar1 => 136,
            EventKind::UsrVar2 => 137,
            EventKind::UsrVar3 => 138,
            EventKind::UsrVar4 => 139,
            EventKind::Nop => 255,
        }
    }

    /// Resolve a wire code; codes outside the known bands resolve to
    /// [`EventKind::Nop`] instead of failing.
    pub fn from_code(v: u8) -> (r: EventKind)
        ensures
            r == kind_from_code(v),
            !is_known_code(v) ==> r == EventKind::Nop,
    {
        match v {
            0 => EventKind::System,
            1 => EventKind::Result,
            5 => EventKind::Note,
            6 => EventKind::Noteon,
            7 => EventKind::Noteoff,
            8 => EventKind::Keypress,
            10 => EventKind::Controller,
            11 => EventKind::Pgmchange,
            12 => EventKind::Chanpress,
            13 => EventKind::Pitchbend,
            14 => EventKind::Control14,
            15 => EventKind::Nonregparam,
            16 => EventKind::Regparam,
            20 => EventKind::Songpos,
            21 => EventKind::Songsel,
            22 => EventKind::Qframe,
            23 => EventKind::Timesign,
            24 => EventKind::Keysign,
            30 => EventKind::Start,
            31 => EventKind::Continue,
            32 => EventKind::Stop,
            33 => EventKind::SetposTick,
            34 => EventKind::SetposTime,
            35 => EventKind::Tempo,
            36 => EventKind::Clock,
            37 => EventKind::Tick,
            38 => EventKind::QueueSkew,
            39 => EventKind::SyncPos,
            40 => EventKind::TuneRequest,
            41 => EventKind::Reset,
            42 => EventKind::Sensing,
            50 => EventKind::Echo,
            51 => EventKind::Oss,
            60 => EventKind::ClientStart,
            61 => EventKind::ClientExit,
            62 => EventKind::ClientChange,
            63 => EventKind::PortStart,
            64 => EventKind::PortExit,
            65 => EventKind::PortChange,
            66 => EventKind::PortSubscribed,
            67 => EventKind::PortUnsubscribed,
            90 => EventKind::Usr0,
            91 => EventKind::Usr1,
            92 => EventKind::Usr2,
            93 => EventKind::Usr3,
            94 => EventKind::Usr4,
            95 => EventKind::Usr5,
            96 => EventKind::Usr6,
            97 => EventKind::Usr7,
            98 => EventKind::Usr8,
            99 => EventKind::Usr9,
            130 => EventKind::Sysex,
            131 => EventKind::Bounce,
            135 => EventKind::UsrVar0,
            136 => EventKind::UsrVar1,
            137 => EventKind::UsrVar2,
            138 => EventKind::UsrVar3,
            139 => EventKind::UsrVar4,
            _ => EventKind::Nop,
        }
    }

    /// Whether this kind belongs to the variable-length extension band.
    pub fn is_extension(self) -> (r: bool)
        ensures
            r == is_ext_kind(self),
    {
        match self {
            EventKind::Sysex
            | EventKind::Bounce
            | EventKind::UsrVar0
            | EventKind::UsrVar1
            | EventKind::UsrVar2
            | EventKind::UsrVar3
            | EventKind::UsrVar4 => true,
            _ => false,
        }
    }
}

/// Every kind's code resolves back to the same kind.
pub proof fn lemma_code_round_trip(k: EventKind)
    ensures
        kind_from_code(kind_code(k)) == k,
{
}

/// A code outside the known bands always resolves to the terminal kind.
pub proof fn lemma_unknown_code_is_none(v: u8)
    requires
        !is_known_code(v),
    ensures
        kind_from_code(v) == EventKind::Nop,
{
}

} // verus!
