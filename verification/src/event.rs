//! The sequencer event record as a tagged data model.
//!
//! On the wire the payload of an event is a raw union whose active arm is
//! chosen by the event's type byte alone.  Here the payload is a proper sum
//! type: the decoder and the constructor are the only places that pick an
//! arm, and [`Event::wf`] states that the arm always agrees with the kind.

use vstd::prelude::*;

use crate::flags::EventFlags;
use crate::kind::{is_ext_kind, EventKind};

verus! {

/// Client number that stands for an unknown source.
pub const ADDRESS_UNKNOWN: u8 = 253;

/// Client number that sends an event to all subscribed ports.
pub const ADDRESS_SUBSCRIBERS: u8 = 254;

/// Client or port number that broadcasts to every queue, client or port.
pub const ADDRESS_BROADCAST: u8 = 255;

/// Queue number that bypasses scheduling: the event is delivered at once.
pub const QUEUE_DIRECT: u8 = 253;

/// An event address: a client and a port within it.
#[derive(Debug, Copy, Clone, PartialEq, Eq, Hash, Structural)]
pub struct Addr {
    /// Client number; 255 broadcasts to all clients.
    pub client: u8,
    /// Port within the client; 255 broadcasts to all ports.
    pub port: u8,
}

/// A port connection: sender and destination addresses.
#[derive(Debug, Copy, Clone, PartialEq, Eq, Structural)]
pub struct Connect {
    pub sender: Addr,
    pub dest: Addr,
}

/// A scheduling queue number.
#[derive(Debug, Copy, Clone, PartialEq, Eq, Structural)]
pub struct QueueId(pub u8);

impl QueueId {
    /// Whether this is the direct-dispatch sentinel rather than a real queue.
    pub fn is_direct(&self) -> (r: bool)
        ensures
            r == (self.0 == QUEUE_DIRECT),
    {
        self.0 == QUEUE_DIRECT
    }
}

/// A real-time instant or span: seconds and nanoseconds.
#[derive(Debug, Copy, Clone, PartialEq, Eq, Structural)]
pub struct RealTime {
    pub tv_sec: u32,
    pub tv_nsec: u32,
}

/// A note payload.
#[derive(Debug, Copy, Clone, PartialEq, Eq, Structural)]
pub struct EvNote {
    pub channel: u8,
    pub note: u8,
    pub velocity: u8,
    /// Only meaningful for the combined note-on-and-off kind.
    pub off_velocity: u8,
    /// Only meaningful for the combined note-on-and-off kind.
    pub duration: u32,
}

/// A controller payload.
#[derive(Debug, Copy, Clone, PartialEq, Eq, Structural)]
pub struct EvCtrl {
    pub channel: u8,
    pub param: u32,
    pub value: i32,
}

/// A result payload: the processed event code and its result code.
#[derive(Debug, Copy, Clone, PartialEq, Eq, Structural)]
pub struct EvResult {
    pub event: i32,
    pub result: i32,
}

/// Queue skew values.
#[derive(Debug, Copy, Clone, PartialEq, Eq, Structural)]
pub struct QueueSkew {
    pub value: u32,
    pub base: u32,
}

/// An event timestamp, interpreted per the timestamp-unit flag.
#[derive(Debug, Copy, Clone, PartialEq, Eq, Structural)]
pub enum EventTime {
    /// Real time: seconds and nanoseconds.
    Time(RealTime),
    /// A tick count.
    Tick(u32),
}

/// The parameter a queue-control event carries beside its queue number.
#[derive(Debug, Copy, Clone, PartialEq, Eq, Structural)]
pub enum QueueControlEventData {
    /// Affected value (e.g. tempo).
    Value(i32),
    /// Sync position.
    Position(u32),
    /// Real-time queue position.
    Time(RealTime),
    /// Queue skew values.
    Skew(QueueSkew),
    /// Nothing beside the queue number.
    Empty,
}

/// The typed payload of an event; the arm is fixed by the event's kind.
#[derive(Debug, Clone, PartialEq, Eq)]
pub enum EventData {
    /// System and result events.
    Result(EvResult),
    /// The note band.
    Note(EvNote),
    /// The control and synchronisation bands.
    Control(EvCtrl),
    /// The timer band: a queue and a kind-dependent parameter.
    QueueControl { queue: QueueId, data: QueueControlEventData },
    /// The lifecycle broadcast band.
    Addr(Addr),
    /// The connection band.
    Connect(Connect),
    /// The fixed-size user, echo and OSS bands: 12 raw bytes.
    Raw8([u8; 12]),
    /// The extension band: the variable-length bytes that follow the record.
    Ext(Vec<u8>),
    /// Kinds that carry no payload.
    Empty,
}

/// Whether a payload arm is the one the kind's band calls for.
pub open spec fn data_matches(k: EventKind, d: EventData) -> bool {
    match k {
        EventKind::System | EventKind::Result => d is Result,
        EventKind::Note | EventKind::Noteon | EventKind::Noteoff | EventKind::Keypress => {
            d is Note
        },
        EventKind::Controller
        | EventKind::Pgmchange
        | EventKind::Chanpress
        | EventKind::Pitchbend
        | EventKind::Control14
        | EventKind::Nonregparam
        | EventKind::Regparam
        | EventKind::Songpos
        | EventKind::Songsel
        | EventKind::Qframe
        | EventKind::Timesign
        | EventKind::Keysign => d is Control,
        EventKind::SyncPos | EventKind::Tick | EventKind::SetposTick => {
            d matches EventData::QueueControl { data, .. } && data is Position
        },
        EventKind::SetposTime => {
            d matches EventData::QueueControl { data, .. } && data is Time
        },
        EventKind::Tempo => d matches EventData::QueueControl { data, .. } && data is Value,
        EventKind::QueueSkew => d matches EventData::QueueControl { data, .. } && data is Skew,
        EventKind::Start | EventKind::Continue | EventKind::Stop | EventKind::Clock => {
            d matches EventData::QueueControl { data, .. } && data is Empty
        },
        EventKind::TuneRequest | EventKind::Reset | EventKind::Sensing | EventKind::Nop => {
            d is Empty
        },
        EventKind::ClientStart
        | EventKind::ClientExit
        | EventKind::ClientChange
        | EventKind::PortStart
        | EventKind::PortExit
        | EventKind::PortChange => d is Addr,
        EventKind::PortSubscribed | EventKind::PortUnsubscribed => d is Connect,
        EventKind::Echo
        | EventKind::Oss
        | EventKind::Usr0
        | EventKind::Usr1
        | EventKind::Usr2
        | EventKind::Usr3
        | EventKind::Usr4
        | EventKind::Usr5
        | EventKind::Usr6
        | EventKind::Usr7
        | EventKind::Usr8
        | EventKind::Usr9 => d is Raw8,
        EventKind::Sysex
        | EventKind::Bounce
        | EventKind::UsrVar0
        | EventKind::UsrVar1
        | EventKind::UsrVar2
        | EventKind::UsrVar3
        | EventKind::UsrVar4 => d is Ext,
    }
}

/// The length of the variable payload; 0 for every fixed-payload arm.
pub open spec fn ext_len_of(d: EventData) -> int {
    match d {
        EventData::Ext(p) => p@.len() as int,
        _ => 0,
    }
}

/// A sequence of `n` zero bytes.
pub open spec fn zero_bytes(n: int) -> Seq<u8> {
    Seq::new(n as nat, |i: int| 0u8)
}

/// Whether a payload is the zero-initialized payload of the kind's band.
pub open spec fn zero_data_for(k: EventKind, d: EventData) -> bool {
    match k {
        EventKind::System | EventKind::Result => {
            d == EventData::Result(EvResult { event: 0, result: 0 })
        },
        EventKind::Note | EventKind::Noteon | EventKind::Noteoff | EventKind::Keypress => {
            d == EventData::Note(
                EvNote { channel: 0, note: 0, velocity: 0, off_velocity: 0, duration: 0 },
            )
        },
        EventKind::Controller
        | EventKind::Pgmchange
        | EventKind::Chanpress
        | EventKind::Pitchbend
        | EventKind::Control14
        | EventKind::Nonregparam
        | EventKind::Regparam
        | EventKind::Songpos
        | EventKind::Songsel
        | EventKind::Qframe
        | EventKind::Timesign
        | EventKind::Keysign => {
            d == EventData::Control(EvCtrl { channel: 0, param: 0, value: 0 })
        },
        EventKind::SyncPos | EventKind::Tick | EventKind::SetposTick => {
            d == (EventData::QueueControl {
                queue: QueueId(0),
                data: QueueControlEventData::Position(0),
            })
        },
        EventKind::SetposTime => {
            d == (EventData::QueueControl {
                queue: QueueId(0),
                data: QueueControlEventData::Time(RealTime { tv_sec: 0, tv_nsec: 0 }),
            })
        },
        EventKind::Tempo => {
            d == (EventData::QueueControl {
                queue: QueueId(0),
                data: QueueControlEventData::Value(0),
            })
        },
        EventKind::QueueSkew => {
            d == (EventData::QueueControl {
                queue: QueueId(0),
                data: QueueControlEventData::Skew(QueueSkew { value: 0, base: 0 }),
            })
        },
        EventKind::Start | EventKind::Continue | EventKind::Stop | EventKind::Clock => {
            d == (EventData::QueueControl {
                queue: QueueId(0),
                data: QueueControlEventData::Empty,
            })
        },
        EventKind::TuneRequest | EventKind::Reset | EventKind::Sensing | EventKind::Nop => {
            d == EventData::Empty
        },
        EventKind::ClientStart
        | EventKind::ClientExit
        | EventKind::ClientChange
        | EventKind::PortStart
        | EventKind::PortExit
        | EventKind::PortChange => d == EventData::Addr(Addr { client: 0, port: 0 }),
        EventKind::PortSubscribed | EventKind::PortUnsubscribed => {
            d == EventData::Connect(
                Connect {
                    sender: Addr { client: 0, port: 0 },
                    dest: Addr { client: 0, port: 0 },
                },
            )
        },
        EventKind::Echo
        | EventKind::Oss
        | EventKind::Usr0
        | EventKind::Usr1
        | EventKind::Usr2
        | EventKind::Usr3
        | EventKind::Usr4
        | EventKind::Usr5
        | EventKind::Usr6
        | EventKind::Usr7
        | EventKind::Usr8
        | EventKind::Usr9 => d matches EventData::Raw8(a) && a@ == zero_bytes(12),
        EventKind::Sysex
        | EventKind::Bounce
        | EventKind::UsrVar0
        | EventKind::UsrVar1
        | EventKind::UsrVar2
        | EventKind::UsrVar3
        | EventKind::UsrVar4 => d matches EventData::Ext(p) && p@.len() == 0,
    }
}

/// A sequencer event: the fixed record's fields plus the typed payload.
#[derive(Debug, Clone, PartialEq)]
pub struct Event {
    /// The event kind; it fixes the payload arm.
    pub kind: EventKind,
    /// The mode byte.
    pub flags: EventFlags,
    /// A free tag byte, available to applications.
    pub tag: i8,
    /// The scheduling queue, or the direct-dispatch sentinel.
    pub queue: QueueId,
    /// The timestamp, in the unit the mode byte names.
    pub time: EventTime,
    /// The source address.
    pub source: Addr,
    /// The destination address.
    pub dest: Addr,
    /// The typed payload.
    pub data: EventData,
}

impl Event {
    /// Well-formedness: the payload arm agrees with the kind's band, the
    /// timestamp arm agrees with the timestamp-unit flag, and a variable
    /// payload's length fits the record's 32-bit length field.
    pub open spec fn wf(&self) -> bool {
        &&& data_matches(self.kind, self.data)
        &&& (self.time is Tick <==> self.flags.spec_is_time_tick())
        &&& ext_len_of(self.data) <= u32::MAX
    }

    /// What a freshly built event of the given kind looks like: every field
    /// zero-initialized except the kind itself, the queue (direct dispatch)
    /// and the destination (all subscribers, unknown port).
    pub open spec fn is_default(&self, kind: EventKind) -> bool {
        &&& self.kind == kind
        &&& self.flags == EventFlags(0)
        &&& self.tag == 0
        &&& self.queue == QueueId(QUEUE_DIRECT)
        &&& self.time == EventTime::Time(RealTime { tv_sec: 0, tv_nsec: 0 })
        &&& self.source == (Addr { client: 0, port: 0 })
        &&& self.dest == (Addr { client: ADDRESS_SUBSCRIBERS, port: ADDRESS_UNKNOWN })
        &&& zero_data_for(kind, self.data)
    }

    /// Build a blank event of the given kind: all bytes of the record are
    /// deterministic, only the kind, the direct-dispatch queue and the
    /// broadcast-to-subscribers destination are set.
    pub fn new(kind: EventKind) -> (r: Event)
        ensures
            r.is_default(kind),
            r.wf(),
    {
        Event {
            kind,
            flags: EventFlags(0),
            tag: 0,
            queue: QueueId(QUEUE_DIRECT),
            time: EventTime::Time(RealTime { tv_sec: 0, tv_nsec: 0 }),
            source: Addr { client: 0, port: 0 },
            dest: Addr { client: ADDRESS_SUBSCRIBERS, port: ADDRESS_UNKNOWN },
            data: default_data(kind),
        }
    }

    /// The event kind.
    pub fn kind(&self) -> (r: &EventKind)
        ensures
            *r == self.kind,
    {
        &self.kind
    }

    /// The free tag byte.
    pub fn tag(&self) -> (r: i8)
        ensures
            r == self.tag,
    {
        self.tag
    }

    /// The scheduling queue.
    pub fn queue(&self) -> (r: QueueId)
        ensures
            r == self.queue,
    {
        self.queue
    }

    /// The timestamp.
    pub fn time(&self) -> (r: EventTime)
        ensures
            r == self.time,
    {
        self.time
    }

    /// The source address.
    pub fn source(&self) -> (r: &Addr)
        ensures
            *r == self.source,
    {
        &self.source
    }

    /// The destination address.
    pub fn destination(&self) -> (r: &Addr)
        ensures
            *r == self.dest,
    {
        &self.dest
    }

    /// Whether the event should be processed before others.
    pub fn is_priority_high(&self) -> (r: bool)
        ensures
            r == (self.flags.spec_priority_type() == crate::flags::PRIORITY_HIGH),
    {
        self.flags.is_priority_high()
    }

    /// The typed payload.
    pub fn data(&self) -> (r: &EventData)
        ensures
            *r == self.data,
    {
        &self.data
    }
}

/// The zero-initialized payload of a kind's band.
fn default_data(kind: EventKind) -> (d: EventData)
    ensures
        zero_data_for(kind, d),
{
    match kind {
        EventKind::System | EventKind::Result => {
            EventData::Result(EvResult { event: 0, result: 0 })
        },
        EventKind::Note | EventKind::Noteon | EventKind::Noteoff | EventKind::Keypress => {
            EventData::Note(
                EvNote { channel: 0, note: 0, velocity: 0, off_velocity: 0, duration: 0 },
            )
        },
        EventKind::Controller
        | EventKind::Pgmchange
        | EventKind::Chanpress
        | EventKind::Pitchbend
        | EventKind::Control14
        | EventKind::Nonregparam
        | EventKind::Regparam
        | EventKind::Songpos
        | EventKind::Songsel
        | EventKind::Qframe
        | EventKind::Timesign
        | EventKind::Keysign => EventData::Control(EvCtrl { channel: 0, param: 0, value: 0 }),
        EventKind::SyncPos | EventKind::Tick | EventKind::SetposTick => {
            EventData::QueueControl {
                queue: QueueId(0),
                data: QueueControlEventData::Position(0),
            }
        },
        EventKind::SetposTime => {
            EventData::QueueControl {
                queue: QueueId(0),
                data: QueueControlEventData::Time(RealTime { tv_sec: 0, tv_nsec: 0 }),
            }
        },
        EventKind::Tempo => {
            EventData::QueueControl { queue: QueueId(0), data: QueueControlEventData::Value(0) }
        },
        EventKind::QueueSkew => {
            EventData::QueueControl {
                queue: QueueId(0),
                data: QueueControlEventData::Skew(QueueSkew { value: 0, base: 0 }),
            }
        },
        EventKind::Start | EventKind::Continue | EventKind::Stop | EventKind::Clock => {
            EventData::QueueControl { queue: QueueId(0), data: QueueControlEventData::Empty }
        },
        EventKind::TuneRequest | EventKind::Reset | EventKind::Sensing | EventKind::Nop => {
            EventData::Empty
        },
        EventKind::ClientStart
        | EventKind::ClientExit
        | EventKind::ClientChange
        | EventKind::PortStart
        | EventKind::PortExit
        | EventKind::PortChange => EventData::Addr(Addr { client: 0, port: 0 }),
        EventKind::PortSubscribed | EventKind::PortUnsubscribed => {
            EventData::Connect(
                Connect {
                    sender: Addr { client: 0, port: 0 },
                    dest: Addr { client: 0, port: 0 },
                },
            )
        },
        EventKind::Echo
        | EventKind::Oss
        | EventKind::Usr0
        | EventKind::Usr1
        | EventKind::Usr2
        | EventKind::Usr3
        | EventKind::Usr4
        | EventKind::Usr5
        | EventKind::Usr6
        | EventKind::Usr7
        | EventKind::Usr8
        | EventKind::Usr9 => {
            let raw: [u8; 12] = [0, 0, 0, 0, 0, 0, 0, 0, 0, 0, 0, 0];
            proof {
                assert(raw@ =~= zero_bytes(12));
            }
            EventData::Raw8(raw)
        },
        EventKind::Sysex
        | EventKind::Bounce
        | EventKind::UsrVar0
        | EventKind::UsrVar1
        | EventKind::UsrVar2
        | EventKind::UsrVar3
        | EventKind::UsrVar4 => EventData::Ext(Vec::new()),
    }
}

/// An event kind paired with the payload it carries, one variant per kind.
#[derive(Debug, Clone, PartialEq)]
pub enum EventWithData {
    /// system status
    System(EvResult),
    /// returned result status
    Result(EvResult),
    /// note on and off with duration
    Note(EvNote),
    /// note on
    NoteOn(EvNote),
    /// note off
    NoteOff(EvNote),
    /// key pressure change (aftertouch)
    KeyPress(EvNote),
    /// controller
    Controller(EvCtrl),
    /// program change
    Pgmchange(EvCtrl),
    /// channel pressure
    Chanpress(EvCtrl),
    /// pitchwheel
    Pitchbend(EvCtrl),
    /// 14 bit controller value
    Control14(EvCtrl),
    /// 14 bit NRPN
    Nonregparam(EvCtrl),
    /// 14 bit RPN
    Regparam(EvCtrl),
    /// song position pointer
    Songpos(EvCtrl),
    /// song select
    Songsel(EvCtrl),
    /// midi time code quarter frame
    Qframe(EvCtrl),
    /// SMF time signature
    Timesign(EvCtrl),
    /// SMF key signature
    Keysign(EvCtrl),
    /// MIDI real time start message
    Start(QueueId),
    /// MIDI real time continue message
    Continue(QueueId),
    /// MIDI real time stop message
    Stop(QueueId),
    /// set tick queue position
    SetposTick { queue: QueueId, position: u32 },
    /// set real-time queue position
    SetposTime { queue: QueueId, position: RealTime },
    /// (SMF) tempo
    Tempo { queue: QueueId, value: i32 },
    /// MIDI real time clock message
    Clock(QueueId),
    /// MIDI real time tick message
    Tick { queue: QueueId, position: u32 },
    /// queue timer skew
    QueueSkew { queue: QueueId, skew: QueueSkew },
    /// sync position changed
    SyncPos { queue: QueueId, position: u32 },
    /// tune request
    TuneRequest,
    /// reset to power-on state
    Reset,
    /// active sensing
    Sensing,
    /// echo-back event
    Echo([u8; 12]),
    /// OSS emulation raw event
    Oss([u8; 12]),
    /// new client has connected
    ClientStart(Addr),
    /// client has left the system
    ClientExit(Addr),
    /// client status/info has changed
    ClientChange(Addr),
    /// new port was created
    PortStart(Addr),
    /// port was deleted from system
    PortExit(Addr),
    /// port status/info has changed
    PortChange(Addr),
    /// ports connected
    PortSubscribed(Connect),
    /// ports disconnected
    PortUnsubscribed(Connect),
    /// user-defined fixed-size event
    Usr0([u8; 12]),
    /// user-defined fixed-size event
    Usr1([u8; 12]),
    /// user-defined fixed-size event
    Usr2([u8; 12]),
    /// user-defined fixed-size event
    Usr3([u8; 12]),
    /// user-defined fixed-size event
    Usr4([u8; 12]),
    /// user-defined fixed-size event
    Usr5([u8; 12]),
    /// user-defined fixed-size event
    Usr6([u8; 12]),
    /// user-defined fixed-size event
    Usr7([u8; 12]),
    /// user-defined fixed-size event
    Usr8([u8; 12]),
    /// user-defined fixed-size event
    Usr9([u8; 12]),
    /// system exclusive data
    Sysex(Vec<u8>),
    /// error event
    Bounce(Vec<u8>),
    /// reserved for user apps
    UsrVar0(Vec<u8>),
    /// reserved for user apps
    UsrVar1(Vec<u8>),
    /// reserved for user apps
    UsrVar2(Vec<u8>),
    /// reserved for user apps
    UsrVar3(Vec<u8>),
    /// reserved for user apps
    UsrVar4(Vec<u8>),
    /// NOP
    Nop,
}

/// Whether `w` is the kind-and-payload view of `e`: the variant is the
/// event's kind, and it carries the event's own payload (the raw and
/// variable-length arms compared by byte contents).
pub open spec fn with_data_rel(e: Event, w: EventWithData) -> bool {
    match e.kind {
        EventKind::System => {
            e.data matches EventData::Result(r) && w == EventWithData::System(r)
        },
        EventKind::Result => {
            e.data matches EventData::Result(r) && w == EventWithData::Result(r)
        },
        EventKind::Note => e.data matches EventData::Note(n) && w == EventWithData::Note(n),
        EventKind::Noteon => e.data matches EventData::Note(n) && w == EventWithData::NoteOn(n),
        EventKind::Noteoff => e.data matches EventData::Note(n) && w == EventWithData::NoteOff(n),
        EventKind::Keypress => {
            e.data matches EventData::Note(n) && w == EventWithData::KeyPress(n)
        },
        EventKind::Controller => {
            e.data matches EventData::Control(c) && w == EventWithData::Controller(c)
        },
        EventKind::Pgmchange => {
            e.data matches EventData::Control(c) && w == EventWithData::Pgmchange(c)
        },
        EventKind::Chanpress => {
            e.data matches EventData::Control(c) && w == EventWithData::Chanpress(c)
        },
        EventKind::Pitchbend => {
            e.data matches EventData::Control(c) && w == EventWithData::Pitchbend(c)
        },
        EventKind::Control14 => {
            e.data matches EventData::Control(c) && w == EventWithData::Control14(c)
        },
        EventKind::Nonregparam => {
            e.data matches EventData::Control(c) && w == EventWithData::Nonregparam(c)
        },
        EventKind::Regparam => {
            e.data matches EventData::Control(c) && w == EventWithData::Regparam(c)
        },
        EventKind::Songpos => {
            e.data matches EventData::Control(c) && w == EventWithData::Songpos(c)
        },
        EventKind::Songsel => {
            e.data matches EventData::Control(c) && w == EventWithData::Songsel(c)
        },
        EventKind::Qframe => {
            e.data matches EventData::Control(c) && w == EventWithData::Qframe(c)
        },
        EventKind::Timesign => {
            e.data matches EventData::Control(c) && w == EventWithData::Timesign(c)
        },
        EventKind::Keysign => {
            e.data matches EventData::Control(c) && w == EventWithData::Keysign(c)
        },
        EventKind::Start => {
            e.data matches EventData::QueueControl { queue, .. } && w == EventWithData::Start(
                queue,
            )
        },
        EventKind::Continue => {
            e.data matches EventData::QueueControl { queue, .. } && w == EventWithData::Continue(
                queue,
            )
        },
        EventKind::Stop => {
            e.data matches EventData::QueueControl { queue, .. } && w == EventWithData::Stop(queue)
        },
        EventKind::SetposTick => {
            e.data matches EventData::QueueControl {
                queue,
                data: QueueControlEventData::Position(p),
            } && w == (EventWithData::SetposTick { queue, position: p })
        },
        EventKind::SetposTime => {
            e.data matches EventData::QueueControl {
                queue,
                data: QueueControlEventData::Time(rt),
            } && w == (EventWithData::SetposTime { queue, position: rt })
        },
        EventKind::Tempo => {
            e.data matches EventData::QueueControl {
                queue,
                data: QueueControlEventData::Value(v),
            } && w == (EventWithData::Tempo { queue, value: v })
        },
        EventKind::Clock => {
            e.data matches EventData::QueueControl { queue, .. } && w == EventWithData::Clock(
                queue,
            )
        },
        EventKind::Tick => {
            e.data matches EventData::QueueControl {
                queue,
                data: QueueControlEventData::Position(p),
            } && w == (EventWithData::Tick { queue, position: p })
        },
        EventKind::QueueSkew => {
            e.data matches EventData::QueueControl {
                queue,
                data: QueueControlEventData::Skew(s),
            } && w == (EventWithData::QueueSkew { queue, skew: s })
        },
        EventKind::SyncPos => {
            e.data matches EventData::QueueControl {
                queue,
                data: QueueControlEventData::Position(p),
            } && w == (EventWithData::SyncPos { queue, position: p })
        },
        EventKind::TuneRequest => w == EventWithData::TuneRequest,
        EventKind::Reset => w == EventWithData::Reset,
        EventKind::Sensing => w == EventWithData::Sensing,
        EventKind::Echo => {
            e.data matches EventData::Raw8(a) && w matches EventWithData::Echo(x) && x@ == a@
        },
        EventKind::Oss => {
            e.data matches EventData::Raw8(a) && w matches EventWithData::Oss(x) && x@ == a@
        },
        EventKind::ClientStart => {
            e.data matches EventData::Addr(a) && w == EventWithData::ClientStart(a)
        },
        EventKind::ClientExit => {
            e.data matches EventData::Addr(a) && w == EventWithData::ClientExit(a)
        },
        EventKind::ClientChange => {
            e.data matches EventData::Addr(a) && w == EventWithData::ClientChange(a)
        },
        EventKind::PortStart => {
            e.data matches EventData::Addr(a) && w == EventWithData::PortStart(a)
        },
        EventKind::PortExit => {
            e.data matches EventData::Addr(a) && w == EventWithData::PortExit(a)
        },
        EventKind::PortChange => {
            e.data matches EventData::Addr(a) && w == EventWithData::PortChange(a)
        },
        EventKind::PortSubscribed => {
            e.data matches EventData::Connect(c) && w == EventWithData::PortSubscribed(c)
        },
        EventKind::PortUnsubscribed => {
            e.data matches EventData::Connect(c) && w == EventWithData::PortUnsubscribed(c)
        },
        EventKind::Usr0 => {
            e.data matches EventData::Raw8(a) && w matches EventWithData::Usr0(x) && x@ == a@
        },
        EventKind::Usr1 => {
            e.data matches EventData::Raw8(a) && w matches EventWithData::Usr1(x) && x@ == a@
        },
        EventKind::Usr2 => {
            e.data matches EventData::Raw8(a) && w matches EventWithData::Usr2(x) && x@ == a@
        },
        EventKind::Usr3 => {
            e.data matches EventData::Raw8(a) && w matches EventWithData::Usr3(x) && x@ == a@
        },
        EventKind::Usr4 => {
            e.data matches EventData::Raw8(a) && w matches EventWithData::Usr4(x) && x@ == a@
        },
        EventKind::Usr5 => {
            e.data matches EventData::Raw8(a) && w matches EventWithData::Usr5(x) && x@ == a@
        },
        EventKind::Usr6 => {
            e.data matches EventData::Raw8(a) && w matches EventWithData::Usr6(x) && x@ == a@
        },
        EventKind::Usr7 => {
            e.data matches EventData::Raw8(a) && w matches EventWithData::Usr7(x) && x@ == a@
        },
        EventKind::Usr8 => {
            e.data matches EventData::Raw8(a) && w matches EventWithData::Usr8(x) && x@ == a@
        },
        EventKind::Usr9 => {
            e.data matches EventData::Raw8(a) && w matches EventWithData::Usr9(x) && x@ == a@
        },
        EventKind::Sysex => {
            e.data matches EventData::Ext(p) && w matches EventWithData::Sysex(q) && q@ == p@
        },
        EventKind::Bounce => {
            e.data matches EventData::Ext(p) && w matches EventWithData::Bounce(q) && q@ == p@
        },
        EventKind::UsrVar0 => {
            e.data matches EventData::Ext(p) && w matches EventWithData::UsrVar0(q) && q@ == p@
        },
        EventKind::UsrVar1 => {
            e.data matches EventData::Ext(p) && w matches EventWithData::UsrVar1(q) && q@ == p@
        },
        EventKind::UsrVar2 => {
            e.data matches EventData::Ext(p) && w matches EventWithData::UsrVar2(q) && q@ == p@
        },
        EventKind::UsrVar3 => {
            e.data matches EventData::Ext(p) && w matches EventWithData::UsrVar3(q) && q@ == p@
        },
        EventKind::UsrVar4 => {
            e.data matches EventData::Ext(p) && w matches EventWithData::UsrVar4(q) && q@ == p@
        },
        EventKind::Nop => w == EventWithData::Nop,
    }
}

/// Copy the bytes of a variable payload into a fresh vector.
fn copy_bytes(p: &Vec<u8>) -> (r: Vec<u8>)
    ensures
        r@ == p@,
{
    vstd::slice::slice_to_vec(p.as_slice())
}

impl Event {
    /// The kind-and-payload view of this event, one variant per kind.
    /// The payload arm always agrees with the kind: well-formedness rules
    /// every other combination out.
    pub fn event_with_data(&self) -> (r: EventWithData)
        requires
            self.wf(),
        ensures
            with_data_rel(*self, r),
    {
        match self.kind {
            EventKind::System => match &self.data {
                EventData::Result(r) => EventWithData::System(*r),
                _ => vstd::pervasive::unreached(),
            },
            EventKind::Result => match &self.data {
                EventData::Result(r) => EventWithData::Result(*r),
                _ => vstd::pervasive::unreached(),
            },
            EventKind::Note => match &self.data {
                EventData::Note(n) => EventWithData::Note(*n),
                _ => vstd::pervasive::unreached(),
            },
            EventKind::Noteon => match &self.data {
                EventData::Note(n) => EventWithData::NoteOn(*n),
                _ => vstd::pervasive::unreached(),
            },
            EventKind::Noteoff => match &self.data {
                EventData::Note(n) => EventWithData::NoteOff(*n),
                _ => vstd::pervasive::unreached(),
            },
            EventKind::Keypress => match &self.data {
                EventData::Note(n) => EventWithData::KeyPress(*n),
                _ => vstd::pervasive::unreached(),
            },
            EventKind::Controller => match &self.data {
                EventData::Control(c) => EventWithData::Controller(*c),
                _ => vstd::pervasive::unreached(),
            },
            EventKind::Pgmchange => match &self.data {
                EventData::Control(c) => EventWithData::Pgmchange(*c),
                _ => vstd::pervasive::unreached(),
            },
            EventKind::Chanpress => match &self.data {
                EventData::Control(c) => EventWithData::Chanpress(*c),
                _ => vstd::pervasive::unreached(),
            },
            EventKind::Pitchbend => match &self.data {
                EventData::Control(c) => EventWithData::Pitchbend(*c),
                _ => vstd::pervasive::unreached(),
            },
            EventKind::Control14 => match &self.data {
                EventData::Control(c) => EventWithData::Control14(*c),
                _ => vstd::pervasive::unreached(),
            },
            EventKind::Nonregparam => match &self.data {
                EventData::Control(c) => EventWithData::Nonregparam(*c),
                _ => vstd::pervasive::unreached(),
            },
            EventKind::Regparam => match &self.data {
                EventData::Control(c) => EventWithData::Regparam(*c),
                _ => vstd::pervasive::unreached(),
            },
            EventKind::Songpos => match &self.data {
                EventData::Control(c) => EventWithData::Songpos(*c),
                _ => vstd::pervasive::unreached(),
            },
            EventKind::Songsel => match &self.data {
                EventData::Control(c) => EventWithData::Songsel(*c),
                _ => vstd::pervasive::unreached(),
            },
            EventKind::Qframe => match &self.data {
                EventData::Control(c) => EventWithData::Qframe(*c),
                _ => vstd::pervasive::unreached(),
            },
            EventKind::Timesign => match &self.data {
                EventData::Control(c) => EventWithData::Timesign(*c),
                _ => vstd::pervasive::unreached(),
            },
            EventKind::Keysign => match &self.data {
                EventData::Control(c) => EventWithData::Keysign(*c),
                _ => vstd::pervasive::unreached(),
            },
            EventKind::Start => match &self.data {
                EventData::QueueControl { queue, .. } => EventWithData::Start(*queue),
                _ => vstd::pervasive::unreached(),
            },
            EventKind::Continue => match &self.data {
                EventData::QueueControl { queue, .. } => EventWithData::Continue(*queue),
                _ => vstd::pervasive::unreached(),
            },
            EventKind::Stop => match &self.data {
                EventData::QueueControl { queue, .. } => EventWithData::Stop(*queue),
                _ => vstd::pervasive::unreached(),
            },
            EventKind::SetposTick => match &self.data {
                EventData::QueueControl { queue, data: QueueControlEventData::Position(p) } => {
                    EventWithData::SetposTick { queue: *queue, position: *p }
                },
                _ => vstd::pervasive::unreached(),
            },
            EventKind::SetposTime => match &self.data {
                EventData::QueueControl { queue, data: QueueControlEventData::Time(rt) } => {
                    EventWithData::SetposTime { queue: *queue, position: *rt }
                },
                _ => vstd::pervasive::unreached(),
            },
            EventKind::Tempo => match &self.data {
                EventData::QueueControl { queue, data: QueueControlEventData::Value(v) } => {
                    EventWithData::Tempo { queue: *queue, value: *v }
                },
                _ => vstd::pervasive::unreached(),
            },
            EventKind::Clock => match &self.data {
                EventData::QueueControl { queue, .. } => EventWithData::Clock(*queue),
                _ => vstd::pervasive::unreached(),
            },
            EventKind::Tick => match &self.data {
                EventData::QueueControl { queue, data: QueueControlEventData::Position(p) } => {
                    EventWithData::Tick { queue: *queue, position: *p }
                },
                _ => vstd::pervasive::unreached(),
            },
            EventKind::QueueSkew => match &self.data {
                EventData::QueueControl { queue, data: QueueControlEventData::Skew(s) } => {
                    EventWithData::QueueSkew { queue: *queue, skew: *s }
                },
                _ => vstd::pervasive::unreached(),
            },
            EventKind::SyncPos => match &self.data {
                EventData::QueueControl { queue, data: QueueControlEventData::Position(p) } => {
                    EventWithData::SyncPos { queue: *queue, position: *p }
                },
                _ => vstd::pervasive::unreached(),
            },
            EventKind::TuneRequest => EventWithData::TuneRequest,
            EventKind::Reset => EventWithData::Reset,
            EventKind::Sensing => EventWithData::Sensing,
            EventKind::Echo => match &self.data {
                EventData::Raw8(a) => EventWithData::Echo(*a),
                _ => vstd::pervasive::unreached(),
            },
            EventKind::Oss => match &self.data {
                EventData::Raw8(a) => EventWithData::Oss(*a),
                _ => vstd::pervasive::unreached(),
            },
            EventKind::ClientStart => match &self.data {
                EventData::Addr(a) => EventWithData::ClientStart(*a),
                _ => vstd::pervasive::unreached(),
            },
            EventKind::ClientExit => match &self.data {
                EventData::Addr(a) => EventWithData::ClientExit(*a),
                _ => vstd::pervasive::unreached(),
            },
            EventKind::ClientChange => match &self.data {
                EventData::Addr(a) => EventWithData::ClientChange(*a),
                _ => vstd::pervasive::unreached(),
            },
            EventKind::PortStart => match &self.data {
                EventData::Addr(a) => EventWithData::PortStart(*a),
                _ => vstd::pervasive::unreached(),
            },
            EventKind::PortExit => match &self.data {
                EventData::Addr(a) => EventWithData::PortExit(*a),
                _ => vstd::pervasive::unreached(),
            },
            EventKind::PortChange => match &self.data {
                EventData::Addr(a) => EventWithData::PortChange(*a),
                _ => vstd::pervasive::unreached(),
            },
            EventKind::PortSubscribed => match &self.data {
                EventData::Connect(c) => EventWithData::PortSubscribed(*c),
                _ => vstd::pervasive::unreached(),
            },
            EventKind::PortUnsubscribed => match &self.data {
                EventData::Connect(c) => EventWithData::PortUnsubscribed(*c),
                _ => vstd::pervasive::unreached(),
            },
            EventKind::Usr0 => match &self.data {
                EventData::Raw8(a) => EventWithData::Usr0(*a),
                _ => vstd::pervasive::unreached(),
            },
            EventKind::Usr1 => match &self.data {
                EventData::Raw8(a) => EventWithData::Usr1(*a),
                _ => vstd::pervasive::unreached(),
            },
            EventKind::Usr2 => match &self.data {
                EventData::Raw8(a) => EventWithData::Usr2(*a),
                _ => vstd::pervasive::unreached(),
            },
            EventKind::Usr3 => match &self.data {
                EventData::Raw8(a) => EventWithData::Usr3(*a),
                _ => vstd::pervasive::unreached(),
            },
            EventKind::Usr4 => match &self.data {
                EventData::Raw8(a) => EventWithData::Usr4(*a),
                _ => vstd::pervasive::unreached(),
            },
            EventKind::Usr5 => match &self.data {
                EventData::Raw8(a) => EventWithData::Usr5(*a),
                _ => vstd::pervasive::unreached(),
            },
            EventKind::Usr6 => match &self.data {
                EventData::Raw8(a) => EventWithData::Usr6(*a),
                _ => vstd::pervasive::unreached(),
            },
            EventKind::Usr7 => match &self.data {
                EventData::Raw8(a) => EventWithData::Usr7(*a),
                _ => vstd::pervasive::unreached(),
            },
            EventKind::Usr8 => match &self.data {
                EventData::Raw8(a) => EventWithData::Usr8(*a),
                _ => vstd::pervasive::unreached(),
            },
            EventKind::Usr9 => match &self.data {
                EventData::Raw8(a) => EventWithData::Usr9(*a),
                _ => vstd::pervasive::unreached(),
            },
            EventKind::Sysex => match &self.data {
                EventData::Ext(p) => EventWithData::Sysex(copy_bytes(p)),
                _ => vstd::pervasive::unreached(),
            },
            EventKind::Bounce => match &self.data {
                EventData::Ext(p) => EventWithData::Bounce(copy_bytes(p)),
                _ => vstd::pervasive::unreached(),
            },
            EventKind::UsrVar0 => match &self.data {
                EventData::Ext(p) => EventWithData::UsrVar0(copy_bytes(p)),
                _ => vstd::pervasive::unreached(),
            },
            EventKind::UsrVar1 => match &self.data {
                EventData::Ext(p) => EventWithData::UsrVar1(copy_bytes(p)),
                _ => vstd::pervasive::unreached(),
            },
            EventKind::UsrVar2 => match &self.data {
                EventData::Ext(p) => EventWithData::UsrVar2(copy_bytes(p)),
                _ => vstd::pervasive::unreached(),
            },
            EventKind::UsrVar3 => match &self.data {
                EventData::Ext(p) => EventWithData::UsrVar3(copy_bytes(p)),
                _ => vstd::pervasive::unreached(),
            },
            EventKind::UsrVar4 => match &self.data {
                EventData::Ext(p) => EventWithData::UsrVar4(copy_bytes(p)),
                _ => vstd::pervasive::unreached(),
            },
            EventKind::Nop => EventWithData::Nop,
        }
    }
}

/// A blank event of any kind is well-formed.
pub proof fn lemma_default_is_wf(e: Event, kind: EventKind)
    requires
        e.is_default(kind),
    ensures
        e.wf(),
{
}

} // verus!
