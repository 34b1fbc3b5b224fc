//! Wire codec for the fixed event record.
//!
//! A record is `CELL_SIZE` bytes: type, flags, tag and queue bytes, the
//! eight-byte timestamp, source and destination addresses, and the twelve
//! payload bytes whose interpretation the type byte fixes.  Multi-byte
//! fields are little-endian, the byte order of the machine the device
//! shares with this process.  For extension kinds the payload bytes live
//! immediately after the record; the record itself only carries their
//! length.

use vstd::prelude::*;

use crate::event::{
    Addr, Connect, EvCtrl, EvNote, EvResult, Event, EventData, EventTime, QueueControlEventData,
    QueueId, QueueSkew, RealTime, data_matches, ext_len_of, zero_bytes,
};
use crate::flags::EventFlags;
use crate::kind::{is_ext_kind, kind_code, kind_from_code, EventKind};

verus! {

/// Size in bytes of the fixed event record, and the granularity (one
/// "cell") at which the device delivers and the consumer advances.
pub const CELL_SIZE: usize = 28;

/// A protocol-consistency violation found while carving events out of a
/// byte stream.  These are reported, never panicked on: the producer is
/// the kernel and a malformed sequence must surface to the caller.
#[derive(Debug, Copy, Clone, PartialEq, Eq, Structural)]
pub enum ProtocolError {
    /// An extension record declares more payload bytes than the slice
    /// handed to the decoder still holds after the fixed record.
    ExtensionLength,
    /// An extension record claims more whole cells than the filled region
    /// of the input buffer still holds.
    ExtensionCells,
}

/// The little-endian 32-bit word at offset `i`.
pub open spec fn le_word_at(b: Seq<u8>, i: int) -> u32
    recommends
        0 <= i,
        i + 4 <= b.len(),
{
    (b[i] + b[i + 1] * 0x100 + b[i + 2] * 0x10000 + b[i + 3] * 0x1000000) as u32
}

/// Byte `j` of the little-endian encoding of `v`.
pub open spec fn word_le_byte(v: u32, j: int) -> u8
    recommends
        0 <= j < 4,
{
    if j == 0 {
        (v as int % 0x100) as u8
    } else if j == 1 {
        (v as int / 0x100 % 0x100) as u8
    } else if j == 2 {
        (v as int / 0x10000 % 0x100) as u8
    } else {
        (v as int / 0x1000000) as u8
    }
}

/// The four little-endian bytes of `v`.
pub open spec fn word_bytes(v: u32) -> Seq<u8> {
    seq![word_le_byte(v, 0), word_le_byte(v, 1), word_le_byte(v, 2), word_le_byte(v, 3)]
}

/// The unsigned word that carries a signed 32-bit value in two's
/// complement.
pub open spec fn word_of_value(v: i32) -> u32 {
    if v >= 0 {
        v as u32
    } else {
        (v + 0x1_0000_0000) as u32
    }
}

/// The signed 32-bit value a two's-complement word carries.
pub open spec fn value_of_word(w: u32) -> i32 {
    if w < 0x8000_0000 {
        w as i32
    } else {
        (w - 0x1_0000_0000) as i32
    }
}

/// The byte that carries the signed tag.
pub open spec fn tag_byte(t: i8) -> u8 {
    if t >= 0 {
        t as u8
    } else {
        (t + 0x100) as u8
    }
}

/// The signed tag a byte carries.
pub open spec fn tag_of_byte(b: u8) -> i8 {
    if b < 0x80 {
        b as i8
    } else {
        (b - 0x100) as i8
    }
}

/// The eight timestamp bytes of the record (offsets 4..12).
pub open spec fn time_bytes(t: EventTime) -> Seq<u8> {
    match t {
        EventTime::Tick(v) => word_bytes(v) + word_bytes(0),
        EventTime::Time(rt) => word_bytes(rt.tv_sec) + word_bytes(rt.tv_nsec),
    }
}

/// The eight parameter bytes of a queue-control payload (offsets 20..28).
pub open spec fn queue_param_bytes(q: QueueControlEventData) -> Seq<u8> {
    match q {
        QueueControlEventData::Value(v) => word_bytes(word_of_value(v)) + word_bytes(0),
        QueueControlEventData::Position(p) => word_bytes(p) + word_bytes(0),
        QueueControlEventData::Time(rt) => word_bytes(rt.tv_sec) + word_bytes(rt.tv_nsec),
        QueueControlEventData::Skew(s) => word_bytes(s.value) + word_bytes(s.base),
        QueueControlEventData::Empty => word_bytes(0) + word_bytes(0),
    }
}

/// The twelve payload bytes of the record (offsets 16..28).
pub open spec fn data_bytes(d: EventData) -> Seq<u8> {
    match d {
        EventData::Result(r) => {
            word_bytes(word_of_value(r.event)) + word_bytes(word_of_value(r.result)) + word_bytes(0)
        },
        EventData::Note(n) => {
            seq![n.channel, n.note, n.velocity, n.off_velocity] + word_bytes(n.duration)
                + word_bytes(0)
        },
        EventData::Control(c) => {
            seq![c.channel, 0u8, 0u8, 0u8] + word_bytes(c.param) + word_bytes(word_of_value(c.value))
        },
        EventData::QueueControl { queue, data } => {
            seq![queue.0, 0u8, 0u8, 0u8] + queue_param_bytes(data)
        },
        EventData::Addr(a) => seq![a.client, a.port] + zero_bytes(10),
        EventData::Connect(c) => {
            seq![c.sender.client, c.sender.port, c.dest.client, c.dest.port] + zero_bytes(8)
        },
        EventData::Raw8(a) => a@,
        EventData::Ext(p) => word_bytes(p@.len() as u32) + zero_bytes(8),
        EventData::Empty => zero_bytes(12),
    }
}

/// The full fixed record of an event, `CELL_SIZE` bytes.
pub open spec fn wire_header(e: Event) -> Seq<u8> {
    seq![kind_code(e.kind), e.flags.0, tag_byte(e.tag), e.queue.0] + time_bytes(e.time)
        + seq![e.source.client, e.source.port, e.dest.client, e.dest.port] + data_bytes(e.data)
}

/// The variable payload that follows the record; empty for fixed kinds.
pub open spec fn ext_payload(e: Event) -> Seq<u8> {
    match e.data {
        EventData::Ext(p) => p@,
        _ => Seq::empty(),
    }
}

/// The complete wire image of an event: the record, then the payload.
pub open spec fn full_wire(e: Event) -> Seq<u8> {
    wire_header(e) + ext_payload(e)
}

/// The timestamp a record's bytes carry, interpreted per its flags byte.
pub open spec fn wire_time(b: Seq<u8>) -> EventTime {
    if EventFlags(b[1]).spec_is_time_tick() {
        EventTime::Tick(le_word_at(b, 4))
    } else {
        EventTime::Time(RealTime { tv_sec: le_word_at(b, 4), tv_nsec: le_word_at(b, 8) })
    }
}

/// Whether an extension record's declared length exceeds the bytes the
/// slice still holds after the fixed record.
pub open spec fn ext_overrun(b: Seq<u8>) -> bool {
    is_ext_kind(kind_from_code(b[0])) && le_word_at(b, 16) > b.len() - CELL_SIZE
}

/// Whether `d` is the payload that the record's bytes carry for kind `k`.
pub open spec fn wire_data_ok(b: Seq<u8>, k: EventKind, d: EventData) -> bool {
    match k {
        EventKind::System | EventKind::Result => {
            d == EventData::Result(
                EvResult {
                    event: value_of_word(le_word_at(b, 16)),
                    result: value_of_word(le_word_at(b, 20)),
                },
            )
        },
        EventKind::Note | EventKind::Noteon | EventKind::Noteoff | EventKind::Keypress => {
            d == EventData::Note(
                EvNote {
                    channel: b[16],
                    note: b[17],
                    velocity: b[18],
                    off_velocity: b[19],
                    duration: le_word_at(b, 20),
                },
            )
        },
        EventKind::Controller
        | EventKind::Pgmchange
        | EventKind::Chanpress
        | EventKind::Pitchbend
        | EventKind::Control14
        | EventKind::Nonregparam
        | EventKind::Regparam
        | EventKind::Songpos
        | EventKind::Songsel
        | EventKind::Qframe
        | EventKind::Timesign
        | EventKind::Keysign => {
            d == EventData::Control(
                EvCtrl {
                    channel: b[16],
                    param: le_word_at(b, 20),
                    value: value_of_word(le_word_at(b, 24)),
                },
            )
        },
        EventKind::SyncPos | EventKind::Tick | EventKind::SetposTick => {
            d == (EventData::QueueControl {
                queue: QueueId(b[16]),
                data: QueueControlEventData::Position(le_word_at(b, 20)),
            })
        },
        EventKind::SetposTime => {
            d == (EventData::QueueControl {
                queue: QueueId(b[16]),
                data: QueueControlEventData::Time(
                    RealTime { tv_sec: le_word_at(b, 20), tv_nsec: le_word_at(b, 24) },
                ),
            })
        },
        EventKind::Tempo => {
            d == (EventData::QueueControl {
                queue: QueueId(b[16]),
                data: QueueControlEventData::Value(value_of_word(le_word_at(b, 20))),
            })
        },
        EventKind::QueueSkew => {
            d == (EventData::QueueControl {
                queue: QueueId(b[16]),
                data: QueueControlEventData::Skew(
                    QueueSkew { value: le_word_at(b, 20), base: le_word_at(b, 24) },
                ),
            })
        },
        EventKind::Start | EventKind::Continue | EventKind::Stop | EventKind::Clock => {
            d == (EventData::QueueControl {
                queue: QueueId(b[16]),
                data: QueueControlEventData::Empty,
            })
        },
        EventKind::TuneRequest | EventKind::Reset | EventKind::Sensing | EventKind::Nop => {
            d == EventData::Empty
        },
        EventKind::ClientStart
        | EventKind::ClientExit
        | EventKind::ClientChange
        | EventKind::PortStart
        | EventKind::PortExit
        | EventKind::PortChange => {
            d == EventData::Addr(Addr { client: b[16], port: b[17] })
        },
        EventKind::PortSubscribed | EventKind::PortUnsubscribed => {
            d == EventData::Connect(
                Connect {
                    sender: Addr { client: b[16], port: b[17] },
                    dest: Addr { client: b[18], port: b[19] },
                },
            )
        },
        EventKind::Echo
        | EventKind::Oss
        | EventKind::Usr0
        | EventKind::Usr1
        | EventKind::Usr2
        | EventKind::Usr3
        | EventKind::Usr4
        | EventKind::Usr5
        | EventKind::Usr6
        | EventKind::Usr7
        | EventKind::Usr8
        | EventKind::Usr9 => {
            d matches EventData::Raw8(a) && a@ == b.subrange(16, CELL_SIZE as int)
        },
        EventKind::Sysex
        | EventKind::Bounce
        | EventKind::UsrVar0
        | EventKind::UsrVar1
        | EventKind::UsrVar2
        | EventKind::UsrVar3
        | EventKind::UsrVar4 => {
            d matches EventData::Ext(p) && p@ == b.subrange(
                CELL_SIZE as int,
                CELL_SIZE + le_word_at(b, 16),
            )
        },
    }
}

/// Whether `e` is exactly the event the bytes `b` describe.
pub open spec fn decode_ok(b: Seq<u8>, e: Event) -> bool {
    &&& e.kind == kind_from_code(b[0])
    &&& e.flags == EventFlags(b[1])
    &&& e.tag == tag_of_byte(b[2])
    &&& e.queue == QueueId(b[3])
    &&& e.time == wire_time(b)
    &&& e.source == (Addr { client: b[12], port: b[13] })
    &&& e.dest == (Addr { client: b[14], port: b[15] })
    &&& wire_data_ok(b, e.kind, e.data)
}

/// Read the little-endian word at offset `i`.
fn read_word(bytes: &[u8], i: usize) -> (r: u32)
    requires
        i + 4 <= bytes@.len(),
    ensures
        r == le_word_at(bytes@, i as int),
{
    bytes[i] as u32 + bytes[i + 1] as u32 * 0x100 + bytes[i + 2] as u32 * 0x10000 + bytes[i
        + 3] as u32 * 0x1000000
}

/// Turn a two's-complement word into the signed value it carries.
fn word_to_value(w: u32) -> (r: i32)
    ensures
        r == value_of_word(w),
{
    if w < 0x8000_0000 {
        w as i32
    } else {
        ((w as i64) - 0x1_0000_0000i64) as i32
    }
}

/// Turn a signed value into its two's-complement word.
fn value_to_word(v: i32) -> (r: u32)
    ensures
        r == word_of_value(v),
{
    if v >= 0 {
        v as u32
    } else {
        ((v as i64) + 0x1_0000_0000i64) as u32
    }
}

/// Turn a tag byte into the signed tag.
fn byte_to_tag(b: u8) -> (r: i8)
    ensures
        r == tag_of_byte(b),
{
    if b < 0x80 {
        b as i8
    } else {
        ((b as i16) - 0x100i16) as i8
    }
}

/// Turn a signed tag into its wire byte.
fn tag_to_byte(t: i8) -> (r: u8)
    ensures
        r == tag_byte(t),
{
    if t >= 0 {
        t as u8
    } else {
        ((t as i16) + 0x100i16) as u8
    }
}

/// Append the four little-endian bytes of `w`.
fn push_word(out: &mut Vec<u8>, w: u32)
    ensures
        final(out)@ == old(out)@ + word_bytes(w),
{
    out.push((w % 0x100) as u8);
    out.push((w / 0x100 % 0x100) as u8);
    out.push((w / 0x10000 % 0x100) as u8);
    out.push((w / 0x1000000) as u8);
    proof {
        assert(out@ =~= old(out)@ + word_bytes(w));
    }
}

impl Event {
    /// Decode the record at the head of `bytes`, taking an extension
    /// payload from the bytes that follow it.  Never panics: unknown type
    /// bytes resolve to the terminal kind, and a declared extension length
    /// that exceeds the slice is reported as a protocol error.
    pub fn decode(bytes: &[u8]) -> (r: Result<Event, ProtocolError>)
        requires
            bytes@.len() >= CELL_SIZE,
        ensures
            match r {
                Ok(e) => !ext_overrun(bytes@) && decode_ok(bytes@, e) && e.wf(),
                Err(pe) => ext_overrun(bytes@) && pe == ProtocolError::ExtensionLength,
            },
    {
        let kind = EventKind::from_code(bytes[0]);
        let flags = EventFlags(bytes[1]);
        let tag = byte_to_tag(bytes[2]);
        let queue = QueueId(bytes[3]);
        let time = if flags.is_time_tick() {
            EventTime::Tick(read_word(bytes, 4))
        } else {
            EventTime::Time(RealTime { tv_sec: read_word(bytes, 4), tv_nsec: read_word(bytes, 8) })
        };
        let source = Addr { client: bytes[12], port: bytes[13] };
        let dest = Addr { client: bytes[14], port: bytes[15] };

        let data: EventData = match kind {
            EventKind::System | EventKind::Result => {
                EventData::Result(
                    EvResult {
                        event: word_to_value(read_word(bytes, 16)),
                        result: word_to_value(read_word(bytes, 20)),
                    },
                )
            },
            EventKind::Note | EventKind::Noteon | EventKind::Noteoff | EventKind::Keypress => {
                EventData::Note(
                    EvNote {
                        channel: bytes[16],
                        note: bytes[17],
                        velocity: bytes[18],
                        off_velocity: bytes[19],
                        duration: read_word(bytes, 20),
                    },
                )
            },
            EventKind::Controller
            | EventKind::Pgmchange
            | EventKind::Chanpress
            | EventKind::Pitchbend
            | EventKind::Control14
            | EventKind::Nonregparam
            | EventKind::Regparam
            | EventKind::Songpos
            | EventKind::Songsel
            | EventKind::Qframe
            | EventKind::Timesign
            | EventKind::Keysign => {
                EventData::Control(
                    EvCtrl {
                        channel: bytes[16],
                        param: read_word(bytes, 20),
                        value: word_to_value(read_word(bytes, 24)),
                    },
                )
            },
            EventKind::SyncPos | EventKind::Tick | EventKind::SetposTick => {
                EventData::QueueControl {
                    queue: QueueId(bytes[16]),
                    data: QueueControlEventData::Position(read_word(bytes, 20)),
                }
            },
            EventKind::SetposTime => {
                EventData::QueueControl {
                    queue: QueueId(bytes[16]),
                    data: QueueControlEventData::Time(
                        RealTime { tv_sec: read_word(bytes, 20), tv_nsec: read_word(bytes, 24) },
                    ),
                }
            },
            EventKind::Tempo => {
                EventData::QueueControl {
                    queue: QueueId(bytes[16]),
                    data: QueueControlEventData::Value(word_to_value(read_word(bytes, 20))),
                }
            },
            EventKind::QueueSkew => {
                EventData::QueueControl {
                    queue: QueueId(bytes[16]),
                    data: QueueControlEventData::Skew(
                        QueueSkew { value: read_word(bytes, 20), base: read_word(bytes, 24) },
                    ),
                }
            },
            EventKind::Start | EventKind::Continue | EventKind::Stop | EventKind::Clock => {
                EventData::QueueControl {
                    queue: QueueId(bytes[16]),
                    data: QueueControlEventData::Empty,
                }
            },
            EventKind::TuneRequest | EventKind::Reset | EventKind::Sensing | EventKind::Nop => {
                EventData::Empty
            },
            EventKind::ClientStart
            | EventKind::ClientExit
            | EventKind::ClientChange
            | EventKind::PortStart
            | EventKind::PortExit
            | EventKind::PortChange => {
                EventData::Addr(Addr { client: bytes[16], port: bytes[17] })
            },
            EventKind::PortSubscribed | EventKind::PortUnsubscribed => {
                EventData::Connect(
                    Connect {
                        sender: Addr { client: bytes[16], port: bytes[17] },
                        dest: Addr { client: bytes[18], port: bytes[19] },
                    },
                )
            },
            EventKind::Echo
            | EventKind::Oss
            | EventKind::Usr0
            | EventKind::Usr1
            | EventKind::Usr2
            | EventKind::Usr3
            | EventKind::Usr4
            | EventKind::Usr5
            | EventKind::Usr6
            | EventKind::Usr7
            | EventKind::Usr8
            | EventKind::Usr9 => {
                let raw: [u8; 12] = [
                    bytes[16],
                    bytes[17],
                    bytes[18],
                    bytes[19],
                    bytes[20],
                    bytes[21],
                    bytes[22],
                    bytes[23],
                    bytes[24],
                    bytes[25],
                    bytes[26],
                    bytes[27],
                ];
                proof {
                    assert(raw@ =~= bytes@.subrange(16, CELL_SIZE as int));
                }
                EventData::Raw8(raw)
            },
            EventKind::Sysex
            | EventKind::Bounce
            | EventKind::UsrVar0
            | EventKind::UsrVar1
            | EventKind::UsrVar2
            | EventKind::UsrVar3
            | EventKind::UsrVar4 => {
                let declared = read_word(bytes, 16);
                let len = declared as usize;
                if len > bytes.len() - CELL_SIZE {
                    return Err(ProtocolError::ExtensionLength);
                }
                let mut payload: Vec<u8> = Vec::new();
                let mut j: usize = 0;
                while j < len
                    invariant
                        j <= len,
                        len + CELL_SIZE <= bytes@.len(),
                        bytes@.len() <= usize::MAX,
                        payload@ == bytes@.subrange(CELL_SIZE as int, CELL_SIZE + j),
                    decreases len - j,
                {
                    payload.push(bytes[CELL_SIZE + j]);
                    proof {
                        assert(payload@ =~= bytes@.subrange(CELL_SIZE as int, CELL_SIZE + j + 1));
                    }
                    j += 1;
                }
                EventData::Ext(payload)
            },
        };

        let e = Event { kind, flags, tag, queue, time, source, dest, data };
        Ok(e)
    }

    /// The exact byte image of the fixed record, ready for writing to the
    /// device.  For an extension kind the caller appends the payload bytes
    /// immediately after this image.
    #[verifier::rlimit(60)]
    pub fn to_bytes(&self) -> (r: Vec<u8>)
        requires
            self.wf(),
        ensures
            r@ == wire_header(*self),
            r@.len() == CELL_SIZE,
    {
        let mut out: Vec<u8> = Vec::new();
        out.push(self.kind.code());
        out.push(self.flags.0);
        out.push(tag_to_byte(self.tag));
        out.push(self.queue.0);
        proof {
            assert(out@ =~= seq![
                kind_code(self.kind),
                self.flags.0,
                tag_byte(self.tag),
                self.queue.0,
            ]);
        }
        let ghost head4 = out@;
        match self.time {
            EventTime::Tick(t) => {
                push_word(&mut out, t);
                push_word(&mut out, 0);
                proof {
                    assert(out@ =~= head4 + time_bytes(self.time));
                }
            },
            EventTime::Time(rt) => {
                push_word(&mut out, rt.tv_sec);
                push_word(&mut out, rt.tv_nsec);
                proof {
                    assert(out@ =~= head4 + time_bytes(self.time));
                }
            },
        }
        out.push(self.source.client);
        out.push(self.source.port);
        out.push(self.dest.client);
        out.push(self.dest.port);
        proof {
            assert(out@ =~= head4 + time_bytes(self.time) + seq![
                self.source.client,
                self.source.port,
                self.dest.client,
                self.dest.port,
            ]);
        }
        let ghost head16 = out@;
        match &self.data {
            EventData::Result(r) => {
                push_word(&mut out, value_to_word(r.event));
                push_word(&mut out, value_to_word(r.result));
                push_word(&mut out, 0);
                proof {
                    assert(out@ =~= head16 + data_bytes(self.data));
                }
            },
            EventData::Note(n) => {
                out.push(n.channel);
                out.push(n.note);
                out.push(n.velocity);
                out.push(n.off_velocity);
                push_word(&mut out, n.duration);
                push_word(&mut out, 0);
                proof {
                    assert(out@ =~= head16 + data_bytes(self.data));
                }
            },
            EventData::Control(c) => {
                out.push(c.channel);
                out.push(0);
                out.push(0);
                out.push(0);
                push_word(&mut out, c.param);
                push_word(&mut out, value_to_word(c.value));
                proof {
                    assert(out@ =~= head16 + data_bytes(self.data));
                }
            },
            EventData::QueueControl { queue, data } => {
                out.push(queue.0);
                out.push(0);
                out.push(0);
                out.push(0);
                match data {
                    QueueControlEventData::Value(v) => {
                        push_word(&mut out, value_to_word(*v));
                        push_word(&mut out, 0);
                    },
                    QueueControlEventData::Position(p) => {
                        push_word(&mut out, *p);
                        push_word(&mut out, 0);
                    },
                    QueueControlEventData::Time(rt) => {
                        push_word(&mut out, rt.tv_sec);
                        push_word(&mut out, rt.tv_nsec);
                    },
                    QueueControlEventData::Skew(s) => {
                        push_word(&mut out, s.value);
                        push_word(&mut out, s.base);
                    },
                    QueueControlEventData::Empty => {
                        push_word(&mut out, 0);
                        push_word(&mut out, 0);
                    },
                }
                proof {
                    assert(out@ =~= head16 + data_bytes(self.data));
                }
            },
            EventData::Addr(a) => {
                out.push(a.client);
                out.push(a.port);
                let mut j: usize = 0;
                while j < 10
                    invariant
                        j <= 10,
                        out@ == head16 + seq![a.client, a.port] + zero_bytes(j as int),
                    decreases 10 - j,
                {
                    out.push(0);
                    proof {
                        assert(zero_bytes(j + 1) =~= zero_bytes(j as int) + seq![0u8]);
                    }
                    j += 1;
                }
                proof {
                    assert(out@ =~= head16 + data_bytes(self.data));
                }
            },
            EventData::Connect(c) => {
                out.push(c.sender.client);
                out.push(c.sender.port);
                out.push(c.dest.client);
                out.push(c.dest.port);
                let mut j: usize = 0;
                while j < 8
                    invariant
                        j <= 8,
                        out@ == head16 + seq![
                            c.sender.client,
                            c.sender.port,
                            c.dest.client,
                            c.dest.port,
                        ] + zero_bytes(j as int),
                    decreases 8 - j,
                {
                    out.push(0);
                    proof {
                        assert(zero_bytes(j + 1) =~= zero_bytes(j as int) + seq![0u8]);
                    }
                    j += 1;
                }
                proof {
                    assert(out@ =~= head16 + data_bytes(self.data));
                }
            },
            EventData::Raw8(a) => {
                let mut j: usize = 0;
                while j < 12
                    invariant
                        j <= 12,
                        out@ == head16 + a@.subrange(0, j as int),
                    decreases 12 - j,
                {
                    out.push(a[j]);
                    proof {
                        assert(a@.subrange(0, j + 1) =~= a@.subrange(0, j as int) + seq![a@[j as int]]);
                    }
                    j += 1;
                }
                proof {
                    assert(a@.subrange(0, 12) =~= a@);
                    assert(out@ =~= head16 + data_bytes(self.data));
                }
            },
            EventData::Ext(p) => {
                push_word(&mut out, p.len() as u32);
                let mut j: usize = 0;
                while j < 8
                    invariant
                        j <= 8,
                        out@ == head16 + word_bytes(p@.len() as u32) + zero_bytes(j as int),
                    decreases 8 - j,
                {
                    out.push(0);
                    proof {
                        assert(zero_bytes(j + 1) =~= zero_bytes(j as int) + seq![0u8]);
                    }
                    j += 1;
                }
                proof {
                    assert(out@ =~= head16 + data_bytes(self.data));
                }
            },
            EventData::Empty => {
                let mut j: usize = 0;
                while j < 12
                    invariant
                        j <= 12,
                        out@ == head16 + zero_bytes(j as int),
                    decreases 12 - j,
                {
                    out.push(0);
                    proof {
                        assert(zero_bytes(j + 1) =~= zero_bytes(j as int) + seq![0u8]);
                    }
                    j += 1;
                }
                proof {
                    assert(out@ =~= head16 + data_bytes(self.data));
                }
            },
        }
        proof {
            assert(out@ =~= wire_header(*self));
        }
        out
    }
}

/// The four little-endian bytes of a word recompose to the word.
proof fn lemma_word_recompose(v: u32)
    ensures
        word_le_byte(v, 0) + word_le_byte(v, 1) * 0x100 + word_le_byte(v, 2) * 0x10000
            + word_le_byte(v, 3) * 0x1000000 == v,
{
    let x = v as int;
    vstd::arithmetic::div_mod::lemma_div_denominator(x, 0x100, 0x100);
    vstd::arithmetic::div_mod::lemma_div_denominator(x, 0x10000, 0x100);
    vstd::arithmetic::div_mod::lemma_fundamental_div_mod(x, 0x100);
    vstd::arithmetic::div_mod::lemma_fundamental_div_mod(x / 0x100, 0x100);
    vstd::arithmetic::div_mod::lemma_fundamental_div_mod(x / 0x10000, 0x100);
}

/// Bytes that spell the little-endian encoding of `v` read back as `v`.
proof fn lemma_le_word_at_of(b: Seq<u8>, i: int, v: u32)
    requires
        0 <= i,
        i + 4 <= b.len(),
        b[i] == word_le_byte(v, 0),
        b[i + 1] == word_le_byte(v, 1),
        b[i + 2] == word_le_byte(v, 2),
        b[i + 3] == word_le_byte(v, 3),
    ensures
        le_word_at(b, i) == v,
{
    lemma_word_recompose(v);
}

/// A signed value survives the trip through its two's-complement word.
proof fn lemma_value_round_trip(v: i32)
    ensures
        value_of_word(word_of_value(v)) == v,
{
}

/// A tag survives the trip through its wire byte.
proof fn lemma_tag_round_trip(t: i8)
    ensures
        tag_of_byte(tag_byte(t)) == t,
{
}

/// The byte offsets of the record parts within the encoded header.
proof fn lemma_wire_header_layout(e: Event)
    ensures
        time_bytes(e.time).len() == 8,
        data_bytes(e.data).len() == 12,
        wire_header(e).len() == CELL_SIZE,
        wire_header(e)[0] == kind_code(e.kind),
        wire_header(e)[1] == e.flags.0,
        wire_header(e)[2] == tag_byte(e.tag),
        wire_header(e)[3] == e.queue.0,
        forall|j: int| 0 <= j < 8 ==> wire_header(e)[4 + j] == time_bytes(e.time)[j],
        wire_header(e)[12] == e.source.client,
        wire_header(e)[13] == e.source.port,
        wire_header(e)[14] == e.dest.client,
        wire_header(e)[15] == e.dest.port,
        forall|j: int| 0 <= j < 12 ==> wire_header(e)[16 + j] == data_bytes(e.data)[j],
{
    match e.time {
        EventTime::Tick(t) => {
            assert(time_bytes(e.time).len() == 8);
        },
        EventTime::Time(rt) => {
            assert(time_bytes(e.time).len() == 8);
        },
    }
    match e.data {
        EventData::Result(r) => {
            assert(data_bytes(e.data).len() == 12);
        },
        EventData::Note(n) => {
            assert(data_bytes(e.data).len() == 12);
        },
        EventData::Control(c) => {
            assert(data_bytes(e.data).len() == 12);
        },
        EventData::QueueControl { queue, data } => {
            assert(queue_param_bytes(data).len() == 8);
            assert(data_bytes(e.data).len() == 12);
        },
        EventData::Addr(a) => {
            assert(data_bytes(e.data).len() == 12);
        },
        EventData::Connect(c) => {
            assert(data_bytes(e.data).len() == 12);
        },
        EventData::Raw8(a) => {
            assert(data_bytes(e.data).len() == 12);
        },
        EventData::Ext(p) => {
            assert(data_bytes(e.data).len() == 12);
        },
        EventData::Empty => {
            assert(data_bytes(e.data).len() == 12);
        },
    }
}

/// How one payload compares to another: field equality, with the raw and
/// variable-length arms compared by their byte contents.
pub open spec fn data_like(a: EventData, b: EventData) -> bool {
    match (a, b) {
        (EventData::Ext(p), EventData::Ext(q)) => p@ == q@,
        (EventData::Raw8(x), EventData::Raw8(y)) => x@ == y@,
        _ => a == b,
    }
}

/// The wire image of a well-formed event is at least one record long and
/// its declared extension length never exceeds the bytes present, so
/// decoding it cannot report an error.
pub proof fn lemma_wire_no_overrun(e: Event)
    requires
        e.wf(),
    ensures
        full_wire(e).len() >= CELL_SIZE,
        !ext_overrun(full_wire(e)),
{
    let b = full_wire(e);
    lemma_wire_header_layout(e);
    crate::kind::lemma_code_round_trip(e.kind);
    if is_ext_kind(e.kind) {
        match e.data {
            EventData::Ext(p) => {
                let len32 = p@.len() as u32;
                assert(data_bytes(e.data)[0] == word_le_byte(len32, 0));
                assert(data_bytes(e.data)[1] == word_le_byte(len32, 1));
                assert(data_bytes(e.data)[2] == word_le_byte(len32, 2));
                assert(data_bytes(e.data)[3] == word_le_byte(len32, 3));
                lemma_le_word_at_of(b, 16, len32);
                assert(b.len() == CELL_SIZE + p@.len());
            },
            _ => {
                assert(false);
            },
        }
    }
}

/// Round trip: whatever event the decoder reads back from the wire image
/// of a well-formed event agrees with the original in every field, the
/// payload compared by content.
pub proof fn lemma_wire_round_trip(e: Event, e2: Event)
    requires
        e.wf(),
        decode_ok(full_wire(e), e2),
    ensures
        e2.kind == e.kind,
        e2.flags == e.flags,
        e2.tag == e.tag,
        e2.queue == e.queue,
        e2.time == e.time,
        e2.source == e.source,
        e2.dest == e.dest,
        data_like(e2.data, e.data),
{
    let b = full_wire(e);
    lemma_wire_header_layout(e);
    crate::kind::lemma_code_round_trip(e.kind);
    lemma_tag_round_trip(e.tag);

    // timestamp
    match e.time {
        EventTime::Tick(t) => {
            assert(time_bytes(e.time) == word_bytes(t) + word_bytes(0));
            lemma_le_word_at_of(b, 4, t);
        },
        EventTime::Time(rt) => {
            assert(time_bytes(e.time) == word_bytes(rt.tv_sec) + word_bytes(rt.tv_nsec));
            lemma_le_word_at_of(b, 4, rt.tv_sec);
            lemma_le_word_at_of(b, 8, rt.tv_nsec);
        },
    }

    // payload
    match e.data {
        EventData::Result(r) => {
            lemma_le_word_at_of(b, 16, word_of_value(r.event));
            lemma_le_word_at_of(b, 20, word_of_value(r.result));
            lemma_value_round_trip(r.event);
            lemma_value_round_trip(r.result);
        },
        EventData::Note(n) => {
            lemma_le_word_at_of(b, 20, n.duration);
        },
        EventData::Control(c) => {
            lemma_le_word_at_of(b, 20, c.param);
            lemma_le_word_at_of(b, 24, word_of_value(c.value));
            lemma_value_round_trip(c.value);
        },
        EventData::QueueControl { queue, data } => {
            match data {
                QueueControlEventData::Value(v) => {
                    lemma_le_word_at_of(b, 20, word_of_value(v));
                    lemma_value_round_trip(v);
                },
                QueueControlEventData::Position(p) => {
                    lemma_le_word_at_of(b, 20, p);
                },
                QueueControlEventData::Time(rt) => {
                    lemma_le_word_at_of(b, 20, rt.tv_sec);
                    lemma_le_word_at_of(b, 24, rt.tv_nsec);
                },
                QueueControlEventData::Skew(s) => {
                    lemma_le_word_at_of(b, 20, s.value);
                    lemma_le_word_at_of(b, 24, s.base);
                },
                QueueControlEventData::Empty => {
                },
            }
        },
        EventData::Addr(a) => {
        },
        EventData::Connect(c) => {
        },
        EventData::Raw8(a) => {
            match e2.data {
                EventData::Raw8(a2) => {
                    assert(a2@ =~= a@);
                },
                _ => {
                    assert(false);
                },
            }
        },
        EventData::Ext(p) => {
            let len32 = p@.len() as u32;
            lemma_le_word_at_of(b, 16, len32);
            assert(b.len() == CELL_SIZE + p@.len());
            match e2.data {
                EventData::Ext(p2) => {
                    assert(p2@ =~= p@);
                },
                _ => {
                    assert(false);
                },
            }
        },
        EventData::Empty => {
        },
    }
}

/// A blank event of a fixed-payload kind survives encoding and decoding:
/// the reader gets back the same kind, the default addressing, and a
/// payload whose fields are all zero.
pub proof fn lemma_default_round_trip(kind: EventKind, e: Event, e2: Event)
    requires
        !is_ext_kind(kind),
        e.is_default(kind),
        decode_ok(full_wire(e), e2),
    ensures
        e2.is_default(kind),
{
    crate::event::lemma_default_is_wf(e, kind);
    lemma_wire_round_trip(e, e2);
}

/// The addressing sentinels survive the trip over the wire: an event sent
/// to all subscribers with the unknown-port marker decodes back to those
/// exact sentinel values.
pub proof fn lemma_sentinel_dest_round_trip(e: Event, e2: Event)
    requires
        e.wf(),
        e.dest == (Addr {
            client: crate::event::ADDRESS_SUBSCRIBERS,
            port: crate::event::ADDRESS_UNKNOWN,
        }),
        decode_ok(full_wire(e), e2),
    ensures
        e2.dest.client == crate::event::ADDRESS_SUBSCRIBERS,
        e2.dest.port == crate::event::ADDRESS_UNKNOWN,
{
    lemma_wire_round_trip(e, e2);
}

} // verus!
