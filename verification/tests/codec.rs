use ralsa_seq::codec::CELL_SIZE;
use ralsa_seq::codec::ProtocolError;
use ralsa_seq::event::{
    Addr, EvCtrl, EvNote, EventData, EventTime, QueueControlEventData, QueueId, RealTime,
    ADDRESS_SUBSCRIBERS, ADDRESS_UNKNOWN, QUEUE_DIRECT,
};
use ralsa_seq::event::EventWithData;
use ralsa_seq::flags::EventFlags;
use ralsa_seq::{Event, EventKind};

/// A blank record of the given type byte: 28 zero bytes with the type set.
fn blank_record(type_byte: u8) -> Vec<u8> {
    let mut b = vec![0u8; CELL_SIZE];
    b[0] = type_byte;
    b
}

fn put_word(b: &mut [u8], at: usize, v: u32) {
    b[at..at + 4].copy_from_slice(&v.to_le_bytes());
}

fn all_kinds() -> Vec<EventKind> {
    (0..=255u8)
        .map(EventKind::from_code)
        .filter(|k| *k != EventKind::Nop)
        .chain([EventKind::Nop])
        .collect()
}

#[test]
fn codec_default_record_byte_image() {
    let e = Event::new(EventKind::Noteon);
    let b = e.to_bytes();
    assert_eq!(b.len(), CELL_SIZE);
    assert_eq!(b[0], 6); // type
    assert_eq!(b[1], 0); // flags
    assert_eq!(b[2], 0); // tag
    assert_eq!(b[3], QUEUE_DIRECT);
    assert_eq!(&b[4..12], &[0u8; 8]); // timestamp
    assert_eq!(&b[12..14], &[0, 0]); // source
    assert_eq!(&b[14..16], &[ADDRESS_SUBSCRIBERS, ADDRESS_UNKNOWN]); // dest
    assert_eq!(&b[16..28], &[0u8; 12]); // payload
}

#[test]
fn codec_round_trip_all_fixed_kinds() {
    // Encoding a blank event of any fixed-payload kind and decoding the
    // image reproduces the kind, the default addressing and a zeroed
    // payload.
    for kind in all_kinds() {
        if kind.is_extension() {
            continue;
        }
        let e = Event::new(kind);
        let b = e.to_bytes();
        let d = Event::decode(&b).expect("fixed record must decode");
        assert_eq!(*d.kind(), kind);
        assert_eq!(d.queue(), QueueId(QUEUE_DIRECT));
        assert_eq!(
            *d.destination(),
            Addr { client: ADDRESS_SUBSCRIBERS, port: ADDRESS_UNKNOWN }
        );
        assert_eq!(*d.source(), Addr { client: 0, port: 0 });
        assert_eq!(d.tag(), 0);
        assert_eq!(*d.data(), *e.data());
        assert_eq!(d.time(), EventTime::Time(RealTime { tv_sec: 0, tv_nsec: 0 }));
    }
}

#[test]
fn codec_round_trip_extension_kinds_with_payload() {
    for kind in [
        EventKind::Sysex,
        EventKind::Bounce,
        EventKind::UsrVar0,
        EventKind::UsrVar4,
    ] {
        let payload: Vec<u8> = (0..40u8).collect();
        let mut e = Event::new(kind);
        e.data = EventData::Ext(payload.clone());
        let mut b = e.to_bytes();
        assert_eq!(&b[16..20], &40u32.to_le_bytes()); // declared length
        b.extend_from_slice(&payload);
        let d = Event::decode(&b).expect("extension record must decode");
        assert_eq!(*d.kind(), kind);
        match d.data() {
            EventData::Ext(p) => assert_eq!(*p, payload),
            other => panic!("wrong payload arm: {:?}", other),
        }
    }
}

#[test]
fn codec_round_trip_note_fields() {
    let mut e = Event::new(EventKind::Noteon);
    e.data = EventData::Note(EvNote {
        channel: 3,
        note: 64,
        velocity: 127,
        off_velocity: 9,
        duration: 0x0102_0304,
    });
    e.tag = -5;
    e.source = Addr { client: 128, port: 1 };
    let b = e.to_bytes();
    let d = Event::decode(&b).unwrap();
    assert_eq!(d.tag(), -5);
    assert_eq!(*d.source(), Addr { client: 128, port: 1 });
    assert_eq!(*d.data(), *e.data());
}

#[test]
fn codec_round_trip_negative_control_value() {
    let mut e = Event::new(EventKind::Pitchbend);
    e.data = EventData::Control(EvCtrl { channel: 0, param: 0, value: -8192 });
    let b = e.to_bytes();
    let d = Event::decode(&b).unwrap();
    match d.data() {
        EventData::Control(c) => assert_eq!(c.value, -8192),
        other => panic!("wrong payload arm: {:?}", other),
    }
}

#[test]
fn codec_round_trip_tempo_value() {
    let mut e = Event::new(EventKind::Tempo);
    e.data = EventData::QueueControl {
        queue: QueueId(2),
        data: QueueControlEventData::Value(500_000),
    };
    let b = e.to_bytes();
    let d = Event::decode(&b).unwrap();
    assert_eq!(*d.data(), *e.data());
    match d.event_with_data() {
        EventWithData::Tempo { queue, value } => {
            assert_eq!(queue, QueueId(2));
            assert_eq!(value, 500_000);
        }
        other => panic!("wrong view: {:?}", other),
    }
}

#[test]
fn codec_sentinel_destination_round_trips() {
    // The sentinel destination {SUBSCRIBERS, UNKNOWN} survives the wire
    // exactly; it is not reinterpreted as a real address.
    let e = Event::new(EventKind::Noteon);
    assert_eq!(
        *e.destination(),
        Addr { client: ADDRESS_SUBSCRIBERS, port: ADDRESS_UNKNOWN }
    );
    let b = e.to_bytes();
    let d = Event::decode(&b).unwrap();
    assert_eq!(d.destination().client, ADDRESS_SUBSCRIBERS);
    assert_eq!(d.destination().port, ADDRESS_UNKNOWN);
}

#[test]
fn codec_decode_never_fails_on_any_type_byte() {
    // For every possible type byte, a whole-record slice decodes without
    // a panic; unknown codes come back as the terminal kind with no
    // payload.
    for v in 0..=255u8 {
        let b = blank_record(v);
        let d = Event::decode(&b).expect("a blank record always decodes");
        if EventKind::from_code(v) == EventKind::Nop {
            assert_eq!(*d.kind(), EventKind::Nop);
            assert_eq!(*d.data(), EventData::Empty);
        }
    }
}

#[test]
fn codec_time_real_decodes_seconds_and_nanoseconds() {
    // Tick-unit bit clear: the timestamp is {seconds, nanoseconds}.
    let mut b = blank_record(40); // tune request, no payload
    b[1] = 0; // flags: tick-unit bit clear
    put_word(&mut b, 4, 5); // seconds
    put_word(&mut b, 8, 250_000_000); // nanoseconds
    let d = Event::decode(&b).unwrap();
    match d.time() {
        EventTime::Time(rt) => {
            assert_eq!(rt.tv_sec, 5);
            assert_eq!(rt.tv_nsec, 250_000_000);
            let seconds = rt.tv_sec as f64 + rt.tv_nsec as f64 / 1_000_000_000.0;
            assert_eq!(seconds, 5.25);
        }
        other => panic!("wrong time arm: {:?}", other),
    }
}

#[test]
fn codec_time_tick_decodes_tick_count() {
    // Tick-unit bit set: the timestamp is a plain tick counter.
    let mut b = blank_record(40);
    b[1] = 1; // flags: tick-unit bit set
    put_word(&mut b, 4, 1200);
    let d = Event::decode(&b).unwrap();
    assert_eq!(d.time(), EventTime::Tick(1200));
}

#[test]
fn codec_extension_length_within_slice_decodes_exactly() {
    // A declared length L with L trailing bytes present gives a payload
    // of exactly L bytes.
    let mut b = blank_record(130); // sysex
    let l = CELL_SIZE + 10;
    put_word(&mut b, 16, l as u32);
    for i in 0..l {
        b.push(i as u8);
    }
    let d = Event::decode(&b).unwrap();
    match d.data() {
        EventData::Ext(p) => {
            assert_eq!(p.len(), l);
            for i in 0..l {
                assert_eq!(p[i], i as u8);
            }
        }
        other => panic!("wrong payload arm: {:?}", other),
    }
}

#[test]
fn codec_extension_length_beyond_slice_is_an_error() {
    // A declared length that exceeds the trailing bytes is a protocol
    // error, not a truncation and not a panic.
    let mut b = blank_record(131); // bounce
    put_word(&mut b, 16, 1);
    assert_eq!(Event::decode(&b), Err(ProtocolError::ExtensionLength));

    let mut c = blank_record(130);
    put_word(&mut c, 16, 11);
    c.extend_from_slice(&[0u8; 10]);
    assert_eq!(Event::decode(&c), Err(ProtocolError::ExtensionLength));
}

#[test]
fn codec_flags_accessors_follow_bit_positions() {
    let f = EventFlags(0b1_0101);
    assert!(f.is_time_tick());
    assert!(!f.is_time_real());
    assert!(f.is_time_absolute());
    assert!(!f.is_time_relative());
    assert!(f.is_lenght_variable());
    assert!(!f.is_lenght_fixed());
    assert!(f.is_priority_high());

    let g = EventFlags(0b0_1010);
    assert!(!g.is_time_tick());
    assert!(g.is_time_real());
    assert!(g.is_time_relative());
    assert!(g.is_lenght_varusr());
    assert!(!g.is_priority_high());

    let zero = EventFlags(0);
    assert!(zero.is_lenght_fixed());
    assert!(zero.is_time_absolute());
    assert!(!zero.is_priority_high());
}

#[test]
fn codec_event_with_data_views_match_kind() {
    let noteon = Event::new(EventKind::Noteon);
    assert!(matches!(noteon.event_with_data(), EventWithData::NoteOn(_)));

    let mut start = Event::new(EventKind::Start);
    start.data = EventData::QueueControl {
        queue: QueueId(7),
        data: QueueControlEventData::Empty,
    };
    assert_eq!(start.event_with_data(), EventWithData::Start(QueueId(7)));

    let nop = Event::new(EventKind::Nop);
    assert_eq!(nop.event_with_data(), EventWithData::Nop);

    let mut sysex = Event::new(EventKind::Sysex);
    sysex.data = EventData::Ext(vec![0xf0, 0x7e, 0xf7]);
    match sysex.event_with_data() {
        EventWithData::Sysex(p) => assert_eq!(p, vec![0xf0, 0x7e, 0xf7]),
        other => panic!("wrong view: {:?}", other),
    }
}

#[test]
fn codec_queue_is_direct_only_for_sentinel() {
    assert!(QueueId(QUEUE_DIRECT).is_direct());
    assert!(!QueueId(0).is_direct());
    assert!(!QueueId(252).is_direct());
}

#[test]
fn codec_round_trip_extension_with_empty_payload() {
    // A blank extension event declares length zero; its record alone
    // round-trips to an empty payload.
    let e = Event::new(EventKind::Sysex);
    let b = e.to_bytes();
    let d = Event::decode(&b).unwrap();
    assert_eq!(*d.kind(), EventKind::Sysex);
    assert_eq!(*d.data(), EventData::Ext(Vec::new()));
}
