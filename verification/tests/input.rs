use ralsa_seq::codec::{ProtocolError, CELL_SIZE};
use ralsa_seq::event::EventData;
use ralsa_seq::input::{cells_for_bytes, SeqInput, SEQ_INPUT_BUF_SIZE};
use ralsa_seq::EventKind;

fn put_word(b: &mut [u8], at: usize, v: u32) {
    b[at..at + 4].copy_from_slice(&v.to_le_bytes());
}

/// One blank cell with the given type byte.
fn cell(type_byte: u8) -> Vec<u8> {
    let mut c = vec![0u8; CELL_SIZE];
    c[0] = type_byte;
    c
}

#[test]
fn input_cells_for_bytes_rounds_up() {
    assert_eq!(cells_for_bytes(0), 0);
    assert_eq!(cells_for_bytes(1), 1);
    assert_eq!(cells_for_bytes(CELL_SIZE - 1), 1);
    assert_eq!(cells_for_bytes(CELL_SIZE), 1);
    assert_eq!(cells_for_bytes(CELL_SIZE + 1), 2);
    assert_eq!(cells_for_bytes(CELL_SIZE + 10), 2);
    assert_eq!(cells_for_bytes(2 * CELL_SIZE), 2);
    assert_eq!(cells_for_bytes(2 * CELL_SIZE + 1), 3);
}

#[test]
fn input_empty_stream_yields_no_event() {
    let mut input = SeqInput::new();
    assert!(!input.has_input_events());
    assert_eq!(input.input_event().unwrap(), None);
}

#[test]
fn input_partial_cell_does_not_count() {
    // A read that delivers less than one whole cell leaves the stream
    // empty.
    let mut input = SeqInput::new();
    input.refill(&vec![0u8; CELL_SIZE - 1]);
    assert!(!input.has_input_events());
    assert_eq!(input.input_event().unwrap(), None);
}

#[test]
fn input_fixed_events_come_back_in_order() {
    let mut buf = cell(6); // note on
    buf.extend_from_slice(&cell(7)); // note off
    buf.extend_from_slice(&cell(42)); // sensing

    let mut input = SeqInput::new();
    input.refill(&buf);
    assert!(input.has_input_events());

    let kinds: [EventKind; 3] = [EventKind::Noteon, EventKind::Noteoff, EventKind::Sensing];
    for expected in kinds {
        let e = input.input_event().unwrap().expect("a cell is available");
        assert_eq!(*e.kind(), expected);
    }
    assert!(!input.has_input_events());
    assert_eq!(input.input_event().unwrap(), None);
}

#[test]
fn input_extension_event_consumes_its_cells() {
    // Buffer: a fixed note-on cell, then an extension event whose
    // declared length of CELL_SIZE + 10 bytes spans two further cells.
    // Exactly two events come out, and a further call reports nothing
    // available without any new read having been issued.
    let l = CELL_SIZE + 10;
    let mut buf = cell(6); // note on
    let mut ext = cell(130); // sysex record
    put_word(&mut ext, 16, l as u32);
    buf.extend_from_slice(&ext);
    let mut payload: Vec<u8> = (0..l as u8).collect();
    payload.resize(2 * CELL_SIZE, 0); // payload cells, tail padding
    buf.extend_from_slice(&payload);
    assert_eq!(buf.len(), 4 * CELL_SIZE);

    let mut input = SeqInput::new();
    input.refill(&buf);

    let first = input.input_event().unwrap().expect("note-on available");
    assert_eq!(*first.kind(), EventKind::Noteon);

    let second = input.input_event().unwrap().expect("sysex available");
    assert_eq!(*second.kind(), EventKind::Sysex);
    match second.data() {
        EventData::Ext(p) => {
            assert_eq!(p.len(), l);
            for i in 0..l {
                assert_eq!(p[i], i as u8);
            }
        }
        other => panic!("wrong payload arm: {:?}", other),
    }

    assert!(!input.has_input_events());
    assert_eq!(input.input_event().unwrap(), None);
}

#[test]
fn input_extension_event_within_three_cells() {
    // A ten-byte extension payload takes one cell after the record: three
    // cells give a fixed event, the extension event, then nothing.
    let mut buf = cell(6);
    let mut ext = cell(135); // user variable record
    put_word(&mut ext, 16, 10);
    buf.extend_from_slice(&ext);
    let mut payload = vec![9u8; 10];
    payload.resize(CELL_SIZE, 0);
    buf.extend_from_slice(&payload);

    let mut input = SeqInput::new();
    input.refill(&buf);

    assert_eq!(*input.input_event().unwrap().unwrap().kind(), EventKind::Noteon);
    let e = input.input_event().unwrap().expect("extension available");
    assert_eq!(*e.kind(), EventKind::UsrVar0);
    match e.data() {
        EventData::Ext(p) => assert_eq!(*p, vec![9u8; 10]),
        other => panic!("wrong payload arm: {:?}", other),
    }
    assert_eq!(input.input_event().unwrap(), None);
}

#[test]
fn input_extension_claiming_too_many_cells_is_an_error() {
    // The extension record declares more payload than the filled region
    // holds: the demultiplexer reports the distinct cell-overrun error
    // and drops the malformed remainder instead of reading past it.
    let mut ext = cell(130);
    put_word(&mut ext, 16, (2 * CELL_SIZE) as u32); // needs 2 cells
    let mut buf = ext;
    buf.extend_from_slice(&cell(0)); // only 1 more cell filled

    let mut input = SeqInput::new();
    input.refill(&buf);
    assert_eq!(input.input_event(), Err(ProtocolError::ExtensionCells));
    assert!(!input.has_input_events());
    assert_eq!(input.input_event().unwrap(), None);
}

#[test]
fn input_refill_resets_the_cursor() {
    let mut input = SeqInput::new();
    input.refill(&cell(6));
    assert_eq!(*input.input_event().unwrap().unwrap().kind(), EventKind::Noteon);
    assert_eq!(input.input_event().unwrap(), None);

    input.refill(&cell(7));
    let e = input.input_event().unwrap().expect("refill rewound the cursor");
    assert_eq!(*e.kind(), EventKind::Noteoff);
}

#[test]
fn input_accepts_a_full_buffer() {
    let mut buf = Vec::new();
    for _ in 0..SEQ_INPUT_BUF_SIZE {
        buf.extend_from_slice(&cell(42));
    }
    let mut input = SeqInput::new();
    input.refill(&buf);
    let mut n = 0usize;
    while let Some(e) = input.input_event().unwrap() {
        assert_eq!(*e.kind(), EventKind::Sensing);
        n += 1;
    }
    assert_eq!(n, SEQ_INPUT_BUF_SIZE);
}
