use ralsa_seq::EventKind;

#[test]
fn kind_known_codes_resolve() {
    assert_eq!(EventKind::from_code(0), EventKind::System);
    assert_eq!(EventKind::from_code(1), EventKind::Result);
    assert_eq!(EventKind::from_code(5), EventKind::Note);
    assert_eq!(EventKind::from_code(6), EventKind::Noteon);
    assert_eq!(EventKind::from_code(7), EventKind::Noteoff);
    assert_eq!(EventKind::from_code(8), EventKind::Keypress);
    assert_eq!(EventKind::from_code(10), EventKind::Controller);
    assert_eq!(EventKind::from_code(13), EventKind::Pitchbend);
    assert_eq!(EventKind::from_code(20), EventKind::Songpos);
    assert_eq!(EventKind::from_code(24), EventKind::Keysign);
    assert_eq!(EventKind::from_code(30), EventKind::Start);
    assert_eq!(EventKind::from_code(35), EventKind::Tempo);
    assert_eq!(EventKind::from_code(38), EventKind::QueueSkew);
    assert_eq!(EventKind::from_code(39), EventKind::SyncPos);
    assert_eq!(EventKind::from_code(40), EventKind::TuneRequest);
    assert_eq!(EventKind::from_code(42), EventKind::Sensing);
    assert_eq!(EventKind::from_code(50), EventKind::Echo);
    assert_eq!(EventKind::from_code(51), EventKind::Oss);
    assert_eq!(EventKind::from_code(60), EventKind::ClientStart);
    assert_eq!(EventKind::from_code(67), EventKind::PortUnsubscribed);
    assert_eq!(EventKind::from_code(90), EventKind::Usr0);
    assert_eq!(EventKind::from_code(99), EventKind::Usr9);
    assert_eq!(EventKind::from_code(130), EventKind::Sysex);
    assert_eq!(EventKind::from_code(131), EventKind::Bounce);
    assert_eq!(EventKind::from_code(135), EventKind::UsrVar0);
    assert_eq!(EventKind::from_code(139), EventKind::UsrVar4);
    assert_eq!(EventKind::from_code(255), EventKind::Nop);
}

#[test]
fn kind_every_byte_resolves_without_panic() {
    // All 256 type bytes must resolve; unknown codes collapse into Nop.
    let mut known = 0usize;
    for v in 0..=255u8 {
        let k = EventKind::from_code(v);
        if k != EventKind::Nop || v == 255 {
            // Every recognized code reproduces itself.
            assert_eq!(k.code(), v);
            known += 1;
        }
    }
    // 2 system + 4 note + 7 control + 5 sync + 10 timer + 3 one-shot
    // + 2 echo + 8 lifecycle/connection + 10 user + 7 extension + 1 terminal
    assert_eq!(known, 59);
}

#[test]
fn kind_reserved_codes_collapse_to_nop() {
    for v in [2u8, 3, 4, 9, 17, 25, 43, 52, 68, 89, 100, 120, 129, 132, 134, 140, 150, 151, 200, 254]
    {
        assert_eq!(EventKind::from_code(v), EventKind::Nop);
    }
}

#[test]
fn kind_extension_band_is_exact() {
    for v in 0..=255u8 {
        let k = EventKind::from_code(v);
        let in_band = (130..=131).contains(&v) || (135..=139).contains(&v);
        assert_eq!(k.is_extension(), in_band);
    }
}
