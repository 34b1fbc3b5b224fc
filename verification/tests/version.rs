use ralsa_seq::Version;

#[test]
fn version_packs_fields() {
    let v = Version::new(1, 0, 2);
    assert_eq!(v.raw(), 0x0001_0002);
    assert_eq!(v.major(), 1);
    assert_eq!(v.minor(), 0);
    assert_eq!(v.subminor(), 2);
}

#[test]
fn version_from_raw_round_trips() {
    let v = Version::from_raw(0x0102_0304);
    assert_eq!(v.major(), 0x0102);
    assert_eq!(v.minor(), 0x03);
    assert_eq!(v.subminor(), 0x04);
    assert_eq!(v.raw(), 0x0102_0304);
}

#[test]
fn version_compatible_when_major_minor_agree() {
    let kernel = Version::new(1, 0, 2);
    let user = Version::new(1, 0, 9);
    assert!(!kernel.check_protocol_incompatible(user));
}

#[test]
fn version_incompatible_on_major_difference() {
    let kernel = Version::new(2, 0, 0);
    let user = Version::new(1, 0, 0);
    assert!(kernel.check_protocol_incompatible(user));
}

#[test]
fn version_incompatible_on_minor_difference() {
    let kernel = Version::new(1, 1, 0);
    let user = Version::new(1, 0, 0);
    assert!(kernel.check_protocol_incompatible(user));
}
