//! Packed protocol version numbers.
//!
//! The driver reports its protocol revision as a single 32-bit word with
//! the major number in bits 16..32, the minor number in bits 8..16 and the
//! subminor number in bits 0..8.  Two protocol revisions are compatible
//! exactly when they agree on major and minor.

use vstd::prelude::*;

verus! {

/// A packed protocol version word.
pub struct Version(u32);

/// The major field of a packed version word: bits 16..32.
pub open spec fn spec_major(raw: u32) -> u32 {
    ((raw as int) / 0x10000) as u32
}

/// The minor field of a packed version word: bits 8..16.
pub open spec fn spec_minor(raw: u32) -> u32 {
    ((raw as int) / 0x100 % 0x100) as u32
}

/// The subminor field of a packed version word: bits 0..8.
pub open spec fn spec_subminor(raw: u32) -> u32 {
    ((raw as int) % 0x100) as u32
}

/// The packed word that holds the three given fields.
pub open spec fn spec_pack(major: u32, minor: u32, subminor: u32) -> int {
    major * 0x10000 + minor * 0x100 + subminor
}

impl Version {
    /// The packed word this version wraps.
    pub closed spec fn raw_spec(&self) -> u32 {
        self.0
    }

    /// Pack the three version fields into one word.
    pub fn new(major: u32, minor: u32, subminor: u32) -> (r: Self)
        requires
            major < 0x10000,
            minor < 0x100,
            subminor < 0x100,
        ensures
            r.raw_spec() == spec_pack(major, minor, subminor),
            spec_major(r.raw_spec()) == major,
            spec_minor(r.raw_spec()) == minor,
            spec_subminor(r.raw_spec()) == subminor,
    {
        let val = major * 0x10000 + minor * 0x100 + subminor;
        Self(val)
    }

    /// Wrap a packed word as reported by the driver.
    pub fn from_raw(val: u32) -> (r: Self)
        ensures
            r.raw_spec() == val,
    {
        Self(val)
    }

    /// The packed word, for handing back to the driver.
    pub fn raw(&self) -> (r: u32)
        ensures
            r == self.raw_spec(),
    {
        self.0
    }

    /// The major field.
    pub fn major(&self) -> (r: u32)
        ensures
            r == spec_major(self.raw_spec()),
    {
        self.0 / 0x10000
    }

    /// The minor field.
    pub fn minor(&self) -> (r: u32)
        ensures
            r == spec_minor(self.raw_spec()),
    {
        self.0 / 0x100 % 0x100
    }

    /// The subminor field.
    pub fn subminor(&self) -> (r: u32)
        ensures
            r == spec_subminor(self.raw_spec()),
    {
        self.0 % 0x100
    }

    /// Whether the peer's protocol revision cannot be spoken with this one:
    /// the two words differ in major or in minor.
    pub fn check_protocol_incompatible(&self, version: Self) -> (r: bool)
        ensures
            r == !(spec_major(self.raw_spec()) == spec_major(version.raw_spec())
                && spec_minor(self.raw_spec()) == spec_minor(version.raw_spec())),
    {
        let kmajor = self.major();
        let kminor = self.minor();

        let umajor = version.major();
        let uminor = version.minor();

        kmajor != umajor || kminor != uminor
    }
}

} // verus!
