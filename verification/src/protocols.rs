//! Protocol masks: which radio protocol families the receiver decodes.
//!
//! The transceiver takes four bytes of flags, one bit per protocol family.
//! Each byte has a type of its own here, so that a mask cannot end up in the
//! wrong position of a frame. The flags themselves are bytes: combine them
//! with `|` and hand the result to `from_bits_truncate`.

use vstd::prelude::*;

verus! {

/// First protocol mask.
#[derive(Clone, Copy, Debug, PartialEq, Eq, Structural)]
pub struct Protocols1 {
    pub bits: u8,
}

impl Protocols1 {
    /// AE Blyss
    pub const AE: u8 = 0x01;

    /// Rubicson, Lacrosse, Banggood
    pub const RUBICSON: u8 = 0x02;

    /// Fineoffset, Viking
    pub const FINEOFFSET: u8 = 0x04;

    /// PT2262 and compatible
    pub const LIGHTING4: u8 = 0x08;

    /// RSL, Revolt
    pub const RSL: u8 = 0x10;

    /// ByronSX, Selectplus
    pub const SX: u8 = 0x20;

    /// Imagintronix, Opus
    pub const IMAGINTRONIX: u8 = 0x40;

    /// Undecoded messages
    pub const UNDECODED: u8 = 0x80;

    /// Every bit that has a meaning in this mask.
    pub const ALL: u8 = 0xFF;

    /// The mask as the byte that travels on the wire.
    pub open spec fn spec_bits(&self) -> u8 {
        self.bits
    }

    /// The mask with no protocol enabled.
    pub fn empty() -> (r: Self)
        ensures
            r.bits() == 0,
    {
        Protocols1 { bits: 0 }
    }

    /// The mask as the byte that travels on the wire.
    #[verifier::when_used_as_spec(spec_bits)]
    pub fn bits(&self) -> (r: u8)
        ensures
            r == self.spec_bits(),
    {
        self.bits
    }

    /// Builds a mask from a byte. Bits without a meaning are dropped; as
    /// every bit of this mask has one, the byte is kept whole.
    pub fn from_bits_truncate(bits: u8) -> (r: Self)
        ensures
            r.bits() == bits & Protocols1::ALL,
            r.bits() & !Protocols1::ALL == 0,
            r.bits() == bits,
    {
        assert(bits & 0xFF == bits && (bits & 0xFF) & !0xFFu8 == 0) by (bit_vector);
        Protocols1 { bits: bits & Protocols1::ALL }
    }

    /// Whether every protocol of `flags` is enabled in this mask.
    pub fn contains(&self, flags: u8) -> (r: bool)
        ensures
            r == (self.bits() & flags == flags),
    {
        self.bits & flags == flags
    }
}

/// Second protocol mask.
#[derive(Clone, Copy, Debug, PartialEq, Eq, Structural)]
pub struct Protocols2 {
    pub bits: u8,
}

impl Protocols2 {
    /// Mertik maxitrol
    pub const MERTIK: u8 = 0x01;

    /// AD LightwaveRF
    pub const LWRF: u8 = 0x02;

    /// Hideki
    pub const HIDEKI: u8 = 0x04;

    /// LaCrosse
    pub const LACROSSE: u8 = 0x08;

    /// Legrand CAD
    pub const LEGRAND: u8 = 0x10;

    /// Reserved for future use
    pub const MSG4_RESERVED_55: u8 = 0x20;

    /// Rollertrol, Hasta new
    pub const BLINDST0: u8 = 0x40;

    /// BlindsT1-4
    pub const BLINDST1: u8 = 0x80;

    /// Every bit that has a meaning in this mask.
    pub const ALL: u8 = 0xFF;

    /// The mask as the byte that travels on the wire.
    pub open spec fn spec_bits(&self) -> u8 {
        self.bits
    }

    /// The mask with no protocol enabled.
    pub fn empty() -> (r: Self)
        ensures
            r.bits() == 0,
    {
        Protocols2 { bits: 0 }
    }

    /// The mask as the byte that travels on the wire.
    #[verifier::when_used_as_spec(spec_bits)]
    pub fn bits(&self) -> (r: u8)
        ensures
            r == self.spec_bits(),
    {
        self.bits
    }

    /// Builds a mask from a byte. Bits without a meaning are dropped; as
    /// every bit of this mask has one, the byte is kept whole.
    pub fn from_bits_truncate(bits: u8) -> (r: Self)
        ensures
            r.bits() == bits & Protocols2::ALL,
            r.bits() & !Protocols2::ALL == 0,
            r.bits() == bits,
    {
        assert(bits & 0xFF == bits && (bits & 0xFF) & !0xFFu8 == 0) by (bit_vector);
        Protocols2 { bits: bits & Protocols2::ALL }
    }

    /// Whether every protocol of `flags` is enabled in this mask.
    pub fn contains(&self, flags: u8) -> (r: bool)
        ensures
            r == (self.bits() & flags == flags),
    {
        self.bits & flags == flags
    }
}

/// Third protocol mask.
#[derive(Clone, Copy, Debug, PartialEq, Eq, Structural)]
pub struct Protocols3 {
    pub bits: u8,
}

impl Protocols3 {
    /// X10
    pub const X10: u8 = 0x01;

    /// ARC
    pub const ARC: u8 = 0x02;

    /// AC
    pub const AC: u8 = 0x04;

    /// HomeEasy EU
    pub const HEEU: u8 = 0x08;

    /// Meiantech, Atlantic
    pub const MEIANTECH: u8 = 0x10;

    /// Oregon Scientific
    pub const OREGON: u8 = 0x20;

    /// ATI remotes
    pub const ATI: u8 = 0x40;

    /// Visonic PowerCode
    pub const VISONIC: u8 = 0x80;

    /// Every bit that has a meaning in this mask.
    pub const ALL: u8 = 0xFF;

    /// The mask as the byte that travels on the wire.
    pub open spec fn spec_bits(&self) -> u8 {
        self.bits
    }

    /// The mask with no protocol enabled.
    pub fn empty() -> (r: Self)
        ensures
            r.bits() == 0,
    {
        Protocols3 { bits: 0 }
    }

    /// The mask as the byte that travels on the wire.
    #[verifier::when_used_as_spec(spec_bits)]
    pub fn bits(&self) -> (r: u8)
        ensures
            r == self.spec_bits(),
    {
        self.bits
    }

    /// Builds a mask from a byte. Bits without a meaning are dropped; as
    /// every bit of this mask has one, the byte is kept whole.
    pub fn from_bits_truncate(bits: u8) -> (r: Self)
        ensures
            r.bits() == bits & Protocols3::ALL,
            r.bits() & !Protocols3::ALL == 0,
            r.bits() == bits,
    {
        assert(bits & 0xFF == bits && (bits & 0xFF) & !0xFFu8 == 0) by (bit_vector);
        Protocols3 { bits: bits & Protocols3::ALL }
    }

    /// Whether every protocol of `flags` is enabled in this mask.
    pub fn contains(&self, flags: u8) -> (r: bool)
        ensures
            r == (self.bits() & flags == flags),
    {
        self.bits & flags == flags
    }
}

/// Fourth protocol mask.
#[derive(Clone, Copy, Debug, PartialEq, Eq, Structural)]
pub struct Protocols4 {
    pub bits: u8,
}

impl Protocols4 {
    /// Keeloq
    pub const KEELOQ: u8 = 0x01;

    /// HomeConfort
    pub const HC: u8 = 0x02;

    /// Reserved for future use
    pub const MSG6_RESERVED_2: u8 = 0x04;

    /// Reserved for future use
    pub const MSG6_RESERVED_3: u8 = 0x08;

    /// Reserved for future use
    pub const MSG6_RESERVED_4: u8 = 0x10;

    /// Reserved for future use
    pub const MSG6_RESERVED_5: u8 = 0x20;

    /// MCZ
    pub const MCZ: u8 = 0x40;

    /// Funkbus
    pub const FUNKBUS: u8 = 0x80;

    /// Every bit that has a meaning in this mask.
    pub const ALL: u8 = 0xFF;

    /// The mask as the byte that travels on the wire.
    pub open spec fn spec_bits(&self) -> u8 {
        self.bits
    }

    /// The mask with no protocol enabled.
    pub fn empty() -> (r: Self)
        ensures
            r.bits() == 0,
    {
        Protocols4 { bits: 0 }
    }

    /// The mask as the byte that travels on the wire.
    #[verifier::when_used_as_spec(spec_bits)]
    pub fn bits(&self) -> (r: u8)
        ensures
            r == self.spec_bits(),
    {
        self.bits
    }

    /// Builds a mask from a byte. Bits without a meaning are dropped; as
    /// every bit of this mask has one, the byte is kept whole.
    pub fn from_bits_truncate(bits: u8) -> (r: Self)
        ensures
            r.bits() == bits & Protocols4::ALL,
            r.bits() & !Protocols4::ALL == 0,
            r.bits() == bits,
    {
        assert(bits & 0xFF == bits && (bits & 0xFF) & !0xFFu8 == 0) by (bit_vector);
        Protocols4 { bits: bits & Protocols4::ALL }
    }

    /// Whether every protocol of `flags` is enabled in this mask.
    pub fn contains(&self, flags: u8) -> (r: bool)
        ensures
            r == (self.bits() & flags == flags),
    {
        self.bits & flags == flags
    }
}

} // verus!
