use vstd::prelude::*;

verus! {

/// The processor status register (the `P` register of the 6502).
#[derive(Debug, Clone, Copy, PartialEq, Eq, Structural)]
pub struct Status(u8);

/// The register with `flag` raised (`on`) or cleared (`!on`).
pub open spec fn with_flag(bits: u8, flag: u8, on: bool) -> u8 {
    if on {
        bits | flag
    } else {
        bits & !flag
    }
}

/// The register after a value was loaded: `ZERO` tells whether the value is
/// zero, `NEGATIVE` copies its bit 7.
pub open spec fn with_zero_and_negative(bits: u8, value: u8) -> u8 {
    with_flag(
        with_flag(bits, Status::ZERO, value == 0),
        Status::NEGATIVE,
        value & 0x80 != 0,
    )
}

impl View for Status {
    type V = u8;

    closed spec fn view(&self) -> u8 {
        self.0
    }
}

impl Status {
    pub const CARRY: u8 = 1;
    pub const ZERO: u8 = 2;
    pub const INTERRUPT_DISABLE: u8 = 4;
    pub const DECIMAL: u8 = 8;
    pub const BREAK: u8 = 16;
    pub const UNUSED: u8 = 32;
    pub const OVERFLOW: u8 = 64;
    pub const NEGATIVE: u8 = 128;

    /// The raw bits of the register.
    #[must_use]
    pub fn bits(self) -> (r: u8)
        ensures
            r == self@,
    {
        self.0
    }

    /// Whether any bit of `flag` is set.
    #[must_use]
    pub fn contains(self, flag: u8) -> (r: bool)
        ensures
            r == (self@ & flag != 0),
    {
        self.0 & flag != 0
    }

    pub(crate) fn from_bits(bits: u8) -> (r: Self)
        ensures
            r@ == bits,
    {
        Status(bits)
    }

    pub(crate) fn insert(&mut self, flag: u8)
        ensures
            final(self)@ == old(self)@ | flag,
    {
        self.0 = self.0 | flag;
    }

    pub(crate) fn remove(&mut self, flag: u8)
        ensures
            final(self)@ == old(self)@ & !flag,
    {
        self.0 = self.0 & !flag;
    }

    pub(crate) fn set(&mut self, flag: u8, enabled: bool)
        ensures
            final(self)@ == with_flag(old(self)@, flag, enabled),
    {
        if enabled {
            self.insert(flag);
        } else {
            self.remove(flag);
        }
    }

    pub(crate) fn update_zero_and_negative(&mut self, value: u8)
        ensures
            final(self)@ == with_zero_and_negative(old(self)@, value),
    {
        self.set(Self::ZERO, value == 0);
        self.set(Self::NEGATIVE, value & 0x80 != 0);
    }
}

impl Default for Status {
    fn default() -> (r: Self)
        ensures
            r@ == Status::INTERRUPT_DISABLE | Status::UNUSED,
    {
        Status(Self::INTERRUPT_DISABLE | Self::UNUSED)
    }
}


/// Whether `flag` is one of the eight single-bit flags of the register.
pub open spec fn is_flag(flag: u8) -> bool {
    flag == 1 || flag == 2 || flag == 4 || flag == 8 || flag == 16 || flag == 32 || flag == 64
        || flag == 128
}

/// Raising or clearing a flag sets exactly that flag and keeps every other
/// flag as it was.
pub proof fn lemma_with_flag(bits: u8, flag: u8, on: bool, other: u8)
    requires
        is_flag(flag),
        is_flag(other),
        other != flag,
    ensures
        (with_flag(bits, flag, on) & flag != 0) == on,
        with_flag(bits, flag, on) & other == bits & other,
{
    assert((if on { bits | flag } else { bits & !flag }) & flag != 0 <==> on) by (bit_vector)
        requires
            flag == 1 || flag == 2 || flag == 4 || flag == 8 || flag == 16 || flag == 32 || flag
                == 64 || flag == 128,
    ;
    assert((if on { bits | flag } else { bits & !flag }) & other == bits & other) by (bit_vector)
        requires
            flag == 1 || flag == 2 || flag == 4 || flag == 8 || flag == 16 || flag == 32 || flag
                == 64 || flag == 128,
            other == 1 || other == 2 || other == 4 || other == 8 || other == 16 || other == 32
                || other == 64 || other == 128,
            other != flag,
    ;
}

/// After a value is loaded, `ZERO` tells whether it is zero, `NEGATIVE`
/// whether its bit 7 is set, and the six other flags keep their values.
pub proof fn lemma_zero_and_negative(bits: u8, value: u8)
    ensures
        (with_zero_and_negative(bits, value) & Status::ZERO != 0) == (value == 0),
        (with_zero_and_negative(bits, value) & Status::NEGATIVE != 0) == (value >= 0x80),
        with_zero_and_negative(bits, value) & 0x7D == bits & 0x7D,
{
    let z = if value == 0 { bits | 2 } else { bits & !2u8 };
    let r = if value & 0x80 != 0 { z | 128 } else { z & !128u8 };
    assert(r & 2 != 0 <==> value == 0) by (bit_vector)
        requires
            z == (if value == 0 { bits | 2 } else { bits & !2u8 }),
            r == (if value & 0x80 != 0 { z | 128 } else { z & !128u8 }),
    ;
    assert(r & 128 != 0 <==> value >= 0x80) by (bit_vector)
        requires
            r == (if value & 0x80 != 0 { z | 128 } else { z & !128u8 }),
    ;
    assert(r & 0x7D == bits & 0x7D) by (bit_vector)
        requires
            z == (if value == 0 { bits | 2 } else { bits & !2u8 }),
            r == (if value & 0x80 != 0 { z | 128 } else { z & !128u8 }),
    ;
}

/// The register after a reset has exactly `INTERRUPT_DISABLE` and `UNUSED`
/// set, that is the bits `0x24`.
pub proof fn lemma_reset_bits()
    ensures
        Status::INTERRUPT_DISABLE | Status::UNUSED == 0x24,
{
    assert(4u8 | 32u8 == 0x24u8) by (bit_vector);
}

} // verus!
