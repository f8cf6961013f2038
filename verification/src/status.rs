//! The packed processor status register: carry, zero, overflow and negative
//! flags stored as single bits of one byte, with room for the remaining
//! hardware bits so that the whole byte round-trips exactly.

use vstd::prelude::*;

verus! {

/// Bit mask of the negative flag.
pub const NEGATIVE_MASK: u8 = 0b1000_0000;

/// Bit mask of the overflow flag.
pub const OVERFLOW_MASK: u8 = 0b0100_0000;

/// Bit mask of the always-set unused bit; the reset value of the register.
pub const UNUSED_MASK: u8 = 0b0010_0000;

/// Bit mask of the zero flag.
pub const ZERO_MASK: u8 = 0b0000_0010;

/// Bit mask of the carry flag.
pub const CARRY_MASK: u8 = 0b0000_0001;

/// The negative flag of a packed status byte.
pub open spec fn neg_flag(bits: u8) -> bool {
    bits & NEGATIVE_MASK != 0
}

/// The overflow flag of a packed status byte.
pub open spec fn overflow_flag(bits: u8) -> bool {
    bits & OVERFLOW_MASK != 0
}

/// The zero flag of a packed status byte.
pub open spec fn zero_flag(bits: u8) -> bool {
    bits & ZERO_MASK != 0
}

/// The carry flag of a packed status byte.
pub open spec fn carry_flag(bits: u8) -> bool {
    bits & CARRY_MASK != 0
}

/// A packed status byte with one flag forced to the given value and every
/// other bit untouched.
pub open spec fn spec_set_flag(bits: u8, mask: u8, value: bool) -> u8 {
    if value {
        bits | mask
    } else {
        bits & !mask
    }
}

/// The status byte with the zero and negative flags recomputed from a
/// value: zero exactly when the value is zero, negative exactly when its
/// high bit is set, every other bit untouched.  This is what every
/// flag-affecting instruction does, so those two flags are always a pure
/// function of the last value such an instruction produced.
pub open spec fn spec_flags_from_value(bits: u8, value: u8) -> u8 {
    spec_set_flag(spec_set_flag(bits, ZERO_MASK, value == 0), NEGATIVE_MASK, value >= 0x80)
}

/// The status byte after a value-derived update: the zero flag is set when
/// the value is zero and the negative flag is set when its high bit is set;
/// no flag is ever cleared by this update.
pub open spec fn spec_update_with_value(bits: u8, value: u8) -> u8 {
    let with_zero = if value == 0 {
        spec_set_flag(bits, ZERO_MASK, true)
    } else {
        bits
    };
    if value >= 0x80 {
        spec_set_flag(with_zero, NEGATIVE_MASK, true)
    } else {
        with_zero
    }
}

/// The packed processor flags.  The view is the raw byte.
pub struct Status(u8);

impl View for Status {
    type V = u8;

    closed spec fn view(&self) -> u8 {
        self.0
    }
}

impl Status {
    /// The reset pattern: only the unused bit is set.
    pub fn init() -> (status: Self)
        ensures
            status@ == UNUSED_MASK,
    {
        Self(UNUSED_MASK)
    }

    /// Recomputes the zero and negative flags from a value: each is set
    /// exactly when its condition holds and cleared otherwise; carry and
    /// overflow are untouched.  Flag-affecting instructions use this, so
    /// the two flags never carry stale state.
    pub fn flags_from_value(&mut self, value: u8)
        ensures
            final(self)@ == spec_flags_from_value(old(self)@, value),
    {
        self.set_zero(value == 0x00);
        self.set_neg(value >= 0x80);
    }

    /// Sets the zero flag when the value is zero and the negative flag when
    /// its high bit is set; never clears either flag.
    pub fn update_with_value(&mut self, value: u8)
        ensures
            final(self)@ == spec_update_with_value(old(self)@, value),
    {
        if value == 0x00 {
            self.set_zero(true);
        }

        if value >= 0x80 {
            self.set_neg(true)
        }
    }

    pub fn set_neg(&mut self, value: bool)
        ensures
            final(self)@ == spec_set_flag(old(self)@, NEGATIVE_MASK, value),
    {
        if value {
            self.0 |= 0b1000_0000;
        } else {
            self.0 &= 0b0111_1111;
        }
        proof {
            assert(!NEGATIVE_MASK == 0b0111_1111u8) by (bit_vector);
        }
    }

    pub fn neg(&self) -> (value: bool)
        ensures
            value == neg_flag(self@),
    {
        self.0 & 0b1000_0000 != 0x00
    }

    pub fn set_zero(&mut self, value: bool)
        ensures
            final(self)@ == spec_set_flag(old(self)@, ZERO_MASK, value),
    {
        if value {
            self.0 |= 0b0000_0010;
        } else {
            self.0 &= 0b1111_1101;
        }
        proof {
            assert(!ZERO_MASK == 0b1111_1101u8) by (bit_vector);
        }
    }

    pub fn zero(&self) -> (value: bool)
        ensures
            value == zero_flag(self@),
    {
        self.0 & 0b0000_0010 != 0x00
    }

    pub fn set_carry(&mut self, value: bool)
        ensures
            final(self)@ == spec_set_flag(old(self)@, CARRY_MASK, value),
    {
        if value {
            self.0 |= 0b0000_0001;
        } else {
            self.0 &= 0b1111_1110;
        }
        proof {
            assert(!CARRY_MASK == 0b1111_1110u8) by (bit_vector);
        }
    }

    pub fn carry(&self) -> (value: bool)
        ensures
            value == carry_flag(self@),
    {
        self.0 & 0b0000_0001 != 0x00
    }

    pub fn set_overflow(&mut self, value: bool)
        ensures
            final(self)@ == spec_set_flag(old(self)@, OVERFLOW_MASK, value),
    {
        if value {
            self.0 |= 0b0100_0000;
        } else {
            self.0 &= 0b1011_1111;
        }
        proof {
            assert(!OVERFLOW_MASK == 0b1011_1111u8) by (bit_vector);
        }
    }

    pub fn overflow(&self) -> (value: bool)
        ensures
            value == overflow_flag(self@),
    {
        self.0 & 0b0100_0000 != 0x00
    }
}

impl From<Status> for u8 {
    /// The raw packed byte, all eight bits: round-tripping the status
    /// through this byte is exact.
    fn from(value: Status) -> (bits: u8)
        ensures
            bits == value@,
    {
        value.0
    }
}

impl vstd::std_specs::convert::FromSpecImpl<Status> for u8 {
    open spec fn obeys_from_spec() -> bool {
        true
    }

    open spec fn from_spec(value: Status) -> u8 {
        value@
    }
}

} // verus!
