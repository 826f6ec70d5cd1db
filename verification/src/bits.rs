//! Floating-point settings and measurements, held as their IEEE 754 bit patterns.
//!
//! The library stores such numbers and hands them on. The one question it asks
//! of them is whether a single-precision number is greater than zero.

use vstd::prelude::*;

verus! {

/// The bit that holds the sign of a single-precision number.
pub const SIGN_BIT: u32 = 0x8000_0000;

/// The magnitude bits of single-precision infinity; every larger magnitude is a NaN.
pub const INFINITY_BITS: u32 = 0x7f80_0000;

/// A single-precision number.
#[derive(Clone, Copy, Debug, PartialEq, Eq, Structural)]
pub struct SingleBits {
    pub bits: u32,
}

/// A double-precision number.
#[derive(Clone, Copy, Debug, PartialEq, Eq, Structural)]
pub struct DoubleBits {
    pub bits: u64,
}

impl SingleBits {
    /// The sign bit is set.
    pub open spec fn negative(self) -> bool {
        self.bits >= SIGN_BIT
    }

    /// The bits without the sign.
    pub open spec fn magnitude(self) -> int {
        if self.negative() {
            self.bits - SIGN_BIT
        } else {
            self.bits as int
        }
    }

    /// The number is a NaN, which compares as neither greater nor less than anything.
    pub open spec fn nan(self) -> bool {
        self.magnitude() > INFINITY_BITS
    }

    /// The number is one of the two zeros.
    pub open spec fn zero(self) -> bool {
        self.magnitude() == 0
    }

    /// The number is greater than zero.
    pub open spec fn positive(self) -> bool {
        !self.negative() && !self.nan() && !self.zero()
    }

    /// Tells whether the number is greater than zero.
    pub fn is_positive(&self) -> (res: bool)
        ensures
            res == self.positive(),
            res <==> 0 < self.bits <= 0x7f80_0000,
    {
        0 < self.bits && self.bits <= INFINITY_BITS
    }
}

impl DoubleBits {
    /// The number 0.0.
    pub open spec fn zero() -> DoubleBits {
        DoubleBits { bits: 0 }
    }

    /// Returns the number 0.0.
    pub fn new_zero() -> (res: DoubleBits)
        ensures
            res == DoubleBits::zero(),
            res.bits == 0,
    {
        DoubleBits { bits: 0 }
    }
}

/// A number is greater than zero exactly if its pattern lies between that of the smallest
/// number above zero and that of infinity; then the number with the other sign is not, and
/// no number is if it has the sign bit.
pub proof fn positive_numbers_are_an_interval(number: SingleBits, other: SingleBits)
    ensures
        number.positive() <==> 1 <= number.bits <= 0x7f80_0000,
        other.bits == number.bits + 0x8000_0000 ==> !other.positive(),
        DoubleBits::zero().bits == 0,
{
}

} // verus!
