//! Real numbers, held by their bit patterns.

use vstd::prelude::*;

verus! {

/// An IEEE 754 double-precision number.  Numbers from zero up are ordered as their bit
/// patterns are.
#[derive(Clone, Copy, Debug, PartialEq, Eq, Structural)]
pub struct Real {
    pub bits: u64,
}

pub const ZERO_BITS: u64 = 0;

pub const HALF_BITS: u64 = 0x3fe0_0000_0000_0000;

pub const ONE_BITS: u64 = 0x3ff0_0000_0000_0000;

pub const FOUR_BITS: u64 = 0x4010_0000_0000_0000;

pub const EIGHT_BITS: u64 = 0x4020_0000_0000_0000;

pub const TWENTY_TWO_BITS: u64 = 0x4036_0000_0000_0000;

pub const SIXTY_BITS: u64 = 0x404e_0000_0000_0000;

pub const THOUSAND_BITS: u64 = 0x408f_4000_0000_0000;

pub const INFINITY_BITS: u64 = 0x7ff0_0000_0000_0000;

pub const NEGATIVE_ZERO_BITS: u64 = 0x8000_0000_0000_0000;

impl Real {
    /// The number is greater than zero.
    pub open spec fn positive(self) -> bool {
        0 < self.bits <= INFINITY_BITS
    }

    /// Whether the number is greater than zero.
    pub fn is_positive(self) -> (r: bool)
        ensures
            r == self.positive(),
    {
        0 < self.bits && self.bits <= INFINITY_BITS
    }

    /// Whether the number is greater than zero and finite.
    pub fn is_positive_and_finite(self) -> (r: bool)
        ensures
            r == (self.positive() && self.bits != INFINITY_BITS),
    {
        0 < self.bits && self.bits < INFINITY_BITS
    }
}

} // verus!
