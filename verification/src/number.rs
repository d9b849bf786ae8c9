//! Numbers as the calculator holds them.

use vstd::prelude::*;

verus! {

/// A double-precision number, held as the 64 bits of its IEEE 754 binary64
/// encoding: the sign in the top bit, then eleven bits of exponent and
/// fifty-two of fraction.
///
/// The library stores and compares numbers; it does no floating-point
/// arithmetic. Two numbers are equal here when their bits are equal.
#[derive(Clone, Copy, Debug, PartialEq, Eq, Structural)]
pub struct Number {
    pub bits: u64,
}

/// The encoding of positive zero.
pub const POSITIVE_ZERO_BITS: u64 = 0;

/// The encoding of negative zero: the sign bit alone.
pub const NEGATIVE_ZERO_BITS: u64 = 0x8000_0000_0000_0000;

impl Number {
    /// Whether the number is zero. The encoding has two zeros, one of each
    /// sign, and no other value compares equal to zero.
    pub open spec fn spec_is_zero(self) -> bool {
        self.bits == POSITIVE_ZERO_BITS || self.bits == NEGATIVE_ZERO_BITS
    }

    /// Tells whether the number is zero, of either sign.
    #[verifier::when_used_as_spec(spec_is_zero)]
    pub fn is_zero(self) -> (zero: bool)
        ensures
            zero == self.spec_is_zero(),
    {
        self.bits == POSITIVE_ZERO_BITS || self.bits == NEGATIVE_ZERO_BITS
    }
}

} // verus!
