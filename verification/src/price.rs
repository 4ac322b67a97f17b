//! Prices, held as the bit pattern of a single-precision IEEE 754 number.

use vstd::prelude::*;

verus! {

/// The bit pattern of positive infinity, the largest pattern that is
/// greater than zero and still a number.
pub const POSITIVE_INFINITY_BITS: u32 = 0x7F80_0000;

/// Whether `bits` is the pattern of a number strictly greater than zero.
///
/// A pattern with the sign bit clear orders as its unsigned value does, so
/// the positive numbers are the patterns above zero up to positive infinity;
/// the patterns beyond it are NaNs, and those with the sign bit set are
/// negative numbers, negative zero and NaNs.
pub open spec fn is_positive_bits(bits: u32) -> bool {
    0 < bits <= POSITIVE_INFINITY_BITS
}

/// A price: always a number strictly greater than zero.
#[derive(Clone, Copy, Debug, PartialEq, Eq)]
pub struct Price {
    bits: u32,
}

impl Price {
    #[verifier::type_invariant]
    spec fn positive(self) -> bool {
        is_positive_bits(self.bits)
    }

    /// The bit pattern that this price holds.
    pub closed spec fn spec_bits(self) -> u32 {
        self.bits
    }

    /// Accepts `bits` as a price exactly when it is the pattern of a number
    /// greater than zero: zero, negative numbers and NaN are rejected.
    pub fn from_bits(bits: u32) -> (r: Option<Price>)
        ensures
            r is Some <==> is_positive_bits(bits),
            r matches Some(p) ==> p.spec_bits() == bits,
    {
        if 0 < bits && bits <= POSITIVE_INFINITY_BITS {
            Some(Price { bits })
        } else {
            None
        }
    }

    /// The bit pattern of this price, which is that of a positive number.
    pub fn bits(&self) -> (r: u32)
        ensures
            r == self.spec_bits(),
            is_positive_bits(r),
    {
        proof {
            use_type_invariant(self);
        }
        self.bits
    }
}

} // verus!
