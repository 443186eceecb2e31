//! Double-precision numbers, read through their 64-bit IEEE 754 encodings.
//!
//! Ratings and deviations are double-precision numbers. The arithmetic on them
//! is done elsewhere; what is decided here is which encodings stand for a
//! number that a rating computation may start from. An encoding has one sign
//! bit, eleven exponent bits and fifty-two fraction bits, from the top down.

use vstd::prelude::*;
use vstd::arithmetic::power2::pow2;

verus! {

/// The encoding of positive infinity: sign clear, exponent all ones, fraction zero.
pub const POSITIVE_INFINITY: u64 = 0x7ff0_0000_0000_0000;

/// The encoding of negative zero: only the sign bit is set.
pub const NEGATIVE_ZERO: u64 = 0x8000_0000_0000_0000;

/// Every bit below the sign bit.
pub const MAGNITUDE_MASK: u64 = 0x7fff_ffff_ffff_ffff;

/// A double-precision number, held as its encoding.
#[derive(Clone, Copy, Debug, PartialEq, Eq)]
pub struct Binary64 {
    pub bits: u64,
}

impl Binary64 {
    /// The sign bit: set for negative numbers and for negative zero.
    pub open spec fn sign(self) -> bool {
        self.bits >= 0x8000_0000_0000_0000
    }

    /// The encoding without its sign bit.
    pub open spec fn magnitude(self) -> nat {
        (self.bits % 0x8000_0000_0000_0000) as nat
    }

    /// The biased exponent field, between 0 and 2047.
    pub open spec fn exponent(self) -> nat {
        self.magnitude() / 0x10_0000_0000_0000
    }

    /// The fraction field, below 2^52.
    pub open spec fn fraction(self) -> nat {
        (self.bits % 0x10_0000_0000_0000) as nat
    }

    /// The fraction with its implicit leading bit, which subnormal numbers
    /// and zero do not have.
    pub open spec fn significand(self) -> nat {
        if self.exponent() == 0 {
            self.fraction()
        } else {
            0x10_0000_0000_0000 + self.fraction()
        }
    }

    /// Not a number: exponent all ones and a fraction that is not zero.
    pub open spec fn nan(self) -> bool {
        self.exponent() == 2047 && self.fraction() != 0
    }

    /// Zero, subnormal or normal: neither an infinity nor a NaN.
    pub open spec fn finite(self) -> bool {
        self.exponent() < 2047
    }

    /// Positive or negative zero.
    pub open spec fn zero(self) -> bool {
        self.exponent() == 0 && self.fraction() == 0
    }

    /// A number greater than zero; positive infinity counts, NaN does not.
    pub open spec fn positive(self) -> bool {
        !self.nan() && !self.sign() && !self.zero()
    }

    /// A number greater than or equal to zero; negative zero counts, since it
    /// compares equal to zero.
    pub open spec fn non_negative(self) -> bool {
        !self.nan() && (!self.sign() || self.zero())
    }

    /// The encoded number is exactly the integer `n`.
    ///
    /// A normal number is `significand * 2^(exponent - 1075)`; a subnormal
    /// number lies strictly between zero and one.
    pub open spec fn denotes(self, n: nat) -> bool {
        &&& !self.sign()
        &&& self.finite()
        &&& if self.exponent() == 0 {
            self.fraction() == 0 && n == 0
        } else if self.exponent() >= 1075 {
            n == self.significand() * pow2((self.exponent() - 1075) as nat)
        } else {
            self.significand() == n * pow2((1075 - self.exponent()) as nat)
        }
    }

    /// Whether the number is neither infinite nor NaN.
    pub fn is_finite(&self) -> (b: bool)
        ensures
            b == self.finite(),
    {
        let bits: u64 = self.bits;
        let magnitude: u64 = bits & MAGNITUDE_MASK;
        assert(magnitude == bits % 0x8000_0000_0000_0000) by (bit_vector)
            requires
                magnitude == bits & 0x7fff_ffff_ffff_ffff,
        ;
        magnitude < POSITIVE_INFINITY
    }

    /// Whether the number is greater than zero.
    pub fn is_positive(&self) -> (b: bool)
        ensures
            b == self.positive(),
    {
        0 < self.bits && self.bits <= POSITIVE_INFINITY
    }

    /// Whether the number is greater than or equal to zero.
    pub fn is_non_negative(&self) -> (b: bool)
        ensures
            b == self.non_negative(),
    {
        self.bits <= POSITIVE_INFINITY || self.bits == NEGATIVE_ZERO
    }
}

} // verus!
