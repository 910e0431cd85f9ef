//! Binary64 floating-point numbers held by their bit patterns, with the
//! comparisons of IEEE 754 computed on integers.

use vstd::prelude::*;

verus! {

/// The sign bit of a binary64 pattern.
pub const SIGN_BIT: u64 = 0x8000_0000_0000_0000;

/// The pattern of positive infinity: every larger magnitude is not a number.
pub const INFINITY_BITS: u64 = 0x7FF0_0000_0000_0000;

/// The pattern of `0.0`.
pub const ZERO_BITS: u64 = 0;

/// The pattern of `5.0`.
pub const FIVE_BITS: u64 = 0x4014_0000_0000_0000;

/// The pattern of `35.0`.
pub const THIRTY_FIVE_BITS: u64 = 0x4041_8000_0000_0000;

/// The pattern of `75.0`.
pub const SEVENTY_FIVE_BITS: u64 = 0x4052_C000_0000_0000;

/// The pattern of `95.0`.
pub const NINETY_FIVE_BITS: u64 = 0x4057_C000_0000_0000;

/// The pattern of `100.0`.
pub const HUNDRED_BITS: u64 = 0x4059_0000_0000_0000;

/// A binary64 number, held as the 64 bits that encode it.
#[derive(Debug, Clone, Copy, PartialEq, Eq, Structural)]
pub struct Number {
    pub bits: u64,
}

impl Number {
    /// The pattern without its sign bit.
    pub open spec fn magnitude(self) -> int {
        if self.bits >= SIGN_BIT {
            self.bits - SIGN_BIT
        } else {
            self.bits as int
        }
    }

    /// Whether the sign bit is set.
    pub open spec fn negative(self) -> bool {
        self.bits >= SIGN_BIT
    }

    /// Whether the pattern encodes no number: all exponent bits set and a
    /// fraction that is not zero.
    pub open spec fn nan(self) -> bool {
        self.magnitude() > INFINITY_BITS
    }

    /// An integer that orders the patterns as IEEE 754 orders the numbers
    /// they encode: the magnitude, negated under a sign bit. Both zeros have
    /// rank zero.
    pub open spec fn rank(self) -> int {
        if self.negative() {
            -self.magnitude()
        } else {
            self.magnitude()
        }
    }

    /// `self <= other` as IEEE 754 has it: false where either is not a number.
    pub open spec fn at_most(self, other: Number) -> bool {
        !self.nan() && !other.nan() && self.rank() <= other.rank()
    }

    /// `self == other` as IEEE 754 has it: false where either is not a number,
    /// true of the two zeros.
    pub open spec fn same(self, other: Number) -> bool {
        !self.nan() && !other.nan() && self.rank() == other.rank()
    }

    /// `low <= self <= high` as IEEE 754 has it.
    pub open spec fn within(self, low: Number, high: Number) -> bool {
        low.at_most(self) && self.at_most(high)
    }

    /// The number with the given bit pattern.
    pub fn from_bits(bits: u64) -> (n: Number)
        ensures
            n.bits == bits,
    {
        Number { bits }
    }

    /// The bit pattern of the number.
    pub fn to_bits(&self) -> (bits: u64)
        ensures
            bits == self.bits,
    {
        self.bits
    }

    /// Whether the pattern encodes no number.
    pub fn is_nan(&self) -> (b: bool)
        ensures
            b == self.nan(),
    {
        let magnitude: u64 = if self.bits >= SIGN_BIT {
            self.bits - SIGN_BIT
        } else {
            self.bits
        };
        magnitude > INFINITY_BITS
    }

    /// The rank of the pattern, as a machine integer.
    pub fn ordinal(&self) -> (r: i64)
        ensures
            r == self.rank(),
    {
        if self.bits >= SIGN_BIT {
            let magnitude: u64 = self.bits - SIGN_BIT;
            -(magnitude as i64)
        } else {
            self.bits as i64
        }
    }

    /// Whether `self <= other`.
    pub fn le(&self, other: &Number) -> (b: bool)
        ensures
            b == self.at_most(*other),
    {
        !self.is_nan() && !other.is_nan() && self.ordinal() <= other.ordinal()
    }

    /// Whether `self == other` as numbers.
    pub fn equals(&self, other: &Number) -> (b: bool)
        ensures
            b == self.same(*other),
    {
        !self.is_nan() && !other.is_nan() && self.ordinal() == other.ordinal()
    }

    /// Whether `self > other`.
    pub fn gt(&self, other: &Number) -> (b: bool)
        ensures
            b == (!self.nan() && !other.nan() && self.rank() > other.rank()),
    {
        !self.is_nan() && !other.is_nan() && self.ordinal() > other.ordinal()
    }

    /// Whether `low <= self <= high`.
    pub fn in_range(&self, low: u64, high: u64) -> (b: bool)
        ensures
            b == self.within(Number { bits: low }, Number { bits: high }),
    {
        let low_number = Number { bits: low };
        let high_number = Number { bits: high };
        low_number.le(self) && self.le(&high_number)
    }
}

} // verus!
