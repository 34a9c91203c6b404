//! Binary64 numbers held by their encoding.
//!
//! The verified part of this crate never does arithmetic on such numbers. It
//! carries them, and it decides how two of them compare. Both need only the
//! 64-bit encoding: one sign bit, then eleven exponent bits, then fifty-two
//! fraction bits. Read as an integer, the encoding without its sign bit grows
//! with the magnitude of the number, which is what the comparisons here use.

use vstd::prelude::*;

verus! {

/// The encoding whose only set bit is the sign bit.
pub const SIGN_BIT: u64 = 0x8000_0000_0000_0000;

/// The encoding of positive infinity. Every larger magnitude is not a number.
pub const INFINITY_BITS: u64 = 0x7ff0_0000_0000_0000;

/// A binary64 number, held as its 64-bit encoding.
///
/// The derived `==` compares encodings. Two numbers of equal value may differ
/// in their encoding (the two zeros), and one that is not a number equals
/// nothing as a number: use [`Binary64::equals`] to compare values.
#[derive(Clone, Copy, Debug, PartialEq, Eq, Structural)]
pub struct Binary64 {
    pub bits: u64,
}

impl Binary64 {
    /// Whether the sign bit is set.
    pub open spec fn negative(self) -> bool {
        self.bits >= SIGN_BIT
    }

    /// The encoding without its sign bit.
    pub open spec fn magnitude(self) -> int {
        if self.negative() {
            self.bits - SIGN_BIT
        } else {
            self.bits as int
        }
    }

    /// Whether the encoding stands for no number.
    pub open spec fn nan(self) -> bool {
        self.magnitude() > INFINITY_BITS
    }

    /// The place of the number among all binary64 numbers: for two numbers
    /// `a` and `b`, `a` is below `b` exactly when `a.rank() < b.rank()`. Both
    /// zeros have rank 0.
    pub open spec fn rank(self) -> int {
        if self.negative() {
            -self.magnitude()
        } else {
            self.magnitude()
        }
    }

    /// Equality of values: both are numbers and neither is below the other.
    pub open spec fn same_number(self, other: Binary64) -> bool {
        !self.nan() && !other.nan() && self.rank() == other.rank()
    }

    /// Order of values: both are numbers and `other` is not below `self`.
    pub open spec fn at_most(self, other: Binary64) -> bool {
        !self.nan() && !other.nan() && self.rank() <= other.rank()
    }

    /// Whether the number is zero or above. No number that is not a number
    /// is.
    pub open spec fn non_negative(self) -> bool {
        !self.nan() && self.rank() >= 0
    }

    /// The number with the given encoding.
    pub fn from_bits(bits: u64) -> (number: Binary64)
        ensures
            number.bits == bits,
    {
        Binary64 { bits }
    }

    /// The encoding of the number.
    pub fn to_bits(&self) -> (bits: u64)
        ensures
            bits == self.bits,
    {
        self.bits
    }

    /// Positive zero.
    pub fn zero() -> (number: Binary64)
        ensures
            number.bits == 0,
    {
        Binary64 { bits: 0 }
    }

    /// Whether the encoding stands for no number.
    pub fn is_nan(&self) -> (answer: bool)
        ensures
            answer == self.nan(),
    {
        self.magnitude_bits() > INFINITY_BITS
    }

    /// Whether both are numbers of the same value.
    pub fn equals(&self, other: &Binary64) -> (answer: bool)
        ensures
            answer == self.same_number(*other),
    {
        if self.is_nan() || other.is_nan() {
            return false;
        }
        let mine: u64 = self.magnitude_bits();
        let theirs: u64 = other.magnitude_bits();
        if mine == 0 && theirs == 0 {
            true
        } else {
            self.bits == other.bits
        }
    }

    /// Whether both are numbers and `self` is not above `other`.
    pub fn le(&self, other: &Binary64) -> (answer: bool)
        ensures
            answer == self.at_most(*other),
    {
        if self.is_nan() || other.is_nan() {
            return false;
        }
        let mine: u64 = self.magnitude_bits();
        let theirs: u64 = other.magnitude_bits();
        if self.bits >= SIGN_BIT {
            if other.bits >= SIGN_BIT {
                theirs <= mine
            } else {
                true
            }
        } else if other.bits >= SIGN_BIT {
            mine == 0 && theirs == 0
        } else {
            mine <= theirs
        }
    }

    /// Whether the number is zero or above.
    pub fn is_non_negative(&self) -> (answer: bool)
        ensures
            answer == self.non_negative(),
    {
        !self.is_nan() && (self.bits < SIGN_BIT || self.bits == SIGN_BIT)
    }

    fn magnitude_bits(&self) -> (magnitude: u64)
        ensures
            magnitude == self.magnitude(),
    {
        if self.bits >= SIGN_BIT {
            self.bits - SIGN_BIT
        } else {
            self.bits
        }
    }
}

} // verus!
