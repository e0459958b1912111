//! IEEE-754 binary64 numbers held by their bit patterns.
//!
//! The window system reports the cursor in binary64. Verified code compares
//! such numbers and hands them to the numeric kernel; it never computes with
//! them.

use vstd::prelude::*;
use crate::ieee::{lemma_weight_increases, lemma_weight_is_zero_for_zero_only, weight};

verus! {

/// The sign bit of a binary64 pattern.
pub const WIDE_SIGN_BIT: u64 = 0x8000_0000_0000_0000;

/// The pattern of positive infinity; every larger magnitude is a NaN.
pub const WIDE_INFINITY_BITS: u64 = 0x7ff0_0000_0000_0000;

/// Two to the 52nd: the weight of the exponent field, and the implicit
/// leading bit of a normal significand.
pub const WIDE_HIDDEN_BIT: u64 = 0x0010_0000_0000_0000;

/// A binary64 number, identified with its bit pattern.
///
/// `==` on two of them compares patterns; [`Wide::same_number`] is the
/// numeric equality.
#[derive(Clone, Copy, Debug, PartialEq, Eq, Structural)]
pub struct Wide {
    pub bits: u64,
}

impl Wide {
    /// The sign bit is set.
    pub open spec fn negative(self) -> bool {
        self.bits >= WIDE_SIGN_BIT
    }

    /// The pattern without its sign bit.
    pub open spec fn magnitude_bits(self) -> int {
        if self.bits >= WIDE_SIGN_BIT {
            self.bits - WIDE_SIGN_BIT
        } else {
            self.bits as int
        }
    }

    /// Not a number: the exponent field is all ones and the fraction is not
    /// zero.
    pub open spec fn nan(self) -> bool {
        self.magnitude_bits() > WIDE_INFINITY_BITS
    }

    /// The biased exponent field, in `0..=2047`.
    pub open spec fn exponent(self) -> int {
        self.magnitude_bits() / (WIDE_HIDDEN_BIT as int)
    }

    /// The fraction field, in `0..2^52`.
    pub open spec fn fraction(self) -> int {
        self.magnitude_bits() % (WIDE_HIDDEN_BIT as int)
    }

    /// The absolute value in units of `2^-1074`, the smallest subnormal.
    ///
    /// For a finite number this is exactly `|x| * 2^1074`. The infinities
    /// come out above every finite value.
    pub open spec fn scaled_magnitude(self) -> int {
        weight(self.exponent(), self.fraction(), WIDE_HIDDEN_BIT as int)
    }

    /// The value in units of `2^-1074`: for a finite number, exactly
    /// `x * 2^1074`.
    pub open spec fn scaled(self) -> int {
        if self.negative() {
            -self.scaled_magnitude()
        } else {
            self.scaled_magnitude()
        }
    }

    /// `self < rhs` as binary64 orders them: false when either is a NaN,
    /// otherwise the order of the values.
    pub open spec fn less_than(self, rhs: Wide) -> bool {
        !self.nan() && !rhs.nan() && self.scaled() < rhs.scaled()
    }

    /// `self == rhs` as binary64 numbers: false when either is a NaN,
    /// otherwise equality of the values (so `0.0` equals `-0.0`).
    pub open spec fn same_number(self, rhs: Wide) -> bool {
        !self.nan() && !rhs.nan() && self.scaled() == rhs.scaled()
    }

    /// The number without its sign bit: the absolute value, and for a NaN
    /// the NaN with the sign bit clear.
    pub open spec fn magnitude(self) -> Wide {
        Wide { bits: self.magnitude_bits() as u64 }
    }

    /// The number with the given pattern.
    pub fn from_bits(bits: u64) -> (w: Wide)
        ensures
            w.bits == bits,
    {
        Wide { bits }
    }

    /// The pattern of this number.
    pub fn to_bits(self) -> (bits: u64)
        ensures
            bits == self.bits,
    {
        self.bits
    }

    fn abs_bits(self) -> (m: u64)
        ensures
            m == self.magnitude_bits(),
    {
        if self.bits >= WIDE_SIGN_BIT {
            self.bits - WIDE_SIGN_BIT
        } else {
            self.bits
        }
    }

    /// Whether this is a NaN.
    pub fn is_nan(self) -> (r: bool)
        ensures
            r == self.nan(),
    {
        self.abs_bits() > WIDE_INFINITY_BITS
    }

    /// The binary64 comparison `self < rhs`.
    pub fn lt(self, rhs: Wide) -> (r: bool)
        ensures
            r == self.less_than(rhs),
    {
        if self.is_nan() || rhs.is_nan() {
            return false;
        }
        let a: u64 = self.abs_bits();
        let b: u64 = rhs.abs_bits();
        proof {
            lemma_wide_magnitude_order(self, rhs);
            lemma_wide_zero_magnitude(self);
            lemma_wide_zero_magnitude(rhs);
        }
        if self.bits >= WIDE_SIGN_BIT {
            if rhs.bits >= WIDE_SIGN_BIT {
                b < a
            } else {
                a != 0 || b != 0
            }
        } else {
            if rhs.bits >= WIDE_SIGN_BIT {
                false
            } else {
                a < b
            }
        }
    }

    /// The binary64 comparison `self == rhs`.
    pub fn eq_number(self, rhs: Wide) -> (r: bool)
        ensures
            r == self.same_number(rhs),
    {
        if self.is_nan() || rhs.is_nan() {
            return false;
        }
        let a: u64 = self.abs_bits();
        let b: u64 = rhs.abs_bits();
        proof {
            lemma_wide_magnitude_order(self, rhs);
            lemma_wide_zero_magnitude(self);
            lemma_wide_zero_magnitude(rhs);
        }
        if a == 0 && b == 0 {
            true
        } else {
            self.bits == rhs.bits
        }
    }

    /// Clears the sign bit: the exact absolute value of binary64.
    pub fn abs(self) -> (r: Wide)
        ensures
            r == self.magnitude(),
            r.scaled() == self.scaled_magnitude(),
            r.nan() == self.nan(),
    {
        Wide { bits: self.abs_bits() }
    }
}

/// The scaled magnitude is zero exactly for the two zeros, and never negative.
pub proof fn lemma_wide_zero_magnitude(x: Wide)
    ensures
        x.scaled_magnitude() >= 0,
        x.scaled_magnitude() == 0 <==> x.magnitude_bits() == 0,
{
    lemma_weight_is_zero_for_zero_only(x.exponent(), x.fraction(), WIDE_HIDDEN_BIT as int);
}

/// Patterns and numbers agree on the order of magnitudes, in both directions.
pub proof fn lemma_wide_magnitude_order(x: Wide, y: Wide)
    ensures
        x.magnitude_bits() < y.magnitude_bits() <==> x.scaled_magnitude() < y.scaled_magnitude(),
        x.magnitude_bits() == y.magnitude_bits() <==> x.scaled_magnitude() == y.scaled_magnitude(),
{
    let h: int = WIDE_HIDDEN_BIT as int;
    if x.magnitude_bits() < y.magnitude_bits() {
        lemma_weight_increases(x.exponent(), x.fraction(), y.exponent(), y.fraction(), h);
    } else if y.magnitude_bits() < x.magnitude_bits() {
        lemma_weight_increases(y.exponent(), y.fraction(), x.exponent(), x.fraction(), h);
    }
}

} // verus!
