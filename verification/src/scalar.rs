//! IEEE-754 binary32 numbers held by their bit patterns.
//!
//! Verified code never computes with these numbers; it stores them, hands them
//! to the numeric kernel, and classifies and compares them. Classification and
//! comparison are exact on the bit pattern, and are specified here against the
//! real number that a pattern stands for.

use vstd::prelude::*;
use crate::ieee::{lemma_weight_increases, lemma_weight_is_zero_for_zero_only, weight};

verus! {

/// The sign bit of a binary32 pattern.
pub const SIGN_BIT: u32 = 0x8000_0000;

/// The pattern of positive infinity; every larger magnitude is a NaN.
pub const INFINITY_BITS: u32 = 0x7f80_0000;

/// Two to the 23rd: the weight of the exponent field, and the implicit
/// leading bit of a normal significand.
pub const HIDDEN_BIT: u32 = 0x0080_0000;

/// The pattern of pi rounded to binary32. The rounding goes up
/// (`3.14159274...`), and no binary32 number lies between pi and this one, so
/// a scalar is below pi exactly when it is below this.
pub const PI_BITS: u32 = 0x4049_0fdb;

/// A binary32 number, identified with its bit pattern.
///
/// `==` on two scalars compares patterns, so it tells `0.0` from `-0.0` and
/// equates a NaN with itself; [`Scalar::same_number`] is the numeric equality.
#[derive(Clone, Copy, Debug, PartialEq, Eq, Structural)]
pub struct Scalar {
    pub bits: u32,
}

impl Scalar {
    /// The sign bit is set (also true of `-0.0` and of NaNs with the bit set).
    pub open spec fn negative(self) -> bool {
        self.bits >= SIGN_BIT
    }

    /// The pattern without its sign bit.
    pub open spec fn magnitude_bits(self) -> int {
        if self.bits >= SIGN_BIT {
            self.bits - SIGN_BIT
        } else {
            self.bits as int
        }
    }

    /// Not a number: the exponent field is all ones and the fraction is not
    /// zero.
    pub open spec fn nan(self) -> bool {
        self.magnitude_bits() > INFINITY_BITS
    }

    /// Zero, subnormal or normal.
    pub open spec fn finite(self) -> bool {
        self.magnitude_bits() < INFINITY_BITS
    }

    /// The biased exponent field, in `0..=255`.
    pub open spec fn exponent(self) -> int {
        self.magnitude_bits() / (HIDDEN_BIT as int)
    }

    /// The fraction field, in `0..2^23`.
    pub open spec fn fraction(self) -> int {
        self.magnitude_bits() % (HIDDEN_BIT as int)
    }

    /// The absolute value in units of `2^-149`, the smallest subnormal.
    ///
    /// For a finite scalar this is exactly `|x| * 2^149`. The infinities come
    /// out at `2^277`, above every finite value.
    pub open spec fn scaled_magnitude(self) -> int {
        weight(self.exponent(), self.fraction(), HIDDEN_BIT as int)
    }

    /// The value in units of `2^-149`: for a finite scalar, exactly `x * 2^149`.
    pub open spec fn scaled(self) -> int {
        if self.negative() {
            -self.scaled_magnitude()
        } else {
            self.scaled_magnitude()
        }
    }

    /// `self < rhs` as binary32 orders them: false when either is a NaN,
    /// otherwise the order of the values.
    pub open spec fn less_than(self, rhs: Scalar) -> bool {
        !self.nan() && !rhs.nan() && self.scaled() < rhs.scaled()
    }

    /// `self == rhs` as binary32 numbers: false when either is a NaN,
    /// otherwise equality of the values (so `0.0` equals `-0.0`).
    pub open spec fn same_number(self, rhs: Scalar) -> bool {
        !self.nan() && !rhs.nan() && self.scaled() == rhs.scaled()
    }

    /// A number greater than zero, positive infinity included.
    pub open spec fn positive(self) -> bool {
        !self.nan() && self.scaled() > 0
    }

    /// A finite number greater than zero.
    pub open spec fn positive_finite(self) -> bool {
        self.finite() && self.scaled() > 0
    }

    /// The scalar without its sign bit: the absolute value, and for a NaN
    /// the NaN with the sign bit clear.
    pub open spec fn magnitude(self) -> Scalar {
        Scalar { bits: self.magnitude_bits() as u32 }
    }

    /// Pi, as near as binary32 has it.
    pub open spec fn pi() -> Scalar {
        Scalar { bits: PI_BITS }
    }

    /// The scalar with the opposite sign bit.
    pub open spec fn negated(self) -> Scalar {
        if self.bits >= SIGN_BIT {
            Scalar { bits: (self.bits - SIGN_BIT) as u32 }
        } else {
            Scalar { bits: (self.bits + SIGN_BIT) as u32 }
        }
    }

    /// The scalar with the given pattern.
    pub fn from_bits(bits: u32) -> (s: Scalar)
        ensures
            s.bits == bits,
    {
        Scalar { bits }
    }

    /// The pattern of this scalar.
    pub fn to_bits(self) -> (bits: u32)
        ensures
            bits == self.bits,
    {
        self.bits
    }

    fn abs_bits(self) -> (m: u32)
        ensures
            m == self.magnitude_bits(),
    {
        if self.bits >= SIGN_BIT {
            self.bits - SIGN_BIT
        } else {
            self.bits
        }
    }

    /// Whether this is a NaN.
    pub fn is_nan(self) -> (r: bool)
        ensures
            r == self.nan(),
    {
        self.abs_bits() > INFINITY_BITS
    }

    /// Whether this is a finite number.
    pub fn is_finite(self) -> (r: bool)
        ensures
            r == self.finite(),
    {
        self.abs_bits() < INFINITY_BITS
    }

    /// Whether this is a number greater than zero.
    pub fn is_positive(self) -> (r: bool)
        ensures
            r == self.positive(),
    {
        proof {
            lemma_zero_magnitude(self);
        }
        0 < self.bits && self.bits <= INFINITY_BITS
    }

    /// Whether this is a finite number greater than zero.
    pub fn is_positive_finite(self) -> (r: bool)
        ensures
            r == self.positive_finite(),
    {
        proof {
            lemma_zero_magnitude(self);
        }
        0 < self.bits && self.bits < INFINITY_BITS
    }

    /// The binary32 comparison `self < rhs`.
    pub fn lt(self, rhs: Scalar) -> (r: bool)
        ensures
            r == self.less_than(rhs),
    {
        if self.is_nan() || rhs.is_nan() {
            return false;
        }
        let a: u32 = self.abs_bits();
        let b: u32 = rhs.abs_bits();
        proof {
            lemma_magnitude_order(self, rhs);
            lemma_zero_magnitude(self);
            lemma_zero_magnitude(rhs);
        }
        if self.bits >= SIGN_BIT {
            if rhs.bits >= SIGN_BIT {
                b < a
            } else {
                a != 0 || b != 0
            }
        } else {
            if rhs.bits >= SIGN_BIT {
                false
            } else {
                a < b
            }
        }
    }

    /// The binary32 comparison `self == rhs`.
    pub fn eq_number(self, rhs: Scalar) -> (r: bool)
        ensures
            r == self.same_number(rhs),
    {
        if self.is_nan() || rhs.is_nan() {
            return false;
        }
        let a: u32 = self.abs_bits();
        let b: u32 = rhs.abs_bits();
        proof {
            lemma_magnitude_order(self, rhs);
            lemma_zero_magnitude(self);
            lemma_zero_magnitude(rhs);
        }
        if a == 0 && b == 0 {
            true
        } else {
            self.bits == rhs.bits
        }
    }

    /// Clears the sign bit: the exact absolute value of binary32.
    pub fn abs(self) -> (r: Scalar)
        ensures
            r == self.magnitude(),
            r.scaled() == self.scaled_magnitude(),
            r.nan() == self.nan(),
    {
        Scalar { bits: self.abs_bits() }
    }

    /// Flips the sign bit: the exact negation of binary32, NaNs included.
    pub fn neg(self) -> (r: Scalar)
        ensures
            r == self.negated(),
            r.scaled() == -self.scaled(),
            r.nan() == self.nan(),
    {
        if self.bits >= SIGN_BIT {
            Scalar { bits: self.bits - SIGN_BIT }
        } else {
            Scalar { bits: self.bits + SIGN_BIT }
        }
    }
}

/// The scaled magnitude is zero exactly for the two zeros, and never negative.
pub proof fn lemma_zero_magnitude(x: Scalar)
    ensures
        x.scaled_magnitude() >= 0,
        x.scaled_magnitude() == 0 <==> x.magnitude_bits() == 0,
{
    lemma_weight_is_zero_for_zero_only(x.exponent(), x.fraction(), HIDDEN_BIT as int);
}

/// Patterns and numbers agree on the order of magnitudes, in both directions.
pub proof fn lemma_magnitude_order(x: Scalar, y: Scalar)
    ensures
        x.magnitude_bits() < y.magnitude_bits() <==> x.scaled_magnitude() < y.scaled_magnitude(),
        x.magnitude_bits() == y.magnitude_bits() <==> x.scaled_magnitude() == y.scaled_magnitude(),
{
    let h: int = HIDDEN_BIT as int;
    if x.magnitude_bits() < y.magnitude_bits() {
        lemma_weight_increases(x.exponent(), x.fraction(), y.exponent(), y.fraction(), h);
    } else if y.magnitude_bits() < x.magnitude_bits() {
        lemma_weight_increases(y.exponent(), y.fraction(), x.exponent(), x.fraction(), h);
    }
}

} // verus!
