//! The numbers behind the patterns of an IEEE-754 binary format.
//!
//! A pattern without its sign bit splits into a biased exponent and a
//! fraction. The number it stands for is the fraction, or past exponent zero
//! the fraction with an implicit leading bit, times a power of two. Counted
//! in units of the smallest subnormal of the format, that number is an
//! integer: the weight of the pattern. The formats differ in the widths of
//! the two fields only, so what is proved of weights here holds of binary32
//! and binary64 alike.

use vstd::prelude::*;
use vstd::arithmetic::power2::*;

verus! {

/// The magnitude of the number with the given exponent field and fraction, in
/// units of the smallest subnormal. `hidden` is the implicit leading bit: two
/// to the width of the fraction.
///
/// For a finite number this is exactly its absolute value in those units. The
/// same formula puts infinity, where the exponent field is all ones and the
/// fraction zero, above every finite number, which is where the order of the
/// format puts it.
pub open spec fn weight(exponent: int, fraction: int, hidden: int) -> int {
    if exponent <= 0 {
        fraction
    } else {
        (fraction + hidden) * pow2((exponent - 1) as nat)
    }
}

/// A weight is zero for exponent zero and fraction zero, and positive
/// otherwise.
pub proof fn lemma_weight_is_zero_for_zero_only(exponent: int, fraction: int, hidden: int)
    requires
        0 <= exponent,
        0 <= fraction < hidden,
    ensures
        weight(exponent, fraction, hidden) >= 0,
        weight(exponent, fraction, hidden) == 0 <==> exponent == 0 && fraction == 0,
{
    if exponent > 0 {
        let s: int = fraction + hidden;
        let p: int = pow2((exponent - 1) as nat) as int;
        lemma_pow2_pos((exponent - 1) as nat);
        assert(s * p > 0) by (nonlinear_arith)
            requires
                s > 0,
                p > 0,
        ;
    }
}

/// Weights grow with the pattern: with the exponent, and within one exponent
/// with the fraction.
pub proof fn lemma_weight_increases(
    exponent1: int,
    fraction1: int,
    exponent2: int,
    fraction2: int,
    hidden: int,
)
    requires
        0 <= exponent1,
        0 <= fraction1 < hidden,
        0 <= fraction2 < hidden,
        exponent1 < exponent2 || (exponent1 == exponent2 && fraction1 < fraction2),
    ensures
        weight(exponent1, fraction1, hidden) < weight(exponent2, fraction2, hidden),
{
    if exponent1 == exponent2 {
        if exponent1 > 0 {
            // The same binade: the significands decide.
            let p: int = pow2((exponent1 - 1) as nat) as int;
            lemma_pow2_pos((exponent1 - 1) as nat);
            assert((fraction1 + hidden) * p < (fraction2 + hidden) * p) by (nonlinear_arith)
                requires
                    fraction1 < fraction2,
                    p > 0,
            ;
        }
    } else {
        let s2: int = fraction2 + hidden;
        let p2: int = pow2((exponent2 - 1) as nat) as int;
        lemma_pow2_pos((exponent2 - 1) as nat);
        if exponent1 == 0 {
            // A subnormal lies below the implicit bit, and every normal
            // number at or above it.
            assert(s2 * p2 >= hidden) by (nonlinear_arith)
                requires
                    s2 >= hidden,
                    hidden > 0,
                    p2 >= 1,
            ;
        } else {
            // One binade higher, the smallest significand outweighs the
            // largest one of the binade below.
            let s1: int = fraction1 + hidden;
            let p1: int = pow2((exponent1 - 1) as nat) as int;
            lemma_pow2_pos((exponent1 - 1) as nat);
            lemma_pow2_unfold(exponent1 as nat);
            if exponent1 < exponent2 - 1 {
                lemma_pow2_strictly_increases(exponent1 as nat, (exponent2 - 1) as nat);
            }
            assert(s1 * p1 < s2 * p2) by (nonlinear_arith)
                requires
                    0 < s1 < 2 * hidden,
                    s2 >= hidden,
                    p1 > 0,
                    2 * p1 <= p2,
            ;
        }
    }
}

} // verus!
