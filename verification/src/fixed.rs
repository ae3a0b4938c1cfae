//! Truncating fixed-point division.
//!
//! Every product of fixed-point values in this crate is brought back to
//! scale by dividing and rounding toward zero, the same direction a float
//! cast to an integer rounds.  Ghost-code `/` on `int` is Euclidean, so the
//! truncating rule is defined here once, with the lemmas the rest of the
//! crate needs, and one executable division routine proved against it.

use vstd::arithmetic::div_mod::{
    lemma_div_is_ordered, lemma_div_multiples_vanish, lemma_div_nonincreasing, lemma_div_of0,
    lemma_div_pos_is_pos, lemma_fundamental_div_mod, lemma_fundamental_div_mod_converse,
    lemma_mod_division_less_than_divisor,
};
use vstd::prelude::*;

verus! {

/// Number of fixed-point units in 1.0: signal levels, durations and
/// amplitudes are all carried as multiples of 1e-9.
pub const SCALE: i64 = 1_000_000_000;

/// Division rounded toward zero.  Agrees with Euclidean division for a
/// non-negative dividend; for a negative one it rounds up instead of down.
pub open spec fn tdiv(a: int, d: int) -> int
    recommends
        0 < d,
{
    if a >= 0 {
        a / d
    } else {
        -((-a) / d)
    }
}

/// Truncating division is an odd function of the dividend.
pub proof fn lemma_tdiv_neg(a: int, d: int)
    requires
        0 < d,
    ensures
        tdiv(-a, d) == -tdiv(a, d),
{
    lemma_div_of0(d);
}

/// A dividend between two multiples of the divisor has its truncated
/// quotient between the two factors.
pub proof fn lemma_tdiv_bounds(a: int, d: int, lo: int, hi: int)
    requires
        0 < d,
        lo <= 0,
        0 <= hi,
        d * lo <= a,
        a <= d * hi,
    ensures
        lo <= tdiv(a, d) <= hi,
{
    if a >= 0 {
        lemma_div_pos_is_pos(a, d);
        lemma_div_is_ordered(a, d * hi, d);
        lemma_div_multiples_vanish(hi, d);
    } else {
        lemma_div_pos_is_pos(-a, d);
        assert(d * (-lo) == -(d * lo)) by (nonlinear_arith);
        lemma_div_is_ordered(-a, d * (-lo), d);
        lemma_div_multiples_vanish(-lo, d);
    }
}

/// Truncating division preserves order on non-negative dividends.
pub proof fn lemma_tdiv_ordered_nonneg(x: int, y: int, d: int)
    requires
        0 <= x <= y,
        0 < d,
    ensures
        tdiv(x, d) <= tdiv(y, d),
{
    lemma_div_is_ordered(x, y, d);
}

/// Doubling a non-negative dividend doubles the truncated quotient, or
/// overshoots it by exactly one when the remainder carries.
proof fn lemma_tdiv_double_nonneg(a: int, d: int)
    requires
        0 <= a,
        0 < d,
    ensures
        2 * tdiv(a, d) <= tdiv(2 * a, d) <= 2 * tdiv(a, d) + 1,
{
    lemma_fundamental_div_mod(a, d);
    lemma_mod_division_less_than_divisor(a, d);
    let q: int = a / d;
    let r: int = a % d;
    assert(2 * a == d * (2 * q) + 2 * r) by (nonlinear_arith)
        requires
            a == d * q + r,
    ;
    if 2 * r < d {
        lemma_fundamental_div_mod_converse(2 * a, d, 2 * q, 2 * r);
    } else {
        assert(2 * a == d * (2 * q + 1) + (2 * r - d)) by (nonlinear_arith)
            requires
                2 * a == d * (2 * q) + 2 * r,
        ;
        lemma_fundamental_div_mod_converse(2 * a, d, 2 * q + 1, 2 * r - d);
    }
    lemma_div_pos_is_pos(a, d);
    lemma_div_pos_is_pos(2 * a, d);
}

/// Doubling the dividend doubles the truncated quotient to within one unit.
pub proof fn lemma_tdiv_double(a: int, d: int)
    requires
        0 < d,
    ensures
        2 * tdiv(a, d) - 1 <= tdiv(2 * a, d) <= 2 * tdiv(a, d) + 1,
{
    if a >= 0 {
        lemma_tdiv_double_nonneg(a, d);
    } else {
        lemma_tdiv_double_nonneg(-a, d);
        lemma_tdiv_neg(a, d);
        lemma_tdiv_neg(2 * a, d);
        assert(-(2 * a) == 2 * (-a));
    }
}

/// Executable division of an `i128` by a positive divisor, rounding toward
/// zero, computed through unsigned division on magnitudes.
pub fn tdiv_i128(a: i128, d: i128) -> (r: i128)
    requires
        0 < d,
        i128::MIN < a,
    ensures
        r as int == tdiv(a as int, d as int),
{
    if a >= 0 {
        let m: u128 = a as u128;
        let q: u128 = m / (d as u128);
        proof {
            lemma_div_pos_is_pos(a as int, d as int);
            lemma_div_nonincreasing(a as int, d as int);
        }
        q as i128
    } else {
        let m: u128 = (-a) as u128;
        let q: u128 = m / (d as u128);
        proof {
            lemma_div_pos_is_pos(-a as int, d as int);
            lemma_div_nonincreasing(-a as int, d as int);
        }
        -(q as i128)
    }
}

} // verus!
