//! Fixed-point scalars: `i64` values carrying six decimal places.
//!
//! One whole unit is [`FX_ONE`].  Sums saturate at the `i64` range and
//! products scale back by one unit with the quotient rounded toward minus
//! infinity, so every operation is total and has an exact specification.

use vstd::prelude::*;

verus! {

/// One whole unit: fixed-point values carry six decimal places.
pub const FX_ONE: i64 = 1_000_000;

/// Clips a mathematical integer into the range of `i64`.
pub open spec fn sat64(x: int) -> int {
    if x > i64::MAX {
        i64::MAX as int
    } else if x < i64::MIN {
        i64::MIN as int
    } else {
        x
    }
}

/// Fixed-point product: the wide product scaled back by one unit, the
/// quotient rounded toward minus infinity, clipped into `i64`.
pub open spec fn fx_mul_spec(a: int, b: int) -> int {
    sat64((a * b) / (FX_ONE as int))
}

/// Saturating sum.
pub open spec fn fx_add_spec(a: int, b: int) -> int {
    sat64(a + b)
}

/// Saturating negation (the minimum maps to the maximum).
pub open spec fn fx_neg_spec(a: int) -> int {
    sat64(-a)
}

/// `x` forced into `[lo, hi]`.
pub open spec fn clamp_spec(x: int, lo: int, hi: int) -> int {
    if x < lo {
        lo
    } else if x > hi {
        hi
    } else {
        x
    }
}

/// A product with a factor inside one fixed-point unit cannot grow in
/// magnitude: if `|b|` is at most one unit and `|a| <= bound`, the scaled
/// product stays within `bound`.
pub proof fn lemma_fx_mul_bound(a: int, b: int, bound: int)
    requires
        -1_000_000 <= b <= 1_000_000,
        0 <= bound,
        -bound <= a <= bound,
    ensures
        -bound <= fx_mul_spec(a, b) <= bound,
{
    assert(-(bound * 1_000_000) <= a * b <= bound * 1_000_000) by (nonlinear_arith)
        requires
            -1_000_000 <= b <= 1_000_000,
            0 <= bound,
            -bound <= a <= bound,
    ;
    vstd::arithmetic::div_mod::lemma_div_is_ordered(a * b, 1_000_000 * bound, 1_000_000);
    vstd::arithmetic::div_mod::lemma_div_is_ordered(1_000_000 * -bound, a * b, 1_000_000);
    vstd::arithmetic::div_mod::lemma_div_multiples_vanish(bound, 1_000_000);
    vstd::arithmetic::div_mod::lemma_div_multiples_vanish(-bound, 1_000_000);
}

/// Scaling one whole unit by `b` gives back `b`, and scaling zero gives zero.
pub proof fn lemma_fx_mul_unit(b: int)
    requires
        i64::MIN <= b <= i64::MAX,
    ensures
        fx_mul_spec(1_000_000, b) == b,
        fx_mul_spec(b, 1_000_000) == b,
        fx_mul_spec(0, b) == 0,
        fx_mul_spec(b, 0) == 0,
{
    vstd::arithmetic::div_mod::lemma_div_multiples_vanish(b, 1_000_000);
    assert(1_000_000 * b == b * 1_000_000) by (nonlinear_arith);
    vstd::arithmetic::div_mod::lemma_div_of0(1_000_000);
    assert(0 * b == 0) by (nonlinear_arith);
    assert(b * 0 == 0) by (nonlinear_arith);
}

fn clip64(x: i128) -> (r: i64)
    ensures
        r as int == sat64(x as int),
{
    if x > i64::MAX as i128 {
        i64::MAX
    } else if x < i64::MIN as i128 {
        i64::MIN
    } else {
        x as i64
    }
}

/// Fixed-point product of two scalars.
pub fn fx_mul(a: i64, b: i64) -> (r: i64)
    ensures
        r as int == fx_mul_spec(a as int, b as int),
{
    proof {
        assert((a as int) * (b as int) <= i128::MAX && i128::MIN <= (a as int) * (b as int))
            by (nonlinear_arith)
            requires
                i64::MIN <= a <= i64::MAX,
                i64::MIN <= b <= i64::MAX,
        ;
    }
    let p: i128 = (a as i128) * (b as i128);
    let q: i128 = p.checked_div_euclid(1_000_000).unwrap();
    clip64(q)
}

/// Saturating sum of two scalars.
pub fn fx_add(a: i64, b: i64) -> (r: i64)
    ensures
        r as int == fx_add_spec(a as int, b as int),
{
    let s: i128 = (a as i128) + (b as i128);
    clip64(s)
}

/// Saturating negation of a scalar.
pub fn fx_neg(a: i64) -> (r: i64)
    ensures
        r as int == fx_neg_spec(a as int),
{
    if a == i64::MIN {
        i64::MAX
    } else {
        -a
    }
}

/// `x` forced into `[lo, hi]`.
pub fn fx_clamp(x: i64, lo: i64, hi: i64) -> (r: i64)
    requires
        lo <= hi,
    ensures
        r as int == clamp_spec(x as int, lo as int, hi as int),
{
    if x < lo {
        lo
    } else if x > hi {
        hi
    } else {
        x
    }
}

} // verus!
