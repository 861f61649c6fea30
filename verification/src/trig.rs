//! Fixed-point trigonometry on angles in microdegrees.
//!
//! The camera's basis vectors need a deterministic sine and cosine that stay
//! inside the fixed-point scale.  The library defines its sine by a rational
//! approximation (Bhaskara I's formula) evaluated exactly in integer
//! arithmetic: it is exact at every multiple of 30 degrees, stays within one
//! fixed-point unit everywhere, and has an exact specification, so every
//! consumer can reason about the value it returns.

use vstd::prelude::*;

verus! {

use vstd::arithmetic::div_mod::{
    lemma_div_is_ordered,
    lemma_div_is_ordered_by_denominator,
    lemma_div_pos_is_pos,
    lemma_div_by_multiple,
    lemma_fundamental_div_mod_converse,
    lemma_mod_division_less_than_divisor,
    lemma_add_mod_noop_right,
};
use vstd::math::abs;

/// A full turn in microdegrees.
pub const FULL_TURN: i64 = 360_000_000;

/// Half a turn in microdegrees.
pub const HALF_TURN: i64 = 180_000_000;

/// A quarter turn in microdegrees.
pub const QUARTER_TURN: i64 = 90_000_000;

/// Sine of `d` microdegrees for `0 <= d <= HALF_TURN`, in fixed-point units:
/// Bhaskara I's rational approximation, evaluated in exact integer
/// arithmetic.  With `p = d * (HALF_TURN - d)`, the value is
/// `4 * p * 1_000_000 / (40_500_000_000_000_000 - p)`.
pub open spec fn half_sine(d: int) -> int {
    let p = d * (180_000_000 - d);
    (4 * p * 1_000_000) / (40_500_000_000_000_000 - p)
}

/// An angle reduced to `[0, FULL_TURN)` microdegrees.
pub open spec fn wrap360_spec(x: int) -> int {
    x % 360_000_000
}

/// Sine of `x` microdegrees in fixed-point units: the reduced angle uses
/// [`half_sine`] on `[0, HALF_TURN]` and its negation on the second half turn.
pub open spec fn sin_udeg(x: int) -> int {
    let d = wrap360_spec(x);
    if d <= 180_000_000 {
        half_sine(d)
    } else {
        -half_sine(d - 180_000_000)
    }
}

/// Cosine of `x` microdegrees: the sine a quarter turn ahead.
pub open spec fn cos_udeg(x: int) -> int {
    sin_udeg(x + 90_000_000)
}

/// Reduces an angle in microdegrees to `[0, FULL_TURN)`.
pub fn wrap360(x: i64) -> (r: i64)
    ensures
        r as int == wrap360_spec(x as int),
        0 <= r < 360_000_000,
{
    proof {
        lemma_mod_division_less_than_divisor(x as int, 360_000_000int);
    }
    x.checked_rem_euclid(FULL_TURN).unwrap()
}

/// The product `d * (HALF_TURN - d)` that drives [`half_sine`]: it is largest
/// at the quarter turn and never negative on the half turn.
pub proof fn lemma_sine_product_bounds(d: int)
    requires
        0 <= d <= 180_000_000,
    ensures
        0 <= d * (180_000_000 - d) <= 8_100_000_000_000_000,
{
    assert(0 <= d * (180_000_000 - d) <= 8_100_000_000_000_000) by (nonlinear_arith)
        requires
            0 <= d <= 180_000_000,
    ;
}

/// [`half_sine`] stays within one fixed-point unit on its half turn.
pub proof fn lemma_half_sine_bounds(d: int)
    requires
        0 <= d <= 180_000_000,
    ensures
        0 <= half_sine(d) <= 1_000_000,
{
    lemma_sine_product_bounds(d);
    let p = d * (180_000_000 - d);
    let num = 4 * p * 1_000_000;
    let den = 40_500_000_000_000_000 - p;
    lemma_div_pos_is_pos(num, den);
    lemma_div_is_ordered(num, den * 1_000_000, den);
    lemma_div_by_multiple(1_000_000int, den);
}

/// A lower bound for [`half_sine`] from a lower bound on its driving
/// product: `bound` must be the scaled quotient taken at `pmin`.
pub proof fn lemma_half_sine_lower(d: int, pmin: int, bound: int)
    requires
        0 <= d <= 180_000_000,
        0 <= pmin <= d * (180_000_000 - d),
        bound == (4 * pmin * 1_000_000) / (40_500_000_000_000_000 - pmin),
    ensures
        half_sine(d) >= bound,
{
    lemma_sine_product_bounds(d);
    let p = d * (180_000_000 - d);
    let num = 4 * p * 1_000_000;
    let den = 40_500_000_000_000_000 - p;
    let num_min = 4 * pmin * 1_000_000;
    let den_max = 40_500_000_000_000_000 - pmin;
    lemma_div_is_ordered(num_min, num, den);
    lemma_div_is_ordered_by_denominator(num_min, den, den_max);
}

/// The sine of any angle stays within one fixed-point unit.
pub proof fn lemma_sin_bounds(x: int)
    ensures
        -1_000_000 <= sin_udeg(x) <= 1_000_000,
{
    lemma_mod_division_less_than_divisor(x, 360_000_000);
    let d = wrap360_spec(x);
    if d <= 180_000_000 {
        lemma_half_sine_bounds(d);
    } else {
        lemma_half_sine_bounds(d - 180_000_000);
    }
}

/// The cosine of any angle stays within one fixed-point unit.
pub proof fn lemma_cos_bounds(x: int)
    ensures
        -1_000_000 <= cos_udeg(x) <= 1_000_000,
{
    lemma_sin_bounds(x + 90_000_000);
}

fn half_sine_fx(d: i64) -> (r: i64)
    requires
        0 <= d <= 180_000_000,
    ensures
        r as int == half_sine(d as int),
        0 <= r <= 1_000_000,
{
    proof {
        lemma_sine_product_bounds(d as int);
        lemma_half_sine_bounds(d as int);
    }
    let di: i128 = d as i128;
    let p: i128 = di * (180_000_000 - di);
    let num: i128 = 4 * p * 1_000_000;
    let den: i128 = 40_500_000_000_000_000 - p;
    let r: i128 = num.checked_div_euclid(den).unwrap();
    r as i64
}

/// Fixed-point sine of an angle in microdegrees.
pub fn sin_fx(x: i64) -> (r: i64)
    ensures
        r as int == sin_udeg(x as int),
        -1_000_000 <= r <= 1_000_000,
{
    let d = wrap360(x);
    if d <= HALF_TURN {
        half_sine_fx(d)
    } else {
        let s = half_sine_fx(d - HALF_TURN);
        -s
    }
}

/// Law: inside the pitch clamp the cosine of the pitch is strictly positive
/// and bounded away from zero, so the view direction never becomes vertical:
/// one degree from the pole the cosine is still at least 17757 millionths.
pub proof fn lemma_cos_pitch_positive(pitch: int)
    requires
        -89_000_000 <= pitch <= 89_000_000,
    ensures
        cos_udeg(pitch) >= 17_757,
{
    let a = pitch + 90_000_000;
    lemma_fundamental_div_mod_converse(a, 360_000_000, 0, a);
    assert(a * (180_000_000 - a) >= 179_000_000_000_000) by (nonlinear_arith)
        requires
            1_000_000 <= a <= 179_000_000,
    ;
    lemma_fundamental_div_mod_converse(
        716_000_000_000_000_000_000,
        40_321_000_000_000_000,
        17_757,
        20_003_000_000_000_000,
    );
    lemma_half_sine_lower(a, 179_000_000_000_000, 17_757);
}

/// Law: whatever the yaw, the horizontal heading is bounded away from the
/// zero vector: its sine or its cosine is at least 705882 millionths in
/// magnitude (the sine's value 45 degrees from an axis).
pub proof fn lemma_heading_nonzero(yaw: int)
    ensures
        abs(sin_udeg(yaw)) >= 705_882 || abs(cos_udeg(yaw)) >= 705_882,
{
    lemma_mod_division_less_than_divisor(yaw, 360_000_000);
    lemma_add_mod_noop_right(90_000_000int, yaw, 360_000_000int);
    let m = wrap360_spec(yaw);
    if 45_000_000 <= m <= 135_000_000 {
        lemma_quarter_band_sine(m);
    } else if 225_000_000 <= m <= 315_000_000 {
        lemma_quarter_band_sine(m - 180_000_000);
    } else {
        let a = m + 90_000_000;
        if m < 45_000_000 {
            lemma_fundamental_div_mod_converse(a, 360_000_000, 0, a);
            lemma_quarter_band_sine(a);
        } else if m < 225_000_000 {
            lemma_fundamental_div_mod_converse(a, 360_000_000, 0, a);
            lemma_quarter_band_sine(a - 180_000_000);
        } else {
            lemma_fundamental_div_mod_converse(a, 360_000_000, 1, m - 270_000_000);
            lemma_quarter_band_sine(m - 270_000_000);
        }
    }
}

/// Within the quarter-turn band around the half turn's middle the half sine
/// is at least 705882 millionths.
proof fn lemma_quarter_band_sine(d: int)
    requires
        45_000_000 <= d <= 135_000_000,
    ensures
        half_sine(d) >= 705_882,
{
    assert(d * (180_000_000 - d) >= 6_075_000_000_000_000) by (nonlinear_arith)
        requires
            45_000_000 <= d <= 135_000_000,
    ;
    lemma_fundamental_div_mod_converse(
        24_300_000_000_000_000_000_000,
        34_425_000_000_000_000,
        705_882,
        12_150_000_000_000_000,
    );
    lemma_half_sine_lower(d, 6_075_000_000_000_000, 705_882);
}

/// Fixed-point cosine of an angle in microdegrees.
pub fn cos_fx(x: i64) -> (r: i64)
    ensures
        r as int == cos_udeg(x as int),
        -1_000_000 <= r <= 1_000_000,
{
    let d = wrap360(x);
    proof {
        lemma_add_mod_noop_right(90_000_000int, x as int, 360_000_000int);
    }
    sin_fx(d + QUARTER_TURN)
}

} // verus!
