use windcore::fixed::{fx_add, fx_clamp, fx_mul, fx_neg};
use windcore::trig::{cos_fx, sin_fx, wrap360};

#[test]
fn fx_mul_scales_back_by_one_unit() {
    // 2.5 * 4.0 == 10.0 in fixed point.
    assert_eq!(fx_mul(2_500_000, 4_000_000), 10_000_000);
    assert_eq!(fx_mul(1_000_000, 123), 123);
    assert_eq!(fx_mul(0, 987_654_321), 0);
}

#[test]
fn fx_mul_rounds_toward_minus_infinity() {
    // (-1 * 1) / 1_000_000 floors to -1.
    assert_eq!(fx_mul(-1, 1), -1);
    assert_eq!(fx_mul(1, 1), 0);
}

#[test]
fn fx_mul_saturates_at_the_i64_range() {
    assert_eq!(fx_mul(i64::MAX, 2_000_000), i64::MAX);
    assert_eq!(fx_mul(i64::MAX, -2_000_000), i64::MIN);
}

#[test]
fn fx_add_saturates_at_the_i64_range() {
    assert_eq!(fx_add(i64::MAX, 1), i64::MAX);
    assert_eq!(fx_add(i64::MIN, -1), i64::MIN);
    assert_eq!(fx_add(40, 2), 42);
}

#[test]
fn fx_neg_maps_the_minimum_to_the_maximum() {
    assert_eq!(fx_neg(i64::MIN), i64::MAX);
    assert_eq!(fx_neg(7), -7);
    assert_eq!(fx_neg(-7), 7);
}

#[test]
fn fx_clamp_forces_into_range() {
    assert_eq!(fx_clamp(100, -5, 5), 5);
    assert_eq!(fx_clamp(-100, -5, 5), -5);
    assert_eq!(fx_clamp(3, -5, 5), 3);
}

#[test]
fn wrap360_reduces_angles_to_one_turn() {
    assert_eq!(wrap360(0), 0);
    assert_eq!(wrap360(360_000_000), 0);
    assert_eq!(wrap360(-90_000_000), 270_000_000);
    assert_eq!(wrap360(725_000_000), 5_000_000);
    assert_eq!(wrap360(-725_000_000), 355_000_000);
}

#[test]
fn sine_is_exact_at_key_angles() {
    assert_eq!(sin_fx(0), 0);
    assert_eq!(sin_fx(30_000_000), 500_000);
    assert_eq!(sin_fx(90_000_000), 1_000_000);
    assert_eq!(sin_fx(150_000_000), 500_000);
    assert_eq!(sin_fx(180_000_000), 0);
    assert_eq!(sin_fx(270_000_000), -1_000_000);
    assert_eq!(sin_fx(-90_000_000), -1_000_000);
}

#[test]
fn cosine_is_the_sine_a_quarter_turn_ahead() {
    assert_eq!(cos_fx(0), 1_000_000);
    assert_eq!(cos_fx(90_000_000), 0);
    assert_eq!(cos_fx(60_000_000), 500_000);
    assert_eq!(cos_fx(180_000_000), -1_000_000);
    assert_eq!(cos_fx(270_000_000), 0);
}

#[test]
fn sine_forty_five_degrees_value() {
    // Bhaskara's approximation at 45 degrees: 705882 millionths.
    assert_eq!(sin_fx(45_000_000), 705_882);
}

#[test]
fn sine_stays_within_one_unit() {
    let mut a: i64 = -720_000_000;
    while a <= 720_000_000 {
        let s = sin_fx(a);
        let c = cos_fx(a);
        assert!(-1_000_000 <= s && s <= 1_000_000);
        assert!(-1_000_000 <= c && c <= 1_000_000);
        a += 7_345_678;
    }
}
