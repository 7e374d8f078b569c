//! Tests of the fixed-point scalar, square-root, trigonometry and
//! vector helpers.

use orbit_camera::fixed::{clamp_fx, div_trunc, isqrt, mul_fx, SCALE};
use orbit_camera::trig::{cos_fx, sin_fx, HALF_PI_FX, PI_FX, TWO_PI_FX};
use orbit_camera::vector::{normalize_or_zero, Vec2Fx};

#[test]
fn mul_fx_scales_products() {
    // 2.5 * 2.0 == 5.0
    assert_eq!(mul_fx(2_500_000, 2_000_000), 5_000_000);
    // 1.5 * -2.0 == -3.0
    assert_eq!(mul_fx(1_500_000, -2_000_000), -3_000_000);
    assert_eq!(mul_fx(0, 123_456), 0);
}

#[test]
fn mul_fx_truncates_toward_zero() {
    assert_eq!(mul_fx(1, 1), 0);
    assert_eq!(mul_fx(-1, 1), 0);
    assert_eq!(mul_fx(999_999, 1), 0);
    assert_eq!(mul_fx(-999_999, 1), 0);
}

#[test]
fn div_trunc_rounds_toward_zero() {
    assert_eq!(div_trunc(7, 2), 3);
    assert_eq!(div_trunc(-7, 2), -3);
    assert_eq!(div_trunc(0, 5), 0);
}

#[test]
fn clamp_fx_pins_out_of_range_values() {
    assert_eq!(clamp_fx(5, 1, 10), 5);
    assert_eq!(clamp_fx(-5, 1, 10), 1);
    assert_eq!(clamp_fx(50, 1, 10), 10);
}

#[test]
fn isqrt_rounds_down() {
    assert_eq!(isqrt(0), 0);
    assert_eq!(isqrt(1), 1);
    assert_eq!(isqrt(2), 1);
    assert_eq!(isqrt(25_000_000_000_000), 5_000_000);
    // The inertia-activation displacement: floor(sqrt(0.29)) in micro
    // units.
    assert_eq!(isqrt(290_000_000_000), 538_516);
}

#[test]
fn trig_is_exact_at_zero() {
    assert_eq!(sin_fx(0), 0);
    assert_eq!(cos_fx(0), SCALE);
}

#[test]
fn trig_is_close_at_quarter_and_half_turns() {
    let s = sin_fx(HALF_PI_FX);
    assert!(s > 999_000 && s <= SCALE, "sin(pi/2) = {s}");
    let c = cos_fx(PI_FX);
    assert!(c < -999_000 && c >= -SCALE, "cos(pi) = {c}");
    let s2 = sin_fx(PI_FX);
    assert!(s2.abs() < 1_000, "sin(pi) = {s2}");
    let s3 = sin_fx(-HALF_PI_FX);
    assert!(s3 < -999_000 && s3 >= -SCALE, "sin(-pi/2) = {s3}");
}

#[test]
fn trig_reduces_by_whole_turns() {
    let a = 123_456;
    assert_eq!(sin_fx(a + TWO_PI_FX), sin_fx(a));
    assert_eq!(cos_fx(a - TWO_PI_FX), cos_fx(a));
    assert_eq!(sin_fx(-a), -sin_fx(a));
}

#[test]
fn normalize_of_zero_is_zero() {
    let r = normalize_or_zero(Vec2Fx { x: 0, y: 0 });
    assert_eq!(r.x, 0);
    assert_eq!(r.y, 0);
}

#[test]
fn normalize_scales_to_unit_length() {
    let r = normalize_or_zero(Vec2Fx { x: 3_000_000, y: 0 });
    assert_eq!(r.x, SCALE);
    assert_eq!(r.y, 0);
    let r2 = normalize_or_zero(Vec2Fx { x: 3_000_000, y: 4_000_000 });
    assert_eq!(r2.x, 600_000);
    assert_eq!(r2.y, 800_000);
    let r3 = normalize_or_zero(Vec2Fx { x: -3_000_000, y: 4_000_000 });
    assert_eq!(r3.x, -600_000);
    assert_eq!(r3.y, 800_000);
}
