use xosa_controller::fixed::clamp_mag;
use xosa_controller::fixed::fx_div;
use xosa_controller::fixed::fx_mul;
use xosa_controller::fixed::half;
use xosa_controller::fixed::mul_div;
use xosa_controller::fixed::sat_add;
use xosa_controller::fixed::sat_sub;
use xosa_controller::fixed::FX_ONE;

#[test]
fn addition_and_subtraction_saturate() {
    assert_eq!(sat_add(1, 2), 3);
    assert_eq!(sat_add(i64::MAX, 1), i64::MAX);
    assert_eq!(sat_add(i64::MIN, -1), i64::MIN);
    assert_eq!(sat_sub(1, 2), -1);
    assert_eq!(sat_sub(i64::MIN, 1), i64::MIN);
    assert_eq!(sat_sub(i64::MAX, -1), i64::MAX);
}

#[test]
fn fixed_point_products_are_exact() {
    assert_eq!(FX_ONE, 1000);
    // 2.0 * 3.0 == 6.0
    assert_eq!(fx_mul(2000, 3000), 6000);
    assert_eq!(fx_mul(-2000, 3000), -6000);
    // 1.5 * 1.5 == 2.25
    assert_eq!(fx_mul(1500, 1500), 2250);
    assert_eq!(fx_mul(0, 123456), 0);
    // saturation instead of overflow
    assert_eq!(fx_mul(i64::MAX, 2000), i64::MAX);
    assert_eq!(fx_mul(i64::MAX, -2000), i64::MIN);
}

#[test]
fn division_truncates_toward_zero() {
    assert_eq!(half(7), 3);
    assert_eq!(half(-7), -3);
    assert_eq!(mul_div(-7, 1, 2), -3);
    // 2.0 / 1.0 == 2.0
    assert_eq!(fx_div(2000, 1000), 2000);
    // -1.0 / 3.0 == -0.333...
    assert_eq!(fx_div(-1000, 3000), -333);
}

#[test]
fn clamping_to_a_magnitude() {
    assert_eq!(clamp_mag(5, 3), 3);
    assert_eq!(clamp_mag(-5, 3), -3);
    assert_eq!(clamp_mag(2, 3), 2);
    assert_eq!(clamp_mag(-2, 3), -2);
    // a negative bound behaves as a bound of zero
    assert_eq!(clamp_mag(5, -1), 0);
    assert_eq!(clamp_mag(-5, -1), 0);
}
