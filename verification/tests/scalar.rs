use eulerian_fluid::scalar::{
    clamp, from_int, fx_add, fx_div, fx_mul, fx_sub, isqrt, lerp, saturate, HALF, ONE,
};

#[test]
fn one_is_two_to_the_sixteenth() {
    assert_eq!(ONE, 65536);
    assert_eq!(HALF * 2, ONE);
    assert_eq!(from_int(3), 3 * 65536);
    assert_eq!(from_int(-2), -131072);
}

#[test]
fn from_int_saturates() {
    assert_eq!(from_int(i64::MAX), i64::MAX);
    assert_eq!(from_int(i64::MIN), i64::MIN);
}

#[test]
fn saturate_clips_to_the_range_of_a_scalar() {
    assert_eq!(saturate(5), 5);
    assert_eq!(saturate(i64::MAX as i128 + 1), i64::MAX);
    assert_eq!(saturate(i64::MIN as i128 - 1), i64::MIN);
}

#[test]
fn sum_and_difference_saturate() {
    assert_eq!(fx_add(ONE, HALF), 98304);
    assert_eq!(fx_sub(ONE, HALF), HALF);
    assert_eq!(fx_add(i64::MAX, 1), i64::MAX);
    assert_eq!(fx_sub(i64::MIN, 1), i64::MIN);
}

#[test]
fn product_rounds_toward_zero() {
    // 1.5 * 2.5 = 3.75
    assert_eq!(fx_mul(98304, 163840), 245760);
    // raw 3 * raw 1 / 65536 = 0.00004.. -> 0, for both signs
    assert_eq!(fx_mul(3, 1), 0);
    assert_eq!(fx_mul(-3, 1), 0);
    // -1.5 * 0.5 = -0.75
    assert_eq!(fx_mul(-98304, HALF), -49152);
    assert_eq!(fx_mul(i64::MAX, i64::MAX), i64::MAX);
    assert_eq!(fx_mul(i64::MIN, i64::MAX), i64::MIN);
}

#[test]
fn quotient_rounds_toward_zero() {
    // 1 / 4 = 0.25
    assert_eq!(fx_div(ONE, 4 * ONE), 16384);
    // 1 / 3 = 0.33333..
    assert_eq!(fx_div(ONE, 3 * ONE), 21845);
    assert_eq!(fx_div(-ONE, 3 * ONE), -21845);
    assert_eq!(fx_div(i64::MAX, 1), i64::MAX);
}

#[test]
fn lerp_blends() {
    assert_eq!(lerp(0, 4 * ONE, HALF), 2 * ONE);
    assert_eq!(lerp(7, 7, 12345), 7);
    assert_eq!(lerp(ONE, 3 * ONE, 0), ONE);
    assert_eq!(lerp(ONE, 3 * ONE, ONE), 3 * ONE);
    assert_eq!(lerp(10, 0, 1), 10);
    assert_eq!(lerp(i64::MIN, i64::MAX, ONE), i64::MAX);
}

#[test]
fn clamp_limits() {
    assert_eq!(clamp(5, 0, 10), 5);
    assert_eq!(clamp(-5, 0, 10), 0);
    assert_eq!(clamp(15, 0, 10), 10);
}

#[test]
fn isqrt_is_the_floor_of_the_root() {
    assert_eq!(isqrt(0), 0);
    assert_eq!(isqrt(1), 1);
    assert_eq!(isqrt(15), 3);
    assert_eq!(isqrt(16), 4);
    assert_eq!(isqrt(17), 4);
    assert_eq!(isqrt(u128::MAX), u64::MAX);
    assert_eq!(isqrt(1u128 << 64), 1u64 << 32);
}
