use sky_gradient::fixed::{
    channel_unit, halve, lerp, mul_saturating, ratio, span_ratio, HALF, ONE,
};

#[test]
fn ratio_rounds_down() {
    assert_eq!(ratio(1, 3), 21845);
    assert_eq!(ratio(2, 3), 43690);
    assert_eq!(ratio(3, 3), ONE);
    assert_eq!(ratio(0, 7), 0);
    assert_eq!(ratio(u32::MAX, 1), (u32::MAX as i64) * 65536);
}

#[test]
fn halve_rounds_towards_negative_infinity() {
    assert_eq!(halve(7), 3);
    assert_eq!(halve(-7), -4);
    assert_eq!(halve(-8), -4);
    assert_eq!(halve(0), 0);
    assert_eq!(halve(i64::MIN), i64::MIN / 2);
    assert_eq!(halve(i64::MAX), i64::MAX / 2);
}

#[test]
fn mul_keeps_inside_the_range() {
    assert_eq!(mul_saturating(ONE, ONE), ONE);
    assert_eq!(mul_saturating(HALF, HALF), ONE / 4);
    assert_eq!(mul_saturating(3 * ONE, -2 * ONE), -6 * ONE);
    // -1/65536 times one half is -1/131072, which rounds down to -1/65536
    assert_eq!(mul_saturating(-1, HALF), -1);
    assert_eq!(mul_saturating(i64::MAX, i64::MAX), i64::MAX);
    assert_eq!(mul_saturating(i64::MAX, i64::MIN), i64::MIN);
    assert_eq!(mul_saturating(i64::MIN, i64::MIN), i64::MAX);
}

#[test]
fn lerp_meets_its_ends() {
    assert_eq!(lerp(10, 20, 0), 10);
    assert_eq!(lerp(10, 20, ONE), 20);
    assert_eq!(lerp(10, 20, HALF), 15);
    assert_eq!(lerp(20, 10, HALF), 15);
    // a quarter of the way down from 3 to 0 is 2.25, rounded down
    assert_eq!(lerp(3, 0, ONE / 4), 2);
    assert_eq!(lerp(0, 3, ONE / 4), 0);
    assert_eq!(lerp(i64::MIN, i64::MAX, ONE), i64::MAX);
    assert_eq!(lerp(i64::MAX, i64::MIN, ONE), i64::MIN);
    assert_eq!(lerp(i64::MIN, i64::MAX, HALF), -1);
}

#[test]
fn span_ratio_is_limited_to_the_unit_interval() {
    assert_eq!(span_ratio(5, 0, 10), HALF);
    assert_eq!(span_ratio(10, 0, 10), ONE);
    assert_eq!(span_ratio(0, 0, 10), 0);
    assert_eq!(span_ratio(-5, 0, 10), 0);
    assert_eq!(span_ratio(25, 0, 10), ONE);
    assert_eq!(span_ratio(1, 0, 3), 21845);
    assert_eq!(span_ratio(0, i64::MIN, i64::MAX), HALF);
}

#[test]
fn channels_become_fractions() {
    assert_eq!(channel_unit(0), 0);
    assert_eq!(channel_unit(255), ONE);
    assert_eq!(channel_unit(128), 128 * 65536 / 255);
    assert_eq!(channel_unit(1), 257);
    assert!((channel_unit(200) as f32 / ONE as f32 - 200.0 / 255.0).abs() < 1.0 / 65536.0);
}
