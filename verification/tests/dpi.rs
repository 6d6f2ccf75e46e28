use gfx_device::gfx::dpi::{DpiScale, UNIT};

#[test]
fn unit_scale_changes_nothing() {
    let one = DpiScale::one();
    assert_eq!(one.raw, UNIT);
    assert_eq!(one.apply(0), 0);
    assert_eq!(one.apply(720), 720);
    assert_eq!(one.apply(-13), -13);
    assert_eq!(one.apply(i32::MAX as i64), i32::MAX);
    assert_eq!(one.apply(i32::MIN as i64), i32::MIN);
}

#[test]
fn scale_of_two_doubles() {
    let two = DpiScale::from_raw(2 * UNIT);
    assert_eq!(two.apply(100), 200);
    assert_eq!(two.apply(-50), -100);
}

#[test]
fn fractional_scales_round_toward_zero() {
    let one_and_a_half = DpiScale::from_raw(UNIT + UNIT / 2);
    assert_eq!(one_and_a_half.apply(101), 151);
    assert_eq!(one_and_a_half.apply(-101), -151);
    let quarter = DpiScale::from_raw(UNIT / 4);
    assert_eq!(quarter.apply(7), 1);
    assert_eq!(quarter.apply(-7), -1);
    assert_eq!(quarter.apply(3), 0);
    assert_eq!(quarter.apply(-3), 0);
}

#[test]
fn scale_of_zero_gives_zero() {
    let zero = DpiScale::from_raw(0);
    assert_eq!(zero.apply(12345), 0);
    assert_eq!(zero.apply(-12345), 0);
}

#[test]
fn results_are_kept_within_the_native_integer() {
    let two = DpiScale::from_raw(2 * UNIT);
    assert_eq!(two.apply(i32::MAX as i64), i32::MAX);
    assert_eq!(two.apply(i32::MIN as i64), i32::MIN);
    let huge = DpiScale::from_raw(u32::MAX);
    assert_eq!(huge.apply(i64::MAX), i32::MAX);
    assert_eq!(huge.apply(i64::MIN), i32::MIN);
}

#[test]
fn scaling_matches_floating_point_on_common_factors() {
    for (raw, factor) in [(UNIT, 1.0f64), (UNIT + UNIT / 4, 1.25), (2 * UNIT, 2.0), (3 * UNIT, 3.0)] {
        let scale = DpiScale::from_raw(raw);
        for value in [-1000i32, -7, 0, 1, 9, 640, 1080] {
            assert_eq!(scale.apply(value as i64), (value as f64 * factor) as i32);
        }
    }
}
