use fluid_sim::fixed::{
    clamp_to_channel, div_toward_zero, from_unorm8, isqrt, lerp, mul_fixed, mul_to_channel,
    to_unorm8, ONE,
};

#[test]
fn division_rounds_toward_zero_on_both_sides() {
    assert_eq!(div_toward_zero(7, 2), 3);
    assert_eq!(div_toward_zero(-7, 2), -3);
    assert_eq!(div_toward_zero(6, 2), 3);
    assert_eq!(div_toward_zero(-6, 2), -3);
    assert_eq!(div_toward_zero(1, 4), 0);
    assert_eq!(div_toward_zero(-1, 4), 0);
    assert_eq!(div_toward_zero(0, 9), 0);
}

#[test]
fn division_handles_the_extremes() {
    assert_eq!(div_toward_zero(i64::MIN, 1), i64::MIN);
    assert_eq!(div_toward_zero(i64::MIN, 2), i64::MIN / 2);
    assert_eq!(div_toward_zero(i64::MAX, 1), i64::MAX);
    assert_eq!(div_toward_zero(i64::MIN, i64::MAX), -1);
    assert_eq!(div_toward_zero(i64::MAX, i64::MAX), 1);
}

#[test]
fn one_is_two_to_the_sixteenth() {
    assert_eq!(ONE, 65536);
}

#[test]
fn product_of_fixed_point_numbers() {
    // 1.5 * 2.0 = 3.0
    assert_eq!(mul_fixed(ONE + ONE / 2, 2 * ONE), 3 * ONE as i64);
    // 0.5 * 0.5 = 0.25
    assert_eq!(mul_fixed(ONE / 2, ONE / 2), (ONE / 4) as i64);
    // -0.5 * 0.5 = -0.25
    assert_eq!(mul_fixed(-ONE / 2, ONE / 2), -(ONE / 4) as i64);
    // the smallest step times one half rounds toward zero
    assert_eq!(mul_fixed(1, ONE / 2), 0);
    assert_eq!(mul_fixed(-1, ONE / 2), 0);
    assert_eq!(mul_fixed(3, ONE / 2), 1);
    assert_eq!(mul_fixed(-3, ONE / 2), -1);
    assert_eq!(mul_fixed(0, i32::MAX), 0);
}

#[test]
fn product_of_the_largest_channels() {
    assert_eq!(mul_fixed(i32::MIN, i32::MIN), 1i64 << 46);
    assert_eq!(mul_fixed(i32::MIN, i32::MAX), -((1i64 << 46) - (1i64 << 15)));
}

#[test]
fn wide_product_saturates() {
    assert_eq!(mul_to_channel(2 * ONE as i64, 3 * ONE as i64), 6 * ONE);
    assert_eq!(mul_to_channel(i32::MAX as i64, 2 * ONE as i64), i32::MAX);
    assert_eq!(mul_to_channel(i32::MIN as i64, 2 * ONE as i64), i32::MIN);
    assert_eq!(mul_to_channel(i64::MAX, i64::MAX), i32::MAX);
    assert_eq!(mul_to_channel(i64::MIN, i64::MAX), i32::MIN);
    assert_eq!(mul_to_channel(i64::MIN, i64::MIN), i32::MAX);
    assert_eq!(mul_to_channel(-3, (ONE / 2) as i64), -1);
}

#[test]
fn clamping_to_the_range_of_a_channel() {
    assert_eq!(clamp_to_channel(0), 0);
    assert_eq!(clamp_to_channel(-5), -5);
    assert_eq!(clamp_to_channel(i32::MAX as i64), i32::MAX);
    assert_eq!(clamp_to_channel(i32::MAX as i64 + 1), i32::MAX);
    assert_eq!(clamp_to_channel(i32::MIN as i64), i32::MIN);
    assert_eq!(clamp_to_channel(i32::MIN as i64 - 1), i32::MIN);
    assert_eq!(clamp_to_channel(i64::MAX), i32::MAX);
    assert_eq!(clamp_to_channel(i64::MIN), i32::MIN);
}

#[test]
fn interpolation_hits_both_ends_and_the_middle() {
    assert_eq!(lerp(100, 200, 0), 100);
    assert_eq!(lerp(100, 200, ONE), 200);
    assert_eq!(lerp(100, 200, ONE / 2), 150);
    assert_eq!(lerp(200, 100, ONE / 2), 150);
    assert_eq!(lerp(200, 100, ONE / 4), 175);
    assert_eq!(lerp(-100, 100, ONE / 2), 0);
    assert_eq!(lerp(7, 7, 12345), 7);
}

#[test]
fn interpolation_rounds_the_step_toward_zero() {
    // a quarter of the way from 0 to 3 is 0.75, which rounds to 0
    assert_eq!(lerp(0, 3, ONE / 4), 0);
    // a quarter of the way from 3 to 0 is 3 - 0.75, and the step rounds to 0
    assert_eq!(lerp(3, 0, ONE / 4), 3);
    assert_eq!(lerp(0, -3, ONE / 4), 0);
}

#[test]
fn interpolation_spans_the_whole_range() {
    assert_eq!(lerp(i32::MIN, i32::MAX, ONE), i32::MAX);
    assert_eq!(lerp(i32::MAX, i32::MIN, ONE), i32::MIN);
    assert_eq!(lerp(i32::MIN, i32::MAX, 0), i32::MIN);
    assert_eq!(lerp(i32::MIN, i32::MAX, ONE / 2), -1);
}

#[test]
fn integer_square_roots() {
    assert_eq!(isqrt(0), 0);
    assert_eq!(isqrt(1), 1);
    assert_eq!(isqrt(2), 1);
    assert_eq!(isqrt(3), 1);
    assert_eq!(isqrt(4), 2);
    assert_eq!(isqrt(24), 4);
    assert_eq!(isqrt(25), 5);
    assert_eq!(isqrt(26), 5);
    assert_eq!(isqrt(1u128 << 64), 1u128 << 32);
    assert_eq!(isqrt((1u128 << 64) - 1), (1u128 << 32) - 1);
    assert_eq!(isqrt(u128::MAX), (1u128 << 64) - 1);
}

#[test]
fn integer_square_root_brackets_its_argument() {
    let mut n: u128 = 1;
    while n < 1u128 << 100 {
        let r = isqrt(n);
        assert!(r * r <= n);
        assert!((r + 1) * (r + 1) > n);
        n = n * 7 + 3;
    }
}

#[test]
fn normalised_bytes_decode_to_zero_and_one() {
    assert_eq!(from_unorm8(0), 0);
    assert_eq!(from_unorm8(255), ONE);
    assert_eq!(from_unorm8(1), 257);
    assert_eq!(from_unorm8(128), 32896);
    assert_eq!(from_unorm8(254), 65278);
}

#[test]
fn encoding_limits_and_rounds() {
    assert_eq!(to_unorm8(0), 0);
    assert_eq!(to_unorm8(ONE), 255);
    assert_eq!(to_unorm8(-1), 0);
    assert_eq!(to_unorm8(i32::MIN), 0);
    assert_eq!(to_unorm8(ONE + 1), 255);
    assert_eq!(to_unorm8(i32::MAX), 255);
    assert_eq!(to_unorm8(ONE / 2), 128);
    // one half of a step below the value of byte 1 still rounds to 1
    assert_eq!(to_unorm8(129), 1);
    assert_eq!(to_unorm8(128), 0);
}

#[test]
fn every_byte_survives_decoding_and_encoding() {
    for byte in 0..=255u8 {
        assert_eq!(to_unorm8(from_unorm8(byte)), byte);
    }
}
