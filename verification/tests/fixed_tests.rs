use chase_me::fixed::{clamp, clamp_wide, isqrt, mul_div, scale, FAR, LIMIT, SCALE};

#[test]
fn clamp_keeps_values_inside_and_cuts_those_outside() {
    assert_eq!(clamp(5, 0, 10), 5);
    assert_eq!(clamp(-3, 0, 10), 0);
    assert_eq!(clamp(42, 0, 10), 10);
    assert_eq!(clamp(7, 7, 7), 7);
}

#[test]
fn clamp_wide_cuts_values_beyond_sixty_four_bits() {
    assert_eq!(clamp_wide(i128::MAX, -5, 5), 5);
    assert_eq!(clamp_wide(i128::MIN, -5, 5), -5);
    assert_eq!(clamp_wide(3, -5, 5), 3);
}

#[test]
fn mul_div_rounds_down() {
    assert_eq!(mul_div(15_000, 1_000, 1_300), 11_538);
    assert_eq!(mul_div(7, 3, 2), 10);
    assert_eq!(mul_div(0, 99, 5), 0);
    assert_eq!(mul_div(LIMIT, LIMIT, 1), 1_000_000_000_000_000_000);
}

#[test]
fn scale_rounds_toward_zero_for_both_signs() {
    assert_eq!(scale(7, 1, 2), 3);
    assert_eq!(scale(-7, 1, 2), -3);
    assert_eq!(scale(-11_538, 16, SCALE), -184);
    assert_eq!(scale(11_538, 16, SCALE), 184);
    assert_eq!(scale(0, 5, 3), 0);
}

#[test]
fn isqrt_is_the_floor_of_the_root() {
    assert_eq!(isqrt(0), 0);
    assert_eq!(isqrt(1), 1);
    assert_eq!(isqrt(2), 1);
    assert_eq!(isqrt(3), 1);
    assert_eq!(isqrt(4), 2);
    assert_eq!(isqrt(24), 4);
    assert_eq!(isqrt(25), 5);
    assert_eq!(isqrt(25_000_000), 5_000);
    assert_eq!(isqrt(u128::MAX), u64::MAX as u128);
}

#[test]
fn isqrt_brackets_its_argument() {
    let mut n: u128 = 1;
    while n < 1_000_000_000_000_000_000_000_000_000_000 {
        let r = isqrt(n);
        assert!(r * r <= n);
        assert!(n < (r + 1) * (r + 1));
        n = n * 7 + 3;
    }
}

#[test]
fn the_world_is_larger_than_any_configured_quantity() {
    assert!(LIMIT < FAR);
    assert_eq!(SCALE, 1000);
}
