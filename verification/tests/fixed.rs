use asteroids::fixed::{isqrt, mul_div, UNIT};

#[test]
fn unit_is_a_million() {
    assert_eq!(UNIT, 1_000_000);
}

#[test]
fn isqrt_of_squares_and_their_neighbours() {
    assert_eq!(isqrt(0), 0);
    assert_eq!(isqrt(1), 1);
    assert_eq!(isqrt(2), 1);
    assert_eq!(isqrt(3), 1);
    assert_eq!(isqrt(4), 2);
    assert_eq!(isqrt(24), 4);
    assert_eq!(isqrt(25), 5);
    assert_eq!(isqrt(26), 5);
    assert_eq!(isqrt(1_000_000_000_000), 1_000_000);
    assert_eq!(isqrt(999_999_999_999), 999_999);
    assert_eq!(isqrt(1_000_002_000_000), 1_000_000);
    assert_eq!(isqrt(1_000_002_000_001), 1_000_001);
}

#[test]
fn isqrt_at_the_end_of_the_range() {
    assert_eq!(isqrt(u64::MAX), 4_294_967_295);
    assert_eq!(isqrt(4_294_967_295 * 4_294_967_295), 4_294_967_295);
    assert_eq!(isqrt(4_294_967_295 * 4_294_967_295 - 1), 4_294_967_294);
}

#[test]
fn isqrt_is_the_floor_of_the_root_everywhere_below_ten_thousand() {
    let mut n: u64 = 0;
    while n < 10_000 {
        let r = isqrt(n);
        assert!(r * r <= n);
        assert!(n < (r + 1) * (r + 1));
        n += 1;
    }
}

#[test]
fn mul_div_rounds_toward_zero() {
    assert_eq!(mul_div(7, 1, 2), 3);
    assert_eq!(mul_div(-7, 1, 2), -3);
    assert_eq!(mul_div(7, -1, 2), -3);
    assert_eq!(mul_div(-7, -1, 2), 3);
    assert_eq!(mul_div(9_995, 999, 1000), 9_985);
    assert_eq!(mul_div(-9_995, 999, 1000), -9_985);
    assert_eq!(mul_div(600_000, 5_000, UNIT), 3_000);
    assert_eq!(mul_div(-800_000, 2_500, UNIT), -2_000);
    assert_eq!(mul_div(0, 12, 5), 0);
    assert_eq!(mul_div(1, 1, 1_000), 0);
    assert_eq!(mul_div(-1, 1, 1_000), 0);
}
