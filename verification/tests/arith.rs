use organic_trader::arith::{isqrt, mul_wide, round_to_step};

#[test]
fn isqrt_exact_values() {
    assert_eq!(isqrt(0), 0);
    assert_eq!(isqrt(1), 1);
    assert_eq!(isqrt(3), 1);
    assert_eq!(isqrt(4), 2);
    assert_eq!(isqrt(99), 9);
    assert_eq!(isqrt(100), 10);
    assert_eq!(isqrt(1_000_000_000_000_000_000_000_000), 1_000_000_000_000);
    assert_eq!(isqrt(u128::MAX), u64::MAX);
}

#[test]
fn rounding_halves_up() {
    assert_eq!(round_to_step(1_499_999, 1_000_000), 1_000_000);
    assert_eq!(round_to_step(1_500_000, 1_000_000), 2_000_000);
    assert_eq!(round_to_step(2_000_000, 1_000_000), 2_000_000);
    assert_eq!(round_to_step(0, 1_000_000), 0);
}

#[test]
fn wide_product_exact() {
    assert_eq!(mul_wide(u64::MAX, u64::MAX), (u64::MAX as u128) * (u64::MAX as u128));
    assert_eq!(mul_wide(0, 12345), 0);
}
