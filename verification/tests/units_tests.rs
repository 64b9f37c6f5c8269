use artillery_planner::text::{decimal_string, push_decimal};
use artillery_planner::units::{clamp, div_floor, is_in_domain, isqrt, scale, scale_wide, COORD_MAX};

#[test]
fn floor_division_rounds_down() {
    assert_eq!(div_floor(7, 2), 3);
    assert_eq!(div_floor(-7, 2), -4);
    assert_eq!(div_floor(-8, 2), -4);
    assert_eq!(div_floor(-1, 5), -1);
    assert_eq!(div_floor(0, 5), 0);
    assert_eq!(div_floor(i128::MAX, 1), i128::MAX);
    assert_eq!(div_floor(i128::MIN + 1, i128::MAX), -1);
}

#[test]
fn scaling_rounds_to_nearest_with_halves_up() {
    assert_eq!(scale(1, 1, 2), 1);
    assert_eq!(scale(-1, 1, 2), 0);
    assert_eq!(scale(3, 1, 2), 2);
    assert_eq!(scale(-3, 1, 2), -1);
    assert_eq!(scale(10, 1, 3), 3);
    assert_eq!(scale(11, 1, 3), 4);
    assert_eq!(scale(1_000, 2184, 1024), 2_133);
    assert_eq!(scale(7, -3, 2), -10);
    assert_eq!(scale(i64::MAX, 4_000_000_000_000_000_000, 1), i64::MAX as i128 * 4_000_000_000_000_000_000);
    assert_eq!(scale_wide(1 << 70, 3, 1 << 69), 6);
}

#[test]
fn whole_square_roots() {
    assert_eq!(isqrt(0), 0);
    assert_eq!(isqrt(1), 1);
    assert_eq!(isqrt(3), 1);
    assert_eq!(isqrt(4), 2);
    assert_eq!(isqrt(24), 4);
    assert_eq!(isqrt(25), 5);
    assert_eq!(isqrt(40_576_000_000), 201_434);
    assert_eq!(isqrt((1u128 << 124) - 1), (1u64 << 62) - 1);
    for r in [7u128, 1_000_003, 4_000_000_000_000_000_000 - 1] {
        assert_eq!(isqrt(r * r) as u128, r);
        assert_eq!(isqrt(r * r - 1) as u128, r - 1);
        assert_eq!(isqrt(r * r + 2 * r) as u128, r);
    }
}

#[test]
fn clamping_and_the_domain() {
    assert_eq!(clamp(5, 0, 10), 5);
    assert_eq!(clamp(-5, 0, 10), 0);
    assert_eq!(clamp(15, 0, 10), 10);
    assert!(is_in_domain(0));
    assert!(is_in_domain(COORD_MAX));
    assert!(is_in_domain(-COORD_MAX));
    assert!(!is_in_domain(COORD_MAX + 1));
    assert!(!is_in_domain(i64::MIN));
}

#[test]
fn numbers_in_decimal() {
    assert_eq!(decimal_string(0), "0");
    assert_eq!(decimal_string(7), "7");
    assert_eq!(decimal_string(10), "10");
    assert_eq!(decimal_string(1_890), "1890");
    assert_eq!(decimal_string(u64::MAX), "18446744073709551615");
    let mut s = String::from("n=");
    push_decimal(&mut s, 405);
    assert_eq!(s, "n=405");
}
