use weather_utils::fixed::{add_fixed, approx_eq, checked_div_fixed, div_fixed, mul_fixed, sub_fixed, SCALE};

#[test]
fn test_scale_is_one_billion() {
    assert_eq!(SCALE, 1_000_000_000);
}

#[test]
fn test_add_fixed() {
    assert_eq!(add_fixed(1_500_000_000, 2_250_000_000), 3_750_000_000);
    assert_eq!(add_fixed(-1_500_000_000, 1_000_000_000), -500_000_000);
}

#[test]
fn test_add_fixed_saturates() {
    assert_eq!(add_fixed(i64::MAX, 1), i64::MAX);
    assert_eq!(add_fixed(i64::MIN, -1), i64::MIN);
    assert_eq!(add_fixed(i64::MAX, i64::MIN), -1);
}

#[test]
fn test_sub_fixed() {
    assert_eq!(sub_fixed(1_500_000_000, 2_250_000_000), -750_000_000);
    assert_eq!(sub_fixed(0, 0), 0);
}

#[test]
fn test_sub_fixed_saturates() {
    assert_eq!(sub_fixed(i64::MIN, 1), i64::MIN);
    assert_eq!(sub_fixed(i64::MAX, -1), i64::MAX);
    assert_eq!(sub_fixed(0, i64::MIN), i64::MAX);
}

#[test]
fn test_mul_fixed() {
    assert_eq!(mul_fixed(2_000_000_000, 3_500_000_000), 7_000_000_000);
    assert_eq!(mul_fixed(-2_000_000_000, 3_500_000_000), -7_000_000_000);
    assert_eq!(mul_fixed(-2_000_000_000, -3_500_000_000), 7_000_000_000);
    assert_eq!(mul_fixed(0, i64::MIN), 0);
}

#[test]
fn test_mul_fixed_rounds_toward_zero() {
    assert_eq!(mul_fixed(1, 1_800_000_000), 1);
    assert_eq!(mul_fixed(-1, 1_800_000_000), -1);
    assert_eq!(mul_fixed(1, 999_999_999), 0);
    assert_eq!(mul_fixed(-1, 999_999_999), 0);
}

#[test]
fn test_mul_fixed_saturates() {
    assert_eq!(mul_fixed(i64::MAX, i64::MAX), i64::MAX);
    assert_eq!(mul_fixed(i64::MIN, i64::MAX), i64::MIN);
    assert_eq!(mul_fixed(i64::MIN, i64::MIN), i64::MAX);
}

#[test]
fn test_div_fixed() {
    assert_eq!(div_fixed(7_000_000_000, 2_000_000_000), 3_500_000_000);
    assert_eq!(div_fixed(7_000_000_000, -2_000_000_000), -3_500_000_000);
    assert_eq!(div_fixed(-7_000_000_000, -2_000_000_000), 3_500_000_000);
    assert_eq!(div_fixed(1_000_000_000, 3_000_000_000), 333_333_333);
    assert_eq!(div_fixed(-1_000_000_000, 3_000_000_000), -333_333_333);
}

#[test]
fn test_div_fixed_saturates() {
    assert_eq!(div_fixed(i64::MAX, 1), i64::MAX);
    assert_eq!(div_fixed(i64::MIN, 1), i64::MIN);
    assert_eq!(div_fixed(i64::MIN, -1), i64::MAX);
}

#[test]
fn test_checked_div_fixed() {
    assert_eq!(checked_div_fixed(7_000_000_000, 2_000_000_000), Some(3_500_000_000));
    assert_eq!(checked_div_fixed(7_000_000_000, 0), None);
    assert_eq!(checked_div_fixed(0, 0), None);
    assert_eq!(checked_div_fixed(0, 5), Some(0));
}

#[test]
fn test_approx_eq() {
    assert!(approx_eq(0, 10_000_000, 10_000_000));
    assert!(approx_eq(10_000_000, 0, 10_000_000));
    assert!(!approx_eq(0, 10_000_001, 10_000_000));
    assert!(!approx_eq(-10_000_001, 0, 10_000_000));
    assert!(approx_eq(5, 5, 0));
    assert!(!approx_eq(5, 5, -1));
}

#[test]
fn test_approx_eq_at_the_ends() {
    assert!(!approx_eq(i64::MIN, i64::MAX, i64::MAX));
    assert!(approx_eq(i64::MAX, i64::MAX, 0));
    assert!(!approx_eq(i64::MIN, 0, i64::MAX));
    assert!(approx_eq(0, i64::MAX, i64::MAX));
}
