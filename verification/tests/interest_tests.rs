use tipjar::interest::{calculate_interest, calculate_rate, is_liquidatable, PRECISION};

#[test]
fn test_calculate_rate_no_borrowing() {
    let rate = calculate_rate(0, 100_000);
    assert_eq!(rate, 5000);
}

#[test]
fn test_calculate_rate_full_utilization() {
    let rate = calculate_rate(100_000, 0);
    assert_eq!(rate, 50000);
}

#[test]
fn test_calculate_rate_half_utilization() {
    let rate = calculate_rate(100_000, 100_000);
    assert!(rate > 5000 && rate < 50000);
}

#[test]
fn test_calculate_interest() {
    let interest = calculate_interest(1000 * PRECISION, 1000, 31536000);
    assert_eq!(interest, 100 * PRECISION);
}

#[test]
fn test_is_liquidatable_safe() {
    assert!(!is_liquidatable(100, 150));
}

#[test]
fn test_is_liquidatable_unsafe() {
    assert!(is_liquidatable(100, 100));
}

#[test]
fn test_is_liquidatable_threshold() {
    assert!(!is_liquidatable(100, 110));
}

#[test]
fn test_calculate_rate() {
    // No borrowing: 5%
    let rate = calculate_rate(0, 100_000);
    assert_eq!(rate, 5000);

    // Full utilization: 50%
    let rate = calculate_rate(100_000, 0);
    assert_eq!(rate, 50000);

    // Half utilization: between 5% and 50%
    let rate = calculate_rate(100_000, 100_000);
    assert!(rate > 5000 && rate < 50000);
}

#[test]
fn test_is_liquidatable() {
    assert!(!is_liquidatable(100, 150));
    assert!(!is_liquidatable(100, 110));
    assert!(is_liquidatable(100, 100));
}

#[test]
fn lending_tests_test_calculate_rate() {
    let rate = calculate_rate(0, 100_000);
    assert_eq!(rate, 5000);

    let rate = calculate_rate(100_000, 0);
    assert_eq!(rate, 50000);

    let rate = calculate_rate(100_000, 100_000);
    assert!(rate > 5000 && rate < 50000);
}

#[test]
fn lending_tests_test_is_liquidatable() {
    assert!(!is_liquidatable(100, 150));
    assert!(!is_liquidatable(100, 110));
    assert!(is_liquidatable(100, 100));
}

#[test]
fn rate_at_half_utilization_is_exact() {
    // utilization 50%: 5% + 45% * 0.5 = 27.5%
    assert_eq!(calculate_rate(100_000, 100_000), 27_500);
}

#[test]
fn rate_bounds_hold_on_sample_pools() {
    for (b, l) in [(1i128, 1_000_000i128), (999, 1), (5, 5), (0, 1)] {
        let r = calculate_rate(b, l);
        assert!((5000..=50000).contains(&r));
    }
}

#[test]
fn interest_is_never_negative() {
    assert_eq!(calculate_interest(-1000, 1000, 31536000), 0);
    assert_eq!(calculate_interest(1000, 1000, 0), 0);
}

#[test]
fn liquidation_threshold_is_exact() {
    // 110% of 15 is 16.5: 16 is below it, 17 is not
    assert!(is_liquidatable(15, 16));
    assert!(!is_liquidatable(15, 17));
    // 110% of 101 is 111.1
    assert!(is_liquidatable(101, 111));
    assert!(!is_liquidatable(100, 110));
    // collateral too large to scale is never below the threshold
    assert!(!is_liquidatable(100, i128::MAX));
    assert!(is_liquidatable(100, i128::MIN));
}

#[test]
fn rate_grows_with_borrowing() {
    let mut last = calculate_rate(0, 1000);
    for b in [1i128, 10, 100, 500, 1000, 10_000, 1_000_000] {
        let r = calculate_rate(b, 1000);
        assert!(r >= last);
        last = r;
    }
    assert_eq!(last, calculate_rate(1_000_000, 1000));
}
