use stellarflow::price_oracle::buffer::calculate_median;
use stellarflow::price_oracle::math::{
    calculate_percentage_change_bps, calculate_percentage_difference_bps, calculate_price_volatility,
    enforce_rate_map_max_age, is_stale, is_valid,
};
use stellarflow::price_oracle::Error;

#[test]
fn percentage_change_rise_is_positive() {
    assert_eq!(calculate_percentage_change_bps(1_000_000, 1_200_000), Some(2_000));
}

#[test]
fn percentage_change_fall_is_negative() {
    assert_eq!(calculate_percentage_change_bps(1_000_000, 800_000), Some(-2_000));
}

#[test]
fn percentage_change_from_zero_is_undefined() {
    assert_eq!(calculate_percentage_change_bps(0, 800_000), None);
}

#[test]
fn percentage_change_rounds_toward_zero() {
    // -1 * 10_000 / 3 = -3333.33.. truncated to -3333
    assert_eq!(calculate_percentage_change_bps(3, 2), Some(-3_333));
    assert_eq!(calculate_percentage_change_bps(3, 4), Some(3_333));
}

#[test]
fn percentage_change_overflow_is_none() {
    assert_eq!(calculate_percentage_change_bps(1, i128::MAX), None);
    assert_eq!(calculate_percentage_change_bps(-1, i128::MAX), None);
}

#[test]
fn percentage_difference_is_magnitude_of_change() {
    assert_eq!(calculate_percentage_difference_bps(1_000_000, 1_200_000), Some(2_000));
    assert_eq!(calculate_percentage_difference_bps(1_000_000, 800_000), Some(2_000));
    assert_eq!(calculate_percentage_difference_bps(0, 800_000), None);
}

#[test]
fn volatility_is_symmetric() {
    assert_eq!(calculate_price_volatility(1_000_000, 1_200_000), Some(200_000));
    assert_eq!(calculate_price_volatility(1_200_000, 1_000_000), Some(200_000));
    assert_eq!(calculate_price_volatility(5, 5), Some(0));
}

#[test]
fn volatility_overflow_is_none() {
    assert_eq!(calculate_price_volatility(-1, i128::MAX), None);
}

#[test]
fn valid_prices_are_positive() {
    assert!(is_valid(1));
    assert!(!is_valid(0));
    assert!(!is_valid(-5));
}

#[test]
fn staleness_uses_expiry() {
    assert!(!is_stale(1_000, 900, 200));
    assert!(is_stale(1_100, 900, 200));
    assert!(is_stale(1_500, 900, 200));
    // the expiry saturates instead of wrapping
    assert!(!is_stale(u64::MAX - 1, u64::MAX - 10, 100));
    assert!(is_stale(u64::MAX, u64::MAX - 10, 100));
}

#[test]
fn rate_older_than_max_age_is_rejected() {
    assert!(enforce_rate_map_max_age(1_000, 1_000).is_ok());
    assert_eq!(enforce_rate_map_max_age(u64::MAX, 0), Err(Error::StaleRateData));
}

#[test]
fn median_of_odd_and_even_lists() {
    assert_eq!(calculate_median(vec![]), None);
    assert_eq!(calculate_median(vec![7]), Some(7));
    assert_eq!(calculate_median(vec![30, 10, 20]), Some(20));
    assert_eq!(calculate_median(vec![40, 10, 30, 20]), Some(25));
    assert_eq!(calculate_median(vec![-3, -4]), Some(-4));
    assert_eq!(calculate_median(vec![i128::MAX, i128::MAX - 2]), Some(i128::MAX - 1));
}

#[test]
fn median_lies_between_extremes() {
    let prices = vec![5, 100, 3, 47, 12, 99];
    let m = calculate_median(prices.clone()).unwrap();
    assert!(m >= *prices.iter().min().unwrap());
    assert!(m <= *prices.iter().max().unwrap());
    assert_eq!(m, 29);
}
