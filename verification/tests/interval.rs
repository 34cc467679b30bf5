use fruently::interval::{MILLIS_PER_HOUR, MILLIS_PER_SECOND, MINUTES_PER_HOUR, SECONDS_PER_MINUTE};
use fruently::RetryConf;

/// The waiting time in hours before retry number `retry_count`.
fn interval_hours(multiplier: f64, retry_count: u64) -> f64 {
    (multiplier + retry_count as f64).exp()
        / MILLIS_PER_SECOND as f64
        / SECONDS_PER_MINUTE as f64
        / MINUTES_PER_HOUR as f64
}

#[test]
fn unit_constants() {
    assert_eq!(MILLIS_PER_SECOND, 1000);
    assert_eq!(SECONDS_PER_MINUTE, 60);
    assert_eq!(MINUTES_PER_HOUR, 60);
    assert_eq!(MILLIS_PER_HOUR, 3_600_000);
}

#[test]
fn interval_with_default_multiplier() {
    let (max, bits) = RetryConf::new().build();
    let multiplier = f64::from_bits(bits);
    assert_eq!(max, 10);
    assert!((interval_hours(multiplier, 10) - 0.9081).abs() < 0.001);
    assert!((interval_hours(multiplier, 11) - 2.4684).abs() < 0.001);
    assert!((interval_hours(multiplier, 12) - 6.7097).abs() < 0.001);
}

#[test]
fn interval_with_default_multiplier_to_more_digits() {
    let multiplier = f64::from_bits(RetryConf::new().build().1);
    assert!((interval_hours(multiplier, 10) - 0.908060381242253).abs() < 1e-9);
    assert!((interval_hours(multiplier, 11) - 2.4683640334744092).abs() < 1e-9);
    assert!((interval_hours(multiplier, 12) - 6.709709098215361).abs() < 1e-9);
}

#[test]
fn interval_in_one_division() {
    let multiplier = f64::from_bits(RetryConf::new().build().1);
    let hours = (multiplier + 10.0).exp() / MILLIS_PER_HOUR as f64;
    assert!((hours - interval_hours(multiplier, 10)).abs() < 1e-12);
}

#[test]
fn interval_grows_with_the_retry_count() {
    let multiplier = f64::from_bits(RetryConf::new().build().1);
    let mut retry_count: u64 = 1;
    while retry_count < 100 {
        assert!(interval_hours(multiplier, retry_count + 1) > interval_hours(multiplier, retry_count));
        retry_count += 1;
    }
}

#[test]
fn interval_grows_by_the_factor_e() {
    let multiplier = f64::from_bits(RetryConf::new().multiplier(2.0_f64.to_bits()).build().1);
    let ratio = interval_hours(multiplier, 6) / interval_hours(multiplier, 5);
    assert!((ratio - std::f64::consts::E).abs() < 1e-9);
}

#[test]
fn interval_of_a_huge_exponent_is_infinite() {
    let multiplier = f64::from_bits(RetryConf::new().multiplier(1000.0_f64.to_bits()).build().1);
    assert!(interval_hours(multiplier, 1).is_infinite());
}
