use periodic_timer::schedule::nanos_from_parts;
use periodic_timer::schedule::remaining_sleep;
use periodic_timer::schedule::NANOS_PER_SEC;

#[test]
fn sleep_is_the_rest_of_the_period() {
    assert_eq!(remaining_sleep(100_000_000, 30_000_000), Some(70_000_000));
    assert_eq!(remaining_sleep(100_000_000, 0), Some(100_000_000));
    assert_eq!(remaining_sleep(100_000_000, 99_999_999), Some(1));
}

#[test]
fn no_sleep_once_the_period_is_used_up() {
    assert_eq!(remaining_sleep(100_000_000, 100_000_000), None);
    assert_eq!(remaining_sleep(100_000_000, 250_000_000), None);
    assert_eq!(remaining_sleep(5, u64::MAX), None);
}

#[test]
fn zero_period_never_sleeps() {
    assert_eq!(remaining_sleep(0, 0), None);
    assert_eq!(remaining_sleep(0, 1), None);
}

#[test]
fn largest_period_sleeps_for_the_rest() {
    assert_eq!(remaining_sleep(u64::MAX, 0), Some(u64::MAX));
    assert_eq!(remaining_sleep(u64::MAX, u64::MAX - 1), Some(1));
    assert_eq!(remaining_sleep(u64::MAX, u64::MAX), None);
}

#[test]
fn callback_and_sleep_fill_the_period() {
    let period: u64 = 1_000;
    let mut elapsed: u64 = 0;
    while elapsed < 2_000 {
        let rest: u64 = remaining_sleep(period, elapsed).unwrap_or(0);
        let cycle: u64 = elapsed + rest;
        assert_eq!(cycle, if elapsed <= period { period } else { elapsed });
        assert!(cycle >= period);
        elapsed += 125;
    }
}

#[test]
fn nanos_per_sec_is_a_billion() {
    assert_eq!(NANOS_PER_SEC, 1_000_000_000);
}

#[test]
fn parts_add_up_to_nanoseconds() {
    assert_eq!(nanos_from_parts(0, 0), 0);
    assert_eq!(nanos_from_parts(0, 999_999_999), 999_999_999);
    assert_eq!(nanos_from_parts(1, 0), 1_000_000_000);
    assert_eq!(nanos_from_parts(1, 5), 1_000_000_005);
    assert_eq!(nanos_from_parts(0, 100_000_000), 100_000_000);
    assert_eq!(nanos_from_parts(12, 345_678_901), 12_345_678_901);
}

#[test]
fn parts_saturate_at_the_largest_u64() {
    assert_eq!(nanos_from_parts(18_446_744_073, 709_551_615), u64::MAX);
    assert_eq!(nanos_from_parts(18_446_744_073, 709_551_614), u64::MAX - 1);
    assert_eq!(nanos_from_parts(18_446_744_073, 709_551_616), u64::MAX);
    assert_eq!(nanos_from_parts(18_446_744_074, 0), u64::MAX);
    assert_eq!(nanos_from_parts(u64::MAX, u32::MAX), u64::MAX);
}

#[test]
fn saturated_run_time_is_past_every_period() {
    let elapsed: u64 = nanos_from_parts(u64::MAX, 0);
    assert_eq!(remaining_sleep(u64::MAX, elapsed), None);
    assert_eq!(remaining_sleep(1, elapsed), None);
}
