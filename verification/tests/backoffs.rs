use async_retry::retry_backoff::backoffs::google_cloud_workflows::delay_millis;
use async_retry::retry_backoff::backoffs::impl_backoff_rs::{
    attempt_index, ExponentialBackoffBuilder,
};
use async_retry::retry_backoff::backoffs::impl_exponential_backoff::{planned_or, Backoff};
use async_retry::retry_backoff::backoffs::FnBackoff;
use async_retry::retry_backoff::RetryBackoff;
use core::time::Duration;

#[test]
fn fn_test_impl_retry_backoff() {
    assert_eq!(
        RetryBackoff::delay(&FnBackoff::from(|_attempts| Duration::from_secs(1)), 1),
        Duration::from_secs(1)
    );
    assert_eq!(
        RetryBackoff::name(&FnBackoff::from(|_attempts| Duration::from_secs(1))),
        "Fn"
    );
}

#[test]
fn fn_backoff_hands_the_attempt_number_to_its_callable() {
    let backoff = FnBackoff::from(|attempts: usize| Duration::from_millis(10 * attempts as u64));
    assert_eq!(backoff.delay(1), Duration::from_millis(10));
    assert_eq!(backoff.delay(7), Duration::from_millis(70));
}

#[test]
fn impl_backoff_rs_test_impl_retry_backoff() {
    let backoff = ExponentialBackoffBuilder::default()
        .jitter(Duration::default())
        .max(Duration::from_secs(5))
        .build();

    assert_eq!(RetryBackoff::delay(&backoff, 1), Duration::from_millis(500));
    assert_eq!(RetryBackoff::name(&backoff), "CrateBackoffRs");
}

#[test]
fn backoff_rs_counts_attempts_from_zero() {
    assert_eq!(attempt_index(1), 0);
    assert_eq!(attempt_index(2), 1);
    assert_eq!(attempt_index(0), 0);
    assert_eq!(attempt_index(usize::MAX), usize::MAX - 1);

    let backoff = ExponentialBackoffBuilder::default()
        .jitter(Duration::default())
        .max(Duration::from_secs(5))
        .build();
    assert_eq!(RetryBackoff::delay(&backoff, 2), Duration::from_millis(875));
    assert_eq!(RetryBackoff::delay(&backoff, 3), Duration::from_nanos(1531250000));
    assert_eq!(RetryBackoff::delay(&backoff, 6), Duration::from_secs(5));
}

#[test]
fn impl_exponential_backoff_test_impl_retry_backoff() {
    let mut backoff = Backoff::new(Duration::from_millis(100), None);
    backoff.set_max(Duration::from_secs(1));

    assert!(RetryBackoff::delay(&backoff, 1) > Duration::from_millis(100));
    assert!(RetryBackoff::delay(&backoff, 2) > Duration::from_millis(200));
    assert!(RetryBackoff::delay(&backoff, 8) > Duration::from_millis(800));
    assert!(RetryBackoff::delay(&backoff, 9) > Duration::from_millis(900));
    assert_eq!(
        RetryBackoff::delay(&backoff, 10),
        Duration::from_millis(1000)
    );
    assert_eq!(
        RetryBackoff::delay(&backoff, 11),
        Duration::from_millis(1000)
    );
    assert_eq!(
        RetryBackoff::delay(&backoff, 100),
        Duration::from_millis(1000)
    );
    assert_eq!(RetryBackoff::name(&backoff), "CrateExponentialBackoff");
}

#[test]
fn exponential_backoff_stays_within_its_limits() {
    let min = Duration::from_millis(100);
    let max = Duration::from_secs(1);
    let backoff = Backoff::new(min, Some(max));
    assert!(backoff.is_ordered());
    for attempts in 1..40 {
        let delay = backoff.delay(attempts);
        assert!(min <= delay && delay <= max);
    }
    // Twice the shortest delay, moved by a jitter of less than a third.
    let second = backoff.delay(1);
    assert!(Duration::from_millis(140) <= second && second <= Duration::from_millis(260));
}

#[test]
fn exponential_backoff_without_a_limit_goes_to_the_longest_duration() {
    let mut backoff = Backoff::new(Duration::from_secs(3), None);
    assert_eq!(backoff.min(), &Duration::from_secs(3));
    assert_eq!(backoff.max(), &Duration::MAX);
    assert!(backoff.is_ordered());
    assert!(backoff.delay(1) >= Duration::from_secs(3));

    backoff.set_max(Duration::from_secs(2));
    assert_eq!(backoff.max(), &Duration::from_secs(2));
    assert!(!backoff.is_ordered());

    backoff.set_min(Duration::from_secs(2));
    assert_eq!(backoff.min(), &Duration::from_secs(2));
    assert!(backoff.is_ordered());
    assert_eq!(backoff.delay(1), Duration::from_secs(2));
}

#[test]
fn exponential_backoff_falls_back_on_the_longest_delay_where_its_plan_ends() {
    let mut backoff = Backoff::new(Duration::from_millis(100), Some(Duration::from_secs(1)));
    assert_eq!(backoff.max_attempts(), u32::MAX);

    // A plan for four attempts holds three delays, numbered from 0.
    backoff.set_max_attempts(4);
    assert_eq!(backoff.max_attempts(), 4);
    let first = backoff.delay(1);
    assert!(Duration::from_millis(140) <= first && first <= Duration::from_millis(260));
    let second = backoff.delay(2);
    assert!(Duration::from_millis(280) <= second && second <= Duration::from_millis(520));
    assert_eq!(backoff.delay(3), Duration::from_secs(1));
    assert_eq!(backoff.delay(4), Duration::from_secs(1));
    assert_eq!(backoff.delay(100), Duration::from_secs(1));

    // A plan for no attempt holds nothing.
    backoff.set_max_attempts(0);
    assert_eq!(backoff.delay(1), Duration::from_secs(1));
    backoff.set_max_attempts(1);
    assert_eq!(backoff.delay(1), Duration::from_secs(1));
}

#[test]
fn exponential_backoff_with_a_limit_keeps_it() {
    let backoff = Backoff::new(Duration::from_millis(5), Some(Duration::from_millis(70)));
    assert_eq!(backoff.min(), &Duration::from_millis(5));
    assert_eq!(backoff.max(), &Duration::from_millis(70));
}

#[test]
fn checked_delay_is_there_where_delay_may_be_asked() {
    let mut backoff = Backoff::new(Duration::from_secs(1), Some(Duration::from_secs(1)));
    assert_eq!(backoff.checked_delay(1), Some(Duration::from_secs(1)));
    assert_eq!(backoff.checked_delay(30), Some(Duration::from_secs(1)));
    assert_eq!(backoff.checked_delay(0), None);
    backoff.set_max(Duration::from_millis(999));
    assert_eq!(backoff.checked_delay(1), None);
}

#[test]
fn google_cloud_workflows_delay_is_initial_then_grown_and_capped() {
    // With an initial delay of 1 s, a maximum of 60 s and a multiplier of 2.
    for (attempts, grown, secs) in &[
        (1, 1, 1),
        (2, 2, 2),
        (3, 4, 4),
        (4, 8, 8),
        (5, 16, 16),
        (6, 32, 32),
        (7, 64, 60),
        (8, 128, 60),
        (9, 256, 60),
        (10, 512, 60),
    ] {
        assert_eq!(
            delay_millis(*attempts, 1000, grown * 1000, 60_000),
            secs * 1000
        );
    }
    // The initial delay is not capped, and is not grown.
    assert_eq!(delay_millis(1, 90_000, 5, 60_000), 90_000);
    assert_eq!(delay_millis(2, 90_000, 5, 60_000), 5);
    assert_eq!(delay_millis(2, 1000, 60_000, 60_000), 60_000);
    assert_eq!(delay_millis(2, 1000, 60_001, 60_000), 60_000);
}

#[test]
fn planned_delay_or_ceiling() {
    let planned = Duration::from_millis(250);
    let ceiling = Duration::from_secs(10);
    assert_eq!(planned_or(Some(Some(planned)), ceiling), planned);
    assert_eq!(planned_or(Some(None), ceiling), ceiling);
    assert_eq!(planned_or(None, ceiling), ceiling);
}

struct Unnamed;

impl RetryBackoff for Unnamed {
    fn delay(&self, attempts: usize) -> Duration {
        Duration::from_secs(attempts as u64)
    }
}

#[test]
fn backoff_without_a_name_is_called_underscore() {
    assert_eq!(RetryBackoff::name(&Unnamed), "_");
    assert_eq!(Unnamed.delay(4), Duration::from_secs(4));
}
