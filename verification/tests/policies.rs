use async_retry::retry_backoff::backoffs::FnBackoff;
use async_retry::retry_policy::policies::google_cloud_workflows::http::{
    default_retry_predicate, default_retry_predicate_non_idempotent, Error,
};
use async_retry::retry_policy::policies::{FnPolicy, SimplePolicy};
use async_retry::retry_policy::{arbitrate, RetryPolicy, StopReason};
use async_retry::retry_predicate::predicates::{AlwaysPredicate, FnPredicate, NeverPredicate};
use async_retry::{RetryBackoff, RetryPredicate};
use core::ops::ControlFlow;
use core::time::Duration;

fn fn_demo(_params: &(), _attempts: usize) -> ControlFlow<StopReason, Duration> {
    ControlFlow::Continue(Duration::from_secs(1))
}

#[test]
fn fn_test_impl_retry_policy() {
    let policy = FnPolicy::from(fn_demo);

    assert_eq!(
        RetryPolicy::next_step(&policy, &(), 1),
        ControlFlow::Continue(Duration::from_secs(1))
    );
    assert_eq!(RetryPolicy::<()>::name(&policy), "Fn");
}

#[test]
fn simple_test_impl_retry_policy() {
    let policy = SimplePolicy::new(
        AlwaysPredicate::new(),
        1,
        FnBackoff::from(|_attempts: usize| Duration::from_secs(1)),
    );

    assert_eq!(
        RetryPolicy::next_step(&policy, &(), 1),
        ControlFlow::Continue(Duration::from_secs(1))
    );
    assert_eq!(RetryPolicy::<()>::name(&policy), "Simple");
}

#[test]
fn test_error_display() {
    assert_eq!(Error::BadGateway.to_string(), "BadGateway")
}

#[test]
fn error_text_is_the_variant_and_its_field() {
    let errors = vec![
        Error::TooManyRequests {
            retry_after_delay_seconds: None,
        },
        Error::TooManyRequests {
            retry_after_delay_seconds: Some(0),
        },
        Error::TooManyRequests {
            retry_after_delay_seconds: Some(7),
        },
        Error::BadGateway,
        Error::ServiceUnavailable {
            retry_after_delay_seconds: Some(10),
        },
        Error::ServiceUnavailable {
            retry_after_delay_seconds: Some(120),
        },
        Error::ServiceUnavailable {
            retry_after_delay_seconds: Some(usize::MAX),
        },
        Error::GatewayTimeout,
        Error::ConnectionError,
        Error::TimeoutError,
        Error::Other,
    ];
    for err in &errors {
        assert_eq!(err.to_string(), format!("{:?}", err));
    }
    assert_eq!(
        errors[5].to_string(),
        "ServiceUnavailable { retry_after_delay_seconds: Some(120) }"
    );
    assert_eq!(
        errors[0].to_string(),
        "TooManyRequests { retry_after_delay_seconds: None }"
    );
}

#[test]
fn default_retry_predicate_accepts_all_but_other() {
    for err in &[
        Error::TooManyRequests {
            retry_after_delay_seconds: None,
        },
        Error::BadGateway,
        Error::ServiceUnavailable {
            retry_after_delay_seconds: None,
        },
        Error::GatewayTimeout,
        Error::ConnectionError,
        Error::TimeoutError,
    ] {
        assert!(default_retry_predicate(err));
        assert!(FnPredicate::from(default_retry_predicate).test(err));
    }
    for err in &[Error::Other] {
        assert!(!default_retry_predicate(err));
    }
}

#[test]
fn default_retry_predicate_non_idempotent_accepts_429_and_503() {
    for err in &[
        Error::TooManyRequests {
            retry_after_delay_seconds: None,
        },
        Error::ServiceUnavailable {
            retry_after_delay_seconds: Some(3),
        },
    ] {
        assert!(default_retry_predicate_non_idempotent(err));
    }
    for err in &[
        Error::BadGateway,
        Error::GatewayTimeout,
        Error::ConnectionError,
        Error::TimeoutError,
        Error::Other,
    ] {
        assert!(!default_retry_predicate_non_idempotent(err));
    }
}

fn doubling(attempts: usize) -> Duration {
    Duration::from_secs((1u64 << (attempts - 1)).min(60))
}

#[test]
fn policy_continues_up_to_the_bound_and_stops_beyond_it() {
    let policy = SimplePolicy::new(AlwaysPredicate::new(), 8, FnBackoff::from(doubling));

    for (attempts, flow) in &[
        (1, ControlFlow::Continue(Duration::from_secs(1))),
        (2, ControlFlow::Continue(Duration::from_secs(2))),
        (3, ControlFlow::Continue(Duration::from_secs(4))),
        (4, ControlFlow::Continue(Duration::from_secs(8))),
        (5, ControlFlow::Continue(Duration::from_secs(16))),
        (6, ControlFlow::Continue(Duration::from_secs(32))),
        (7, ControlFlow::Continue(Duration::from_secs(60))),
        (8, ControlFlow::Continue(Duration::from_secs(60))),
        (9, ControlFlow::Break(StopReason::MaxRetriesReached)),
        (10, ControlFlow::Break(StopReason::MaxRetriesReached)),
    ] {
        assert_eq!(RetryPolicy::next_step(&policy, &(), *attempts), *flow);
    }
}

#[test]
fn bound_is_checked_before_the_predicate() {
    let policy = SimplePolicy::new(NeverPredicate, 2, FnBackoff::from(doubling));
    assert_eq!(
        policy.next_step(&(), 1),
        ControlFlow::Break(StopReason::PredicateRejected)
    );
    assert_eq!(
        policy.next_step(&(), 2),
        ControlFlow::Break(StopReason::PredicateRejected)
    );
    assert_eq!(
        policy.next_step(&(), 3),
        ControlFlow::Break(StopReason::MaxRetriesReached)
    );
}

#[test]
fn policy_without_retries_stops_at_the_first_failure() {
    let policy = SimplePolicy::new(AlwaysPredicate::new(), 0, FnBackoff::from(doubling));
    assert_eq!(
        policy.next_step(&(), 1),
        ControlFlow::Break(StopReason::MaxRetriesReached)
    );
}

#[test]
fn arbitrate_asks_the_predicate_about_the_error() {
    let predicate = FnPredicate::from(|n: &u8| *n < 2);
    let backoff = FnBackoff::from(|attempts: usize| Duration::from_millis(attempts as u64));
    assert_eq!(
        arbitrate(&predicate, 5, &backoff, &1, 4),
        ControlFlow::Continue(Duration::from_millis(4))
    );
    assert_eq!(
        arbitrate(&predicate, 5, &backoff, &2, 4),
        ControlFlow::Break(StopReason::PredicateRejected)
    );
    assert_eq!(
        arbitrate(&predicate, 5, &backoff, &1, 6),
        ControlFlow::Break(StopReason::MaxRetriesReached)
    );
    assert_eq!(
        arbitrate(&predicate, 5, &backoff, &1, 5),
        ControlFlow::Continue(Duration::from_millis(5))
    );
}

#[test]
fn simple_policy_shows_its_parts() {
    let policy: SimplePolicy<(), _, _> =
        SimplePolicy::new(NeverPredicate, 5, FnBackoff::from(doubling));
    assert_eq!(policy.max_retries, 5);
    assert!(!RetryPredicate::<()>::test(&policy.predicate, &()));
    assert_eq!(RetryBackoff::delay(&policy.backoff, 3), Duration::from_secs(4));
    assert_eq!(policy.max_retries(), 5);
    assert!(!RetryPredicate::<()>::test(policy.predicate(), &()));
    assert_eq!(RetryBackoff::delay(policy.backoff(), 4), Duration::from_secs(8));
}

struct Unnamed;

impl RetryPolicy<()> for Unnamed {
    fn next_step(&self, _params: &(), _attempts: usize) -> ControlFlow<StopReason, Duration> {
        ControlFlow::Break(StopReason::PredicateRejected)
    }
}

#[test]
fn policy_without_a_name_is_called_underscore() {
    assert_eq!(RetryPolicy::name(&Unnamed), "_");
    assert_eq!(
        Unnamed.next_step(&(), 1),
        ControlFlow::Break(StopReason::PredicateRejected)
    );
}

#[test]
fn stop_reasons_compare_and_copy() {
    let reason = StopReason::MaxRetriesReached;
    let copy = reason;
    assert_eq!(reason, copy);
    assert_ne!(reason, StopReason::PredicateRejected);
    assert!(StopReason::MaxRetriesReached < StopReason::PredicateRejected);
    assert_eq!(format!("{:?}", reason), "MaxRetriesReached");
}
