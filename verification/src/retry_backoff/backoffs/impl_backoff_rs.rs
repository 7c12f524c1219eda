//! The exponential backoff of the crate `backoff_rs` as a [`RetryBackoff`].
use crate::retry_backoff::RetryBackoff;
use core::time::Duration;
use vstd::prelude::*;

pub use backoff_rs::{Exponential as Backoff, ExponentialBackoffBuilder};

verus! {

#[verifier::external_type_specification]
#[verifier::external_body]
pub struct ExExponential(backoff_rs::Exponential);

/// `backoff_rs::Exponential::duration`. The crate counts attempts from 0 and
/// adds a jitter drawn at random, so nothing is promised of the result.
#[verifier::external_body]
fn duration(backoff: &Backoff, attempt: usize) -> Duration {
    backoff.duration(attempt)
}

/// The number under which `backoff_rs`, which counts from 0, knows attempt
/// number `attempts`.
pub fn attempt_index(attempts: usize) -> (index: usize)
    ensures
        index == if attempts == 0 {
            0
        } else {
            attempts - 1
        },
{
    attempts.saturating_sub(1)
}

impl RetryBackoff for Backoff {
    open spec fn wf(&self) -> bool {
        true
    }

    open spec fn offers(&self, attempts: usize, delay: Duration) -> bool {
        true
    }

    fn delay(&self, attempts: usize) -> (delay: Duration) {
        duration(self, attempt_index(attempts))
    }

    fn name(&self) -> &str
        returns
            "CrateBackoffRs",
    {
        "CrateBackoffRs"
    }
}

} // verus!
