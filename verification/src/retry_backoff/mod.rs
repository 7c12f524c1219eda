//! The backoff of a retry policy: how long to wait before the next attempt.
use core::time::Duration;
use vstd::prelude::*;

pub mod backoffs;

verus! {

/// A delay for each attempt. Attempts are counted from 1.
///
/// A backoff may draw its delays at random, so they are described by a
/// relation: `offers(attempts, delay)` holds of every delay that `delay` can
/// return for `attempts`.
///
/// An implementation that states nothing gets the weakest description:
/// `delay` may be called for every attempt, and may return any delay.
pub trait RetryBackoff {
    /// Whether `delay` may be called for every attempt from the first on.
    open spec fn wf(&self) -> bool {
        true
    }

    /// Whether `delay` can return `delay` for `attempts`.
    open spec fn offers(&self, attempts: usize, delay: Duration) -> bool {
        true
    }

    /// The time to wait after the failure of attempt number `attempts`.
    fn delay(&self, attempts: usize) -> (delay: Duration)
        requires
            self.wf(),
            attempts >= 1,
        ensures
            self.offers(attempts, delay),
    ;

    /// A short name for diagnostics.
    fn name(&self) -> (name: &str)
        default_ensures
            name@ == "_"@,
    {
        "_"
    }
}

} // verus!
