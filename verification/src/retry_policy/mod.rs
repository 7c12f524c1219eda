//! The retry policy: a predicate, a backoff and a bound on the number of
//! retries, arbitrated in a fixed order.
use crate::retry_backoff::RetryBackoff;
use crate::retry_predicate::RetryPredicate;
use core::ops::ControlFlow;
use core::time::Duration;
use vstd::prelude::*;

pub mod policies;
pub mod predicate;

verus! {

/// Why retrying stopped.
#[derive(Clone, Copy, Debug, Eq, Hash, Ord, PartialEq, PartialOrd, Structural)]
pub enum StopReason {
    /// The failed attempt was beyond the bound on retries.
    MaxRetriesReached,
    /// The predicate found the error not eligible for another attempt.
    PredicateRejected,
}

/// The verdict of a policy on one failure: go on after a pause, or stop for a
/// reason.
pub type Step = ControlFlow<StopReason, Duration>;

/// The fixed order of decision on the failure of attempt number `attempts`:
/// beyond `max_retries` the verdict is to stop with `MaxRetriesReached`,
/// whatever the predicate would say; within it, to stop with
/// `PredicateRejected` where the predicate answers no, and else to go on
/// after a delay of the backoff.
///
/// `answers` holds of the answers that the predicate can give on the error,
/// `offers` of the delays that the backoff can return for `attempts`.
pub open spec fn arbitration(
    max_retries: usize,
    attempts: usize,
    answers: spec_fn(bool) -> bool,
    offers: spec_fn(Duration) -> bool,
    step: Step,
) -> bool {
    if attempts > max_retries {
        step == Step::Break(StopReason::MaxRetriesReached)
    } else {
        match step {
            ControlFlow::Break(StopReason::MaxRetriesReached) => false,
            ControlFlow::Break(StopReason::PredicateRejected) => answers(false),
            ControlFlow::Continue(delay) => answers(true) && offers(delay),
        }
    }
}

/// A retry policy: `next_step` says, for the error of the failed attempt
/// number `attempts`, whether to go on after a pause or to stop.
///
/// `decides(params, attempts, step)` holds of every verdict that `next_step`
/// can give. A policy made of a bound, a predicate and a backoff describes
/// them by the three spec functions for them, and decides between them as
/// `arbitrates` says. A policy of another make leaves the three alone.
///
/// An implementation that states nothing gets the weakest description:
/// `next_step` may always be called, and may give any verdict.
pub trait RetryPolicy<PParams> {
    /// Whether `next_step` may be called for every error and every attempt
    /// from the first on.
    open spec fn wf(&self) -> bool {
        true
    }

    /// The bound on the number of retries.
    open spec fn spec_max_retries(&self) -> usize {
        0
    }

    /// Whether the predicate of this policy can answer `eligible` on
    /// `params`.
    open spec fn predicate_answers(&self, params: &PParams, eligible: bool) -> bool {
        true
    }

    /// Whether the backoff of this policy can return `delay` for `attempts`.
    open spec fn backoff_offers(&self, attempts: usize, delay: Duration) -> bool {
        true
    }

    /// Whether `next_step` can return `step` for `params` and `attempts`.
    open spec fn decides(&self, params: &PParams, attempts: usize, step: Step) -> bool {
        true
    }

    /// The verdict on the failure of attempt number `attempts` with the error
    /// `params`.
    fn next_step(&self, params: &PParams, attempts: usize) -> (step: Step)
        requires
            self.wf(),
            attempts >= 1,
        ensures
            self.decides(params, attempts, step),
    ;

    /// A short name for diagnostics.
    fn name(&self) -> (name: &str)
        default_ensures
            name@ == "_"@,
    {
        "_"
    }
}

/// Whether `policy` decides by arbitration between its bound, its predicate
/// and its backoff, and in no other way.
pub open spec fn arbitrates<PParams, POL: RetryPolicy<PParams>>(policy: POL) -> bool {
    forall|params: &PParams, attempts: usize, step: Step| #[trigger]
        policy.decides(params, attempts, step) <==> arbitration(
            policy.spec_max_retries(),
            attempts,
            |eligible: bool| policy.predicate_answers(params, eligible),
            |delay: Duration| policy.backoff_offers(attempts, delay),
            step,
        )
}

/// Decides in the fixed order: the bound first, then the predicate, then the
/// backoff. The predicate is asked only within the bound, and the backoff
/// only where the predicate found the error eligible.
pub fn arbitrate<PParams, P: RetryPredicate<PParams> + ?Sized, BO: RetryBackoff + ?Sized>(
    predicate: &P,
    max_retries: usize,
    backoff: &BO,
    params: &PParams,
    attempts: usize,
) -> (step: Step)
    requires
        predicate.wf(),
        backoff.wf(),
        attempts >= 1,
    ensures
        arbitration(
            max_retries,
            attempts,
            |eligible: bool| predicate.answers(params, eligible),
            |delay: Duration| backoff.offers(attempts, delay),
            step,
        ),
{
    if attempts > max_retries {
        return ControlFlow::Break(StopReason::MaxRetriesReached);
    }
    if !predicate.test(params) {
        return ControlFlow::Break(StopReason::PredicateRejected);
    }
    ControlFlow::Continue(backoff.delay(attempts))
}

} // verus!
