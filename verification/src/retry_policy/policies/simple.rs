//! The policy made of a predicate, a bound and a backoff.
use crate::retry_backoff::RetryBackoff;
use crate::retry_policy::{arbitrate, arbitrates, arbitration, RetryPolicy, Step};
use crate::retry_predicate::RetryPredicate;
use core::marker::PhantomData;
use core::time::Duration;
use vstd::prelude::*;

verus! {

/// A predicate on errors of type `PParams`, a bound on the number of retries
/// and a backoff.
#[derive(Debug)]
pub struct Policy<PParams, P, BO> {
    /// Which errors are eligible for another attempt.
    pub predicate: P,
    /// How many retries there may be.
    pub max_retries: usize,
    /// How long to wait before each retry.
    pub backoff: BO,
    /// The type of the errors.
    pub phantom: PhantomData<PParams>,
}

impl<PParams, P: RetryPredicate<PParams>, BO: RetryBackoff> Policy<PParams, P, BO> {
    /// A policy that allows `max_retries` retries of the errors that
    /// `predicate` finds eligible, after the delays of `backoff`. It
    /// arbitrates between the three, and may be asked where both the
    /// predicate and the backoff may.
    pub fn new(predicate: P, max_retries: usize, backoff: BO) -> (policy: Self)
        ensures
            policy.predicate == predicate,
            policy.max_retries == max_retries,
            policy.backoff == backoff,
            policy.wf() <==> predicate.wf() && backoff.wf(),
            policy.spec_max_retries() == max_retries,
            forall|params: &PParams, eligible: bool| #[trigger]
                policy.predicate_answers(params, eligible) <==> predicate.answers(params, eligible),
            forall|attempts: usize, delay: Duration| #[trigger]
                policy.backoff_offers(attempts, delay) <==> backoff.offers(attempts, delay),
            arbitrates::<PParams, Self>(policy),
    {
        Self { predicate, max_retries, backoff, phantom: PhantomData }
    }
}

impl<PParams, P, BO> Policy<PParams, P, BO> {
    /// The predicate of this policy.
    pub fn predicate(&self) -> (predicate: &P)
        ensures
            predicate == self.predicate,
    {
        &self.predicate
    }

    /// The bound of this policy on the number of retries.
    pub fn max_retries(&self) -> (max_retries: usize)
        ensures
            max_retries == self.max_retries,
    {
        self.max_retries
    }

    /// The backoff of this policy.
    pub fn backoff(&self) -> (backoff: &BO)
        ensures
            backoff == self.backoff,
    {
        &self.backoff
    }
}

impl<PParams, P: RetryPredicate<PParams>, BO: RetryBackoff> RetryPolicy<PParams> for Policy<
    PParams,
    P,
    BO,
> {
    open spec fn wf(&self) -> bool {
        self.predicate.wf() && self.backoff.wf()
    }

    open spec fn spec_max_retries(&self) -> usize {
        self.max_retries
    }

    open spec fn predicate_answers(&self, params: &PParams, eligible: bool) -> bool {
        self.predicate.answers(params, eligible)
    }

    open spec fn backoff_offers(&self, attempts: usize, delay: Duration) -> bool {
        self.backoff.offers(attempts, delay)
    }

    open spec fn decides(&self, params: &PParams, attempts: usize, step: Step) -> bool {
        arbitration(
            self.max_retries,
            attempts,
            |eligible: bool| self.predicate.answers(params, eligible),
            |delay: Duration| self.backoff.offers(attempts, delay),
            step,
        )
    }

    fn next_step(&self, params: &PParams, attempts: usize) -> (step: Step) {
        arbitrate(&self.predicate, self.max_retries, &self.backoff, params, attempts)
    }

    fn name(&self) -> &str
        returns
            "Simple",
    {
        "Simple"
    }
}

} // verus!
