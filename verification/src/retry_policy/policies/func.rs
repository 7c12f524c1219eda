//! A policy made of a callable.
use crate::retry_policy::{RetryPolicy, Step};
use core::marker::PhantomData;
use vstd::prelude::*;
use vstd::std_specs::convert::FromSpecImpl;

verus! {

/// Asks the callable that it wraps about errors of type `PParams`: it has no
/// bound, no predicate and no backoff.
pub struct Policy<PParams, F> {
    f: F,
    phantom: PhantomData<PParams>,
}

impl<PParams, F> Policy<PParams, F> {
    /// The callable that this policy asks.
    pub closed spec fn callable(&self) -> F {
        self.f
    }
}

impl<PParams, F: Fn(&PParams, usize) -> Step> FromSpecImpl<F> for Policy<PParams, F> {
    open spec fn obeys_from_spec() -> bool {
        true
    }

    closed spec fn from_spec(f: F) -> Self {
        Policy { f, phantom: PhantomData }
    }
}

impl<PParams, F: Fn(&PParams, usize) -> Step> From<F> for Policy<PParams, F> {
    /// The policy that asks `f`: it may be asked where `f` may be called for
    /// every attempt from the first on, and decides what `f` returns.
    fn from(f: F) -> (policy: Self)
        ensures
            policy.callable() == f,
            policy.wf() <==> forall|params: &PParams, attempts: usize|
                attempts >= 1 ==> call_requires(f, (params, attempts)),
            forall|params: &PParams, attempts: usize, step: Step| #[trigger]
                policy.decides(params, attempts, step) <==> call_ensures(
                    f,
                    (params, attempts),
                    step,
                ),
    {
        Self { f, phantom: PhantomData }
    }
}

impl<PParams, F: Fn(&PParams, usize) -> Step> RetryPolicy<PParams> for Policy<PParams, F> {
    open spec fn wf(&self) -> bool {
        forall|params: &PParams, attempts: usize|
            attempts >= 1 ==> call_requires(self.callable(), (params, attempts))
    }

    open spec fn decides(&self, params: &PParams, attempts: usize, step: Step) -> bool {
        call_ensures(self.callable(), (params, attempts), step)
    }

    fn next_step(&self, params: &PParams, attempts: usize) -> (step: Step) {
        (self.f)(params, attempts)
    }

    fn name(&self) -> &str
        returns
            "Fn",
    {
        "Fn"
    }
}

} // verus!
