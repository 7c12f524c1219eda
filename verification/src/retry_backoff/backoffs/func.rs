//! A backoff made of a callable.
use crate::retry_backoff::RetryBackoff;
use core::time::Duration;
use vstd::prelude::*;
use vstd::std_specs::convert::FromSpecImpl;

verus! {

/// Asks the callable that it wraps.
pub struct Backoff<F> {
    f: F,
}

impl<F> Backoff<F> {
    /// The callable that this backoff asks.
    pub closed spec fn callable(&self) -> F {
        self.f
    }
}

impl<F: Fn(usize) -> Duration> FromSpecImpl<F> for Backoff<F> {
    open spec fn obeys_from_spec() -> bool {
        true
    }

    closed spec fn from_spec(f: F) -> Self {
        Backoff { f }
    }
}

impl<F: Fn(usize) -> Duration> From<F> for Backoff<F> {
    /// The backoff that asks `f`: it may be asked where `f` may be called
    /// for every attempt from the first on, and returns what `f` returns.
    fn from(f: F) -> (backoff: Self)
        ensures
            backoff.callable() == f,
            backoff.wf() <==> forall|attempts: usize|
                attempts >= 1 ==> call_requires(f, (attempts,)),
            forall|attempts: usize, delay: Duration| #[trigger]
                backoff.offers(attempts, delay) <==> call_ensures(f, (attempts,), delay),
    {
        Self { f }
    }
}

impl<F: Fn(usize) -> Duration> RetryBackoff for Backoff<F> {
    open spec fn wf(&self) -> bool {
        forall|attempts: usize| attempts >= 1 ==> call_requires(self.callable(), (attempts,))
    }

    open spec fn offers(&self, attempts: usize, delay: Duration) -> bool {
        call_ensures(self.callable(), (attempts,), delay)
    }

    fn delay(&self, attempts: usize) -> (delay: Duration) {
        (self.f)(attempts)
    }

    fn name(&self) -> &str
        returns
            "Fn",
    {
        "Fn"
    }
}

} // verus!
