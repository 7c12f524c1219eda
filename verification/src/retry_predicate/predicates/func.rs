//! A predicate made of a callable.
use crate::retry_predicate::RetryPredicate;
use core::marker::PhantomData;
use vstd::prelude::*;
use vstd::std_specs::convert::FromSpecImpl;

verus! {

/// Asks the callable that it wraps about errors of type `E`.
pub struct Predicate<E, F> {
    f: F,
    phantom: PhantomData<E>,
}

impl<E, F> Predicate<E, F> {
    /// The callable that this predicate asks.
    pub closed spec fn callable(&self) -> F {
        self.f
    }
}

impl<E, F: Fn(&E) -> bool> FromSpecImpl<F> for Predicate<E, F> {
    open spec fn obeys_from_spec() -> bool {
        true
    }

    closed spec fn from_spec(f: F) -> Self {
        Predicate { f, phantom: PhantomData }
    }
}

impl<E, F: Fn(&E) -> bool> From<F> for Predicate<E, F> {
    /// The predicate that asks `f`: it may be asked where `f` may be called,
    /// and answers what `f` returns.
    fn from(f: F) -> (predicate: Self)
        ensures
            predicate.callable() == f,
            predicate.wf() <==> forall|e: &E| call_requires(f, (e,)),
            forall|e: &E, eligible: bool| #[trigger]
                predicate.answers(e, eligible) <==> call_ensures(f, (e,), eligible),
    {
        Self { f, phantom: PhantomData }
    }
}

impl<E, F: Fn(&E) -> bool> RetryPredicate<E> for Predicate<E, F> {
    open spec fn wf(&self) -> bool {
        forall|e: &E| call_requires(self.callable(), (e,))
    }

    open spec fn answers(&self, params: &E, eligible: bool) -> bool {
        call_ensures(self.callable(), (params,), eligible)
    }

    fn test(&self, params: &E) -> (eligible: bool) {
        (self.f)(params)
    }

    fn name(&self) -> &str
        returns
            "Fn",
    {
        "Fn"
    }
}

} // verus!
