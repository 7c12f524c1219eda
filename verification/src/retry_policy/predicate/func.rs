//! A predicate made of a callable.
use crate::retry_policy::predicate::Predicate;
use core::marker::PhantomData;
use vstd::prelude::*;
use vstd::std_specs::convert::FromSpecImpl;

verus! {

/// Asks the callable that it wraps about errors of type `E`.
pub struct FnPredicate<E, F> {
    f: F,
    phantom: PhantomData<E>,
}

impl<E, F> FnPredicate<E, F> {
    /// The callable that this predicate asks.
    pub closed spec fn callable(&self) -> F {
        self.f
    }
}

impl<E, F: Fn(&E) -> bool> FromSpecImpl<F> for FnPredicate<E, F> {
    open spec fn obeys_from_spec() -> bool {
        true
    }

    closed spec fn from_spec(f: F) -> Self {
        FnPredicate { f, phantom: PhantomData }
    }
}

impl<E, F: Fn(&E) -> bool> From<F> for FnPredicate<E, F> {
    /// The predicate that asks `f`: it may be asked where `f` may be called,
    /// and answers what `f` returns.
    fn from(f: F) -> (predicate: Self)
        ensures
            predicate.callable() == f,
            predicate.wf() <==> forall|e: &E| call_requires(f, (e,)),
            forall|e: &E, retry: bool| #[trigger]
                predicate.answers(e, retry) <==> call_ensures(f, (e,), retry),
    {
        Self { f, phantom: PhantomData }
    }
}

impl<E, F: Fn(&E) -> bool> Predicate<E> for FnPredicate<E, F> {
    open spec fn wf(&self) -> bool {
        forall|e: &E| call_requires(self.callable(), (e,))
    }

    open spec fn answers(&self, err: &E, retry: bool) -> bool {
        call_ensures(self.callable(), (err,), retry)
    }

    fn require_retry(&self, err: &E) -> (retry: bool) {
        (self.f)(err)
    }

    fn name(&self) -> &str
        returns
            "Fn",
    {
        "Fn"
    }
}

} // verus!
