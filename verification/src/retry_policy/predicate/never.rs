//! The predicate that asks for no retry.
use crate::retry_policy::predicate::Predicate;
use core::marker::PhantomData;
use vstd::prelude::*;

verus! {

/// Asks for no retry, whatever the error of type `E`.
pub struct NeverPredicate<E> {
    phantom: PhantomData<E>,
}

impl<E> Clone for NeverPredicate<E> {
    fn clone(&self) -> Self {
        Self { phantom: PhantomData }
    }
}

impl<E> Default for NeverPredicate<E> {
    fn default() -> Self {
        Self::new()
    }
}

impl<E> NeverPredicate<E> {
    /// The predicate that accepts no error.
    pub fn new() -> Self {
        Self { phantom: PhantomData }
    }
}

impl<E> Predicate<E> for NeverPredicate<E> {
    open spec fn wf(&self) -> bool {
        true
    }

    open spec fn answers(&self, err: &E, retry: bool) -> bool {
        !retry
    }

    fn require_retry(&self, _err: &E) -> (retry: bool) {
        false
    }

    fn name(&self) -> &str
        returns
            "Never",
    {
        "Never"
    }
}

} // verus!
