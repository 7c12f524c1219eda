//! The predicate that finds every error eligible.
use crate::retry_predicate::RetryPredicate;
use core::marker::PhantomData;
use vstd::prelude::*;

verus! {

/// Accepts every error of type `E`.
pub struct Predicate<E> {
    phantom: PhantomData<E>,
}

impl<E> Clone for Predicate<E> {
    fn clone(&self) -> Self {
        Self { phantom: PhantomData }
    }
}

impl<E> Default for Predicate<E> {
    fn default() -> Self {
        Self::new()
    }
}

impl<E> Predicate<E> {
    /// The predicate that accepts every error.
    pub fn new() -> Self {
        Self { phantom: PhantomData }
    }
}

impl<E> RetryPredicate<E> for Predicate<E> {
    open spec fn wf(&self) -> bool {
        true
    }

    open spec fn answers(&self, params: &E, eligible: bool) -> bool {
        eligible
    }

    fn test(&self, _params: &E) -> (eligible: bool) {
        true
    }

    fn name(&self) -> &str
        returns
            "Always",
    {
        "Always"
    }
}

} // verus!
