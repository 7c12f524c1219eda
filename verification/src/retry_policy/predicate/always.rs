//! The predicate that asks for a retry after every error.
use crate::retry_policy::predicate::Predicate;
use core::marker::PhantomData;
use vstd::prelude::*;

verus! {

/// Asks for a retry after every error of type `E`.
pub struct AlwaysPredicate<E> {
    phantom: PhantomData<E>,
}

impl<E> Clone for AlwaysPredicate<E> {
    fn clone(&self) -> Self {
        Self { phantom: PhantomData }
    }
}

impl<E> Default for AlwaysPredicate<E> {
    fn default() -> Self {
        Self::new()
    }
}

impl<E> AlwaysPredicate<E> {
    /// The predicate that accepts every error.
    pub fn new() -> Self {
        Self { phantom: PhantomData }
    }
}

impl<E> Predicate<E> for AlwaysPredicate<E> {
    open spec fn wf(&self) -> bool {
        true
    }

    open spec fn answers(&self, err: &E, retry: bool) -> bool {
        retry
    }

    fn require_retry(&self, _err: &E) -> (retry: bool) {
        true
    }

    fn name(&self) -> &str
        returns
            "Always",
    {
        "Always"
    }
}

} // verus!
