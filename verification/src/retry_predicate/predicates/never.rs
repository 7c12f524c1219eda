//! The predicate that finds no error eligible.
use crate::retry_predicate::RetryPredicate;
use vstd::prelude::*;

verus! {

/// Rejects every error, of whatever type.
#[derive(Debug, Clone, Copy, Default)]
pub struct Predicate;

impl<Params> RetryPredicate<Params> for Predicate {
    open spec fn wf(&self) -> bool {
        true
    }

    open spec fn answers(&self, params: &Params, eligible: bool) -> bool {
        !eligible
    }

    fn test(&self, _params: &Params) -> (eligible: bool) {
        false
    }

    fn name(&self) -> &str
        returns
            "Never",
    {
        "Never"
    }
}

} // verus!
