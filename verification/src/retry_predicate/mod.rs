//! The predicate of a retry policy: which errors are eligible for another
//! attempt.
use vstd::prelude::*;

pub mod predicates;

verus! {

/// A classifier of errors: `test` answers whether an error is eligible for
/// another attempt.
///
/// The answers are described by a relation rather than a function, so that a
/// predicate made of an arbitrary callable fits: `answers(params, eligible)`
/// holds of every answer that `test` can give on `params`.
///
/// An implementation that states nothing gets the weakest description:
/// `test` may always be called, and may give either answer.
pub trait RetryPredicate<Params> {
    /// Whether `test` may be called on every value.
    open spec fn wf(&self) -> bool {
        true
    }

    /// Whether `test` can answer `eligible` on `params`.
    open spec fn answers(&self, params: &Params, eligible: bool) -> bool {
        true
    }

    /// Returns true if `params` is eligible for another attempt.
    fn test(&self, params: &Params) -> (eligible: bool)
        requires
            self.wf(),
        ensures
            self.answers(params, eligible),
    ;

    /// A short name for diagnostics.
    fn name(&self) -> (name: &str)
        default_ensures
            name@ == "_"@,
    {
        "_"
    }
}

} // verus!
