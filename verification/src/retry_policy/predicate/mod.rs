//! Predicates that are asked with `require_retry`. The policies of this
//! library take those of [`crate::retry_predicate`], which are asked with
//! `test`.
use vstd::prelude::*;

pub mod always;
pub mod func;
pub mod never;

pub use always::AlwaysPredicate;
pub use func::FnPredicate;
pub use never::NeverPredicate;

verus! {

/// A classifier of errors: `require_retry` answers whether an error calls
/// for another attempt.
///
/// `answers(err, retry)` holds of every answer that `require_retry` can give
/// on `err`. An implementation that states nothing gets the weakest
/// description: `require_retry` may always be called, and may give either
/// answer.
pub trait Predicate<E> {
    /// Whether `require_retry` may be called on every error.
    open spec fn wf(&self) -> bool {
        true
    }

    /// Whether `require_retry` can answer `retry` on `err`.
    open spec fn answers(&self, err: &E, retry: bool) -> bool {
        true
    }

    /// Returns true if `err` calls for another attempt.
    fn require_retry(&self, err: &E) -> (retry: bool)
        requires
            self.wf(),
        ensures
            self.answers(err, retry),
    ;

    /// A short name for diagnostics.
    fn name(&self) -> (name: &str)
        default_ensures
            name@ == "_"@,
    {
        "_"
    }
}

} // verus!
