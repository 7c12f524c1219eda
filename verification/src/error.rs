//! The failure of a retried operation.
use crate::retry_policy::StopReason;
use vstd::prelude::*;

verus! {

/// Why retrying stopped, and the error of every failed attempt, oldest
/// first. The last of them is the one at which the policy stopped.
#[derive(Debug)]
pub struct Error<T> {
    pub stop_reason: StopReason,
    errors: Vec<T>,
}

/// An [`Error`] as a mathematical value.
pub struct ErrorView<T> {
    pub stop_reason: StopReason,
    /// The errors of the failed attempts, oldest first.
    pub errors: Seq<T>,
}

impl<T> View for Error<T> {
    type V = ErrorView<T>;

    closed spec fn view(&self) -> ErrorView<T> {
        ErrorView { stop_reason: self.stop_reason, errors: self.errors@ }
    }
}

impl<T> Error<T> {
    /// There is at least one error: retrying stops at a failure.
    pub open spec fn wf(&self) -> bool {
        self@.errors.len() > 0
    }

    /// The failure of a run that stopped for `stop_reason` after the
    /// failures `errors`.
    pub(crate) fn new(stop_reason: StopReason, errors: Vec<T>) -> (error: Self)
        requires
            errors@.len() > 0,
        ensures
            error@ == (ErrorView { stop_reason, errors: errors@ }),
            error.wf(),
    {
        Self { stop_reason, errors }
    }

    /// Why retrying stopped.
    pub fn stop_reason(&self) -> (stop_reason: StopReason)
        ensures
            stop_reason == self@.stop_reason,
    {
        self.stop_reason
    }

    /// The error of the last attempt.
    pub fn last_error(self) -> (last: T)
        requires
            self.wf(),
        ensures
            last == self@.errors.last(),
    {
        let mut errors = self.errors;
        match errors.pop() {
            Some(last) => last,
            None => vstd::pervasive::unreached(),
        }
    }

    /// The errors of all attempts, oldest first.
    pub fn errors(self) -> (errors: Vec<T>)
        ensures
            errors@ == self@.errors,
    {
        self.errors
    }
}

} // verus!
