//! Retrying under a deadline for every attempt.
//!
//! The driver races each attempt against a timer and hands the engine what
//! [`timeout_outcome`] makes of the result: a timeout is an error of the
//! attempt like any other.
use crate::retry_predicate::RetryPredicate;
use async_sleep::timeout::Error as TimeoutError;
use core::convert::Infallible;
use core::marker::PhantomData;
use vstd::prelude::*;

verus! {

#[verifier::external_type_specification]
#[verifier::external_body]
pub struct ExTimeoutError(TimeoutError);

/// The error of an attempt under a deadline: that of the operation, or that
/// of the timer.
#[derive(Debug)]
pub enum ErrorWrapper<T> {
    Inner(T),
    Timeout(TimeoutError),
}

impl<T> ErrorWrapper<T> {
    /// Whether this is an error of the operation.
    pub fn is_inner(&self) -> (inner: bool)
        ensures
            inner == (self is Inner),
    {
        matches!(self, Self::Inner(_))
    }

    /// Whether the timer ran out on the attempt.
    pub fn is_timeout(&self) -> (timeout: bool)
        ensures
            timeout == (self is Timeout),
    {
        matches!(self, Self::Timeout(_))
    }

    /// The error of the operation, if that is what this is.
    pub fn into_inner(self) -> (inner: Option<T>)
        ensures
            inner == match self {
                ErrorWrapper::Inner(x) => Some(x),
                ErrorWrapper::Timeout(_) => None,
            },
    {
        match self {
            Self::Inner(x) => Some(x),
            Self::Timeout(_) => None,
        }
    }
}

/// What an attempt under a deadline comes to, from what the race against the
/// timer returned: the value of the operation, its error, or the timeout.
pub fn timeout_outcome<T, E>(
    raced: Result<Result<T, E>, TimeoutError>,
) -> (outcome: Result<T, ErrorWrapper<E>>)
    ensures
        outcome == match raced {
            Ok(Ok(x)) => Ok::<T, ErrorWrapper<E>>(x),
            Ok(Err(err)) => Err(ErrorWrapper::Inner(err)),
            Err(err) => Err(ErrorWrapper::Timeout(err)),
        },
{
    match raced {
        Ok(Ok(x)) => Ok(x),
        Ok(Err(err)) => Err(ErrorWrapper::Inner(err)),
        Err(err) => Err(ErrorWrapper::Timeout(err)),
    }
}

/// What an attempt under a deadline comes to where the operation cannot
/// fail: its value, or the timeout.
pub fn timeout_outcome_for_unresult<T>(
    raced: Result<T, TimeoutError>,
) -> (outcome: Result<T, ErrorWrapper<Infallible>>)
    ensures
        outcome == match raced {
            Ok(x) => Ok::<T, ErrorWrapper<Infallible>>(x),
            Err(err) => Err(ErrorWrapper::Timeout(err)),
        },
{
    match raced {
        Ok(x) => Ok(x),
        Err(err) => Err(ErrorWrapper::Timeout(err)),
    }
}

/// A predicate on the errors of attempts under a deadline: it asks the
/// predicate that it wraps about the errors of the operation, which are of
/// type `E`, and finds every timeout eligible.
pub struct PredicateWrapper<E, P> {
    inner: P,
    phantom: PhantomData<E>,
}

impl<E, P> PredicateWrapper<E, P> {
    /// The predicate that this one wraps.
    pub closed spec fn inner(&self) -> P {
        self.inner
    }
}

impl<E, P: RetryPredicate<E>> PredicateWrapper<E, P> {
    /// A predicate that asks `inner` about the errors of the operation. It
    /// may be asked where `inner` may.
    pub fn new(inner: P) -> (wrapper: Self)
        ensures
            wrapper.inner() == inner,
            wrapper.wf() <==> inner.wf(),
            forall|params: &ErrorWrapper<E>, eligible: bool| #[trigger]
                wrapper.answers(params, eligible) <==> match params {
                    ErrorWrapper::Inner(inner_params) => inner.answers(inner_params, eligible),
                    ErrorWrapper::Timeout(_) => eligible,
                },
    {
        Self { inner, phantom: PhantomData }
    }
}

impl<E, P: RetryPredicate<E>> RetryPredicate<ErrorWrapper<E>> for PredicateWrapper<E, P> {
    open spec fn wf(&self) -> bool {
        self.inner().wf()
    }

    open spec fn answers(&self, params: &ErrorWrapper<E>, eligible: bool) -> bool {
        match params {
            ErrorWrapper::Inner(inner_params) => self.inner().answers(inner_params, eligible),
            ErrorWrapper::Timeout(_) => eligible,
        }
    }

    fn test(&self, params: &ErrorWrapper<E>) -> (eligible: bool) {
        match params {
            ErrorWrapper::Inner(inner_params) => self.inner.test(inner_params),
            ErrorWrapper::Timeout(_) => true,
        }
    }
}

} // verus!
