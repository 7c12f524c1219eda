//! The jittered exponential backoff of the crate `exponential_backoff` as a
//! [`RetryBackoff`].
//!
//! The library holds the limits of the backoff itself, so that it can say
//! when a delay may be asked for, and makes a backoff of the outside crate
//! from them whenever it needs one.
use crate::retry_backoff::RetryBackoff;
use core::time::Duration;
use exponential_backoff::Backoff as Inner;
use vstd::prelude::*;

verus! {

/// The length of a duration in nanoseconds.
pub uninterp spec fn duration_nanos(duration: Duration) -> u128;

/// `Duration::as_nanos`: the whole length of the duration, in nanoseconds.
pub assume_specification[ Duration::as_nanos ](duration: &Duration) -> (nanos: u128)
    ensures
        nanos == duration_nanos(*duration),
;

/// The number of attempts for which the outside crate is asked to plan
/// unless told otherwise: the most it can.
pub const MAX_ATTEMPTS: u32 = 0xffff_ffff;

/// Whether `delay` is no shorter than `min` and no longer than `max`.
pub open spec fn within(min: Duration, max: Duration, delay: Duration) -> bool {
    duration_nanos(min) <= duration_nanos(delay) <= duration_nanos(max)
}

/// What a plan of the outside crate for `max_attempts` attempts holds under
/// the number `attempts`: a delay within `min` and `max` before its last
/// item, nothing as its last item, and no item after that.
pub open spec fn planned(
    max_attempts: u32,
    min: Duration,
    max: Duration,
    attempts: usize,
    nth: Option<Option<Duration>>,
) -> bool {
    if attempts < max_attempts - 1 {
        nth matches Some(Some(delay)) && within(min, max, delay)
    } else if attempts == max_attempts - 1 {
        nth == Some(None::<Duration>)
    } else {
        nth.is_none()
    }
}

/// The `max()` of an `exponential_backoff::Backoff` made with `max`: `max`
/// itself where there is one, and else `Duration::MAX`, than which no
/// duration is longer.
#[verifier::external_body]
fn ceiling(max_attempts: u32, min: Duration, max: Option<Duration>) -> (ceiling: Duration)
    ensures
        max matches Some(m) ==> ceiling == m,
        max is None ==> forall|d: Duration| duration_nanos(d) <= duration_nanos(ceiling),
{
    *Inner::new(max_attempts, min, max).max()
}

/// The item numbered `attempts`, from 0, of the plan of an
/// `exponential_backoff::Backoff` made of `min` and `max` for `max_attempts`
/// attempts: `iter().nth(attempts)`.
///
/// The iterator doubles `min` from one item to the next, moves each by a
/// jitter drawn at random and clamps it between `min` and `max`, which
/// panics where `min` is longer than `max`. Its last item, the one numbered
/// `max_attempts - 1`, is `None`.
#[verifier::external_body]
fn nth_delay(
    max_attempts: u32,
    min: Duration,
    max: Duration,
    attempts: usize,
) -> (nth: Option<Option<Duration>>)
    requires
        duration_nanos(min) <= duration_nanos(max),
    ensures
        planned(max_attempts, min, max, attempts, nth),
{
    Inner::new(max_attempts, min, max).iter().nth(attempts)
}

/// The delay to use where the outside crate answered `nth`: the one it
/// planned, or `max` where its plan holds none.
pub fn planned_or(nth: Option<Option<Duration>>, max: Duration) -> (delay: Duration)
    ensures
        delay == match nth {
            Some(Some(planned)) => planned,
            _ => max,
        },
{
    match nth {
        Some(Some(planned)) => planned,
        _ => max,
    }
}

/// An exponential backoff between a shortest and a longest delay, planned
/// for a number of attempts.
#[derive(Debug, Clone, Copy)]
pub struct Backoff {
    max_attempts: u32,
    min: Duration,
    max: Duration,
}

impl Backoff {
    /// The number of attempts that the backoff is planned for.
    pub closed spec fn spec_max_attempts(&self) -> u32 {
        self.max_attempts
    }

    /// The shortest delay.
    pub closed spec fn spec_min(&self) -> Duration {
        self.min
    }

    /// The longest delay.
    pub closed spec fn spec_max(&self) -> Duration {
        self.max
    }

    /// Whether the shortest delay is no longer than the longest.
    pub open spec fn ordered(&self) -> bool {
        duration_nanos(self.spec_min()) <= duration_nanos(self.spec_max())
    }

    /// A backoff from `min` to `max`, planned for `MAX_ATTEMPTS` attempts;
    /// without a `max`, to the longest duration there is.
    #[inline]
    pub fn new(min: Duration, max: Option<Duration>) -> (backoff: Self)
        ensures
            backoff.spec_max_attempts() == MAX_ATTEMPTS,
            backoff.spec_min() == min,
            max matches Some(m) ==> backoff.spec_max() == m,
            max is None ==> backoff.ordered(),
    {
        Self { max_attempts: MAX_ATTEMPTS, min, max: ceiling(MAX_ATTEMPTS, min, max) }
    }

    /// The number of attempts that the backoff is planned for.
    pub fn max_attempts(&self) -> (max_attempts: u32)
        ensures
            max_attempts == self.spec_max_attempts(),
    {
        self.max_attempts
    }

    /// Sets the number of attempts that the backoff is planned for.
    pub fn set_max_attempts(&mut self, max_attempts: u32)
        ensures
            final(self).spec_max_attempts() == max_attempts,
            final(self).spec_min() == old(self).spec_min(),
            final(self).spec_max() == old(self).spec_max(),
    {
        self.max_attempts = max_attempts;
    }

    /// The shortest delay.
    pub fn min(&self) -> (min: &Duration)
        ensures
            *min == self.spec_min(),
    {
        &self.min
    }

    /// The longest delay.
    pub fn max(&self) -> (max: &Duration)
        ensures
            *max == self.spec_max(),
    {
        &self.max
    }

    /// Sets the shortest delay.
    pub fn set_min(&mut self, min: Duration)
        ensures
            final(self).spec_max_attempts() == old(self).spec_max_attempts(),
            final(self).spec_min() == min,
            final(self).spec_max() == old(self).spec_max(),
    {
        self.min = min;
    }

    /// Sets the longest delay.
    pub fn set_max(&mut self, max: Duration)
        ensures
            final(self).spec_max_attempts() == old(self).spec_max_attempts(),
            final(self).spec_min() == old(self).spec_min(),
            final(self).spec_max() == max,
    {
        self.max = max;
    }

    /// Whether `delay` may be called: tests `ordered`.
    pub fn is_ordered(&self) -> (ordered: bool)
        ensures
            ordered == self.ordered(),
    {
        self.min.as_nanos() <= self.max.as_nanos()
    }

    /// The delay for `attempts`, where there is one: none for attempt 0, and
    /// none where the shortest delay is longer than the longest.
    pub fn checked_delay(&self, attempts: usize) -> (delay: Option<Duration>)
        ensures
            delay is Some <==> attempts >= 1 && self.ordered(),
            delay matches Some(d) ==> self.offers(attempts, d),
    {
        if attempts >= 1 && self.is_ordered() {
            Some(self.delay(attempts))
        } else {
            None
        }
    }
}

impl RetryBackoff for Backoff {
    open spec fn wf(&self) -> bool {
        self.ordered()
    }

    /// A delay between the two limits; the longest delay once the plan of
    /// the outside crate has run out.
    open spec fn offers(&self, attempts: usize, delay: Duration) -> bool {
        if attempts < self.spec_max_attempts() - 1 {
            within(self.spec_min(), self.spec_max(), delay)
        } else {
            delay == self.spec_max()
        }
    }

    fn delay(&self, attempts: usize) -> (delay: Duration) {
        planned_or(nth_delay(self.max_attempts, self.min, self.max, attempts), self.max)
    }

    fn name(&self) -> &str
        returns
            "CrateExponentialBackoff",
    {
        "CrateExponentialBackoff"
    }
}

} // verus!
