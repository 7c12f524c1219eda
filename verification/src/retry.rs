//! The retry engine, as a state machine that performs no I/O.
//!
//! A driver owns the operation and the timer. It starts an attempt when the
//! engine is idle, hands the result of the attempt to the engine, sleeps for
//! as long as the engine asks, and returns what the engine finishes with:
//!
//! | state      | the driver                      | then calls        |
//! |------------|---------------------------------|-------------------|
//! | `Idle`     | starts a fresh attempt          | `start_attempt`   |
//! | `Running`  | waits for the attempt's result  | `finish_attempt`  |
//! | `Sleeping` | waits for the pause to elapse   | `sleep_elapsed`   |
//! | `Done`     | must not drive the engine again |                   |
use crate::error::{Error, ErrorView};
use crate::retry_policy::{RetryPolicy, Step};
use core::marker::PhantomData;
use core::ops::ControlFlow;
use core::time::Duration;
use vstd::prelude::*;

verus! {

/// Where the engine stands.
#[derive(Clone, Copy, Debug, PartialEq, Eq, Structural)]
pub enum State {
    /// About to start a new attempt.
    Idle,
    /// An attempt is in flight.
    Running,
    /// A pause between two attempts is in flight.
    Sleeping,
    /// The engine has produced its outcome.
    Done,
}

/// What the driver is to do once an attempt has come to its end.
#[derive(Debug)]
pub enum Action<T, E> {
    /// Sleep for this long, then start the next attempt.
    Sleep(Duration),
    /// Return this outcome. The engine is done.
    Finish(Result<T, Error<E>>),
}

/// An [`Action`] as a mathematical value.
pub enum ActionView<T, E> {
    Sleep(Duration),
    Finish(Result<T, ErrorView<E>>),
}

impl<T, E> ActionView<T, E> {
    /// The verdict of the policy that leads to this action after a failure.
    /// No verdict leads to finishing with a value.
    pub open spec fn step(self) -> Option<Step> {
        match self {
            ActionView::Sleep(delay) => Some(Step::Continue(delay)),
            ActionView::Finish(Err(error)) => Some(Step::Break(error.stop_reason)),
            ActionView::Finish(Ok(_)) => None,
        }
    }
}

impl<T, E> View for Action<T, E> {
    type V = ActionView<T, E>;

    open spec fn view(&self) -> ActionView<T, E> {
        match self {
            Action::Sleep(delay) => ActionView::Sleep(*delay),
            Action::Finish(Ok(value)) => ActionView::Finish(Ok(*value)),
            Action::Finish(Err(error)) => ActionView::Finish(Err(error@)),
        }
    }
}

/// The engine as a mathematical value: its state, its attempt counter and
/// its error log.
pub struct Machine<E> {
    pub state: State,
    /// The number of failed attempts so far.
    pub attempts: nat,
    /// The errors of the failed attempts so far, oldest first.
    pub errors: Seq<E>,
}

impl<E> Machine<E> {
    /// The counter is the length of the log, and a finished engine has
    /// dropped both.
    pub open spec fn wf(self) -> bool {
        &&& self.attempts == self.errors.len()
        &&& self.state is Done ==> self.attempts == 0
    }

    /// The engine before its first attempt.
    pub open spec fn initial() -> Self {
        Machine { state: State::Idle, attempts: 0, errors: Seq::empty() }
    }

    /// The engine once it has produced its outcome.
    pub open spec fn finished() -> Self {
        Machine { state: State::Done, attempts: 0, errors: Seq::empty() }
    }

    /// The engine after a fresh attempt was started.
    pub open spec fn started(self) -> Self {
        Machine { state: State::Running, ..self }
    }

    /// The engine after the attempt in flight failed with `err` and the
    /// policy gave the verdict `step`.
    pub open spec fn failed(self, err: E, step: Step) -> Self {
        match step {
            ControlFlow::Continue(_) => Machine {
                state: State::Sleeping,
                attempts: self.attempts + 1,
                errors: self.errors.push(err),
            },
            ControlFlow::Break(_) => Self::finished(),
        }
    }

    /// What the driver is to do after the attempt in flight failed with
    /// `err` and the policy gave the verdict `step`.
    pub open spec fn failure_action<T>(self, err: E, step: Step) -> ActionView<T, E> {
        match step {
            ControlFlow::Continue(delay) => ActionView::Sleep(delay),
            ControlFlow::Break(stop_reason) => ActionView::Finish(
                Err(ErrorView { stop_reason, errors: self.errors.push(err) }),
            ),
        }
    }

    /// The engine after the pause has elapsed.
    pub open spec fn woken(self) -> Self {
        Machine { state: State::Idle, ..self }
    }
}

/// The retry engine for operations that succeed with a `T` or fail with an
/// `E`, under the policy `POL`.
#[derive(Debug)]
pub struct Retry<POL, T, E> {
    policy: POL,
    state: State,
    attempts: usize,
    errors: Vec<E>,
    phantom: PhantomData<T>,
}

impl<POL, T, E> View for Retry<POL, T, E> {
    type V = Machine<E>;

    closed spec fn view(&self) -> Machine<E> {
        Machine { state: self.state, attempts: self.attempts as nat, errors: self.errors@ }
    }
}

impl<POL, T, E> Retry<POL, T, E> {
    /// The policy that this engine asks.
    pub closed spec fn policy(&self) -> POL {
        self.policy
    }

    /// An engine before its first attempt.
    pub fn new(policy: POL) -> (retry: Self)
        ensures
            retry@ == Machine::<E>::initial(),
            retry@.wf(),
            retry.policy() == policy,
    {
        Self { policy, state: State::Idle, attempts: 0, errors: Vec::new(), phantom: PhantomData }
    }

    /// Where the engine stands.
    pub fn state(&self) -> (state: State)
        ensures
            state == self@.state,
    {
        self.state
    }

    /// Whether the engine has produced its outcome.
    pub fn is_terminated(&self) -> (terminated: bool)
        ensures
            terminated == (self@.state is Done),
    {
        matches!(self.state, State::Done)
    }

    /// Records that the driver has started a fresh attempt.
    pub fn start_attempt(&mut self)
        requires
            old(self)@.state is Idle,
        ensures
            final(self)@ == old(self)@.started(),
            final(self).policy() == old(self).policy(),
    {
        self.state = State::Running;
    }

    /// Records that the pause has elapsed.
    pub fn sleep_elapsed(&mut self)
        requires
            old(self)@.state is Sleeping,
        ensures
            final(self)@ == old(self)@.woken(),
            final(self).policy() == old(self).policy(),
    {
        self.state = State::Idle;
    }

    /// Records that the attempt in flight failed with `err` and that the
    /// policy gave the verdict `step` on it.
    pub fn record_failure(&mut self, err: E, step: Step) -> (action: Action<T, E>)
        requires
            old(self)@.state is Running,
            old(self)@.wf(),
        ensures
            final(self)@ == old(self)@.failed(err, step),
            final(self)@.wf(),
            final(self).policy() == old(self).policy(),
            action@ == old(self)@.failure_action::<T>(err, step),
    {
        self.errors.push(err);
        assert(old(self).errors@.push(err).drop_last() == old(self).errors@);
        self.settle(step)
    }

    /// Acts on the verdict `step` on the error that was last logged.
    fn settle(&mut self, step: Step) -> (action: Action<T, E>)
        requires
            old(self).state is Running,
            old(self).errors@.len() == old(self).attempts + 1,
        ensures
            final(self)@ == (Machine {
                state: State::Running,
                attempts: old(self).attempts as nat,
                errors: old(self).errors@.drop_last(),
            }).failed(old(self).errors@.last(), step),
            final(self)@.wf(),
            final(self).policy() == old(self).policy(),
            action@ == (Machine {
                state: State::Running,
                attempts: old(self).attempts as nat,
                errors: old(self).errors@.drop_last(),
            }).failure_action::<T>(old(self).errors@.last(), step),
    {
        assert(old(self).errors@.drop_last().push(old(self).errors@.last()) == old(self).errors@);
        match step {
            ControlFlow::Continue(delay) => {
                self.attempts = self.errors.len();
                self.state = State::Sleeping;
                Action::Sleep(delay)
            },
            ControlFlow::Break(stop_reason) => {
                let mut errors = Vec::new();
                core::mem::swap(&mut self.errors, &mut errors);
                self.state = State::Done;
                self.attempts = 0;
                Action::Finish(Err(Error::new(stop_reason, errors)))
            },
        }
    }
}

impl<POL: RetryPolicy<E>, T, E> Retry<POL, T, E> {
    /// Takes the result of the attempt in flight.
    ///
    /// A success finishes the engine at once, and the counter and the log
    /// are dropped: the policy, and so its predicate and its backoff, is
    /// asked only about a failure. On a failure the attempt is counted, the
    /// error is logged, and the policy decides: the engine either asks for a
    /// pause, or finishes with the reason that the policy gave and all the
    /// errors so far.
    pub fn finish_attempt(&mut self, outcome: Result<T, E>) -> (action: Action<T, E>)
        requires
            old(self)@.state is Running,
            old(self)@.wf(),
            outcome is Err ==> old(self).policy().wf(),
        ensures
            final(self).policy() == old(self).policy(),
            final(self)@.wf(),
            match outcome {
                Ok(value) => {
                    &&& final(self)@ == Machine::<E>::finished()
                    &&& action@ == ActionView::<T, E>::Finish(Ok(value))
                },
                Err(err) => {
                    &&& action@.step() matches Some(step)
                    &&& old(self).policy().decides(&err, (old(self)@.attempts + 1) as usize, step)
                    &&& final(self)@ == old(self)@.failed(err, step)
                    &&& action@ == old(self)@.failure_action::<T>(err, step)
                },
            },
    {
        match outcome {
            Ok(value) => {
                self.state = State::Done;
                self.attempts = 0;
                self.errors = Vec::new();
                Action::Finish(Ok(value))
            },
            Err(err) => {
                self.errors.push(err);
                let attempts: usize = self.errors.len();
                let step = self.policy.next_step(&self.errors[attempts - 1], attempts);
                assert(old(self).errors@.push(err).drop_last() == old(self).errors@);
                self.settle(step)
            },
        }
    }
}

} // verus!
