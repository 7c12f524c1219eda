//! Whole runs of the engine: what it makes of a sequence of attempts, and
//! what that comes to under a policy that arbitrates between a bound, a
//! predicate and a backoff.
use crate::error::ErrorView;
use crate::retry::{ActionView, Machine};
use crate::retry_policy::{arbitrates, RetryPolicy, Step, StopReason};
use core::time::Duration;
use vstd::prelude::*;

verus! {

/// One attempt as the engine meets it: the value that it succeeded with, or
/// the error that it failed with and the verdict of the policy on it.
pub enum Attempt<T, E> {
    Succeeded(T),
    Failed(E, Step),
}

impl<T, E> Attempt<T, E> {
    /// The error of a failed attempt.
    pub open spec fn error(self) -> E {
        match self {
            Attempt::Failed(err, _) => err,
            Attempt::Succeeded(_) => arbitrary(),
        }
    }

    /// The verdict of the policy on a failed attempt.
    pub open spec fn step(self) -> Step {
        match self {
            Attempt::Failed(_, step) => step,
            Attempt::Succeeded(_) => arbitrary(),
        }
    }

    /// Whether the attempt failed and the policy let the engine go on.
    pub open spec fn passed_over(self) -> bool {
        self is Failed && self.step() is Continue
    }

    /// The pause after an attempt that was passed over.
    pub open spec fn pause(self) -> Duration {
        match self.step() {
            Step::Continue(delay) => delay,
            Step::Break(_) => arbitrary(),
        }
    }
}

/// The errors of `attempts`, in their order.
pub open spec fn errors_of<T, E>(attempts: Seq<Attempt<T, E>>) -> Seq<E> {
    Seq::new(attempts.len(), |i: int| attempts[i].error())
}

/// The pauses after `attempts`, in their order.
pub open spec fn pauses_of<T, E>(attempts: Seq<Attempt<T, E>>) -> Seq<Duration> {
    Seq::new(attempts.len(), |i: int| attempts[i].pause())
}

/// What a run has come to.
pub struct Run<T, E> {
    /// The engine at the end of the run.
    pub machine: Machine<E>,
    /// The number of attempts that were started.
    pub made: nat,
    /// The pauses that the engine asked for, in their order.
    pub pauses: Seq<Duration>,
    /// What the engine finished with, if it did.
    pub outcome: Option<Result<T, ErrorView<E>>>,
}

/// The run of the engine from `machine`, which is idle, over `attempts`: the
/// engine starts one attempt after the other, sleeps after each failure that
/// the policy lets pass, and finishes with the first success or with the
/// first failure at which the policy stops. What is left of `attempts` after
/// that is never started.
///
/// The steps of a run are those of [`crate::retry::Retry`]: `start_attempt`
/// takes the engine to `started()`, `finish_attempt` to `finished()` or to
/// `failed(..)` with the action `failure_action(..)`, and `sleep_elapsed` to
/// `woken()`.
pub open spec fn run<T, E>(machine: Machine<E>, attempts: Seq<Attempt<T, E>>) -> Run<T, E>
    decreases attempts.len(),
{
    if attempts.len() == 0 {
        Run { machine, made: 0, pauses: Seq::empty(), outcome: None }
    } else {
        let running = machine.started();
        match attempts[0] {
            Attempt::Succeeded(value) => Run {
                machine: Machine::finished(),
                made: 1,
                pauses: Seq::empty(),
                outcome: Some(Ok(value)),
            },
            Attempt::Failed(err, step) => match running.failure_action::<T>(err, step) {
                ActionView::Finish(outcome) => Run {
                    machine: running.failed(err, step),
                    made: 1,
                    pauses: Seq::empty(),
                    outcome: Some(outcome),
                },
                ActionView::Sleep(pause) => {
                    let rest = run(running.failed(err, step).woken(), attempts.skip(1));
                    Run { made: rest.made + 1, pauses: seq![pause] + rest.pauses, ..rest }
                },
            },
        }
    }
}

/// Whether every verdict in `attempts` is one that `policy` can give, where
/// `failed` attempts failed before the first of them.
pub open spec fn heeds<POL: RetryPolicy<E>, T, E>(
    policy: POL,
    failed: nat,
    attempts: Seq<Attempt<T, E>>,
) -> bool {
    forall|i: int|
        0 <= i < attempts.len() && (#[trigger] attempts[i]) is Failed ==> policy.decides(
            &attempts[i].error(),
            (failed + i + 1) as usize,
            attempts[i].step(),
        )
}

/// The engine with `errors` more failures behind it.
pub open spec fn advanced<E>(machine: Machine<E>, errors: Seq<E>) -> Machine<E> {
    Machine {
        state: machine.state,
        attempts: machine.attempts + errors.len(),
        errors: machine.errors + errors,
    }
}

/// A run whose first `count` attempts are passed over goes on from there as
/// a run of its own, with those attempts counted, their errors logged and
/// the pauses after them taken.
pub proof fn lemma_run_passes_over<T, E>(
    machine: Machine<E>,
    attempts: Seq<Attempt<T, E>>,
    count: nat,
)
    requires
        machine.state is Idle,
        count <= attempts.len(),
        forall|i: int| 0 <= i < count ==> (#[trigger] attempts[i]).passed_over(),
    ensures
        run(machine, attempts) == ({
            let rest = run(
                advanced(machine, errors_of(attempts.take(count as int))),
                attempts.skip(count as int),
            );
            Run {
                made: rest.made + count,
                pauses: pauses_of(attempts.take(count as int)) + rest.pauses,
                ..rest
            }
        }),
    decreases count,
{
    if count == 0 {
        assert(attempts.skip(0) =~= attempts);
        assert(machine.errors + errors_of(attempts.take(0)) =~= machine.errors);
        assert(pauses_of(attempts.take(0)) + run(machine, attempts).pauses =~= run(
            machine,
            attempts,
        ).pauses);
    } else {
        let first = attempts[0];
        assert(first.passed_over());
        let next = machine.started().failed(first.error(), first.step()).woken();
        let tail = attempts.skip(1);
        assert forall|i: int| 0 <= i < count - 1 implies (#[trigger] tail[i]).passed_over() by {
            assert(attempts[i + 1].passed_over());
        }
        lemma_run_passes_over(next, tail, (count - 1) as nat);
        assert(tail.skip(count - 1) =~= attempts.skip(count as int));
        assert(next.errors + errors_of(tail.take(count - 1)) =~= machine.errors + errors_of(
            attempts.take(count as int),
        ));
        let rest = run(
            advanced(machine, errors_of(attempts.take(count as int))),
            attempts.skip(count as int),
        );
        assert(seq![first.pause()] + (pauses_of(tail.take(count - 1)) + rest.pauses) =~= pauses_of(
            attempts.take(count as int),
        ) + rest.pauses);
    }
}

/// A policy that arbitrates lets the engine go on after a failure within the
/// bound whose error its predicate cannot reject.
pub proof fn lemma_accepted_within_bound<POL: RetryPolicy<E>, E>(
    policy: POL,
    err: E,
    attempts: usize,
    step: Step,
)
    requires
        arbitrates(policy),
        policy.decides(&err, attempts, step),
        attempts <= policy.spec_max_retries(),
        !policy.predicate_answers(&err, false),
    ensures
        step is Continue,
{
}

/// After failures that stay within the bound and that the predicate cannot
/// reject, one success: the engine has made one attempt more than there were
/// failures, with a pause after each failure, its outcome is the value of
/// the success, and the log is dropped.
pub proof fn theorem_success_after_failures<POL: RetryPolicy<E>, T, E>(
    policy: POL,
    attempts: Seq<Attempt<T, E>>,
    value: T,
)
    requires
        arbitrates(policy),
        attempts.len() >= 1,
        attempts.last() == Attempt::<T, E>::Succeeded(value),
        attempts.len() - 1 <= policy.spec_max_retries(),
        forall|i: int|
            0 <= i < attempts.len() - 1 ==> (#[trigger] attempts[i]) is Failed
                && !policy.predicate_answers(&attempts[i].error(), false),
        heeds(policy, 0, attempts),
    ensures
        run(Machine::initial(), attempts) == (Run {
            machine: Machine::<E>::finished(),
            made: attempts.len(),
            pauses: pauses_of(attempts.drop_last()),
            outcome: Some(Ok::<T, ErrorView<E>>(value)),
        }),
{
    let failures: nat = (attempts.len() - 1) as nat;
    assert forall|i: int| 0 <= i < failures implies (#[trigger] attempts[i]).passed_over() by {
        lemma_accepted_within_bound(
            policy,
            attempts[i].error(),
            (i + 1) as usize,
            attempts[i].step(),
        );
    }
    lemma_run_passes_over(Machine::initial(), attempts, failures);
    assert(attempts.skip(failures as int)[0] == attempts.last());
    assert(attempts.take(failures as int) =~= attempts.drop_last());
    assert(pauses_of(attempts.drop_last()) + Seq::<Duration>::empty() =~= pauses_of(
        attempts.drop_last(),
    ));
}

/// One failure more than the bound allows, none of which the predicate can
/// reject: the engine stops with `MaxRetriesReached` at the last of them,
/// whatever comes after it. It has paused after each of the others, and its
/// outcome holds the errors of all of them in the order of the attempts.
pub proof fn theorem_max_retries_reached<POL: RetryPolicy<E>, T, E>(
    policy: POL,
    attempts: Seq<Attempt<T, E>>,
)
    requires
        arbitrates(policy),
        policy.spec_max_retries() < usize::MAX,
        attempts.len() >= policy.spec_max_retries() + 1,
        forall|i: int|
            0 <= i <= policy.spec_max_retries() ==> (#[trigger] attempts[i]) is Failed
                && !policy.predicate_answers(&attempts[i].error(), false),
        heeds(policy, 0, attempts.take(policy.spec_max_retries() + 1)),
    ensures
        run(Machine::initial(), attempts) == (Run {
            machine: Machine::<E>::finished(),
            made: (policy.spec_max_retries() + 1) as nat,
            pauses: pauses_of(attempts.take(policy.spec_max_retries() as int)),
            outcome: Some(
                Err::<T, ErrorView<E>>(
                    ErrorView {
                        stop_reason: StopReason::MaxRetriesReached,
                        errors: errors_of(attempts.take(policy.spec_max_retries() + 1)),
                    },
                ),
            ),
        }),
{
    let bound: nat = policy.spec_max_retries() as nat;
    let heeded = attempts.take(bound as int + 1);
    assert forall|i: int| 0 <= i < bound implies (#[trigger] attempts[i]).passed_over() by {
        assert(heeded[i] == attempts[i]);
        lemma_accepted_within_bound(
            policy,
            attempts[i].error(),
            (i + 1) as usize,
            attempts[i].step(),
        );
    }
    lemma_run_passes_over(Machine::initial(), attempts, bound);
    let last = attempts[bound as int];
    assert(heeded[bound as int] == last);
    assert(attempts.skip(bound as int)[0] == last);
    assert(errors_of(attempts.take(bound as int)).push(last.error()) =~= errors_of(heeded));
    assert(pauses_of(attempts.take(bound as int)) + Seq::<Duration>::empty() =~= pauses_of(
        attempts.take(bound as int),
    ));
}

/// The engine comes to attempt number `number`, within the bound, and the
/// predicate cannot accept its error: the engine stops there with
/// `PredicateRejected`, without a pause, whatever is left of the bound and
/// whatever comes after the attempt, and its outcome holds the `number`
/// errors so far.
pub proof fn theorem_predicate_rejected<POL: RetryPolicy<E>, T, E>(
    policy: POL,
    attempts: Seq<Attempt<T, E>>,
    number: nat,
)
    requires
        arbitrates(policy),
        1 <= number <= policy.spec_max_retries(),
        number <= attempts.len(),
        forall|i: int| 0 <= i < number - 1 ==> (#[trigger] attempts[i]).passed_over(),
        attempts[number - 1] is Failed,
        !policy.predicate_answers(&attempts[number - 1].error(), true),
        heeds(policy, 0, attempts.take(number as int)),
    ensures
        run(Machine::initial(), attempts) == (Run {
            machine: Machine::<E>::finished(),
            made: number,
            pauses: pauses_of(attempts.take(number - 1)),
            outcome: Some(
                Err::<T, ErrorView<E>>(
                    ErrorView {
                        stop_reason: StopReason::PredicateRejected,
                        errors: errors_of(attempts.take(number as int)),
                    },
                ),
            ),
        }),
{
    let before: nat = (number - 1) as nat;
    let heeded = attempts.take(number as int);
    lemma_run_passes_over(Machine::initial(), attempts, before);
    let last = attempts[before as int];
    assert(heeded[before as int] == last);
    assert(attempts.skip(before as int)[0] == last);
    assert(errors_of(attempts.take(before as int)).push(last.error()) =~= errors_of(heeded));
    assert(pauses_of(attempts.take(before as int)) + Seq::<Duration>::empty() =~= pauses_of(
        attempts.take(before as int),
    ));
}

/// The first attempt succeeds: the engine finishes with its value after that
/// one attempt, without a pause and with an empty log. No policy enters into
/// it: the engine asks its policy about failures only.
pub proof fn theorem_first_attempt_succeeds<T, E>(attempts: Seq<Attempt<T, E>>, value: T)
    requires
        attempts.len() >= 1,
        attempts[0] == Attempt::<T, E>::Succeeded(value),
    ensures
        run(Machine::initial(), attempts) == (Run {
            machine: Machine::<E>::finished(),
            made: 1,
            pauses: Seq::<Duration>::empty(),
            outcome: Some(Ok::<T, ErrorView<E>>(value)),
        }),
{
}

/// Where a policy that arbitrates lets the engine go on after the failure of
/// attempt number `attempts`, the pause is a delay of its backoff for that
/// number, the attempt was within the bound, and the predicate can accept
/// the error.
pub proof fn theorem_pause_is_backoff_delay<POL: RetryPolicy<E>, E>(
    policy: POL,
    err: E,
    attempts: usize,
    delay: Duration,
)
    requires
        arbitrates(policy),
        policy.decides(&err, attempts, Step::Continue(delay)),
    ensures
        policy.backoff_offers(attempts, delay),
        policy.predicate_answers(&err, true),
        attempts <= policy.spec_max_retries(),
{
}

/// Under a policy that arbitrates, a run that starts with `machine`, which
/// has stayed within the bound, keeps the counter equal to the length of the
/// log, starts at most as many attempts as are left within the bound, and
/// one more, and pauses after each failure that it passes over for a delay
/// of the backoff for that attempt.
pub proof fn lemma_run_is_bounded<POL: RetryPolicy<E>, T, E>(
    policy: POL,
    machine: Machine<E>,
    attempts: Seq<Attempt<T, E>>,
)
    requires
        arbitrates(policy),
        policy.spec_max_retries() < usize::MAX,
        machine.wf(),
        machine.state is Idle,
        machine.attempts <= policy.spec_max_retries(),
        heeds(policy, machine.attempts, attempts),
    ensures
        run(machine, attempts).machine.wf(),
        run(machine, attempts).made + machine.attempts <= policy.spec_max_retries() + 1,
        run(machine, attempts).outcome matches Some(Err(error)) ==> error.errors.len() > 0,
        forall|i: int|
            0 <= i < run(machine, attempts).pauses.len() ==> policy.backoff_offers(
                (machine.attempts + i + 1) as usize,
                #[trigger] run(machine, attempts).pauses[i],
            ),
    decreases attempts.len(),
{
    if attempts.len() > 0 && attempts[0].passed_over() {
        let first = attempts[0];
        let next = machine.started().failed(first.error(), first.step()).woken();
        let tail = attempts.skip(1);
        assert(policy.decides(&first.error(), (machine.attempts + 1) as usize, first.step()));
        assert forall|i: int| 0 <= i < tail.len() && (#[trigger] tail[i]) is Failed implies policy.decides(
            &tail[i].error(),
            (next.attempts + i + 1) as usize,
            tail[i].step(),
        ) by {
            assert(tail[i] == attempts[i + 1]);
        }
        lemma_run_is_bounded(policy, next, tail);
        let whole = run(machine, attempts);
        let rest = run(next, tail);
        assert forall|i: int| 0 <= i < whole.pauses.len() implies policy.backoff_offers(
            (machine.attempts + i + 1) as usize,
            #[trigger] whole.pauses[i],
        ) by {
            if i > 0 {
                assert(whole.pauses[i] == rest.pauses[i - 1]);
            }
        }
    }
}

/// Under a policy that arbitrates, the engine keeps its counter equal to the
/// length of its log, starts at most one attempt more than the bound allows
/// retries, never fails without an error to show, and pauses after the
/// failure of attempt number `i` for a delay of the backoff for `i`.
pub proof fn theorem_attempts_are_bounded<POL: RetryPolicy<E>, T, E>(
    policy: POL,
    attempts: Seq<Attempt<T, E>>,
)
    requires
        arbitrates(policy),
        policy.spec_max_retries() < usize::MAX,
        heeds(policy, 0, attempts),
    ensures
        run(Machine::initial(), attempts).machine.wf(),
        run(Machine::initial(), attempts).made <= policy.spec_max_retries() + 1,
        run(Machine::initial(), attempts).outcome matches Some(Err(error)) ==> error.errors.len()
            > 0,
        forall|i: int|
            0 <= i < run(Machine::initial(), attempts).pauses.len() ==> policy.backoff_offers(
                (i + 1) as usize,
                #[trigger] run(Machine::initial(), attempts).pauses[i],
            ),
{
    lemma_run_is_bounded(policy, Machine::initial(), attempts);
}

} // verus!
