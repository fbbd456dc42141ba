//! The blocking-call suspension primitive and the retry machine around it.
//!
//! One asynchronous operation is one blocking call driven to completion
//! through the reactor: attempt the call; if it reports "would block",
//! suspend the task until the transport is ready for the operation's
//! direction and attempt again; the first decisive outcome — success or a
//! genuine error — is surfaced verbatim, exactly once. The functions here
//! are the decision core of that loop: the shell that owns the real handle
//! feeds every observation in and performs whatever action comes back.

use vstd::prelude::*;

use crate::error::SftpError;

verus! {

/// The readiness direction an operation waits for before retrying its
/// blocking call.
#[derive(Clone, Copy, Debug, PartialEq, Eq, Structural)]
pub enum Direction {
    /// Wait until the transport has data to read.
    Read,
    /// Wait until the transport accepts writes.
    Write,
}

/// What one poll of the reactor's readiness future observed: either the
/// future resolved with the operation's outcome, or it is not ready yet.
#[derive(Debug)]
pub enum Polled<T> {
    /// The readiness future resolved and the blocking call ran to a
    /// decisive outcome.
    Ready(Result<T, SftpError>),
    /// The readiness future has not resolved; the waker is registered.
    Pending,
}

/// What the suspension primitive decides after one poll: surface the
/// outcome now, or yield to the scheduler and wait to be woken.
#[derive(Debug)]
pub enum PollFlow<T> {
    /// Resolve the caller's operation with this outcome.
    Complete(Result<T, SftpError>),
    /// Suspend the calling task; the registered waker resumes it.
    Suspend,
}

/// Decides the suspension primitive's single step: a resolved readiness
/// future completes the operation with its outcome, an unresolved one
/// suspends the task. The outcome is surfaced unmodified — an error is
/// propagated as-is, never swallowed or retried here — and because one
/// invocation consumes one poll observation, it is surfaced exactly once.
pub fn poll_once<T>(polled: Polled<T>) -> (flow: PollFlow<T>)
    ensures
        match polled {
            Polled::Ready(outcome) => flow == PollFlow::Complete(outcome),
            Polled::Pending => flow == PollFlow::<T>::Suspend,
        },
{
    match polled {
        Polled::Ready(outcome) => PollFlow::Complete(outcome),
        Polled::Pending => PollFlow::Suspend,
    }
}

/// Whether a blocking attempt reported the transient "would block"
/// condition rather than a decisive outcome.
pub open spec fn spec_would_block<T>(outcome: Result<T, SftpError>) -> bool {
    match outcome {
        Result::Ok(_) => false,
        Result::Err(failure) => failure.spec_is_would_block(),
    }
}

/// The retry machine's state: how many times the operation has suspended
/// its task so far while waiting for readiness.
#[derive(Clone, Copy, Debug, PartialEq, Eq, Structural)]
pub struct RetryState {
    /// Number of suspensions performed so far.
    pub suspensions: u64,
}

/// Where an operation stands after feeding one blocking attempt to the
/// retry machine.
#[derive(Debug)]
pub enum Progress<T> {
    /// The attempt reported "would block": suspend until the transport is
    /// ready again, then retry; the state carries the updated suspension
    /// count.
    Suspend(RetryState),
    /// The attempt was decisive: resolve the operation with this outcome,
    /// verbatim. The state reports how often the task had to suspend.
    Done(RetryState, Result<T, SftpError>),
}

impl RetryState {
    /// A fresh operation that has not suspended yet.
    pub fn start() -> (state: Self)
        ensures
            state.suspensions == 0,
    {
        RetryState { suspensions: 0 }
    }

    /// What the machine does with one blocking attempt: a transient
    /// "would block" costs one suspension and asks for a retry, anything
    /// else ends the operation with that outcome untouched.
    pub open spec fn spec_on_attempt<T>(self, outcome: Result<T, SftpError>) -> Progress<T> {
        if spec_would_block(outcome) {
            Progress::Suspend(RetryState { suspensions: (self.suspensions + 1) as u64 })
        } else {
            Progress::Done(self, outcome)
        }
    }

    /// Feeds one blocking attempt to the machine. Exactly the "would
    /// block" report is consumed internally (as one suspension); every
    /// decisive outcome — the value or a genuine error — is surfaced
    /// unmodified.
    pub fn on_attempt<T>(self, outcome: Result<T, SftpError>) -> (next: Progress<T>)
        requires
            self.suspensions < u64::MAX,
        ensures
            next == self.spec_on_attempt(outcome),
    {
        let transient = match &outcome {
            Result::Ok(_) => false,
            Result::Err(failure) => failure.is_would_block(),
        };
        if transient {
            Progress::Suspend(RetryState { suspensions: self.suspensions + 1 })
        } else {
            Progress::Done(self, outcome)
        }
    }
}

/// One scheduler turn for an operation: a suspended operation feeds its
/// next blocking attempt to the retry machine; a completed one no longer
/// runs anything and stays as it is.
pub open spec fn spec_turn<T>(progress: Progress<T>, outcome: Result<T, SftpError>) -> Progress<T> {
    match progress {
        Progress::Suspend(state) => state.spec_on_attempt(outcome),
        Progress::Done(_, _) => progress,
    }
}

/// Where an operation stands after its blocking attempts were observed in
/// order.
pub open spec fn spec_run<T>(progress: Progress<T>, outcomes: Seq<Result<T, SftpError>>) -> Progress<T>
    decreases outcomes.len(),
{
    if outcomes.len() == 0 {
        progress
    } else {
        spec_run(spec_turn(progress, outcomes[0]), outcomes.drop_first())
    }
}

/// A blocking call that reports "would block" a number of times before a
/// decisive outcome still resolves to exactly that outcome, and the task
/// suspends once per transient report — the retry never loops without
/// yielding and never alters the final result.
pub proof fn lemma_retry_until_decisive<T>(
    start: RetryState,
    outcomes: Seq<Result<T, SftpError>>,
    transients: int,
)
    requires
        0 <= transients,
        outcomes.len() == transients + 1,
        forall|i: int| 0 <= i < transients ==> spec_would_block(#[trigger] outcomes[i]),
        !spec_would_block(outcomes[transients]),
        start.suspensions + transients <= u64::MAX,
    ensures
        spec_run(Progress::Suspend(start), outcomes) == Progress::Done(
            RetryState { suspensions: (start.suspensions + transients) as u64 },
            outcomes[transients],
        ),
    decreases transients,
{
    if transients == 0 {
        assert(spec_run(Progress::Suspend(start), outcomes) == spec_run(
            start.spec_on_attempt(outcomes[0]),
            outcomes.drop_first(),
        ));
        assert(outcomes.drop_first().len() == 0);
    } else {
        let bumped = RetryState { suspensions: (start.suspensions + 1) as u64 };
        let rest = outcomes.drop_first();
        assert(spec_would_block(outcomes[0]));
        assert(spec_turn(Progress::Suspend(start), outcomes[0]) == Progress::Suspend::<T>(bumped));
        assert forall|i: int| 0 <= i < transients - 1 implies spec_would_block(#[trigger] rest[i]) by {
            assert(rest[i] == outcomes[i + 1]);
        }
        assert(rest[transients - 1] == outcomes[transients]);
        lemma_retry_until_decisive(bumped, rest, transients - 1);
    }
}

/// How many turns of a two-operation schedule belong to the first
/// operation. (`true` entries are the first operation's turns.)
pub open spec fn spec_first_turns(schedule: Seq<bool>) -> nat
    decreases schedule.len(),
{
    if schedule.len() == 0 {
        0
    } else {
        (if schedule[0] {
            1nat
        } else {
            0nat
        }) + spec_first_turns(schedule.drop_first())
    }
}

/// Two operations driven turn by turn under one schedule, each consuming
/// its own blocking attempts in order. A turn whose operation has no
/// attempt left changes nothing (a well-formed schedule never reaches
/// that case).
pub open spec fn spec_run_interleaved<T, U>(
    first: Progress<T>,
    second: Progress<U>,
    schedule: Seq<bool>,
    first_outcomes: Seq<Result<T, SftpError>>,
    second_outcomes: Seq<Result<U, SftpError>>,
) -> (Progress<T>, Progress<U>)
    decreases schedule.len(),
{
    if schedule.len() == 0 {
        (first, second)
    } else if schedule[0] {
        if first_outcomes.len() == 0 {
            spec_run_interleaved(first, second, schedule.drop_first(), first_outcomes, second_outcomes)
        } else {
            spec_run_interleaved(
                spec_turn(first, first_outcomes[0]),
                second,
                schedule.drop_first(),
                first_outcomes.drop_first(),
                second_outcomes,
            )
        }
    } else {
        if second_outcomes.len() == 0 {
            spec_run_interleaved(first, second, schedule.drop_first(), first_outcomes, second_outcomes)
        } else {
            spec_run_interleaved(
                first,
                spec_turn(second, second_outcomes[0]),
                schedule.drop_first(),
                first_outcomes,
                second_outcomes.drop_first(),
            )
        }
    }
}

/// A schedule cannot give the first operation more turns than it has
/// entries.
proof fn lemma_first_turns_bound(schedule: Seq<bool>)
    ensures
        spec_first_turns(schedule) <= schedule.len(),
    decreases schedule.len(),
{
    if schedule.len() > 0 {
        lemma_first_turns_bound(schedule.drop_first());
    }
}

/// No cross-talk between two operations that share one reactor: however
/// the scheduler interleaves their turns, each operation ends exactly
/// where running it alone on its own attempts would end. One adapter's
/// activity never changes what the other returns.
pub proof fn lemma_interleaving_independent<T, U>(
    first: Progress<T>,
    second: Progress<U>,
    schedule: Seq<bool>,
    first_outcomes: Seq<Result<T, SftpError>>,
    second_outcomes: Seq<Result<U, SftpError>>,
)
    requires
        spec_first_turns(schedule) == first_outcomes.len(),
        schedule.len() - spec_first_turns(schedule) == second_outcomes.len(),
    ensures
        spec_run_interleaved(first, second, schedule, first_outcomes, second_outcomes) == (
            spec_run(first, first_outcomes),
            spec_run(second, second_outcomes),
        ),
    decreases schedule.len(),
{
    if schedule.len() == 0 {
        assert(first_outcomes.len() == 0);
        assert(second_outcomes.len() == 0);
    } else if schedule[0] {
        assert(first_outcomes.len() > 0);
        lemma_interleaving_independent(
            spec_turn(first, first_outcomes[0]),
            second,
            schedule.drop_first(),
            first_outcomes.drop_first(),
            second_outcomes,
        );
    } else {
        lemma_first_turns_bound(schedule.drop_first());
        assert(second_outcomes.len() > 0);
        lemma_interleaving_independent(
            first,
            spec_turn(second, second_outcomes[0]),
            schedule.drop_first(),
            first_outcomes,
            second_outcomes.drop_first(),
        );
    }
}

} // verus!
