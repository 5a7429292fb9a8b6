//! Retrying executor: the decisions of one command's execution.
//!
//! The caller performs the attempts and the waits. After each of them it
//! reports an [`Event`], and the state that comes back tells it what to do
//! next: call the remote API (`Attempting`), report the failure and wait
//! (`Backoff`), or stop (`Success`, `TimedOut`).
//!
//! Whether the time budget is spent, and an interval to wait, is asked of an
//! exponential backoff policy of the `backoff` crate. That policy spreads its
//! intervals at random around a growing base, so one interval may be shorter
//! than the one before. The executor does not hand such an interval on: a
//! wait is never shorter than the wait before it, and never longer than
//! [`MAX_WAIT_NANOS`].

use crate::command::{UpdateCommand, UpdateCommandView};
use backoff::backoff::Backoff;
use backoff::{ExponentialBackoff, SystemClock};
use std::time::Duration;
use vstd::prelude::*;

verus! {

/// The exponential backoff policy of the `backoff` crate: it holds the start
/// time, the current interval and the time budget. Opaque here.
#[verifier::external_type_specification]
#[verifier::external_body]
#[verifier::reject_recursive_types(C)]
pub struct ExExponentialBackoff<C>(backoff::exponential::ExponentialBackoff<C>);

/// The clock that the policy reads.
#[verifier::external_type_specification]
#[verifier::external_body]
pub struct ExSystemClock(SystemClock);

/// The time budget of one command's execution, in seconds, counted from the
/// first attempt.
pub const RETRY_BUDGET_SECS: u64 = 60;

/// The longest wait between two attempts, in nanoseconds (one minute).
pub const MAX_WAIT_NANOS: u64 = 60_000_000_000;

/// The time budget of a policy: the whole seconds of its `max_elapsed_time`.
pub uninterp spec fn policy_budget(policy: ExponentialBackoff) -> u64;

/// Builds an `ExponentialBackoff` whose `max_elapsed_time` is `budget_secs`
/// seconds and whose other fields are the crate's defaults. The contract
/// claims that this is the budget of the policy.
#[verifier::external_body]
fn policy_with_budget(budget_secs: u64) -> (policy: ExponentialBackoff)
    ensures
        policy_budget(policy) == budget_secs,
{
    ExponentialBackoff {
        max_elapsed_time: Some(Duration::from_secs(budget_secs)),
        ..ExponentialBackoff::default()
    }
}

/// Calls `Backoff::reset` on the policy: the interval goes back to the initial
/// one and the elapsed time is counted from now. The contract claims that the
/// budget stays as it is, and nothing else.
#[verifier::external_body]
fn restart(policy: &mut ExponentialBackoff)
    ensures
        policy_budget(*final(policy)) == policy_budget(*old(policy)),
{
    policy.reset()
}

/// Calls `Backoff::next_backoff` on the policy and hands its answer on in
/// nanoseconds: an interval, or `None` once the time budget is spent. The
/// answer depends on the clock and on a random number, so nothing is claimed
/// of it; the contract claims that the budget stays as it is.
#[verifier::external_body]
fn next_interval(policy: &mut ExponentialBackoff) -> (granted: Option<u128>)
    ensures
        policy_budget(*final(policy)) == policy_budget(*old(policy)),
{
    policy.next_backoff().map(|interval| interval.as_nanos())
}

/// What the caller reports.
#[derive(Debug)]
pub enum Event<T, E> {
    /// The caller is ready for the first attempt.
    Started,
    /// A call of the remote API has ended, with its payload or its error.
    Attempted(Result<T, E>),
    /// The wait that a backoff asked for is over.
    Waited,
}

/// Where one command's execution stands. Waits are in nanoseconds.
#[derive(Debug, PartialEq, Eq)]
pub enum RetryState<T, E> {
    /// Nothing has been tried yet.
    Idle,
    /// The remote API is to be called now. `waited` is the wait that came
    /// before this attempt, 0 before the first one.
    Attempting { waited: u64 },
    /// The last attempt failed with `error`; it is to be reported, and the
    /// next attempt is due after `wait`.
    Backoff { wait: u64, error: E },
    /// An attempt succeeded, with this payload. Terminal.
    Success(T),
    /// The time budget ran out; this is the last error seen. Terminal.
    TimedOut(E),
}

/// The wait that is served when the policy grants `granted` nanoseconds after
/// a wait of `waited`: the granted interval, cut down to [`MAX_WAIT_NANOS`]
/// and then raised to `waited` where it is shorter.
pub open spec fn paced(granted: u128, waited: u64) -> u64 {
    let capped = if granted > MAX_WAIT_NANOS {
        MAX_WAIT_NANOS
    } else {
        granted as u64
    };
    if capped < waited {
        waited
    } else {
        capped
    }
}

/// The state that follows `state` on `event`. `granted` is the policy's
/// answer: an interval in nanoseconds, or `None` once the budget is spent; it
/// is read on a failed attempt only. An event that the state does not expect
/// changes nothing.
pub open spec fn next_state<T, E>(
    state: RetryState<T, E>,
    event: Event<T, E>,
    granted: Option<u128>,
) -> RetryState<T, E> {
    match (state, event) {
        (RetryState::Idle, Event::Started) => RetryState::Attempting { waited: 0 },
        (RetryState::Attempting { .. }, Event::Attempted(Ok(payload))) => RetryState::Success(
            payload,
        ),
        (RetryState::Attempting { waited }, Event::Attempted(Err(error))) => match granted {
            Some(interval) => RetryState::Backoff { wait: paced(interval, waited), error },
            None => RetryState::TimedOut(error),
        },
        (RetryState::Backoff { wait, .. }, Event::Waited) => RetryState::Attempting {
            waited: wait,
        },
        _ => state,
    }
}

/// Whether the policy is asked for an interval: on a failed attempt.
pub open spec fn asks_policy<T, E>(state: RetryState<T, E>, event: Event<T, E>) -> bool {
    state is Attempting && event matches Event::Attempted(Err(_))
}

impl<T, E> RetryState<T, E> {
    /// No further attempt follows.
    pub open spec fn is_terminal(self) -> bool {
        self is Success || self is TimedOut
    }

    /// The wait that the state holds: the one being served, or the one served
    /// before the attempt; 0 where there is none.
    pub open spec fn last_wait(self) -> u64 {
        match self {
            RetryState::Attempting { waited } => waited,
            RetryState::Backoff { wait, .. } => wait,
            _ => 0,
        }
    }

    /// No further attempt follows.
    pub fn terminal(&self) -> (done: bool)
        ensures
            done == self.is_terminal(),
    {
        match self {
            RetryState::Success(_) => true,
            RetryState::TimedOut(_) => true,
            _ => false,
        }
    }

    /// Takes one step of the state machine, given the policy's answer.
    pub fn advance(self, event: Event<T, E>, granted: Option<u128>) -> (next: Self)
        ensures
            next == next_state(self, event, granted),
    {
        match (self, event) {
            (RetryState::Idle, Event::Started) => RetryState::Attempting { waited: 0 },
            (RetryState::Attempting { .. }, Event::Attempted(Ok(payload))) => RetryState::Success(
                payload,
            ),
            (RetryState::Attempting { waited }, Event::Attempted(Err(error))) => match granted {
                Some(interval) => RetryState::Backoff { wait: pace(interval, waited), error },
                None => RetryState::TimedOut(error),
            },
            (RetryState::Backoff { wait, .. }, Event::Waited) => RetryState::Attempting {
                waited: wait,
            },
            (state, _) => state,
        }
    }
}

/// The wait to serve for a granted interval, after a wait of `waited`.
pub fn pace(granted: u128, waited: u64) -> (wait: u64)
    ensures
        wait == paced(granted, waited),
        wait >= waited,
        waited <= MAX_WAIT_NANOS ==> wait <= MAX_WAIT_NANOS,
{
    let capped: u64 = if granted > MAX_WAIT_NANOS as u128 {
        MAX_WAIT_NANOS
    } else {
        granted as u64
    };
    if capped < waited {
        waited
    } else {
        capped
    }
}

/// What the observation hook is given about a failed attempt that will be
/// retried.
#[derive(Debug)]
pub struct RetryNotice<'a, E> {
    /// The function that the command updates.
    pub target_name: &'a str,
    /// The wait before the next attempt, in nanoseconds.
    pub wait: u64,
    /// The error of the attempt.
    pub error: &'a E,
}

/// The execution of one command: the command, the state, and the backoff
/// policy with its time budget.
pub struct Executor<T, E> {
    command: UpdateCommand,
    state: RetryState<T, E>,
    budget_secs: u64,
    policy: ExponentialBackoff,
}

/// Mathematical content of an [`Executor`]. Of the policy it holds the
/// budget; its clock and its interval have no value that could be named.
pub struct ExecutorView<T, E> {
    pub command: UpdateCommandView,
    pub state: RetryState<T, E>,
    pub budget: u64,
}

impl<T, E> View for Executor<T, E> {
    type V = ExecutorView<T, E>;

    closed spec fn view(&self) -> ExecutorView<T, E> {
        ExecutorView {
            command: self.command.deep_view(),
            state: self.state,
            budget: policy_budget(self.policy),
        }
    }
}

impl<T, E> Executor<T, E> {
    #[verifier::type_invariant]
    spec fn well_formed(self) -> bool {
        &&& self.budget_secs == policy_budget(self.policy)
        &&& self.state.last_wait() <= MAX_WAIT_NANOS
    }

    /// The execution of `command`, not started, with a budget of
    /// [`RETRY_BUDGET_SECS`] seconds.
    pub fn new(command: UpdateCommand) -> (executor: Self)
        ensures
            executor@ == (ExecutorView::<T, E> {
                command: command.deep_view(),
                state: RetryState::Idle,
                budget: RETRY_BUDGET_SECS,
            }),
    {
        Self::with_budget(command, RETRY_BUDGET_SECS)
    }

    /// The execution of `command`, not started, with a budget of
    /// `budget_secs` seconds.
    pub fn with_budget(command: UpdateCommand, budget_secs: u64) -> (executor: Self)
        ensures
            executor@ == (ExecutorView::<T, E> {
                command: command.deep_view(),
                state: RetryState::Idle,
                budget: budget_secs,
            }),
    {
        Executor {
            command,
            state: RetryState::Idle,
            budget_secs,
            policy: policy_with_budget(budget_secs),
        }
    }

    /// The command that is executed.
    pub fn command(&self) -> (command: &UpdateCommand)
        ensures
            command.deep_view() == self@.command,
    {
        &self.command
    }

    /// Where the execution stands.
    pub fn state(&self) -> (state: &RetryState<T, E>)
        ensures
            *state == self@.state,
    {
        &self.state
    }

    /// The time budget of the policy, in seconds.
    pub fn budget_secs(&self) -> (secs: u64)
        ensures
            secs == self@.budget,
    {
        proof {
            use_type_invariant(self);
        }
        self.budget_secs
    }

    /// What the observation hook is to be given now: in `Backoff`, the name of
    /// the function, the wait and the error; in every other state, nothing.
    pub fn notice(&self) -> (notice: Option<RetryNotice<'_, E>>)
        ensures
            match notice {
                Some(n) => self@.state == (RetryState::<T, E>::Backoff {
                    wait: n.wait,
                    error: *n.error,
                }) && n.target_name@ == self@.command.target_name,
                None => !(self@.state is Backoff),
            },
    {
        match &self.state {
            RetryState::Backoff { wait, error } => Some(
                RetryNotice { target_name: self.command.target_name.as_str(), wait: *wait, error },
            ),
            _ => None,
        }
    }

    /// Takes one step. The first attempt restarts the policy's clock. A
    /// failed attempt asks the policy, whose budget is that of the executor,
    /// and ends in `Backoff` or, where the policy grants no interval, in
    /// `TimedOut`. A wait is at least as long as the wait before it and at
    /// most [`MAX_WAIT_NANOS`].
    pub fn handle(self, event: Event<T, E>) -> (next: Self)
        ensures
            next@.command == self@.command,
            next@.budget == self@.budget,
            exists|granted: Option<u128>| next@.state == next_state(self@.state, event, granted),
            !asks_policy(self@.state, event) ==> next@.state == next_state(
                self@.state,
                event,
                None,
            ),
            !next@.state.is_terminal() ==> self@.state.last_wait() <= next@.state.last_wait()
                <= MAX_WAIT_NANOS,
    {
        proof {
            use_type_invariant(&self);
        }
        let Executor { command, state, budget_secs, mut policy } = self;
        let granted = match (&state, &event) {
            (RetryState::Idle, Event::Started) => {
                restart(&mut policy);
                None
            },
            (RetryState::Attempting { .. }, Event::Attempted(Err(_))) => next_interval(
                &mut policy,
            ),
            _ => None,
        };
        let state = state.advance(event, granted);
        Executor { command, state, budget_secs, policy }
    }

    /// Ends the execution: the command and, once the execution has stopped,
    /// the payload or the last error; `None` before that.
    pub fn finish(self) -> (ended: (UpdateCommand, Option<Result<T, E>>))
        ensures
            ended.0.deep_view() == self@.command,
            ended.1 == match self@.state {
                RetryState::Success(payload) => Some(Ok::<T, E>(payload)),
                RetryState::TimedOut(error) => Some(Err::<T, E>(error)),
                _ => None,
            },
    {
        let Executor { command, state, .. } = self;
        let outcome = match state {
            RetryState::Success(payload) => Some(Ok(payload)),
            RetryState::TimedOut(error) => Some(Err(error)),
            _ => None,
        };
        (command, outcome)
    }
}

/// The state that a run of the machine ends in: `script` lists, in order, the
/// events and what the policy answers at each of them.
pub open spec fn run<T, E>(
    start: RetryState<T, E>,
    script: Seq<(Event<T, E>, Option<u128>)>,
) -> RetryState<T, E>
    decreases script.len(),
{
    if script.len() == 0 {
        start
    } else {
        next_state(run(start, script.drop_last()), script.last().0, script.last().1)
    }
}

/// What a run hands to the observation hook: for every failed attempt that is
/// followed by a backoff, the wait and the error, in order.
pub open spec fn reported<T, E>(
    start: RetryState<T, E>,
    script: Seq<(Event<T, E>, Option<u128>)>,
) -> Seq<(u64, E)>
    decreases script.len(),
{
    if script.len() == 0 {
        Seq::empty()
    } else {
        let before = run(start, script.drop_last());
        let earlier = reported(start, script.drop_last());
        match next_state(before, script.last().0, script.last().1) {
            RetryState::Backoff { wait, error } if before is Attempting => earlier.push(
                (wait, error),
            ),
            _ => earlier,
        }
    }
}

/// The script of attempts that fail with `errors`, one after the other, where
/// the policy grants `grants` and the caller waits each time.
pub open spec fn failed_attempts<T, E>(errors: Seq<E>, grants: Seq<u128>) -> Seq<
    (Event<T, E>, Option<u128>),
>
    decreases errors.len(),
{
    if errors.len() == 0 {
        Seq::empty()
    } else {
        failed_attempts::<T, E>(errors.drop_last(), grants.drop_last()).push(
            (Event::Attempted(Err(errors.last())), Some(grants.last())),
        ).push((Event::Waited, None))
    }
}

/// The wait that is served after the last of `grants`, in an execution that
/// starts with the first of them.
pub open spec fn wait_after(grants: Seq<u128>) -> u64
    decreases grants.len(),
{
    if grants.len() == 0 {
        0
    } else {
        paced(grants.last(), wait_after(grants.drop_last()))
    }
}

/// The waits and errors of `failed_attempts`, pair by pair.
pub open spec fn reports<E>(errors: Seq<E>, grants: Seq<u128>) -> Seq<(u64, E)> {
    Seq::new(errors.len(), |i: int| (wait_after(grants.take(i + 1)), errors[i]))
}

/// A run over two scripts in a row is the run over the second one, started
/// where the first one ends; the reports add up.
pub proof fn run_in_two_parts<T, E>(
    start: RetryState<T, E>,
    first: Seq<(Event<T, E>, Option<u128>)>,
    second: Seq<(Event<T, E>, Option<u128>)>,
)
    ensures
        run(start, first + second) == run(run(start, first), second),
        reported(start, first + second) == reported(start, first) + reported(
            run(start, first),
            second,
        ),
    decreases second.len(),
{
    if second.len() == 0 {
        assert(first + second =~= first);
        assert(reported(start, first) + Seq::<(u64, E)>::empty() =~= reported(start, first));
    } else {
        run_in_two_parts(start, first, second.drop_last());
        assert((first + second).drop_last() =~= first + second.drop_last());
        assert((first + second).last() == second.last());
        let middle = run(start, first);
        let before = run(middle, second.drop_last());
        let earlier = reported(middle, second.drop_last());
        match next_state(before, second.last().0, second.last().1) {
            RetryState::Backoff { wait, error } if before is Attempting => {
                assert(reported(start, first) + earlier.push((wait, error)) =~= (reported(
                    start,
                    first,
                ) + earlier).push((wait, error)));
            },
            _ => {},
        }
    }
}

/// Whatever the policy grants, the waits of an execution never get shorter
/// and never exceed [`MAX_WAIT_NANOS`].
pub proof fn waits_grow_up_to_the_cap(grants: Seq<u128>, i: int, j: int)
    requires
        0 <= i <= j <= grants.len(),
    ensures
        wait_after(grants.take(i)) <= wait_after(grants.take(j)) <= MAX_WAIT_NANOS,
    decreases j,
{
    if j == 0 {
        assert(grants.take(0).len() == 0);
    } else {
        waits_grow_up_to_the_cap(grants, 0, j - 1);
        assert(grants.take(j).drop_last() =~= grants.take(j - 1));
        if i < j {
            waits_grow_up_to_the_cap(grants, i, j - 1);
        }
    }
}

/// Attempts that fail while the policy still grants an interval lead back to
/// the next attempt, and each of them is reported with its wait.
pub proof fn failures_are_retried<T, E>(errors: Seq<E>, grants: Seq<u128>)
    requires
        errors.len() == grants.len(),
    ensures
        run(RetryState::<T, E>::Attempting { waited: 0 }, failed_attempts(errors, grants))
            == (RetryState::<T, E>::Attempting { waited: wait_after(grants) }),
        reported(RetryState::<T, E>::Attempting { waited: 0 }, failed_attempts(errors, grants))
            == reports(errors, grants),
    decreases errors.len(),
{
    let first = RetryState::<T, E>::Attempting { waited: 0 };
    if errors.len() == 0 {
        assert(reports(errors, grants) =~= Seq::empty());
    } else {
        let fewer_errors = errors.drop_last();
        let fewer_grants = grants.drop_last();
        let shorter = failed_attempts::<T, E>(fewer_errors, fewer_grants);
        failures_are_retried::<T, E>(fewer_errors, fewer_grants);
        let failure = (Event::<T, E>::Attempted(Err(errors.last())), Some(grants.last()));
        let script = failed_attempts::<T, E>(errors, grants);
        assert(script.drop_last() == shorter.push(failure));
        assert(script.drop_last().drop_last() == shorter);
        assert(run(first, shorter.push(failure)) == (RetryState::<T, E>::Backoff {
            wait: wait_after(grants),
            error: errors.last(),
        }));
        assert(reported(first, shorter.push(failure)) == reports(fewer_errors, fewer_grants).push(
            (wait_after(grants), errors.last()),
        ));
        assert(grants.take(grants.len() as int) =~= grants);
        assert forall|i: int| 0 <= i < fewer_grants.len() implies fewer_grants.take(i + 1)
            == #[trigger] grants.take(i + 1) by {
            assert(fewer_grants.take(i + 1) =~= grants.take(i + 1));
        }
        assert(reports(fewer_errors, fewer_grants).push((wait_after(grants), errors.last()))
            =~= reports(errors, grants));
    }
}

proof fn lemma_single_step<T, E>(start: RetryState<T, E>, step: (Event<T, E>, Option<u128>))
    ensures
        run(start, seq![step]) == next_state(start, step.0, step.1),
        reported(start, seq![step]) == match next_state(start, step.0, step.1) {
            RetryState::Backoff { wait, error } if start is Attempting => seq![(wait, error)],
            _ => Seq::empty(),
        },
{
    let script = seq![step];
    assert(script.drop_last() =~= Seq::empty());
    assert(script.last() == step);
    assert(run(start, script.drop_last()) == start);
    assert(reported(start, script.drop_last()) =~= Seq::empty());
    match next_state(start, step.0, step.1) {
        RetryState::Backoff { wait, error } if start is Attempting => {
            assert(Seq::<(u64, E)>::empty().push((wait, error)) =~= seq![(wait, error)]);
        },
        _ => {},
    }
}

/// A start, failed attempts that are retried, and one more attempt that ends
/// the execution: the state is that of the last attempt, and the reports are
/// those of the failures before it.
proof fn lemma_attempts_until_the_end<T, E>(
    errors: Seq<E>,
    grants: Seq<u128>,
    outcome: Result<T, E>,
)
    requires
        errors.len() == grants.len(),
    ensures
        ({
            let script = seq![(Event::<T, E>::Started, None::<u128>)] + failed_attempts(
                errors,
                grants,
            ) + seq![(Event::<T, E>::Attempted(outcome), None::<u128>)];
            &&& run(RetryState::Idle, script) == next_state(
                RetryState::<T, E>::Attempting { waited: wait_after(grants) },
                Event::Attempted(outcome),
                None,
            )
            &&& reported(RetryState::Idle, script) == reports(errors, grants)
        }),
{
    let begin = seq![(Event::<T, E>::Started, None::<u128>)];
    let retries = failed_attempts::<T, E>(errors, grants);
    let end = seq![(Event::<T, E>::Attempted(outcome), None::<u128>)];
    let idle = RetryState::<T, E>::Idle;
    lemma_single_step(idle, begin[0]);
    lemma_single_step(RetryState::<T, E>::Attempting { waited: wait_after(grants) }, end[0]);
    failures_are_retried::<T, E>(errors, grants);
    run_in_two_parts(idle, begin, retries);
    run_in_two_parts(idle, begin + retries, end);
    assert(reported(idle, begin + retries + end) =~= reports(errors, grants));
}

/// Where the remote API fails `errors.len()` times and then succeeds, and the
/// policy grants an interval after each failure, the execution ends in
/// `Success` with the payload. The observation hook is called once per
/// failure, with the error and the wait, and the waits never get shorter and
/// never exceed [`MAX_WAIT_NANOS`].
pub proof fn success_after_failures<T, E>(errors: Seq<E>, grants: Seq<u128>, payload: T)
    requires
        errors.len() == grants.len(),
    ensures
        ({
            let script = seq![(Event::<T, E>::Started, None::<u128>)] + failed_attempts(
                errors,
                grants,
            ) + seq![(Event::<T, E>::Attempted(Ok(payload)), None::<u128>)];
            let notes = reported(RetryState::Idle, script);
            &&& run(RetryState::Idle, script) == RetryState::<T, E>::Success(payload)
            &&& notes == reports(errors, grants)
            &&& forall|i: int, j: int|
                0 <= i <= j < notes.len() ==> (#[trigger] notes[i]).0 <= (#[trigger] notes[j]).0
                    <= MAX_WAIT_NANOS
        }),
{
    lemma_attempts_until_the_end::<T, E>(errors, grants, Ok(payload));
    let notes = reports(errors, grants);
    assert forall|i: int, j: int| 0 <= i <= j < notes.len() implies (#[trigger] notes[i]).0 <= (
    #[trigger] notes[j]).0 <= MAX_WAIT_NANOS by {
        waits_grow_up_to_the_cap(grants, i + 1, j + 1);
    }
}

/// Where the remote API keeps failing, the execution stops at the first
/// failure for which the policy grants no interval, that is, once the policy
/// finds the time budget spent: it ends in `TimedOut` with that last error.
/// The failures before it were reported, this one is not.
pub proof fn timeout_after_failures<T, E>(errors: Seq<E>, grants: Seq<u128>, last: E)
    requires
        errors.len() == grants.len(),
    ensures
        ({
            let script = seq![(Event::<T, E>::Started, None::<u128>)] + failed_attempts(
                errors,
                grants,
            ) + seq![(Event::<T, E>::Attempted(Err(last)), None::<u128>)];
            &&& run(RetryState::Idle, script) == RetryState::<T, E>::TimedOut(last)
            &&& reported(RetryState::Idle, script) == reports(errors, grants)
        }),
{
    lemma_attempts_until_the_end::<T, E>(errors, grants, Err(last));
}

/// Once an execution has ended in `Success` or `TimedOut`, nothing changes
/// its state and nothing more is reported: no attempt follows.
pub proof fn terminal_state_stays<T, E>(
    state: RetryState<T, E>,
    script: Seq<(Event<T, E>, Option<u128>)>,
)
    requires
        state.is_terminal(),
    ensures
        run(state, script) == state,
        reported(state, script) == Seq::<(u64, E)>::empty(),
    decreases script.len(),
{
    if script.len() > 0 {
        terminal_state_stays(state, script.drop_last());
    }
}

} // verus!
