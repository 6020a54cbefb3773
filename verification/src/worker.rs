//! The delivery worker's decisions: it takes events from the queue and
//! hands each to the backend, retrying failed deliveries with exponential
//! back-off up to a fixed number of attempts.
use vstd::prelude::*;
use vstd::arithmetic::power2::{lemma2_to64, lemma_pow2_strictly_increases, pow2};
use std::time::Duration;
use crate::backoff::{
    backoff_nanos, calculate_backoff, duration_from_secs, duration_nanos, max_duration_nanos,
};

verus! {

/// How often and how patiently the worker retries.
pub struct RetryPolicy {
    /// The number of delivery attempts per event.
    pub max_retries: u32,
    /// The back-off after the first failed attempt.
    pub base_delay: Duration,
    /// The longest back-off.
    pub max_delay: Duration,
    /// The pause after the queue could not be read.
    pub consume_error_pause: Duration,
}

impl RetryPolicy {
    /// A policy under which every back-off can be computed: at least one
    /// attempt, at most 32, and the largest doubled delay fits in a
    /// `Duration`.
    pub open spec fn wf(&self) -> bool {
        &&& 1 <= self.max_retries <= 32
        &&& duration_nanos(self.base_delay) * pow2((self.max_retries - 1) as nat)
            <= max_duration_nanos()
    }

    /// The worker's policy: five attempts, back-off from one second doubling
    /// up to five minutes, and a five-second pause after a queue error.
    pub fn standard() -> (p: RetryPolicy)
        ensures
            p.wf(),
            p.max_retries == 5,
            duration_nanos(p.base_delay) == 1_000_000_000,
            duration_nanos(p.max_delay) == 300_000_000_000,
            duration_nanos(p.consume_error_pause) == 5_000_000_000,
    {
        let p = RetryPolicy {
            max_retries: 5,
            base_delay: duration_from_secs(1),
            max_delay: duration_from_secs(300),
            consume_error_pause: duration_from_secs(5),
        };
        proof {
            lemma2_to64();
            assert(pow2((p.max_retries - 1) as nat) == 16);
        }
        p
    }
}

/// Where the worker stands.
#[derive(Debug, Clone, Copy, PartialEq, Eq)]
pub enum WorkerState {
    /// Waiting for the next event from the queue.
    AwaitingEvent,
    /// Delivery attempt number `attempt` (from one) of the current event is
    /// under way.
    Delivering { attempt: u32 },
    /// Waiting out the back-off before delivery attempt number `attempt`.
    BackingOff { attempt: u32 },
    /// Waiting after the queue could not be read.
    PausingAfterConsumeError,
}

/// What the outside world reports back to the worker.
#[derive(Debug, Clone, Copy, PartialEq, Eq)]
pub enum WorkerInput {
    /// The queue handed over an event.
    EventReceived,
    /// The queue could not be read.
    ConsumeFailed,
    /// The backend took the event.
    DeliverySucceeded,
    /// The backend did not take the event.
    DeliveryFailed,
    /// A requested sleep is over.
    Slept,
}

/// What the worker asks the outside world to do next.
#[derive(Debug, Clone, Copy, PartialEq, Eq)]
pub enum WorkerAction {
    /// Take the next event from the queue.
    Consume,
    /// Send the current event to the backend (attempt number `attempt`).
    Deliver { attempt: u32 },
    /// Sleep this long.
    Sleep(Duration),
    /// Report that all `attempts` deliveries of the current event failed,
    /// drop it, and take the next event from the queue.
    GiveUp { attempts: u32 },
}

/// The mathematical view of a [`WorkerAction`]; sleeps by their length in
/// nanoseconds.
pub enum ActionView {
    Consume,
    Deliver(u32),
    Sleep(nat),
    GiveUp(u32),
}

impl View for WorkerAction {
    type V = ActionView;

    open spec fn view(&self) -> ActionView {
        match self {
            WorkerAction::Consume => ActionView::Consume,
            WorkerAction::Deliver { attempt } => ActionView::Deliver(*attempt),
            WorkerAction::Sleep(d) => ActionView::Sleep(duration_nanos(*d) as nat),
            WorkerAction::GiveUp { attempts } => ActionView::GiveUp(*attempts),
        }
    }
}

/// The states that a worker under policy `p` can be in: attempt numbers
/// stay between one and the policy's number of attempts, and a back-off is
/// only ever waited before a second or later attempt.
pub open spec fn state_wf(p: RetryPolicy, s: WorkerState) -> bool {
    match s {
        WorkerState::Delivering { attempt } => 1 <= attempt <= p.max_retries,
        WorkerState::BackingOff { attempt } => 2 <= attempt <= p.max_retries,
        _ => true,
    }
}

/// The back-off after failed attempt `attempt` under policy `p`.
pub open spec fn policy_backoff(p: RetryPolicy, attempt: nat) -> nat {
    backoff_nanos(attempt, duration_nanos(p.base_delay) as nat, duration_nanos(p.max_delay) as nat)
}

/// What a state is waiting for the outside world to do.
pub open spec fn awaited(p: RetryPolicy, s: WorkerState) -> ActionView {
    match s {
        WorkerState::AwaitingEvent => ActionView::Consume,
        WorkerState::Delivering { attempt } => ActionView::Deliver(attempt),
        WorkerState::BackingOff { attempt } => ActionView::Sleep(
            policy_backoff(p, (attempt - 1) as nat),
        ),
        WorkerState::PausingAfterConsumeError => ActionView::Sleep(
            duration_nanos(p.consume_error_pause) as nat,
        ),
    }
}

/// One step of the worker: the next state and what to do, for a state and
/// what the outside world reported. An event is delivered; a failed attempt
/// is followed by a back-off and the next attempt, up to the policy's number
/// of attempts, after which the event is given up; a queue error is followed
/// by a pause. A report that does not fit the state changes nothing.
pub open spec fn step_spec(p: RetryPolicy, s: WorkerState, i: WorkerInput) -> (WorkerState, ActionView) {
    match (s, i) {
        (WorkerState::AwaitingEvent, WorkerInput::EventReceived) => (
            WorkerState::Delivering { attempt: 1 },
            ActionView::Deliver(1),
        ),
        (WorkerState::AwaitingEvent, WorkerInput::ConsumeFailed) => (
            WorkerState::PausingAfterConsumeError,
            ActionView::Sleep(duration_nanos(p.consume_error_pause) as nat),
        ),
        (WorkerState::PausingAfterConsumeError, WorkerInput::Slept) => (
            WorkerState::AwaitingEvent,
            ActionView::Consume,
        ),
        (WorkerState::Delivering { attempt }, WorkerInput::DeliverySucceeded) => (
            WorkerState::AwaitingEvent,
            ActionView::Consume,
        ),
        (WorkerState::Delivering { attempt }, WorkerInput::DeliveryFailed) => if attempt
            < p.max_retries {
            (
                WorkerState::BackingOff { attempt: (attempt + 1) as u32 },
                ActionView::Sleep(policy_backoff(p, attempt as nat)),
            )
        } else {
            (WorkerState::AwaitingEvent, ActionView::GiveUp(attempt))
        },
        (WorkerState::BackingOff { attempt }, WorkerInput::Slept) => (
            WorkerState::Delivering { attempt },
            ActionView::Deliver(attempt),
        ),
        _ => (s, awaited(p, s)),
    }
}

/// The worker's first state and action.
pub fn worker_start() -> (r: (WorkerState, WorkerAction))
    ensures
        r.0 == WorkerState::AwaitingEvent,
        r.1@ == ActionView::Consume,
{
    (WorkerState::AwaitingEvent, WorkerAction::Consume)
}

/// The back-off after failed attempt `attempt`, as the policy gives it.
fn backoff_after(p: &RetryPolicy, attempt: u32) -> (r: Duration)
    requires
        p.wf(),
        1 <= attempt < p.max_retries,
    ensures
        duration_nanos(r) == policy_backoff(*p, attempt as nat),
{
    proof {
        lemma_pow2_strictly_increases((attempt - 1) as nat, (p.max_retries - 1) as nat);
        assert(duration_nanos(p.base_delay) * pow2((attempt - 1) as nat) <= duration_nanos(
            p.base_delay,
        ) * pow2((p.max_retries - 1) as nat)) by (nonlinear_arith)
            requires
                pow2((attempt - 1) as nat) < pow2((p.max_retries - 1) as nat),
        ;
    }
    calculate_backoff(attempt, p.base_delay, p.max_delay)
}

/// What the state `s` is waiting for the outside world to do.
pub fn awaited_action(p: &RetryPolicy, s: WorkerState) -> (r: WorkerAction)
    requires
        p.wf(),
        state_wf(*p, s),
    ensures
        r@ == awaited(*p, s),
{
    match s {
        WorkerState::AwaitingEvent => WorkerAction::Consume,
        WorkerState::Delivering { attempt } => WorkerAction::Deliver { attempt },
        WorkerState::BackingOff { attempt } => WorkerAction::Sleep(backoff_after(p, attempt - 1)),
        WorkerState::PausingAfterConsumeError => WorkerAction::Sleep(p.consume_error_pause),
    }
}

/// One step of the worker (see [`step_spec`]); it keeps the state within
/// the policy's bounds.
pub fn worker_step(p: &RetryPolicy, s: WorkerState, i: WorkerInput) -> (r: (WorkerState, WorkerAction))
    requires
        p.wf(),
        state_wf(*p, s),
    ensures
        (r.0, r.1@) == step_spec(*p, s, i),
        state_wf(*p, r.0),
{
    match (s, i) {
        (WorkerState::AwaitingEvent, WorkerInput::EventReceived) => (
            WorkerState::Delivering { attempt: 1 },
            WorkerAction::Deliver { attempt: 1 },
        ),
        (WorkerState::AwaitingEvent, WorkerInput::ConsumeFailed) => (
            WorkerState::PausingAfterConsumeError,
            WorkerAction::Sleep(p.consume_error_pause),
        ),
        (WorkerState::PausingAfterConsumeError, WorkerInput::Slept) => (
            WorkerState::AwaitingEvent,
            WorkerAction::Consume,
        ),
        (WorkerState::Delivering { attempt }, WorkerInput::DeliverySucceeded) => (
            WorkerState::AwaitingEvent,
            WorkerAction::Consume,
        ),
        (WorkerState::Delivering { attempt }, WorkerInput::DeliveryFailed) => {
            if attempt < p.max_retries {
                let delay = backoff_after(p, attempt);
                (WorkerState::BackingOff { attempt: attempt + 1 }, WorkerAction::Sleep(delay))
            } else {
                (WorkerState::AwaitingEvent, WorkerAction::GiveUp { attempts: attempt })
            }
        },
        (WorkerState::BackingOff { attempt }, WorkerInput::Slept) => (
            WorkerState::Delivering { attempt },
            WorkerAction::Deliver { attempt },
        ),
        _ => (s, awaited_action(p, s)),
    }
}

/// The states and actions that the worker goes through from state `s` as
/// the outside world reports `inputs`, one pair per report.
pub open spec fn run(p: RetryPolicy, s: WorkerState, inputs: Seq<WorkerInput>) -> Seq<
    (WorkerState, ActionView),
>
    decreases inputs.len(),
{
    if inputs.len() == 0 {
        Seq::empty()
    } else {
        let next = step_spec(p, s, inputs[0]);
        seq![next] + run(p, next.0, inputs.drop_first())
    }
}

/// Every step keeps the worker's state within the policy's bounds.
pub proof fn step_keeps_state_wf(p: RetryPolicy, s: WorkerState, i: WorkerInput)
    requires
        p.wf(),
        state_wf(p, s),
    ensures
        state_wf(p, step_spec(p, s, i).0),
{
}

/// However the outside world answers, the worker stays within the policy:
/// it never asks for a delivery attempt numbered below one or above the
/// policy's number of attempts, and it gives an event up only after that
/// many attempts.
pub proof fn runs_stay_within_attempts(p: RetryPolicy, s: WorkerState, inputs: Seq<WorkerInput>)
    requires
        p.wf(),
        state_wf(p, s),
    ensures
        run(p, s, inputs).len() == inputs.len(),
        forall|k: int|
            0 <= k < inputs.len() ==> {
                let (s2, a) = #[trigger] run(p, s, inputs)[k];
                &&& state_wf(p, s2)
                &&& (a matches ActionView::Deliver(n) ==> 1 <= n <= p.max_retries)
                &&& (a matches ActionView::GiveUp(n) ==> n == p.max_retries)
            },
    decreases inputs.len(),
{
    if inputs.len() > 0 {
        let next = step_spec(p, s, inputs[0]);
        step_keeps_state_wf(p, s, inputs[0]);
        runs_stay_within_attempts(p, next.0, inputs.drop_first());
        let rest = run(p, next.0, inputs.drop_first());
        assert forall|k: int| 0 <= k < inputs.len() implies {
            let (s2, a) = #[trigger] run(p, s, inputs)[k];
            &&& state_wf(p, s2)
            &&& (a matches ActionView::Deliver(n) ==> 1 <= n <= p.max_retries)
            &&& (a matches ActionView::GiveUp(n) ==> n == p.max_retries)
        } by {
            if k > 0 {
                assert(run(p, s, inputs)[k] == rest[k - 1]);
            }
        }
    }
}

/// The state the worker is in after the reports `inputs`, from state `s`.
pub open spec fn final_state(p: RetryPolicy, s: WorkerState, inputs: Seq<WorkerInput>) -> WorkerState
    decreases inputs.len(),
{
    if inputs.len() == 0 {
        s
    } else {
        final_state(p, step_spec(p, s, inputs[0]).0, inputs.drop_first())
    }
}

/// The number of deliveries that a run asks for.
pub open spec fn deliveries(r: Seq<(WorkerState, ActionView)>) -> nat
    decreases r.len(),
{
    if r.len() == 0 {
        0
    } else {
        (if r[0].1 is Deliver {
            1nat
        } else {
            0nat
        }) + deliveries(r.drop_first())
    }
}

/// The state of delivery attempt number `a`.
pub open spec fn delivering(a: nat) -> WorkerState {
    WorkerState::Delivering { attempt: a as u32 }
}

/// `j` failed deliveries, each followed by the end of its back-off.
pub open spec fn failed_retries(j: nat) -> Seq<WorkerInput>
    decreases j,
{
    if j == 0 {
        Seq::empty()
    } else {
        seq![WorkerInput::DeliveryFailed, WorkerInput::Slept] + failed_retries((j - 1) as nat)
    }
}

/// What the worker does over `j` failed deliveries from attempt `a` on: for
/// each, it backs off as the policy says and then makes the next attempt.
pub open spec fn retry_chain(p: RetryPolicy, a: nat, j: nat) -> Seq<(WorkerState, ActionView)>
    decreases j,
{
    if j == 0 {
        Seq::empty()
    } else {
        seq![
            (WorkerState::BackingOff { attempt: (a + 1) as u32 }, ActionView::Sleep(policy_backoff(p, a))),
            (WorkerState::Delivering { attempt: (a + 1) as u32 }, ActionView::Deliver((a + 1) as u32)),
        ] + retry_chain(p, a + 1, (j - 1) as nat)
    }
}

/// A run over two pieces of input is the run over the first piece followed
/// by the run over the second from where the first ended.
pub proof fn run_concat(p: RetryPolicy, s: WorkerState, x: Seq<WorkerInput>, y: Seq<WorkerInput>)
    ensures
        run(p, s, x + y) == run(p, s, x) + run(p, final_state(p, s, x), y),
    decreases x.len(),
{
    if x.len() == 0 {
        assert(x + y =~= y);
        assert(run(p, s, x) + run(p, s, y) =~= run(p, s, y));
    } else {
        let next = step_spec(p, s, x[0]);
        assert((x + y)[0] == x[0]);
        assert((x + y).drop_first() =~= x.drop_first() + y);
        run_concat(p, next.0, x.drop_first(), y);
        assert(run(p, s, x + y) =~= run(p, s, x) + run(p, final_state(p, s, x), y));
    }
}

/// Deliveries add up over pieces of a run.
pub proof fn deliveries_concat(x: Seq<(WorkerState, ActionView)>, y: Seq<(WorkerState, ActionView)>)
    ensures
        deliveries(x + y) == deliveries(x) + deliveries(y),
    decreases x.len(),
{
    if x.len() == 0 {
        assert(x + y =~= y);
    } else {
        assert((x + y)[0] == x[0]);
        assert((x + y).drop_first() =~= x.drop_first() + y);
        deliveries_concat(x.drop_first(), y);
    }
}

/// Failed deliveries from attempt `a` on go through [`retry_chain`], end
/// at attempt `a + j`, and ask for one delivery each.
pub proof fn retries_follow_the_chain(p: RetryPolicy, a: nat, j: nat)
    requires
        p.wf(),
        1 <= a,
        a + j <= p.max_retries,
    ensures
        run(p, delivering(a), failed_retries(j)) == retry_chain(p, a, j),
        final_state(p, delivering(a), failed_retries(j)) == delivering(a + j),
        deliveries(retry_chain(p, a, j)) == j,
    decreases j,
{
    let s = delivering(a);
    if j == 0 {
        assert(failed_retries(j) =~= Seq::<WorkerInput>::empty());
    } else {
        let two = seq![WorkerInput::DeliveryFailed, WorkerInput::Slept];
        let rest = failed_retries((j - 1) as nat);
        assert(failed_retries(j) == two + rest);
        run_concat(p, s, two, rest);
        let one = seq![WorkerInput::Slept];
        let s1 = WorkerState::BackingOff { attempt: (a + 1) as u32 };
        let s2 = delivering(a + 1);
        assert(step_spec(p, s, WorkerInput::DeliveryFailed) == (
            s1,
            ActionView::Sleep(policy_backoff(p, a)),
        ));
        assert(step_spec(p, s1, WorkerInput::Slept) == (s2, ActionView::Deliver((a + 1) as u32)));
        assert(two[0] == WorkerInput::DeliveryFailed);
        assert(two.drop_first() =~= one);
        assert(one[0] == WorkerInput::Slept);
        assert(one.drop_first() =~= Seq::<WorkerInput>::empty());
        assert(final_state(p, s2, Seq::<WorkerInput>::empty()) == s2);
        assert(final_state(p, s1, one) == s2);
        assert(final_state(p, s, two) == s2);
        assert(run(p, s2, Seq::<WorkerInput>::empty()) =~= Seq::empty());
        assert(run(p, s1, one) =~= seq![(s2, ActionView::Deliver((a + 1) as u32))]);
        assert(run(p, s, two) =~= seq![
            (s1, ActionView::Sleep(policy_backoff(p, a))),
            (s2, ActionView::Deliver((a + 1) as u32)),
        ]);
        retries_follow_the_chain(p, a + 1, (j - 1) as nat);
        run_concat(p, s, two, rest);
        assert(final_state(p, s, two + rest) == final_state(
            p,
            final_state(p, s, two),
            rest,
        )) by {
            final_state_concat(p, s, two, rest);
        }
        assert(failed_retries(j) =~= two + rest);
        deliveries_concat(run(p, s, two), retry_chain(p, a + 1, (j - 1) as nat));
        let pair = run(p, s, two);
        assert(retry_chain(p, a, j) == pair + retry_chain(p, a + 1, (j - 1) as nat));
        assert(pair.drop_first().drop_first() =~= Seq::<(WorkerState, ActionView)>::empty());
        assert(deliveries(pair.drop_first().drop_first()) == 0);
        assert(deliveries(pair.drop_first()) == 1);
        assert(deliveries(pair) == 1);
    }
}

/// The state after two pieces of input is reached through the state after
/// the first.
pub proof fn final_state_concat(p: RetryPolicy, s: WorkerState, x: Seq<WorkerInput>, y: Seq<WorkerInput>)
    ensures
        final_state(p, s, x + y) == final_state(p, final_state(p, s, x), y),
    decreases x.len(),
{
    if x.len() == 0 {
        assert(x + y =~= y);
    } else {
        assert((x + y)[0] == x[0]);
        assert((x + y).drop_first() =~= x.drop_first() + y);
        final_state_concat(p, step_spec(p, s, x[0]).0, x.drop_first(), y);
    }
}

/// A run over one report is that report's step.
pub proof fn run_one(p: RetryPolicy, s: WorkerState, i: WorkerInput)
    ensures
        run(p, s, seq![i]) == seq![step_spec(p, s, i)],
        final_state(p, s, seq![i]) == step_spec(p, s, i).0,
{
    let one = seq![i];
    assert(one[0] == i);
    assert(one.drop_first() =~= Seq::<WorkerInput>::empty());
    let next = step_spec(p, s, i);
    assert(run(p, next.0, one.drop_first()) =~= Seq::empty());
    assert(final_state(p, next.0, one.drop_first()) == next.0);
    assert(run(p, s, one) =~= seq![next]);
}

/// One event from the queue is handed to the backend until the first
/// delivery that succeeds: where the first `k - 1` attempts fail and
/// attempt `k` succeeds (`k` at most the policy's number of attempts), the
/// worker asks for exactly `k` deliveries, numbered 1 to `k`, with the
/// policy's back-off before each retry, and then takes the next event.
pub proof fn event_is_delivered_until_first_success(p: RetryPolicy, k: nat)
    requires
        p.wf(),
        1 <= k <= p.max_retries,
    ensures
        run(
            p,
            WorkerState::AwaitingEvent,
            seq![WorkerInput::EventReceived] + failed_retries((k - 1) as nat) + seq![
                WorkerInput::DeliverySucceeded,
            ],
        ) == seq![(delivering(1), ActionView::Deliver(1))] + retry_chain(p, 1, (k - 1) as nat)
            + seq![(WorkerState::AwaitingEvent, ActionView::Consume)],
        deliveries(
            run(
                p,
                WorkerState::AwaitingEvent,
                seq![WorkerInput::EventReceived] + failed_retries((k - 1) as nat) + seq![
                    WorkerInput::DeliverySucceeded,
                ],
            ),
        ) == k,
{
    let s0 = WorkerState::AwaitingEvent;
    let first = seq![WorkerInput::EventReceived];
    let mid = failed_retries((k - 1) as nat);
    let last = seq![WorkerInput::DeliverySucceeded];
    run_one(p, s0, WorkerInput::EventReceived);
    run_concat(p, s0, first, mid);
    final_state_concat(p, s0, first, mid);
    retries_follow_the_chain(p, 1, (k - 1) as nat);
    run_concat(p, s0, first + mid, last);
    run_one(p, delivering(k), WorkerInput::DeliverySucceeded);
    let tail = seq![(WorkerState::AwaitingEvent, ActionView::Consume)];
    let head = seq![(delivering(1), ActionView::Deliver(1))];
    deliveries_concat(head, retry_chain(p, 1, (k - 1) as nat));
    deliveries_concat(head + retry_chain(p, 1, (k - 1) as nat), tail);
    assert(head.drop_first() =~= Seq::<(WorkerState, ActionView)>::empty());
    assert(tail.drop_first() =~= Seq::<(WorkerState, ActionView)>::empty());
    assert(deliveries(head.drop_first()) == 0);
    assert(head[0].1 is Deliver);
    assert(deliveries(head) == 1);
    assert(deliveries(tail.drop_first()) == 0);
    assert(deliveries(tail) == 0);
}

/// Where every attempt fails, the worker asks for exactly the policy's
/// number of deliveries, numbered from one, and then gives the event up.
pub proof fn event_is_given_up_after_all_attempts(p: RetryPolicy)
    requires
        p.wf(),
    ensures
        run(
            p,
            WorkerState::AwaitingEvent,
            seq![WorkerInput::EventReceived] + failed_retries((p.max_retries - 1) as nat) + seq![
                WorkerInput::DeliveryFailed,
            ],
        ) == seq![(delivering(1), ActionView::Deliver(1))] + retry_chain(
            p,
            1,
            (p.max_retries - 1) as nat,
        ) + seq![(WorkerState::AwaitingEvent, ActionView::GiveUp(p.max_retries))],
        deliveries(
            run(
                p,
                WorkerState::AwaitingEvent,
                seq![WorkerInput::EventReceived] + failed_retries((p.max_retries - 1) as nat)
                    + seq![WorkerInput::DeliveryFailed],
            ),
        ) == p.max_retries,
{
    let k = p.max_retries as nat;
    let s0 = WorkerState::AwaitingEvent;
    let first = seq![WorkerInput::EventReceived];
    let mid = failed_retries((k - 1) as nat);
    let last = seq![WorkerInput::DeliveryFailed];
    run_one(p, s0, WorkerInput::EventReceived);
    run_concat(p, s0, first, mid);
    final_state_concat(p, s0, first, mid);
    retries_follow_the_chain(p, 1, (k - 1) as nat);
    run_concat(p, s0, first + mid, last);
    run_one(p, delivering(k), WorkerInput::DeliveryFailed);
    let tail = seq![(WorkerState::AwaitingEvent, ActionView::GiveUp(p.max_retries))];
    let head = seq![(delivering(1), ActionView::Deliver(1))];
    deliveries_concat(head, retry_chain(p, 1, (k - 1) as nat));
    deliveries_concat(head + retry_chain(p, 1, (k - 1) as nat), tail);
    assert(head.drop_first() =~= Seq::<(WorkerState, ActionView)>::empty());
    assert(tail.drop_first() =~= Seq::<(WorkerState, ActionView)>::empty());
    assert(deliveries(head.drop_first()) == 0);
    assert(head[0].1 is Deliver);
    assert(deliveries(head) == 1);
    assert(deliveries(tail.drop_first()) == 0);
    assert(deliveries(tail) == 0);
}

/// A report that does not fit the worker's state leaves the state as it is
/// and repeats what the state is waiting for.
pub proof fn unexpected_reports_change_nothing(p: RetryPolicy, s: WorkerState, i: WorkerInput)
    requires
        p.wf(),
        s == WorkerState::AwaitingEvent ==> (i != WorkerInput::EventReceived && i
            != WorkerInput::ConsumeFailed),
        s == WorkerState::PausingAfterConsumeError ==> i != WorkerInput::Slept,
        s is Delivering ==> (i != WorkerInput::DeliverySucceeded && i != WorkerInput::DeliveryFailed),
        s is BackingOff ==> i != WorkerInput::Slept,
    ensures
        step_spec(p, s, i).0 == s,
        step_spec(p, s, i).1 == awaited(p, s),
{
}

/// When the queue cannot be read, the worker pauses for the policy's pause
/// and then reads the queue again.
pub proof fn queue_errors_pause_then_retry(p: RetryPolicy)
    requires
        p.wf(),
    ensures
        run(p, WorkerState::AwaitingEvent, seq![WorkerInput::ConsumeFailed, WorkerInput::Slept])
            == seq![
            (
                WorkerState::PausingAfterConsumeError,
                ActionView::Sleep(duration_nanos(p.consume_error_pause) as nat),
            ),
            (WorkerState::AwaitingEvent, ActionView::Consume),
        ],
{
    let inputs = seq![WorkerInput::ConsumeFailed, WorkerInput::Slept];
    assert(inputs == seq![WorkerInput::ConsumeFailed] + seq![WorkerInput::Slept]);
    run_concat(p, WorkerState::AwaitingEvent, seq![WorkerInput::ConsumeFailed], seq![WorkerInput::Slept]);
    run_one(p, WorkerState::AwaitingEvent, WorkerInput::ConsumeFailed);
    run_one(p, WorkerState::PausingAfterConsumeError, WorkerInput::Slept);
}

/// Whether the worker is between events: waiting for one, or pausing after
/// a queue error.
pub open spec fn between_events(s: WorkerState) -> bool {
    s == WorkerState::AwaitingEvent || s == WorkerState::PausingAfterConsumeError
}

/// Events are handled one at a time: between events (after a success, or
/// after an event was given up) the worker asks for no delivery at all
/// until the queue hands over a new event, so an event that was given up
/// is never sent again.
pub proof fn no_delivery_without_a_new_event(p: RetryPolicy, s: WorkerState, inputs: Seq<WorkerInput>)
    requires
        p.wf(),
        between_events(s),
        forall|i: int| 0 <= i < inputs.len() ==> #[trigger] inputs[i] != WorkerInput::EventReceived,
    ensures
        deliveries(run(p, s, inputs)) == 0,
        between_events(final_state(p, s, inputs)),
    decreases inputs.len(),
{
    if inputs.len() > 0 {
        let next = step_spec(p, s, inputs[0]);
        assert(inputs[0] != WorkerInput::EventReceived);
        assert forall|i: int| 0 <= i < inputs.drop_first().len() implies #[trigger] inputs.drop_first()[i]
            != WorkerInput::EventReceived by {
            assert(inputs.drop_first()[i] == inputs[i + 1]);
        }
        no_delivery_without_a_new_event(p, next.0, inputs.drop_first());
        let r = run(p, s, inputs);
        assert(r[0] == next);
        assert(r.drop_first() =~= run(p, next.0, inputs.drop_first()));
    }
}

} // verus!
