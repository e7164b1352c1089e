//! The worker loop: the single owner of the evaluator, as a state machine
//! from the event that just happened to the next thing to do.

use vstd::prelude::*;
use crate::guard::{interrupts, GuardState, Wake};
use crate::outcome::{parse_failure, parse_failure_text, text_of, ExecutionResult, ResultText};

verus! {

/// Where the worker stands between two events.
#[derive(Debug, PartialEq, Eq)]
pub enum WorkerState {
    /// Waiting on the request channel.
    Idle,
    /// A request was taken and its text is being parsed.
    Parsing,
    /// The guard is armed and the evaluator runs the command.
    Running,
    /// The evaluator has returned; the guard is being cancelled and joined.
    Joining { outcome: ExecutionResult },
    /// The result is on its way to the caller's reply slot.
    Delivering,
    /// The request channel is closed for good.
    Stopped,
}

/// What the worker's surroundings report back to it.
#[derive(Debug, PartialEq, Eq)]
pub enum WorkerEvent {
    /// A caller handed over a command.
    Request { command: String },
    /// Every sender of the request channel is gone.
    ChannelClosed,
    /// The parser refused the command text.
    ParseFailed { description: String },
    /// The command text parsed.
    Parsed,
    /// The evaluator's compile-and-run step returned.
    Evaluated { outcome: ExecutionResult },
    /// The guard's thread has ended.
    GuardJoined,
    /// The reply slot took the result.
    ReplySent,
    /// The caller was gone before the result could be sent.
    ReplyDropped,
}

/// What the worker does next.
#[derive(Debug, PartialEq, Eq)]
pub enum WorkerAction {
    /// Wait for the next request.
    AwaitRequest,
    /// Parse this command text.
    Parse { command: String },
    /// Start a guard for this execution, then compile and run.
    ArmGuardAndRun,
    /// Tell the guard the execution has ended and wait for its thread.
    CancelGuardAndJoin,
    /// Send this result to the caller's reply slot.
    Deliver { result: ExecutionResult },
    /// Leave the loop.
    Exit,
    /// The event does not belong to this state: nothing changes.
    Ignore,
}

/// The coarse phase of the worker.
#[derive(Clone, Copy, Debug, PartialEq, Eq, Structural)]
pub enum Phase {
    Idle,
    Executing,
    Delivering,
    Stopped,
}

/// A worker state over plain text.
pub enum StateModel {
    Idle,
    Parsing,
    Running,
    Joining { outcome: ResultText },
    Delivering,
    Stopped,
}

/// A worker event over plain text.
pub enum EventModel {
    Request { command: Seq<char> },
    ChannelClosed,
    ParseFailed { description: Seq<char> },
    Parsed,
    Evaluated { outcome: ResultText },
    GuardJoined,
    ReplySent,
    ReplyDropped,
}

/// A worker action over plain text.
pub enum ActionModel {
    AwaitRequest,
    Parse { command: Seq<char> },
    ArmGuardAndRun,
    CancelGuardAndJoin,
    Deliver { result: ResultText },
    Exit,
    Ignore,
}

impl View for WorkerState {
    type V = StateModel;

    open spec fn view(&self) -> StateModel {
        match *self {
            WorkerState::Idle => StateModel::Idle,
            WorkerState::Parsing => StateModel::Parsing,
            WorkerState::Running => StateModel::Running,
            WorkerState::Joining { outcome } => StateModel::Joining { outcome: text_of(outcome) },
            WorkerState::Delivering => StateModel::Delivering,
            WorkerState::Stopped => StateModel::Stopped,
        }
    }
}

impl View for WorkerEvent {
    type V = EventModel;

    open spec fn view(&self) -> EventModel {
        match *self {
            WorkerEvent::Request { command } => EventModel::Request { command: command@ },
            WorkerEvent::ChannelClosed => EventModel::ChannelClosed,
            WorkerEvent::ParseFailed { description } => EventModel::ParseFailed {
                description: description@,
            },
            WorkerEvent::Parsed => EventModel::Parsed,
            WorkerEvent::Evaluated { outcome } => EventModel::Evaluated {
                outcome: text_of(outcome),
            },
            WorkerEvent::GuardJoined => EventModel::GuardJoined,
            WorkerEvent::ReplySent => EventModel::ReplySent,
            WorkerEvent::ReplyDropped => EventModel::ReplyDropped,
        }
    }
}

impl View for WorkerAction {
    type V = ActionModel;

    open spec fn view(&self) -> ActionModel {
        match *self {
            WorkerAction::AwaitRequest => ActionModel::AwaitRequest,
            WorkerAction::Parse { command } => ActionModel::Parse { command: command@ },
            WorkerAction::ArmGuardAndRun => ActionModel::ArmGuardAndRun,
            WorkerAction::CancelGuardAndJoin => ActionModel::CancelGuardAndJoin,
            WorkerAction::Deliver { result } => ActionModel::Deliver { result: text_of(result) },
            WorkerAction::Exit => ActionModel::Exit,
            WorkerAction::Ignore => ActionModel::Ignore,
        }
    }
}

impl StateModel {
    /// The worker's transition function: the state that follows, and what to
    /// do on the way there.
    pub open spec fn next(self, event: EventModel) -> (StateModel, ActionModel) {
        match (self, event) {
            (StateModel::Idle, EventModel::Request { command }) => (
                StateModel::Parsing,
                ActionModel::Parse { command },
            ),
            (StateModel::Idle, EventModel::ChannelClosed) => (
                StateModel::Stopped,
                ActionModel::Exit,
            ),
            (StateModel::Parsing, EventModel::ParseFailed { description }) => (
                StateModel::Delivering,
                ActionModel::Deliver { result: Err(parse_failure_text(description)) },
            ),
            (StateModel::Parsing, EventModel::Parsed) => (
                StateModel::Running,
                ActionModel::ArmGuardAndRun,
            ),
            (StateModel::Running, EventModel::Evaluated { outcome }) => (
                StateModel::Joining { outcome },
                ActionModel::CancelGuardAndJoin,
            ),
            (StateModel::Joining { outcome }, EventModel::GuardJoined) => (
                StateModel::Delivering,
                ActionModel::Deliver { result: outcome },
            ),
            (StateModel::Delivering, EventModel::ReplySent) => (
                StateModel::Idle,
                ActionModel::AwaitRequest,
            ),
            (StateModel::Delivering, EventModel::ReplyDropped) => (
                StateModel::Idle,
                ActionModel::AwaitRequest,
            ),
            (state, _) => (state, ActionModel::Ignore),
        }
    }

    /// The coarse phase a state belongs to.
    pub open spec fn phase(self) -> Phase {
        match self {
            StateModel::Idle => Phase::Idle,
            StateModel::Parsing => Phase::Executing,
            StateModel::Running => Phase::Executing,
            StateModel::Joining { .. } => Phase::Executing,
            StateModel::Delivering => Phase::Delivering,
            StateModel::Stopped => Phase::Stopped,
        }
    }

    /// Requests taken from the channel whose result has not been handed to
    /// delivery yet: none or one.
    pub open spec fn in_flight(self) -> nat {
        if self.phase() == Phase::Executing {
            1
        } else {
            0
        }
    }

    /// Guard threads alive for this state: none or one.
    pub open spec fn guards_alive(self) -> nat {
        match self {
            StateModel::Running => 1,
            StateModel::Joining { .. } => 1,
            _ => 0,
        }
    }
}

impl WorkerState {
    /// The state of a worker that has just started.
    pub fn new() -> (state: WorkerState)
        ensures
            state@ == StateModel::Idle,
    {
        WorkerState::Idle
    }

    /// The coarse phase the worker is in.
    pub fn phase(&self) -> (phase: Phase)
        ensures
            phase == self@.phase(),
    {
        match self {
            WorkerState::Idle => Phase::Idle,
            WorkerState::Parsing => Phase::Executing,
            WorkerState::Running => Phase::Executing,
            WorkerState::Joining { .. } => Phase::Executing,
            WorkerState::Delivering => Phase::Delivering,
            WorkerState::Stopped => Phase::Stopped,
        }
    }

    /// Takes one event and says what the worker does next.
    pub fn step(self, event: WorkerEvent) -> (result: (WorkerState, WorkerAction))
        ensures
            (result.0@, result.1@) == self@.next(event@),
    {
        match (self, event) {
            (WorkerState::Idle, WorkerEvent::Request { command }) => (
                WorkerState::Parsing,
                WorkerAction::Parse { command },
            ),
            (WorkerState::Idle, WorkerEvent::ChannelClosed) => (
                WorkerState::Stopped,
                WorkerAction::Exit,
            ),
            (WorkerState::Parsing, WorkerEvent::ParseFailed { description }) => (
                WorkerState::Delivering,
                WorkerAction::Deliver { result: parse_failure(description.as_str()) },
            ),
            (WorkerState::Parsing, WorkerEvent::Parsed) => (
                WorkerState::Running,
                WorkerAction::ArmGuardAndRun,
            ),
            (WorkerState::Running, WorkerEvent::Evaluated { outcome }) => (
                WorkerState::Joining { outcome },
                WorkerAction::CancelGuardAndJoin,
            ),
            (WorkerState::Joining { outcome }, WorkerEvent::GuardJoined) => (
                WorkerState::Delivering,
                WorkerAction::Deliver { result: outcome },
            ),
            (WorkerState::Delivering, WorkerEvent::ReplySent) => (
                WorkerState::Idle,
                WorkerAction::AwaitRequest,
            ),
            (WorkerState::Delivering, WorkerEvent::ReplyDropped) => (
                WorkerState::Idle,
                WorkerAction::AwaitRequest,
            ),
            (state, _) => (state, WorkerAction::Ignore),
        }
    }
}

/// The state a worker reaches after a series of events.
pub open spec fn state_after(state: StateModel, events: Seq<EventModel>) -> StateModel
    decreases events.len(),
{
    if events.len() == 0 {
        state
    } else {
        state_after(state.next(events[0]).0, events.drop_first())
    }
}

/// How many steps of a run `wanted` picks out, each step given by the state
/// it starts in and the event it takes.
pub open spec fn count_steps(
    state: StateModel,
    events: Seq<EventModel>,
    wanted: spec_fn(StateModel, EventModel) -> bool,
) -> nat
    decreases events.len(),
{
    if events.len() == 0 {
        0
    } else {
        let here: nat = if wanted(state, events[0]) {
            1
        } else {
            0
        };
        here + count_steps(state.next(events[0]).0, events.drop_first(), wanted)
    }
}

/// Requests the worker took from the channel during a run.
pub open spec fn accepted(state: StateModel, events: Seq<EventModel>) -> nat {
    count_steps(state, events, |s: StateModel, e: EventModel| s.next(e).1 is Parse)
}

/// Results the worker handed to a reply slot during a run.
pub open spec fn delivered(state: StateModel, events: Seq<EventModel>) -> nat {
    count_steps(state, events, |s: StateModel, e: EventModel| s.next(e).1 is Deliver)
}

/// Guards the worker started during a run.
pub open spec fn guards_started(state: StateModel, events: Seq<EventModel>) -> nat {
    count_steps(
        state,
        events,
        |s: StateModel, e: EventModel| s.next(e).1 is ArmGuardAndRun,
    )
}

/// Guards whose thread was seen to end during a run.
pub open spec fn guards_joined(state: StateModel, events: Seq<EventModel>) -> nat {
    count_steps(state, events, |s: StateModel, e: EventModel| s is Joining && e is GuardJoined)
}

/// Every request taken is answered exactly once, and at most one is being
/// executed at any time: over any run, the requests taken so far are the
/// results handed out plus the one, if any, still in execution.
pub proof fn lemma_one_result_per_request(state: StateModel, events: Seq<EventModel>)
    ensures
        state.in_flight() + accepted(state, events) == delivered(state, events) + state_after(
            state,
            events,
        ).in_flight(),
        state_after(state, events).in_flight() <= 1,
    decreases events.len(),
{
    if events.len() > 0 {
        lemma_one_result_per_request(state.next(events[0]).0, events.drop_first());
    }
}

/// A guard never outlives its execution: over any run, the guards started
/// are the guards joined plus the one, if any, of the execution under way.
/// A guard alive when a run begins is joined before a further one starts.
pub proof fn lemma_guard_joined_before_next(state: StateModel, events: Seq<EventModel>)
    ensures
        state.guards_alive() + guards_started(state, events) == guards_joined(state, events)
            + state_after(state, events).guards_alive(),
        state_after(state, events).guards_alive() <= 1,
    decreases events.len(),
{
    if events.len() > 0 {
        lemma_guard_joined_before_next(state.next(events[0]).0, events.drop_first());
    }
}

/// The loop never ends while the request channel is open: a worker stops
/// only on learning, while idle, that the channel is closed.
pub proof fn lemma_stops_only_on_closed_channel(state: StateModel, events: Seq<EventModel>)
    requires
        state != StateModel::Stopped,
        forall|i: int| 0 <= i < events.len() ==> !(#[trigger] events[i] is ChannelClosed),
    ensures
        state_after(state, events) != StateModel::Stopped,
    decreases events.len(),
{
    if events.len() > 0 {
        let rest = events.drop_first();
        assert(!(events[0] is ChannelClosed));
        assert forall|i: int| 0 <= i < rest.len() implies !(#[trigger] rest[i] is ChannelClosed) by {
            assert(rest[i] == events[i + 1]);
        }
        lemma_stops_only_on_closed_channel(state.next(events[0]).0, rest);
    }
}

/// A command that does not parse is answered with the parser's description
/// and never reaches the evaluator: no guard is started for it.
pub proof fn lemma_parse_failure_skips_evaluator(command: Seq<char>, description: Seq<char>)
    ensures
        ({
            let events = seq![
                EventModel::Request { command },
                EventModel::ParseFailed { description },
            ];
            &&& guards_started(StateModel::Idle, events) == 0
            &&& delivered(StateModel::Idle, events) == 1
            &&& state_after(StateModel::Idle, events) == StateModel::Delivering
            &&& StateModel::Parsing.next(EventModel::ParseFailed { description }).1
                == (ActionModel::Deliver { result: Err(parse_failure_text(description)) })
        }),
{
    let events = seq![EventModel::Request { command }, EventModel::ParseFailed { description }];
    let rest = events.drop_first();
    assert(rest.len() == 1);
    assert(rest[0] == EventModel::ParseFailed { description });
    assert(rest.drop_first().len() == 0);
    reveal_with_fuel(count_steps, 3);
    reveal_with_fuel(state_after, 3);
}

/// A command that parses is answered with exactly what the evaluator
/// returned, once its guard is joined, and the worker is then free for the
/// next request, whether or not the reply reached the caller.
pub proof fn lemma_outcome_is_delivered(outcome: ResultText, reply_sent: bool)
    ensures
        ({
            let joining = StateModel::Running.next(EventModel::Evaluated { outcome });
            let delivering = joining.0.next(EventModel::GuardJoined);
            let after = delivering.0.next(
                if reply_sent {
                    EventModel::ReplySent
                } else {
                    EventModel::ReplyDropped
                },
            );
            &&& joining.1 == ActionModel::CancelGuardAndJoin
            &&& delivering.1 == (ActionModel::Deliver { result: outcome })
            &&& after.0 == StateModel::Idle
            &&& after.1 == ActionModel::AwaitRequest
        }),
{
}

/// An execution that ends before its deadline is never interrupted, and the
/// caller is sent exactly what the evaluator returned.
pub proof fn lemma_timely_execution_is_untouched(outcome: ResultText, later_wakes: Seq<Wake>)
    ensures
        interrupts(GuardState::Armed, seq![Wake::Cancelled] + later_wakes) == 0,
        state_after(
            StateModel::Running,
            seq![EventModel::Evaluated { outcome }, EventModel::GuardJoined],
        ) == StateModel::Delivering,
        StateModel::Running.next(EventModel::Evaluated { outcome }).0.next(
            EventModel::GuardJoined,
        ).1 == (ActionModel::Deliver { result: outcome }),
{
    let wakes = seq![Wake::Cancelled] + later_wakes;
    assert(wakes[0] == Wake::Cancelled);
    crate::guard::lemma_first_wake_decides(wakes);
    let events = seq![EventModel::Evaluated { outcome }, EventModel::GuardJoined];
    assert(events.drop_first().len() == 1);
    assert(events.drop_first()[0] == EventModel::GuardJoined);
    assert(events.drop_first().drop_first().len() == 0);
    reveal_with_fuel(state_after, 3);
}

/// An execution that outlasts its deadline is interrupted exactly once; when
/// the evaluator then returns, its outcome is delivered and the worker takes
/// the next request straight away.
pub proof fn lemma_overdue_execution_is_cut_off(
    outcome: ResultText,
    later_wakes: Seq<Wake>,
    reply_sent: bool,
    next_command: Seq<char>,
)
    ensures
        interrupts(GuardState::Armed, seq![Wake::Elapsed] + later_wakes) == 1,
        ({
            let delivering = StateModel::Running.next(EventModel::Evaluated { outcome }).0.next(
                EventModel::GuardJoined,
            );
            let idle = delivering.0.next(
                if reply_sent {
                    EventModel::ReplySent
                } else {
                    EventModel::ReplyDropped
                },
            ).0;
            &&& delivering.1 == (ActionModel::Deliver { result: outcome })
            &&& idle.next(EventModel::Request { command: next_command }) == (
                StateModel::Parsing,
                ActionModel::Parse { command: next_command },
            )
        }),
{
    let wakes = seq![Wake::Elapsed] + later_wakes;
    assert(wakes[0] == Wake::Elapsed);
    crate::guard::lemma_first_wake_decides(wakes);
}

} // verus!
