//! The caller's side of the execution service: win access to the worker,
//! hand the command over, wait for the one reply.

use vstd::prelude::*;
use crate::guard::EXECUTION_DEADLINE_SECS;
use crate::outcome::{
    access_timeout, access_timeout_text, text_of, ExecutionResult, ResultText,
};

verus! {

/// Seconds a caller waits for access to the worker before giving up.
pub const QUEUE_ACCESS_DEADLINE_SECS: u64 = 15;

/// Where one submission stands.
#[derive(Clone, Copy, Debug, PartialEq, Eq, Structural)]
pub enum SubmitState {
    /// Waiting for the exclusive right to hand a request to the worker.
    AwaitingAccess,
    /// The request is with the worker; waiting on the reply slot.
    AwaitingReply,
    /// The caller has its result.
    Done,
}

/// What happened to a waiting caller.
#[derive(Debug, PartialEq, Eq)]
pub enum SubmitEvent {
    /// Access to the worker was won in time.
    AccessGranted,
    /// The access deadline passed first.
    AccessTimedOut,
    /// The worker's result arrived in the reply slot.
    Replied { result: ExecutionResult },
    /// The reply slot was closed without a result.
    ReplySlotClosed { description: String },
}

/// What the caller does next.
#[derive(Debug, PartialEq, Eq)]
pub enum SubmitAction {
    /// Hand the command and the reply slot to the worker, then wait.
    Handoff,
    /// Return this result to whoever submitted the command.
    Return { result: ExecutionResult },
    /// The event does not belong to this state: nothing changes.
    Ignore,
}

/// A submit event over plain text.
pub enum SubmitEventModel {
    AccessGranted,
    AccessTimedOut,
    Replied { result: ResultText },
    ReplySlotClosed { description: Seq<char> },
}

/// A submit action over plain text.
pub enum SubmitActionModel {
    Handoff,
    Return { result: ResultText },
    Ignore,
}

impl View for SubmitEvent {
    type V = SubmitEventModel;

    open spec fn view(&self) -> SubmitEventModel {
        match *self {
            SubmitEvent::AccessGranted => SubmitEventModel::AccessGranted,
            SubmitEvent::AccessTimedOut => SubmitEventModel::AccessTimedOut,
            SubmitEvent::Replied { result } => SubmitEventModel::Replied {
                result: text_of(result),
            },
            SubmitEvent::ReplySlotClosed { description } => SubmitEventModel::ReplySlotClosed {
                description: description@,
            },
        }
    }
}

impl View for SubmitAction {
    type V = SubmitActionModel;

    open spec fn view(&self) -> SubmitActionModel {
        match *self {
            SubmitAction::Handoff => SubmitActionModel::Handoff,
            SubmitAction::Return { result } => SubmitActionModel::Return {
                result: text_of(result),
            },
            SubmitAction::Ignore => SubmitActionModel::Ignore,
        }
    }
}

impl SubmitState {
    /// The caller's transition function.
    pub open spec fn next(self, event: SubmitEventModel) -> (SubmitState, SubmitActionModel) {
        match (self, event) {
            (SubmitState::AwaitingAccess, SubmitEventModel::AccessGranted) => (
                SubmitState::AwaitingReply,
                SubmitActionModel::Handoff,
            ),
            (SubmitState::AwaitingAccess, SubmitEventModel::AccessTimedOut) => (
                SubmitState::Done,
                SubmitActionModel::Return { result: Err(access_timeout_text()) },
            ),
            (SubmitState::AwaitingReply, SubmitEventModel::Replied { result }) => (
                SubmitState::Done,
                SubmitActionModel::Return { result },
            ),
            (SubmitState::AwaitingReply, SubmitEventModel::ReplySlotClosed { description }) => (
                SubmitState::Done,
                SubmitActionModel::Return { result: Err(description) },
            ),
            (state, _) => (state, SubmitActionModel::Ignore),
        }
    }

    /// A submission that has just been made.
    pub fn new() -> (state: SubmitState)
        ensures
            state == SubmitState::AwaitingAccess,
    {
        SubmitState::AwaitingAccess
    }

    /// Takes one event and says what the caller does next.
    pub fn step(self, event: SubmitEvent) -> (result: (SubmitState, SubmitAction))
        ensures
            (result.0, result.1@) == self.next(event@),
    {
        match (self, event) {
            (SubmitState::AwaitingAccess, SubmitEvent::AccessGranted) => (
                SubmitState::AwaitingReply,
                SubmitAction::Handoff,
            ),
            (SubmitState::AwaitingAccess, SubmitEvent::AccessTimedOut) => (
                SubmitState::Done,
                SubmitAction::Return { result: access_timeout() },
            ),
            (SubmitState::AwaitingReply, SubmitEvent::Replied { result }) => (
                SubmitState::Done,
                SubmitAction::Return { result },
            ),
            (SubmitState::AwaitingReply, SubmitEvent::ReplySlotClosed { description }) => (
                SubmitState::Done,
                SubmitAction::Return { result: Err(description) },
            ),
            (state, _) => (state, SubmitAction::Ignore),
        }
    }
}

/// The state a submission reaches after a series of events.
pub open spec fn state_after(state: SubmitState, events: Seq<SubmitEventModel>) -> SubmitState
    decreases events.len(),
{
    if events.len() == 0 {
        state
    } else {
        state_after(state.next(events[0]).0, events.drop_first())
    }
}

/// How many results a submission returns over a series of events.
pub open spec fn returned(state: SubmitState, events: Seq<SubmitEventModel>) -> nat
    decreases events.len(),
{
    if events.len() == 0 {
        0
    } else {
        let here: nat = if state.next(events[0]).1 is Return {
            1
        } else {
            0
        };
        here + returned(state.next(events[0]).0, events.drop_first())
    }
}

/// How often a submission hands its command to the worker over a series of
/// events.
pub open spec fn handoffs(state: SubmitState, events: Seq<SubmitEventModel>) -> nat
    decreases events.len(),
{
    if events.len() == 0 {
        0
    } else {
        let here: nat = if state.next(events[0]).1 is Handoff {
            1
        } else {
            0
        };
        here + handoffs(state.next(events[0]).0, events.drop_first())
    }
}

/// A caller receives exactly one result: whatever happens to a submission,
/// it has returned once if it is done and not at all if it is not, and it
/// hands its command over at most once.
pub proof fn lemma_exactly_one_result(state: SubmitState, events: Seq<SubmitEventModel>)
    ensures
        state == SubmitState::Done ==> returned(state, events) == 0 && state_after(state, events)
            == SubmitState::Done,
        state != SubmitState::Done ==> returned(state, events) == (if state_after(state, events)
            == SubmitState::Done {
            1nat
        } else {
            0nat
        }),
        handoffs(state, events) <= 1,
        state != SubmitState::AwaitingAccess ==> handoffs(state, events) == 0,
    decreases events.len(),
{
    if events.len() > 0 {
        lemma_exactly_one_result(state.next(events[0]).0, events.drop_first());
    }
}

/// A caller whose wait for access runs out gets the access-timeout error and
/// its command never reaches the worker.
pub proof fn lemma_access_timeout_never_reaches_worker(rest: Seq<SubmitEventModel>)
    ensures
        SubmitState::AwaitingAccess.next(SubmitEventModel::AccessTimedOut) == (
            SubmitState::Done,
            SubmitActionModel::Return { result: Err(access_timeout_text()) },
        ),
        handoffs(SubmitState::AwaitingAccess, seq![SubmitEventModel::AccessTimedOut] + rest) == 0,
        returned(SubmitState::AwaitingAccess, seq![SubmitEventModel::AccessTimedOut] + rest) == 1,
{
    let events = seq![SubmitEventModel::AccessTimedOut] + rest;
    assert(events[0] == SubmitEventModel::AccessTimedOut);
    assert(events.drop_first() =~= rest);
    lemma_exactly_one_result(SubmitState::Done, rest);
}

/// A single slow command is cut off before a waiting caller gives up: the
/// execution deadline is shorter than the access deadline.
pub proof fn lemma_execution_deadline_is_shorter()
    ensures
        EXECUTION_DEADLINE_SECS < QUEUE_ACCESS_DEADLINE_SECS,
{
}

} // verus!
