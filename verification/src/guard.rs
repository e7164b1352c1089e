//! The deadline guard: one timed wait per execution, which asserts the
//! evaluator's interrupt signal unless the worker cancels it first.

use vstd::prelude::*;

verus! {

/// Seconds an execution may run before the guard interrupts it.
pub const EXECUTION_DEADLINE_SECS: u64 = 5;

/// Where a guard stands: waiting, or finished one way or the other.
#[derive(Clone, Copy, Debug, PartialEq, Eq, Structural)]
pub enum GuardState {
    /// The timer runs and the execution has not reported its end.
    Armed,
    /// The execution ended first; the interrupt was never asserted.
    Cancelled,
    /// The wait ended without a cancel; the interrupt was asserted.
    Fired,
}

/// How the guard's timed wait ended.
#[derive(Clone, Copy, Debug, PartialEq, Eq, Structural)]
pub enum Wake {
    /// The worker signalled that the execution has ended.
    Cancelled,
    /// The deadline passed.
    Elapsed,
    /// The worker's end of the signal went away without a word.
    Disconnected,
}

/// What the guard's thread does after a wait.
#[derive(Clone, Copy, Debug, PartialEq, Eq, Structural)]
pub enum GuardAction {
    /// Assert the interrupt signal.
    Interrupt,
    /// Leave the evaluator alone.
    Nothing,
}

impl GuardState {
    /// The guard's transition function.
    pub open spec fn next(self, wake: Wake) -> (GuardState, GuardAction) {
        match self {
            GuardState::Armed => match wake {
                Wake::Cancelled => (GuardState::Cancelled, GuardAction::Nothing),
                _ => (GuardState::Fired, GuardAction::Interrupt),
            },
            _ => (self, GuardAction::Nothing),
        }
    }

    /// True once the guard's thread has nothing left to do.
    pub open spec fn finished(self) -> bool {
        self != GuardState::Armed
    }

    /// A fresh guard for one execution.
    pub fn start() -> (state: GuardState)
        ensures
            state == GuardState::Armed,
    {
        GuardState::Armed
    }

    /// Decides what follows the end of a wait.
    pub fn step(self, wake: Wake) -> (result: (GuardState, GuardAction))
        ensures
            result == self.next(wake),
    {
        match self {
            GuardState::Armed => match wake {
                Wake::Cancelled => (GuardState::Cancelled, GuardAction::Nothing),
                Wake::Elapsed => (GuardState::Fired, GuardAction::Interrupt),
                Wake::Disconnected => (GuardState::Fired, GuardAction::Interrupt),
            },
            GuardState::Cancelled => (GuardState::Cancelled, GuardAction::Nothing),
            GuardState::Fired => (GuardState::Fired, GuardAction::Nothing),
        }
    }

    /// Whether the guard's thread may exit.
    pub fn is_finished(self) -> (done: bool)
        ensures
            done == self.finished(),
    {
        match self {
            GuardState::Armed => false,
            _ => true,
        }
    }
}

/// The state a guard reaches after a series of wake-ups.
pub open spec fn state_after(state: GuardState, wakes: Seq<Wake>) -> GuardState
    decreases wakes.len(),
{
    if wakes.len() == 0 {
        state
    } else {
        state_after(state.next(wakes[0]).0, wakes.drop_first())
    }
}

/// How often the interrupt is asserted over a series of wake-ups.
pub open spec fn interrupts(state: GuardState, wakes: Seq<Wake>) -> nat
    decreases wakes.len(),
{
    if wakes.len() == 0 {
        0
    } else {
        let fired: nat = if state.next(wakes[0]).1 == GuardAction::Interrupt {
            1
        } else {
            0
        };
        fired + interrupts(state.next(wakes[0]).0, wakes.drop_first())
    }
}

/// A guard asserts the interrupt at most once, whatever wakes it and however
/// often; a guard that has finished never asserts it again.
pub proof fn lemma_interrupt_at_most_once(state: GuardState, wakes: Seq<Wake>)
    ensures
        interrupts(state, wakes) <= 1,
        state.finished() ==> interrupts(state, wakes) == 0,
        state.finished() ==> state_after(state, wakes) == state,
        wakes.len() > 0 ==> state_after(state, wakes).finished(),
    decreases wakes.len(),
{
    if wakes.len() > 0 {
        lemma_interrupt_at_most_once(state.next(wakes[0]).0, wakes.drop_first());
    }
}

/// When the cancel wins the race, the evaluator is never touched; when it
/// does not, the interrupt is asserted exactly once.
pub proof fn lemma_first_wake_decides(wakes: Seq<Wake>)
    requires
        wakes.len() > 0,
    ensures
        wakes[0] == Wake::Cancelled ==> interrupts(GuardState::Armed, wakes) == 0
            && state_after(GuardState::Armed, wakes) == GuardState::Cancelled,
        wakes[0] != Wake::Cancelled ==> interrupts(GuardState::Armed, wakes) == 1
            && state_after(GuardState::Armed, wakes) == GuardState::Fired,
{
    lemma_interrupt_at_most_once(GuardState::Armed.next(wakes[0]).0, wakes.drop_first());
}

} // verus!
