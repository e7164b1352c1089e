//! The callers and the worker together: a model of the whole relay, in
//! which a command changes hands only when the worker is ready to take it.

use vstd::prelude::*;
use crate::outcome::{access_timeout_text, ResultText};
use crate::service::{SubmitActionModel, SubmitEventModel, SubmitState};
use crate::worker::{ActionModel, EventModel, Phase, StateModel};

verus! {

/// The worker, every caller, and what each caller has been given so far.
pub struct Relay {
    pub worker: StateModel,
    pub callers: Seq<SubmitState>,
    /// The results each caller has returned, oldest first.
    pub answers: Seq<Seq<ResultText>>,
    /// The caller whose command the worker holds.
    pub serving: Option<int>,
}

/// One thing that can happen in the relay.
pub enum Move {
    /// A caller wins access and the worker takes its command.
    Handoff { caller: int, command: Seq<char> },
    /// A caller's wait for access runs out.
    GiveUp { caller: int },
    /// The worker learns how the step it was busy with ended.
    Progress { event: EventModel },
}

impl Relay {
    /// A relay with an idle worker and `callers` fresh submissions.
    pub open spec fn initial(callers: nat) -> Relay {
        Relay {
            worker: StateModel::Idle,
            callers: Seq::new(callers, |i: int| SubmitState::AwaitingAccess),
            answers: Seq::new(callers, |i: int| Seq::<ResultText>::empty()),
            serving: None,
        }
    }

    /// Whether `caller` is one of the relay's callers.
    pub open spec fn knows(self, caller: int) -> bool {
        0 <= caller < self.callers.len()
    }

    /// Whether a move can happen now. The handoff is a rendezvous: it needs
    /// a caller that waits for access and a worker that waits for a request.
    pub open spec fn enabled(self, step: Move) -> bool {
        match step {
            Move::Handoff { caller, command } => self.knows(caller) && self.worker
                == StateModel::Idle && self.callers[caller] == SubmitState::AwaitingAccess,
            Move::GiveUp { caller } => self.knows(caller) && self.callers[caller]
                == SubmitState::AwaitingAccess,
            Move::Progress { event } => !(event is Request) && !(event is ChannelClosed),
        }
    }

    /// The relay after `caller` has taken `event`, with the result it
    /// returned, if any, added to its answers.
    pub open spec fn tell(self, caller: int, event: SubmitEventModel) -> Relay {
        let (state, action) = self.callers[caller].next(event);
        Relay {
            callers: self.callers.update(caller, state),
            answers: match action {
                SubmitActionModel::Return { result } => self.answers.update(
                    caller,
                    self.answers[caller].push(result),
                ),
                _ => self.answers,
            },
            ..self
        }
    }

    /// The relay after a move; a move that cannot happen changes nothing.
    pub open spec fn next(self, step: Move) -> Relay {
        if !self.enabled(step) {
            self
        } else {
            match step {
                Move::Handoff { caller, command } => Relay {
                    worker: self.worker.next(EventModel::Request { command }).0,
                    serving: Some(caller),
                    ..self.tell(caller, SubmitEventModel::AccessGranted)
                },
                Move::GiveUp { caller } => self.tell(caller, SubmitEventModel::AccessTimedOut),
                Move::Progress { event } => {
                    let (worker, action) = self.worker.next(event);
                    let told = match (action, self.serving) {
                        (ActionModel::Deliver { result }, Some(caller)) => self.tell(
                            caller,
                            SubmitEventModel::Replied { result },
                        ),
                        _ => self,
                    };
                    Relay {
                        worker,
                        serving: if worker.phase() == Phase::Idle {
                            None
                        } else {
                            self.serving
                        },
                        ..told
                    }
                },
            }
        }
    }

    /// The relay after a series of moves.
    pub open spec fn after(self, moves: Seq<Move>) -> Relay
        decreases moves.len(),
    {
        if moves.len() == 0 {
            self
        } else {
            self.next(moves[0]).after(moves.drop_first())
        }
    }

    /// What holds of a relay at every moment: the worker holds the command
    /// of one caller at most, only that caller waits for a reply, and a
    /// caller has one answer once it is done and none before.
    pub open spec fn consistent(self) -> bool {
        &&& self.answers.len() == self.callers.len()
        &&& self.worker != StateModel::Stopped
        &&& match self.serving {
            Some(caller) => self.knows(caller) && self.worker != StateModel::Idle,
            None => self.worker == StateModel::Idle,
        }
        &&& forall|i: int|
            self.knows(i) ==> (#[trigger] self.callers[i] == SubmitState::AwaitingReply <==> self.serving
                == Some(i) && self.worker.phase() == Phase::Executing)
        &&& forall|i: int|
            self.knows(i) ==> (#[trigger] self.answers[i]).len() == (if self.callers[i]
                == SubmitState::Done {
                1nat
            } else {
                0nat
            })
    }
}

/// A fresh relay is consistent.
pub proof fn lemma_initial_is_consistent(callers: nat)
    ensures
        Relay::initial(callers).consistent(),
{
}

/// No move breaks consistency.
pub proof fn lemma_move_keeps_consistency(relay: Relay, step: Move)
    requires
        relay.consistent(),
    ensures
        relay.next(step).consistent(),
{
}

/// However many callers submit at once and whatever happens in whatever
/// order, the worker executes for one caller at a time, and every caller
/// that is done holds exactly one result.
pub proof fn lemma_one_at_a_time_one_result_each(callers: nat, moves: Seq<Move>)
    ensures
        Relay::initial(callers).after(moves).consistent(),
        ({
            let relay = Relay::initial(callers).after(moves);
            &&& relay.callers.len() == callers
            &&& forall|i: int, j: int|
                0 <= i < callers && 0 <= j < callers && relay.callers[i]
                    == SubmitState::AwaitingReply && relay.callers[j]
                    == SubmitState::AwaitingReply ==> i == j
            &&& forall|i: int|
                0 <= i < callers && relay.callers[i] == SubmitState::Done
                    ==> relay.answers[i].len() == 1
            &&& forall|i: int|
                0 <= i < callers && relay.callers[i] != SubmitState::Done
                    ==> relay.answers[i].len() == 0
        }),
{
    lemma_initial_is_consistent(callers);
    lemma_run_keeps_consistency(Relay::initial(callers), moves);
}

/// The result goes to the caller that submitted the command, and to no
/// other: once the guard is joined, the caller being served holds exactly
/// what the evaluator returned, and every other caller is left as it was.
pub proof fn lemma_result_reaches_its_caller(relay: Relay, outcome: ResultText)
    requires
        relay.consistent(),
        relay.worker == (StateModel::Joining { outcome }),
    ensures
        ({
            let after = relay.next(Move::Progress { event: EventModel::GuardJoined });
            let served = relay.serving->0;
            &&& relay.serving is Some
            &&& after.callers[served] == SubmitState::Done
            &&& after.answers[served] == seq![outcome]
            &&& after.worker == StateModel::Delivering
            &&& forall|other: int|
                relay.knows(other) && other != served ==> after.callers[other]
                    == relay.callers[other] && after.answers[other] == relay.answers[other]
        }),
{
    let served = relay.serving->0;
    assert(relay.callers[served] == SubmitState::AwaitingReply);
    assert(relay.answers[served].len() == 0);
    assert(relay.answers[served].push(outcome) =~= seq![outcome]);
}

/// A caller that gives up holds the access-timeout error, and neither the
/// worker nor any other caller notices.
pub proof fn lemma_giving_up_disturbs_nobody(relay: Relay, caller: int)
    requires
        relay.consistent(),
        relay.knows(caller),
        relay.callers[caller] == SubmitState::AwaitingAccess,
    ensures
        ({
            let after = relay.next(Move::GiveUp { caller });
            &&& after.worker == relay.worker
            &&& after.serving == relay.serving
            &&& after.callers[caller] == SubmitState::Done
            &&& after.answers[caller] == seq![Err::<Seq<char>, Seq<char>>(access_timeout_text())]
            &&& forall|other: int|
                relay.knows(other) && other != caller ==> after.callers[other]
                    == relay.callers[other] && after.answers[other] == relay.answers[other]
        }),
{
    assert(relay.answers[caller].len() == 0);
    assert(relay.answers[caller].push(Err(access_timeout_text())) =~= seq![
        Err::<Seq<char>, Seq<char>>(access_timeout_text()),
    ]);
}

/// No series of moves breaks consistency or changes who the callers are.
pub proof fn lemma_run_keeps_consistency(relay: Relay, moves: Seq<Move>)
    requires
        relay.consistent(),
    ensures
        relay.after(moves).consistent(),
        relay.after(moves).callers.len() == relay.callers.len(),
    decreases moves.len(),
{
    if moves.len() > 0 {
        lemma_move_keeps_consistency(relay, moves[0]);
        lemma_run_keeps_consistency(relay.next(moves[0]), moves.drop_first());
    }
}

} // verus!
