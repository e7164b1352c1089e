use lisp_relay::guard::{GuardAction, GuardState, Wake, EXECUTION_DEADLINE_SECS};
use lisp_relay::outcome::{access_timeout, parse_failure, ExecutionResult};
use lisp_relay::service::{SubmitAction, SubmitEvent, SubmitState, QUEUE_ACCESS_DEADLINE_SECS};
use lisp_relay::worker::{Phase, WorkerAction, WorkerEvent, WorkerState};

fn ok(text: &str) -> ExecutionResult {
    Ok(text.to_string())
}

fn err(text: &str) -> ExecutionResult {
    Err(text.to_string())
}

/// Runs one command through the worker up to the point where its result is
/// handed to delivery, and returns that result.
fn execute(state: WorkerState, command: &str, parse_error: Option<&str>, outcome: ExecutionResult)
    -> (WorkerState, ExecutionResult)
{
    let (state, action) = state.step(WorkerEvent::Request { command: command.to_string() });
    assert_eq!(action, WorkerAction::Parse { command: command.to_string() });
    assert_eq!(state.phase(), Phase::Executing);
    if let Some(description) = parse_error {
        let (state, action) =
            state.step(WorkerEvent::ParseFailed { description: description.to_string() });
        return match action {
            WorkerAction::Deliver { result } => (state, result),
            other => panic!("unexpected action {:?}", other),
        };
    }
    let (state, action) = state.step(WorkerEvent::Parsed);
    assert_eq!(action, WorkerAction::ArmGuardAndRun);
    let (state, action) = state.step(WorkerEvent::Evaluated { outcome });
    assert_eq!(action, WorkerAction::CancelGuardAndJoin);
    assert_eq!(state.phase(), Phase::Executing);
    let (state, action) = state.step(WorkerEvent::GuardJoined);
    match action {
        WorkerAction::Deliver { result } => (state, result),
        other => panic!("unexpected action {:?}", other),
    }
}

#[test]
fn deadlines_are_five_and_fifteen_seconds() {
    assert_eq!(EXECUTION_DEADLINE_SECS, 5);
    assert_eq!(QUEUE_ACCESS_DEADLINE_SECS, 15);
    assert!(EXECUTION_DEADLINE_SECS < QUEUE_ACCESS_DEADLINE_SECS);
}

#[test]
fn guard_cancelled_in_time_leaves_evaluator_alone() {
    let guard = GuardState::start();
    assert_eq!(guard, GuardState::Armed);
    assert!(!guard.is_finished());
    let (guard, action) = guard.step(Wake::Cancelled);
    assert_eq!(guard, GuardState::Cancelled);
    assert_eq!(action, GuardAction::Nothing);
    assert!(guard.is_finished());
}

#[test]
fn guard_fires_once_when_deadline_passes() {
    let (guard, action) = GuardState::start().step(Wake::Elapsed);
    assert_eq!(guard, GuardState::Fired);
    assert_eq!(action, GuardAction::Interrupt);
    // Nothing that happens later makes it fire again.
    for wake in [Wake::Elapsed, Wake::Cancelled, Wake::Disconnected] {
        let (after, action) = guard.step(wake);
        assert_eq!(after, GuardState::Fired);
        assert_eq!(action, GuardAction::Nothing);
    }
}

#[test]
fn guard_fires_when_worker_side_disconnects() {
    let (guard, action) = GuardState::start().step(Wake::Disconnected);
    assert_eq!(guard, GuardState::Fired);
    assert_eq!(action, GuardAction::Interrupt);
}

#[test]
fn cancelled_guard_stays_quiet() {
    let (guard, _) = GuardState::start().step(Wake::Cancelled);
    for wake in [Wake::Elapsed, Wake::Cancelled, Wake::Disconnected] {
        let (after, action) = guard.step(wake);
        assert_eq!(after, GuardState::Cancelled);
        assert_eq!(action, GuardAction::Nothing);
    }
}

#[test]
fn parse_failure_text_has_prefix() {
    assert_eq!(parse_failure("unexpected end of input"), err("parse error: unexpected end of input"));
    assert_eq!(parse_failure(""), err("parse error: "));
}

#[test]
fn access_timeout_text_is_fixed() {
    assert_eq!(access_timeout(), err("timeout waiting for interpreter lock"));
}

#[test]
fn worker_starts_idle() {
    let state = WorkerState::new();
    assert_eq!(state, WorkerState::Idle);
    assert_eq!(state.phase(), Phase::Idle);
}

#[test]
fn worker_delivers_evaluator_value() {
    let (state, result) = execute(WorkerState::new(), "(+ 1 2)", None, ok("3"));
    assert_eq!(result, ok("3"));
    assert_eq!(state, WorkerState::Delivering);
    assert_eq!(state.phase(), Phase::Delivering);
    let (state, action) = state.step(WorkerEvent::ReplySent);
    assert_eq!(state, WorkerState::Idle);
    assert_eq!(action, WorkerAction::AwaitRequest);
}

#[test]
fn worker_delivers_evaluator_error_as_is() {
    let (_, result) = execute(WorkerState::new(), "(car 1)", None, err("not a pair: 1"));
    assert_eq!(result, err("not a pair: 1"));
}

#[test]
fn unbalanced_command_never_reaches_evaluator() {
    let state = WorkerState::new();
    let (state, action) = state.step(WorkerEvent::Request { command: "(+ 1".to_string() });
    assert_eq!(state, WorkerState::Parsing);
    assert_eq!(action, WorkerAction::Parse { command: "(+ 1".to_string() });
    let (state, action) =
        state.step(WorkerEvent::ParseFailed { description: "unbalanced".to_string() });
    // Straight to delivery: no guard was armed, nothing was run.
    assert_eq!(state, WorkerState::Delivering);
    assert_eq!(action, WorkerAction::Deliver { result: err("parse error: unbalanced") });
}

#[test]
fn worker_serves_commands_one_after_another() {
    let mut state = WorkerState::new();
    let commands = [("(define x 10) x", "10"), ("x", "10"), ("(+ 1 2)", "3")];
    for (command, value) in commands {
        let (next, result) = execute(state, command, None, ok(value));
        assert_eq!(result, ok(value));
        let (next, action) = next.step(WorkerEvent::ReplySent);
        assert_eq!(action, WorkerAction::AwaitRequest);
        state = next;
    }
    assert_eq!(state, WorkerState::Idle);
}

#[test]
fn worker_refuses_second_request_while_busy() {
    let (state, _) = WorkerState::new().step(WorkerEvent::Request { command: "a".to_string() });
    let (state, action) = state.step(WorkerEvent::Request { command: "b".to_string() });
    assert_eq!(action, WorkerAction::Ignore);
    assert_eq!(state, WorkerState::Parsing);
    let (state, _) = state.step(WorkerEvent::Parsed);
    let (state, action) = state.step(WorkerEvent::Request { command: "c".to_string() });
    assert_eq!(action, WorkerAction::Ignore);
    assert_eq!(state, WorkerState::Running);
}

#[test]
fn worker_holds_result_until_guard_is_joined() {
    let (state, _) = WorkerState::new().step(WorkerEvent::Request { command: "a".to_string() });
    let (state, _) = state.step(WorkerEvent::Parsed);
    let (state, action) = state.step(WorkerEvent::Evaluated { outcome: ok("1") });
    assert_eq!(action, WorkerAction::CancelGuardAndJoin);
    assert_eq!(state, WorkerState::Joining { outcome: ok("1") });
    // Anything but the join leaves the result where it is.
    let (state, action) = state.step(WorkerEvent::ReplySent);
    assert_eq!(action, WorkerAction::Ignore);
    assert_eq!(state, WorkerState::Joining { outcome: ok("1") });
    let (state, action) = state.step(WorkerEvent::GuardJoined);
    assert_eq!(action, WorkerAction::Deliver { result: ok("1") });
    assert_eq!(state, WorkerState::Delivering);
}

#[test]
fn worker_survives_vanished_caller() {
    let (state, _) = execute(WorkerState::new(), "(loop)", None, err("interrupted"));
    let (state, action) = state.step(WorkerEvent::ReplyDropped);
    assert_eq!(state, WorkerState::Idle);
    assert_eq!(action, WorkerAction::AwaitRequest);
    let (state, action) = state.step(WorkerEvent::Request { command: "next".to_string() });
    assert_eq!(state, WorkerState::Parsing);
    assert_eq!(action, WorkerAction::Parse { command: "next".to_string() });
}

#[test]
fn worker_stops_only_when_channel_closes_while_idle() {
    let (state, action) = WorkerState::new().step(WorkerEvent::ChannelClosed);
    assert_eq!(state, WorkerState::Stopped);
    assert_eq!(action, WorkerAction::Exit);
    assert_eq!(state.phase(), Phase::Stopped);
    let (state, action) = state.step(WorkerEvent::Request { command: "late".to_string() });
    assert_eq!(state, WorkerState::Stopped);
    assert_eq!(action, WorkerAction::Ignore);

    let (busy, _) = WorkerState::new().step(WorkerEvent::Request { command: "a".to_string() });
    let (busy, action) = busy.step(WorkerEvent::ChannelClosed);
    assert_eq!(busy, WorkerState::Parsing);
    assert_eq!(action, WorkerAction::Ignore);
}

#[test]
fn submit_returns_worker_reply() {
    let state = SubmitState::new();
    assert_eq!(state, SubmitState::AwaitingAccess);
    let (state, action) = state.step(SubmitEvent::AccessGranted);
    assert_eq!(state, SubmitState::AwaitingReply);
    assert_eq!(action, SubmitAction::Handoff);
    let (state, action) = state.step(SubmitEvent::Replied { result: ok("3") });
    assert_eq!(state, SubmitState::Done);
    assert_eq!(action, SubmitAction::Return { result: ok("3") });
}

#[test]
fn submit_passes_error_reply_through() {
    let (state, _) = SubmitState::new().step(SubmitEvent::AccessGranted);
    let (state, action) = state.step(SubmitEvent::Replied { result: err("parse error: eof") });
    assert_eq!(state, SubmitState::Done);
    assert_eq!(action, SubmitAction::Return { result: err("parse error: eof") });
}

#[test]
fn submit_times_out_without_handoff() {
    let (state, action) = SubmitState::new().step(SubmitEvent::AccessTimedOut);
    assert_eq!(state, SubmitState::Done);
    assert_eq!(
        action,
        SubmitAction::Return { result: err("timeout waiting for interpreter lock") }
    );
}

#[test]
fn submit_reports_closed_reply_slot() {
    let (state, _) = SubmitState::new().step(SubmitEvent::AccessGranted);
    let (state, action) = state.step(SubmitEvent::ReplySlotClosed {
        description: "receiving on a closed channel".to_string(),
    });
    assert_eq!(state, SubmitState::Done);
    assert_eq!(action, SubmitAction::Return { result: err("receiving on a closed channel") });
}

#[test]
fn submit_returns_only_once() {
    let (state, _) = SubmitState::new().step(SubmitEvent::AccessTimedOut);
    let (state, action) = state.step(SubmitEvent::Replied { result: ok("late") });
    assert_eq!(state, SubmitState::Done);
    assert_eq!(action, SubmitAction::Ignore);
    let (state, action) = state.step(SubmitEvent::AccessGranted);
    assert_eq!(state, SubmitState::Done);
    assert_eq!(action, SubmitAction::Ignore);
}

#[test]
fn submit_ignores_reply_before_access() {
    let (state, action) = SubmitState::new().step(SubmitEvent::Replied { result: ok("early") });
    assert_eq!(state, SubmitState::AwaitingAccess);
    assert_eq!(action, SubmitAction::Ignore);
    let (state, _) = state.step(SubmitEvent::AccessGranted);
    let (state, action) = state.step(SubmitEvent::AccessTimedOut);
    assert_eq!(state, SubmitState::AwaitingReply);
    assert_eq!(action, SubmitAction::Ignore);
}

#[test]
fn many_callers_each_get_their_own_result() {
    // Callers win access one at a time; the worker is never handed a second
    // command before it has delivered the first.
    let mut worker = WorkerState::new();
    for caller in 0..8u32 {
        let command = format!("(* {} 2)", caller);
        let value = format!("{}", caller * 2);
        let (submit, action) = SubmitState::new().step(SubmitEvent::AccessGranted);
        assert_eq!(action, SubmitAction::Handoff);
        let (next, result) = execute(worker, &command, None, Ok(value.clone()));
        let (next, _) = next.step(WorkerEvent::ReplySent);
        let (submit, action) = submit.step(SubmitEvent::Replied { result });
        assert_eq!(submit, SubmitState::Done);
        assert_eq!(action, SubmitAction::Return { result: Ok(value) });
        worker = next;
    }
    assert_eq!(worker, WorkerState::Idle);
}
