use codexus::errors::RpcError;
use codexus::errors::RuntimeError;
use codexus::prompt::{
    LaggedTurnTerminal, LiveRecv, PromptRunError, PromptRunStream, PromptRunStreamEvent,
    PromptStreamCleanupState, PromptStreamObservation, StreamStep, TurnTerminalEvent,
    collect_error_outcome, PromptRunTarget, TurnCollectError,
};
use std::time::Duration;

fn cleanup_state() -> PromptStreamCleanupState {
    PromptStreamCleanupState {
        run_cwd: "/tmp".to_owned(),
        run_model: None,
        scoped_hooks: None,
        hook_state: None,
        cleaned_up: false,
    }
}

fn stream(thread_id: &str, turn_id: &str, timeout: Duration) -> PromptRunStream {
    PromptRunStream::new(thread_id.to_owned(), turn_id.to_owned(), timeout, cleanup_state())
}

#[test]
fn lag_probe_completed_snapshot_prefers_thread_read_text() {
    let mut s = stream("thr_lagged", "turn_lagged", Duration::from_secs(120));
    let step = s.on_lag_probe(
        "chunk-0chunk-1".to_owned(),
        Ok(Some(LaggedTurnTerminal::Completed {
            assistant_text: Some("ok-from-thread-read".to_owned()),
        })),
    );
    match step {
        StreamStep::Step(step) => {
            match step.event {
                Some(PromptRunStreamEvent::TurnCompleted(n)) => {
                    assert_eq!(n.thread_id, "thr_lagged");
                    assert_eq!(n.turn_id, "turn_lagged");
                }
                other => panic!("unexpected event: {other:?}"),
            }
            let plan = step.cleanup.expect("cleanup plan on terminal");
            assert_eq!(plan.main_status, "ok");
            assert!(!plan.send_interrupt);
        }
        _ => panic!("a terminal snapshot must end the turn"),
    }
    assert!(s.is_finished());
    let result = s.take_final_result().expect("completed turn");
    assert_eq!(result.thread_id, "thr_lagged");
    assert_eq!(result.turn_id, "turn_lagged");
    assert_eq!(result.assistant_text, "ok-from-thread-read");
}

#[test]
fn lag_probe_cancelled_snapshot_surfaces_interrupted() {
    let mut s = stream("thr_lagged_cancelled", "turn_lagged_cancelled", Duration::from_secs(120));
    let step = s.on_lag_probe("chunk-0".to_owned(), Ok(Some(LaggedTurnTerminal::Cancelled)));
    match step {
        StreamStep::Step(step) => {
            assert!(matches!(step.event, Some(PromptRunStreamEvent::TurnCancelled(_))));
            assert_eq!(step.cleanup.expect("cleanup plan").main_status, "error");
        }
        _ => panic!("a terminal snapshot must end the turn"),
    }
    let err = s.take_final_result().expect_err("cancelled turn");
    assert!(matches!(err, PromptRunError::TurnInterrupted));
}

#[test]
fn lag_probe_without_terminal_keeps_waiting() {
    let mut s = stream("thr", "turn", Duration::from_secs(1));
    let step = s.on_lag_probe("partial".to_owned(), Ok(None));
    assert!(matches!(step, StreamStep::KeepWaiting));
    assert!(!s.is_finished());
    assert_eq!(s.thread_id(), "thr");
    assert_eq!(s.turn_id(), "turn");
}

#[test]
fn lag_probe_timeout_fails_with_run_timeout_and_interrupt() {
    let timeout_value = Duration::from_millis(120);
    let mut s = stream("thr_lagged_slow", "turn_lagged_slow", timeout_value);
    let step = s.on_lag_probe(String::new(), Err(RpcError::Timeout));
    match step {
        StreamStep::Failed { error, cleanup, interrupt } => {
            assert!(matches!(error, PromptRunError::Timeout(d) if d == timeout_value));
            assert!(interrupt);
            let plan = cleanup.expect("cleanup plan");
            assert_eq!(plan.main_status, "error");
            assert!(!plan.send_interrupt);
        }
        _ => panic!("a timed-out read must fail the stream"),
    }
    let err = s.take_final_result().expect_err("timed out");
    assert!(matches!(err, PromptRunError::Timeout(d) if d == timeout_value));
}

#[test]
fn lag_probe_other_error_fails_with_rpc_error_once() {
    let mut s = stream("thr", "turn", Duration::from_secs(1));
    let step = s.on_lag_probe(String::new(), Err(RpcError::TransportClosed));
    match step {
        StreamStep::Failed { error, cleanup, interrupt } => {
            assert!(matches!(error, PromptRunError::Rpc(RpcError::TransportClosed)));
            assert!(!interrupt);
            assert!(!cleanup.expect("cleanup plan").send_interrupt);
        }
        _ => panic!("a failed read must fail the stream"),
    }
    // Cleanup runs at most once: a second failure hands out no plan.
    let (_, again) = s.fail(PromptRunError::TurnFailed);
    assert!(again.is_none());
}

fn observation(event: Option<PromptRunStreamEvent>, terminal: Option<TurnTerminalEvent>) -> PromptStreamObservation {
    PromptStreamObservation { event, terminal, turn_error: None }
}

#[test]
fn live_recv_without_event_or_terminal_keeps_waiting() {
    let mut s = stream("thr", "turn", Duration::from_secs(1));
    let step = s.on_live_recv(String::new(), LiveRecv::Observed(observation(None, None)));
    assert!(matches!(step, StreamStep::KeepWaiting));
    assert!(!s.is_finished());
}

#[test]
fn live_recv_terminal_without_event_ends_the_stream() {
    let mut s = stream("thr", "turn", Duration::from_secs(1));
    let step = s.on_live_recv(
        " final answer ".to_owned(),
        LiveRecv::Observed(observation(None, Some(TurnTerminalEvent::Completed))),
    );
    match step {
        StreamStep::Step(step) => {
            assert!(step.event.is_none());
            assert_eq!(step.cleanup.expect("cleanup plan").main_status, "ok");
        }
        _ => panic!("a terminal observation ends the stream"),
    }
    let result = s.take_final_result().expect("completed");
    assert_eq!(result.assistant_text, "final answer");
}

#[test]
fn live_recv_lag_probes_while_time_is_left() {
    let mut s = stream("thr", "turn", Duration::from_secs(1));
    assert!(matches!(s.on_live_recv(String::new(), LiveRecv::Lagged { time_left: true }), StreamStep::ProbeLag));
    assert!(!s.is_finished());
    match s.on_live_recv(String::new(), LiveRecv::Lagged { time_left: false }) {
        StreamStep::Failed { error, interrupt, .. } => {
            assert!(matches!(error, PromptRunError::Timeout(d) if d == Duration::from_secs(1)));
            assert!(interrupt);
        }
        _ => panic!("no time left means a timeout"),
    }
}

#[test]
fn live_recv_closed_stream_fails_with_reason() {
    let mut s = stream("thr", "turn", Duration::from_secs(1));
    match s.on_live_recv(String::new(), LiveRecv::Closed("channel closed".to_owned())) {
        StreamStep::Failed { error, cleanup, interrupt } => {
            assert_eq!(
                error,
                PromptRunError::Runtime(RuntimeError::Internal("live stream closed: channel closed".to_owned()))
            );
            assert!(!interrupt);
            assert_eq!(cleanup.expect("cleanup plan").main_status, "error");
        }
        _ => panic!("a closed stream fails"),
    }
}

#[test]
fn live_recv_deadline_passed_times_out_with_interrupt() {
    let mut s = stream("thr", "turn", Duration::from_millis(50));
    match s.on_live_recv(String::new(), LiveRecv::DeadlinePassed) {
        StreamStep::Failed { error, interrupt, .. } => {
            assert!(matches!(error, PromptRunError::Timeout(d) if d == Duration::from_millis(50)));
            assert!(interrupt);
        }
        _ => panic!("a passed deadline times out"),
    }
    assert!(s.is_finished());
}

#[test]
fn collect_errors_map_to_run_errors() {
    let t = Duration::from_secs(3);
    assert_eq!(collect_error_outcome(TurnCollectError::Timeout, t), (PromptRunError::Timeout(t), true));
    assert_eq!(
        collect_error_outcome(TurnCollectError::LagProbe(RpcError::Timeout), t),
        (PromptRunError::Timeout(t), true)
    );
    assert_eq!(
        collect_error_outcome(TurnCollectError::LagProbe(RpcError::TransportClosed), t),
        (PromptRunError::Rpc(RpcError::TransportClosed), false)
    );
    assert_eq!(
        collect_error_outcome(TurnCollectError::TargetEnvelope(RpcError::Overloaded), t),
        (PromptRunError::Rpc(RpcError::Overloaded), false)
    );
    assert_eq!(
        collect_error_outcome(TurnCollectError::StreamClosed("channel closed".to_owned()), t),
        (
            PromptRunError::Runtime(RuntimeError::Internal("live stream closed: channel closed".to_owned())),
            false
        )
    );
    assert_eq!(
        collect_error_outcome(TurnCollectError::EventBudgetExceeded, t),
        (
            PromptRunError::Runtime(RuntimeError::Internal(
                "turn event budget exhausted while collecting assistant output".to_owned()
            )),
            false
        )
    );
}

#[test]
fn run_target_hook_thread_id() {
    assert_eq!(PromptRunTarget::OpenOrResume(None).hook_thread_id(), None);
    assert_eq!(PromptRunTarget::OpenOrResume(Some("thr_1".to_owned())).hook_thread_id(), Some("thr_1"));
    assert_eq!(PromptRunTarget::Loaded("thr_2".to_owned()).hook_thread_id(), Some("thr_2"));
}
