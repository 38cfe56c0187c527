use codexus::approvals::PendingServerRequest;
use codexus::detached::{detached_task_plan, detached_task_runtime, DetachedTaskPlan, DetachedTaskRuntime};
use codexus::json::JsonValue;
use codexus::limits::{validate_runtime_capacities, validate_state_projection_limits, StateProjectionLimits};
use codexus::errors::{RpcError, RuntimeError};
use codexus::lifecycle::{record_teardown_error, spawn_failure_error, TeardownContext};
use codexus::sink::{should_flush, JsonlFlushPolicy, SinkWriteState};
use codexus::state::{ConnectionState, RuntimeState};
use codexus::supervisor::{
    classify_transport_close,
    compute_restart_delay, compute_restart_delay_ms, decide_after_transport_close, ensure_initialized_for_call,
    ensure_initialized_for_notify, supervisor_step, RestartPolicy, SupervisorAction, SupervisorConfig,
    SupervisorDecision, SupervisorEvent, SupervisorState, TransportCloseKind,
};

fn apply_connection_of(state: &RuntimeState, connection: ConnectionState) -> RuntimeState {
    let mut next = RuntimeState {
        connection: state.connection,
        pending_server_requests: Vec::new(),
    };
    next.set_connection(connection);
    next
}

#[test]
fn connection_transition_does_not_mutate_input() {
    let current = RuntimeState::default();
    let next = apply_connection_of(&current, ConnectionState::Running { generation: 7 });
    assert_eq!(current.connection, ConnectionState::Starting);
    assert_eq!(next.connection, ConnectionState::Running { generation: 7 });
}

#[test]
fn pending_request_insert_does_not_mutate_input() {
    let current = RuntimeState::default();
    let mut next = RuntimeState::default();
    next.insert_pending(
        "approval_1".to_owned(),
        PendingServerRequest {
            approval_id: "approval_1".to_owned(),
            deadline_unix_ms: 42,
            method: "item/fileChange/requestApproval".to_owned(),
            params: JsonValue::object().with("threadId", JsonValue::text("thr_1")),
        },
    );
    assert!(current.pending_server_requests.is_empty());
    assert!(next
        .pending_server_requests
        .iter()
        .any(|(k, _)| k == "approval_1"));
}

#[test]
fn pending_insert_replaces_and_remove_drops_key() {
    let mut state = RuntimeState::new();
    let req = |deadline: i64| PendingServerRequest {
        approval_id: "a".to_owned(),
        deadline_unix_ms: deadline,
        method: "item/tool/call".to_owned(),
        params: JsonValue::Null,
    };
    state.insert_pending("a".to_owned(), req(1));
    state.insert_pending("a".to_owned(), req(2));
    assert_eq!(state.pending_server_requests.len(), 1);
    assert_eq!(state.pending_server_requests[0].1.deadline_unix_ms, 2);
    assert_eq!(state.pending("a").map(|p| p.deadline_unix_ms), Some(2));
    assert!(state.pending("b").is_none());
    state.remove_pending("a");
    assert!(state.pending_server_requests.is_empty());
    assert!(state.pending("a").is_none());
    state.insert_pending("b".to_owned(), req(3));
    state.insert_pending("c".to_owned(), req(4));
    state.remove_pending("b");
    assert_eq!(state.pending("c").map(|p| p.deadline_unix_ms), Some(4));
    state.clear_pending();
    assert!(state.pending_server_requests.is_empty());
}

#[test]
fn detached_task_runtime_is_data_first() {
    assert_eq!(
        detached_task_runtime(true),
        DetachedTaskRuntime::CurrentTokio
    );
    assert_eq!(
        detached_task_runtime(false),
        DetachedTaskRuntime::HelperThreadTokio
    );
}

#[test]
fn detached_task_plan_keeps_name_and_runtime_together() {
    assert_eq!(
        detached_task_plan("cleanup", true),
        DetachedTaskPlan {
            name: "cleanup",
            runtime: DetachedTaskRuntime::CurrentTokio,
        }
    );
    assert_eq!(
        detached_task_plan("cleanup", false),
        DetachedTaskPlan {
            name: "cleanup",
            runtime: DetachedTaskRuntime::HelperThreadTokio,
        }
    );
}

#[test]
fn default_flush_policy_is_batched() {
    assert_eq!(
        JsonlFlushPolicy::default(),
        JsonlFlushPolicy::EveryNEvents { events: 64 }
    );
}

#[test]
fn sink_flushes_every_n_writes() {
    let mut state = SinkWriteState::new(JsonlFlushPolicy::EveryNEvents { events: 3 });
    assert!(!state.record_write());
    assert!(!state.record_write());
    assert!(state.record_write());
    assert_eq!(state.pending_writes, 0);
    assert!(should_flush(JsonlFlushPolicy::EveryEvent, 0));
}

#[test]
fn restart_delay_is_exponential_backoff_with_cap() {
    for attempt in 0..8 {
        let delay = compute_restart_delay(attempt, 10, 160, 0);
        let delay_ms = delay.as_millis() as u64;
        let base_ms = (10u64.saturating_mul(1u64 << attempt)).min(160);
        assert_eq!(delay_ms, base_ms);
    }
}

#[test]
fn restart_delay_saturates_and_adds_jitter() {
    assert_eq!(compute_restart_delay_ms(40, u64::MAX, u64::MAX, 5), u64::MAX);
    assert_eq!(compute_restart_delay_ms(2, 10, 1_000, 7), 47);
}

#[test]
fn supervisor_gives_up_after_budget_and_on_clean_exit() {
    let cfg = SupervisorConfig {
        restart: RestartPolicy::OnCrash {
            max_restarts: 2,
            base_backoff_ms: 100,
            max_backoff_ms: 1_000,
        },
        restart_budget_reset_ms: 60_000,
    };
    assert_eq!(
        decide_after_transport_close(&cfg, TransportCloseKind::CleanExit, 0, 0, 0),
        SupervisorDecision::GiveUp
    );
    assert_eq!(
        decide_after_transport_close(&cfg, TransportCloseKind::CrashExit, 10, 2, 0),
        SupervisorDecision::GiveUp
    );
    assert_eq!(
        decide_after_transport_close(&cfg, TransportCloseKind::CrashExit, 10, 1, 0),
        SupervisorDecision::Restart {
            delay_ms: 200,
            next_attempts: 2
        }
    );
    assert_eq!(
        decide_after_transport_close(&cfg, TransportCloseKind::Unknown, 60_000, 2, 7),
        SupervisorDecision::Restart {
            delay_ms: 107,
            next_attempts: 1
        }
    );
    let never = SupervisorConfig {
        restart: RestartPolicy::Never,
        restart_budget_reset_ms: 0,
    };
    assert_eq!(
        decide_after_transport_close(&never, TransportCloseKind::CrashExit, 0, 0, 0),
        SupervisorDecision::GiveUp
    );
}

#[test]
fn projection_limits_must_be_positive() {
    let mut limits = StateProjectionLimits {
        max_threads: 1,
        max_turns_per_thread: 1,
        max_items_per_turn: 1,
        max_text_bytes_per_item: 1,
        max_stdout_bytes_per_item: 1,
        max_stderr_bytes_per_item: 1,
    };
    assert!(validate_state_projection_limits(&limits).is_ok());
    limits.max_items_per_turn = 0;
    assert_eq!(
        validate_state_projection_limits(&limits),
        Err(RuntimeError::InvalidConfig(
            "state_projection_limits.max_items_per_turn must be > 0".to_owned()
        ))
    );
}

#[test]
fn teardown_errors_accumulate_in_order() {
    let mut slot = None;
    record_teardown_error(&mut slot, RuntimeError::TransportClosed);
    assert_eq!(slot, Some(RuntimeError::TransportClosed));
    record_teardown_error(&mut slot, RuntimeError::Internal("join".to_owned()));
    assert_eq!(
        slot,
        Some(RuntimeError::Internal(
            "transport is closed; internal error: join".to_owned()
        ))
    );
    assert_eq!(TeardownContext::Shutdown.dispatcher_join_phase(), "shutdown");
    assert_eq!(
        spawn_failure_error("initialize handshake failed", &RuntimeError::Timeout, None),
        RuntimeError::Internal("initialize handshake failed: request timed out".to_owned())
    );
}

#[test]
fn transport_close_is_classified_from_exit_status() {
    assert_eq!(classify_transport_close(Some(true)), TransportCloseKind::CleanExit);
    assert_eq!(classify_transport_close(Some(false)), TransportCloseKind::CrashExit);
    assert_eq!(classify_transport_close(None), TransportCloseKind::Unknown);
}

#[test]
fn restart_delay_stays_within_cap_plus_quarter_and_grows_with_attempts() {
    let cfg = SupervisorConfig {
        restart: RestartPolicy::OnCrash {
            max_restarts: 100,
            base_backoff_ms: 300,
            max_backoff_ms: 1_000,
        },
        restart_budget_reset_ms: i64::MAX as u64,
    };
    let mut previous = 0u64;
    for attempts in 0..30u32 {
        match decide_after_transport_close(&cfg, TransportCloseKind::CrashExit, 0, attempts, 999_999_999) {
            SupervisorDecision::Restart { delay_ms, next_attempts } => {
                assert!(delay_ms <= 1_000 + 1_000 / 4);
                assert_eq!(next_attempts, attempts + 1);
            }
            SupervisorDecision::GiveUp => panic!("budget not exhausted"),
        }
        let plain = compute_restart_delay_ms(attempts, 300, 1_000, 0);
        assert!(plain >= previous);
        previous = plain;
    }
    assert_eq!(previous, 1_000);
}

#[test]
fn runtime_capacities_and_timeout_must_be_positive() {
    let second = std::time::Duration::from_secs(1);
    assert_eq!(validate_runtime_capacities(1, 1, false, 0, second), Ok(()));
    assert_eq!(
        validate_runtime_capacities(0, 1, false, 0, second),
        Err(RuntimeError::InvalidConfig("live_channel_capacity must be > 0".to_owned()))
    );
    assert_eq!(
        validate_runtime_capacities(1, 0, false, 0, second),
        Err(RuntimeError::InvalidConfig("server_request_channel_capacity must be > 0".to_owned()))
    );
    assert_eq!(
        validate_runtime_capacities(1, 1, true, 0, second),
        Err(RuntimeError::InvalidConfig(
            "event_sink_channel_capacity must be > 0 when event_sink is configured".to_owned()
        ))
    );
    assert_eq!(
        validate_runtime_capacities(1, 1, true, 1, std::time::Duration::ZERO),
        Err(RuntimeError::InvalidConfig("rpc_response_timeout must be > 0".to_owned()))
    );
    assert_eq!(validate_runtime_capacities(1, 1, false, 0, std::time::Duration::from_millis(1)), Ok(()));
}

fn running(generation: u64, attempts: u32) -> SupervisorState {
    SupervisorState {
        connection: ConnectionState::Running { generation },
        initialized: true,
        attempts,
        generation,
    }
}

fn closed(close: TransportCloseKind) -> SupervisorEvent {
    SupervisorEvent::TransportClosed { close, uptime_ms: 10, shutting_down: false, detached: true, subsec_nanos: 0 }
}

fn assert_dead_for_good(cfg: &SupervisorConfig, state: SupervisorState) {
    assert_eq!(state.connection, ConnectionState::Dead);
    assert!(!state.initialized);
    let (after, action) = supervisor_step(cfg, state, closed(TransportCloseKind::CrashExit));
    assert_eq!(action, SupervisorAction::Stop);
    assert_eq!(after.connection, ConnectionState::Dead);
    let (after, _) = supervisor_step(cfg, after, SupervisorEvent::Respawned { shutting_down: false, ok: true });
    assert_eq!(after.connection, ConnectionState::Dead);
    assert!(matches!(
        ensure_initialized_for_call(after.initialized, true),
        Err(RpcError::InvalidRequest(m)) if m == "runtime is not initialized"
    ));
    assert_eq!(ensure_initialized_for_notify(after.initialized, true), Err(RuntimeError::NotInitialized));
}

#[test]
fn supervisor_does_not_restart_after_clean_exit() {
    let cfg = SupervisorConfig {
        restart: RestartPolicy::OnCrash { max_restarts: 3, base_backoff_ms: 10, max_backoff_ms: 100 },
        restart_budget_reset_ms: 60_000,
    };
    let (state, action) = supervisor_step(&cfg, running(1, 0), closed(TransportCloseKind::CleanExit));
    assert_eq!(action, SupervisorAction::Stop);
    assert_dead_for_good(&cfg, state);
}

#[test]
fn supervisor_never_policy_gives_up() {
    let cfg = SupervisorConfig { restart: RestartPolicy::Never, restart_budget_reset_ms: 60_000 };
    let (state, action) = supervisor_step(&cfg, running(1, 0), closed(TransportCloseKind::CrashExit));
    assert_eq!(action, SupervisorAction::Stop);
    assert_dead_for_good(&cfg, state);
}

#[test]
fn supervisor_restarts_crash_until_budget_is_spent() {
    let cfg = SupervisorConfig {
        restart: RestartPolicy::OnCrash { max_restarts: 1, base_backoff_ms: 10, max_backoff_ms: 100 },
        restart_budget_reset_ms: 60_000,
    };
    let (state, action) = supervisor_step(&cfg, running(1, 0), closed(TransportCloseKind::CrashExit));
    assert_eq!(action, SupervisorAction::WaitThenRespawn { delay_ms: 10, generation: 2 });
    assert_eq!(state.connection, ConnectionState::Restarting { generation: 1 });
    assert!(!state.initialized);
    let (state, action) = supervisor_step(&cfg, state, SupervisorEvent::Respawned { shutting_down: false, ok: true });
    assert_eq!(action, SupervisorAction::Watch);
    assert_eq!(state.connection, ConnectionState::Running { generation: 2 });
    assert!(state.initialized);
    assert_eq!(ensure_initialized_for_call(state.initialized, true), Ok(()));
    let (state, action) = supervisor_step(&cfg, state, closed(TransportCloseKind::CrashExit));
    assert_eq!(action, SupervisorAction::Stop);
    assert_dead_for_good(&cfg, state);
}

#[test]
fn supervisor_failed_respawn_or_detach_is_dead() {
    let cfg = SupervisorConfig {
        restart: RestartPolicy::OnCrash { max_restarts: 3, base_backoff_ms: 10, max_backoff_ms: 100 },
        restart_budget_reset_ms: 60_000,
    };
    let (state, _) = supervisor_step(&cfg, running(1, 0), closed(TransportCloseKind::Unknown));
    let (state, action) = supervisor_step(&cfg, state, SupervisorEvent::Respawned { shutting_down: false, ok: false });
    assert_eq!(action, SupervisorAction::Stop);
    assert_dead_for_good(&cfg, state);
    let not_detached =
        SupervisorEvent::TransportClosed { close: TransportCloseKind::CrashExit, uptime_ms: 1, shutting_down: false, detached: false, subsec_nanos: 0 };
    let (state, _) = supervisor_step(&cfg, running(1, 0), not_detached);
    assert_dead_for_good(&cfg, state);
    let shutdown =
        SupervisorEvent::TransportClosed { close: TransportCloseKind::CrashExit, uptime_ms: 1, shutting_down: true, detached: true, subsec_nanos: 0 };
    let (state, action) = supervisor_step(&cfg, running(1, 0), shutdown);
    assert_eq!(action, SupervisorAction::Stop);
    assert_eq!(state, running(1, 0));
}

#[test]
fn restart_budget_limit_above_i64_max_wraps_negative() {
    let cfg = SupervisorConfig {
        restart: RestartPolicy::OnCrash { max_restarts: 1, base_backoff_ms: 10, max_backoff_ms: 100 },
        restart_budget_reset_ms: u64::MAX,
    };
    // Read as an i64 the limit is -1, so an uptime of 10 ms resets the budget.
    let decision = decide_after_transport_close(&cfg, TransportCloseKind::CrashExit, 10, 1, 0);
    assert!(matches!(decision, SupervisorDecision::Restart { next_attempts: 1, .. }));
}
