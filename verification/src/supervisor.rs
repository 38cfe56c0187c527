//! Supervision of the app-server child: whether a closed transport is
//! restarted, and after which backoff; what the connection becomes; and
//! which calls a connection that is not initialized refuses.
use vstd::prelude::*;
use std::time::Duration;
use crate::time::{duration_from_millis, millis_duration};
use crate::state::ConnectionState;
use crate::errors::{RpcError, RuntimeError};

verus! {

/// How the transport of the current connection generation ended.
#[derive(Clone, Copy, Debug, PartialEq, Eq, Structural)]
pub enum TransportCloseKind {
    CleanExit,
    CrashExit,
    Unknown,
}

/// How the transport closed, from the child's exit as observed: `None` when
/// it has not exited (or its status could not be read), otherwise whether it
/// exited successfully.
pub fn classify_transport_close(exit_success: Option<bool>) -> (r: TransportCloseKind)
    ensures
        r == match exit_success {
            Some(true) => TransportCloseKind::CleanExit,
            Some(false) => TransportCloseKind::CrashExit,
            None => TransportCloseKind::Unknown,
        },
{
    match exit_success {
        Some(true) => TransportCloseKind::CleanExit,
        Some(false) => TransportCloseKind::CrashExit,
        None => TransportCloseKind::Unknown,
    }
}

#[derive(Clone, Copy, Debug, PartialEq, Eq, Structural)]
pub enum RestartPolicy {
    Never,
    OnCrash { max_restarts: u32, base_backoff_ms: u64, max_backoff_ms: u64 },
}

#[derive(Clone, Copy, Debug, PartialEq, Eq, Structural)]
pub struct SupervisorConfig {
    pub restart: RestartPolicy,
    /// Uptime after which the restart budget starts anew.
    pub restart_budget_reset_ms: u64,
}

pub open spec fn pow2(e: nat) -> nat
    decreases e,
{
    if e == 0 {
        1
    } else {
        2 * pow2((e - 1) as nat)
    }
}

/// `base * 2^min(attempt, 20)`, saturating at `u64::MAX`.
pub open spec fn scaled_backoff(attempt: u32, base: u64) -> nat {
    let e: nat = if attempt > 20 { 20 } else { attempt as nat };
    let s = base * pow2(e);
    if s > u64::MAX {
        u64::MAX as nat
    } else {
        s as nat
    }
}

/// Restart delay in milliseconds: the scaled backoff capped at `max`, plus
/// the jitter, saturating at `u64::MAX`.
pub open spec fn restart_delay_ms(attempt: u32, base: u64, max: u64, jitter: u64) -> u64 {
    let capped: nat = if scaled_backoff(attempt, base) > max { max as nat } else { scaled_backoff(attempt, base) };
    if capped + jitter > u64::MAX {
        u64::MAX
    } else {
        (capped + jitter) as u64
    }
}

proof fn lemma_pow2_shift(e: u64)
    requires
        e <= 20,
    ensures
        (1u64 << e) == pow2(e as nat),
        pow2(e as nat) <= 0x100000,
    decreases e,
{
    if e == 0 {
        assert((1u64 << 0u64) == 1u64) by (bit_vector);
    } else {
        let p: u64 = (e - 1) as u64;
        lemma_pow2_shift(p);
        assert((1u64 << e) == 2 * (1u64 << p)) by (bit_vector)
            requires
                p < 20,
                e == p + 1,
        ;
    }
    lemma_pow2_le(e as nat, 20);
    reveal_with_fuel(pow2, 21);
    assert(pow2(20) == 0x100000);
}

proof fn lemma_pow2_le(a: nat, b: nat)
    requires
        a <= b,
    ensures
        pow2(a) <= pow2(b),
    decreases b,
{
    if a < b {
        lemma_pow2_le(a, (b - 1) as nat);
    }
}

fn sat_mul(a: u64, b: u64) -> (r: u64)
    ensures
        r == (if a * b > u64::MAX { u64::MAX as int } else { a * b }),
{
    match a.checked_mul(b) {
        Some(v) => v,
        None => u64::MAX,
    }
}

/// Exponential backoff in milliseconds (see `restart_delay_ms`).
pub fn compute_restart_delay_ms(attempt: u32, base_backoff_ms: u64, max_backoff_ms: u64, jitter_ms: u64) -> (r: u64)
    ensures
        r == restart_delay_ms(attempt, base_backoff_ms, max_backoff_ms, jitter_ms),
{
    let exp: u64 = if attempt > 20 { 20 } else { attempt as u64 };
    proof {
        lemma_pow2_shift(exp);
    }
    let factor: u64 = 1u64 << exp;
    let scaled: u64 = sat_mul(base_backoff_ms, factor);
    let capped: u64 = if scaled > max_backoff_ms { max_backoff_ms } else { scaled };
    capped.saturating_add(jitter_ms)
}

/// Exponential restart backoff with jitter, as a duration.
pub fn compute_restart_delay(attempt: u32, base_backoff_ms: u64, max_backoff_ms: u64, jitter_ms: u64) -> (r: Duration)
    ensures
        r == millis_duration(restart_delay_ms(attempt, base_backoff_ms, max_backoff_ms, jitter_ms)),
{
    duration_from_millis(compute_restart_delay_ms(attempt, base_backoff_ms, max_backoff_ms, jitter_ms))
}

/// Jitter for a restart: the sub-second clock nanoseconds modulo a quarter of
/// the capped backoff (none when that quarter is zero).
pub open spec fn restart_jitter(attempts: u32, base: u64, max: u64, subsec_nanos: u32) -> u64 {
    let capped: nat = if scaled_backoff(attempts, base) > max { max as nat } else { scaled_backoff(attempts, base) };
    let range = capped / 4;
    if range > 0 {
        (subsec_nanos as nat % range) as u64
    } else {
        0
    }
}

pub fn compute_restart_jitter(attempts: u32, base_backoff_ms: u64, max_backoff_ms: u64, subsec_nanos: u32) -> (r: u64)
    ensures
        r == restart_jitter(attempts, base_backoff_ms, max_backoff_ms, subsec_nanos),
{
    let exp: u64 = if attempts > 20 { 20 } else { attempts as u64 };
    proof {
        lemma_pow2_shift(exp);
    }
    let base = sat_mul(base_backoff_ms, 1u64 << exp);
    let capped = if base > max_backoff_ms { max_backoff_ms } else { base };
    let range = capped / 4;
    if range > 0 {
        (subsec_nanos as u64) % range
    } else {
        0
    }
}

/// What the supervisor does after the transport closed.
#[derive(Clone, Copy, Debug, PartialEq, Eq, Structural)]
pub enum SupervisorDecision {
    /// Mark the connection dead and stop supervising.
    GiveUp,
    /// Wait `delay_ms`, then start a new generation; `next_attempts` is the
    /// restart count afterwards.
    Restart { delay_ms: u64, next_attempts: u32 },
}

/// Decision of the supervisor: never restart under `Never` or after a clean
/// exit; the budget starts anew after `restart_budget_reset_ms` of uptime
/// (the limit is read as an `i64`, so one above `i64::MAX` wraps to a
/// negative limit);
/// give up once `max_restarts` restarts were made.
pub open spec fn supervisor_decision(
    cfg: SupervisorConfig,
    close: TransportCloseKind,
    uptime_ms: i64,
    attempts: u32,
    subsec_nanos: u32,
) -> SupervisorDecision {
    match cfg.restart {
        RestartPolicy::Never => SupervisorDecision::GiveUp,
        RestartPolicy::OnCrash { max_restarts, base_backoff_ms, max_backoff_ms } => {
            if close == TransportCloseKind::CleanExit {
                SupervisorDecision::GiveUp
            } else {
                let a: u32 = if uptime_ms >= cfg.restart_budget_reset_ms as i64 { 0 } else { attempts };
                if a >= max_restarts {
                    SupervisorDecision::GiveUp
                } else {
                    SupervisorDecision::Restart {
                        delay_ms: restart_delay_ms(
                            a,
                            base_backoff_ms,
                            max_backoff_ms,
                            restart_jitter(a, base_backoff_ms, max_backoff_ms, subsec_nanos),
                        ),
                        next_attempts: (a + 1) as u32,
                    }
                }
            }
        },
    }
}

pub fn decide_after_transport_close(
    cfg: &SupervisorConfig,
    close: TransportCloseKind,
    uptime_ms: i64,
    attempts: u32,
    subsec_nanos: u32,
) -> (r: SupervisorDecision)
    ensures
        r == supervisor_decision(*cfg, close, uptime_ms, attempts, subsec_nanos),
{
    match cfg.restart {
        RestartPolicy::Never => SupervisorDecision::GiveUp,
        RestartPolicy::OnCrash { max_restarts, base_backoff_ms, max_backoff_ms } => {
            if close == TransportCloseKind::CleanExit {
                return SupervisorDecision::GiveUp;
            }
            let a: u32 = if uptime_ms >= cfg.restart_budget_reset_ms as i64 {
                0
            } else {
                attempts
            };
            if a >= max_restarts {
                return SupervisorDecision::GiveUp;
            }
            let jitter = compute_restart_jitter(a, base_backoff_ms, max_backoff_ms, subsec_nanos);
            SupervisorDecision::Restart {
                delay_ms: compute_restart_delay_ms(a, base_backoff_ms, max_backoff_ms, jitter),
                next_attempts: a + 1,
            }
        },
    }
}

/// The restart budget is respected: a decision to restart always leaves at
/// most `max_restarts` restarts counted.
pub proof fn lemma_restart_within_budget(
    cfg: SupervisorConfig,
    close: TransportCloseKind,
    uptime_ms: i64,
    attempts: u32,
    subsec_nanos: u32,
)
    ensures
        supervisor_decision(cfg, close, uptime_ms, attempts, subsec_nanos) matches SupervisorDecision::Restart { next_attempts, .. }
            ==> cfg.restart matches RestartPolicy::OnCrash { max_restarts, .. } && next_attempts <= max_restarts
            && close != TransportCloseKind::CleanExit,
{
}

/// A restart never waits longer than the backoff cap plus a quarter of it
/// (the largest jitter).
pub proof fn lemma_restart_delay_bounded(
    cfg: SupervisorConfig,
    close: TransportCloseKind,
    uptime_ms: i64,
    attempts: u32,
    subsec_nanos: u32,
)
    ensures
        supervisor_decision(cfg, close, uptime_ms, attempts, subsec_nanos) matches SupervisorDecision::Restart { delay_ms, .. }
            ==> cfg.restart matches RestartPolicy::OnCrash { max_backoff_ms, .. } && delay_ms <= max_backoff_ms
            + max_backoff_ms / 4,
{
    match cfg.restart {
        RestartPolicy::OnCrash { max_restarts, base_backoff_ms, max_backoff_ms } => {
            let a: u32 = if uptime_ms >= cfg.restart_budget_reset_ms as i64 {
                0
            } else {
                attempts
            };
            let sb = scaled_backoff(a, base_backoff_ms);
            let capped: nat = if sb > max_backoff_ms { max_backoff_ms as nat } else { sb };
            let range = capped / 4;
            assert(range <= max_backoff_ms as nat / 4) by (nonlinear_arith)
                requires
                    capped <= max_backoff_ms,
                    range == capped / 4,
            ;
            if range > 0 {
                assert((subsec_nanos as nat % range) < range) by (nonlinear_arith)
                    requires
                        range > 0,
                ;
            }
        },
        RestartPolicy::Never => {},
    }
}

/// Without jitter, the backoff never shrinks as restarts accumulate.
pub proof fn lemma_backoff_monotone(a1: u32, a2: u32, base: u64, max: u64)
    requires
        a1 <= a2,
    ensures
        restart_delay_ms(a1, base, max, 0) <= restart_delay_ms(a2, base, max, 0),
{
    let e1: nat = if a1 > 20 { 20 } else { a1 as nat };
    let e2: nat = if a2 > 20 { 20 } else { a2 as nat };
    lemma_pow2_le(e1, e2);
    assert(base * pow2(e1) <= base * pow2(e2)) by (nonlinear_arith)
        requires
            pow2(e1) <= pow2(e2),
    ;
}

/// What the supervisor keeps of its connection.
#[derive(Clone, Copy, Debug, PartialEq, Eq, Structural)]
pub struct SupervisorState {
    pub connection: ConnectionState,
    /// Whether calls that need an initialized runtime are accepted.
    pub initialized: bool,
    /// Restarts counted against the budget.
    pub attempts: u32,
    /// The current connection generation.
    pub generation: u64,
}

/// What the supervisor learned.
#[derive(Clone, Copy, Debug, PartialEq, Eq, Structural)]
pub enum SupervisorEvent {
    /// The transport of the current generation closed: how, after how long,
    /// whether the runtime is shutting down, whether the old generation was
    /// detached, and the sub-second clock reading that seeds the jitter.
    TransportClosed { close: TransportCloseKind, uptime_ms: i64, shutting_down: bool, detached: bool, subsec_nanos: u32 },
    /// The backoff ended (`shutting_down` when a shutdown cut it short or
    /// came meanwhile) and, when it did not, the new generation started or failed.
    Respawned { shutting_down: bool, ok: bool },
}

/// What the supervisor does next.
#[derive(Clone, Copy, Debug, PartialEq, Eq, Structural)]
pub enum SupervisorAction {
    /// Stop supervising.
    Stop,
    /// Wait `delay_ms`, then start generation `generation`.
    WaitThenRespawn { delay_ms: u64, generation: u64 },
    /// Wait for the next close of the transport.
    Watch,
}

/// The supervisor's transition. A dead connection stays dead and the
/// supervisor stops; a shutdown stops it and leaves the connection alone. A
/// closed transport makes the runtime uninitialized; a failed detach, or a
/// decision to give up, makes the connection dead. A restart marks it
/// restarting, counts the attempt, and waits before starting the next
/// generation, which either runs (initialized again) or leaves the
/// connection dead.
pub open spec fn supervisor_transition(cfg: SupervisorConfig, s: SupervisorState, e: SupervisorEvent) -> (SupervisorState, SupervisorAction) {
    let dead = SupervisorState { connection: ConnectionState::Dead, initialized: false, ..s };
    if s.connection == ConnectionState::Dead {
        (SupervisorState { initialized: false, ..s }, SupervisorAction::Stop)
    } else {
        match e {
            SupervisorEvent::TransportClosed { close, uptime_ms, shutting_down, detached, subsec_nanos } => {
                if shutting_down {
                    (s, SupervisorAction::Stop)
                } else if !detached {
                    (dead, SupervisorAction::Stop)
                } else {
                    match supervisor_decision(cfg, close, uptime_ms, s.attempts, subsec_nanos) {
                        SupervisorDecision::GiveUp => (dead, SupervisorAction::Stop),
                        SupervisorDecision::Restart { delay_ms, next_attempts } => (
                            SupervisorState {
                                connection: ConnectionState::Restarting { generation: s.generation },
                                initialized: false,
                                attempts: next_attempts,
                                generation: s.generation,
                            },
                            SupervisorAction::WaitThenRespawn {
                                delay_ms,
                                generation: if s.generation == u64::MAX { u64::MAX } else { (s.generation + 1) as u64 },
                            },
                        ),
                    }
                }
            },
            SupervisorEvent::Respawned { shutting_down, ok } => {
                if shutting_down {
                    (s, SupervisorAction::Stop)
                } else if !ok {
                    (dead, SupervisorAction::Stop)
                } else {
                    let g: u64 = if s.generation == u64::MAX { u64::MAX } else { (s.generation + 1) as u64 };
                    (
                        SupervisorState {
                            connection: ConnectionState::Running { generation: g },
                            initialized: true,
                            attempts: s.attempts,
                            generation: g,
                        },
                        SupervisorAction::Watch,
                    )
                }
            },
        }
    }
}

pub fn supervisor_step(cfg: &SupervisorConfig, s: SupervisorState, e: SupervisorEvent) -> (r: (SupervisorState, SupervisorAction))
    ensures
        r == supervisor_transition(*cfg, s, e),
{
    let dead = SupervisorState { connection: ConnectionState::Dead, initialized: false, ..s };
    if s.connection == ConnectionState::Dead {
        return (SupervisorState { initialized: false, ..s }, SupervisorAction::Stop);
    }
    let next_generation: u64 = if s.generation == u64::MAX { u64::MAX } else { s.generation + 1 };
    match e {
        SupervisorEvent::TransportClosed { close, uptime_ms, shutting_down, detached, subsec_nanos } => {
            if shutting_down {
                (s, SupervisorAction::Stop)
            } else if !detached {
                (dead, SupervisorAction::Stop)
            } else {
                match decide_after_transport_close(cfg, close, uptime_ms, s.attempts, subsec_nanos) {
                    SupervisorDecision::GiveUp => (dead, SupervisorAction::Stop),
                    SupervisorDecision::Restart { delay_ms, next_attempts } => (
                        SupervisorState {
                            connection: ConnectionState::Restarting { generation: s.generation },
                            initialized: false,
                            attempts: next_attempts,
                            generation: s.generation,
                        },
                        SupervisorAction::WaitThenRespawn { delay_ms, generation: next_generation },
                    ),
                }
            }
        },
        SupervisorEvent::Respawned { shutting_down, ok } => {
            if shutting_down {
                (s, SupervisorAction::Stop)
            } else if !ok {
                (dead, SupervisorAction::Stop)
            } else {
                (
                    SupervisorState {
                        connection: ConnectionState::Running { generation: next_generation },
                        initialized: true,
                        attempts: s.attempts,
                        generation: next_generation,
                    },
                    SupervisorAction::Watch,
                )
            }
        },
    }
}

/// A call that needs an initialized runtime is refused with
/// `runtime is not initialized` while it is not.
pub fn ensure_initialized_for_call(initialized: bool, require_initialized: bool) -> (r: Result<(), RpcError>)
    ensures
        require_initialized && !initialized ==> (r matches Err(RpcError::InvalidRequest(m)) && m@
            == "runtime is not initialized"@),
        !(require_initialized && !initialized) ==> r is Ok,
{
    if require_initialized && !initialized {
        Err(RpcError::InvalidRequest("runtime is not initialized".to_owned()))
    } else {
        Ok(())
    }
}

/// A notification that needs an initialized runtime is refused with
/// `NotInitialized` while it is not.
pub fn ensure_initialized_for_notify(initialized: bool, require_initialized: bool) -> (r: Result<(), RuntimeError>)
    ensures
        r == (if require_initialized && !initialized {
            Err::<(), RuntimeError>(RuntimeError::NotInitialized)
        } else {
            Ok::<(), RuntimeError>(())
        }),
{
    if require_initialized && !initialized {
        Err(RuntimeError::NotInitialized)
    } else {
        Ok(())
    }
}

/// Giving up leaves the connection dead for good: when the transport closes
/// and the supervisor gives up (under `Never`, after a clean exit, or with the
/// restart budget spent), the connection becomes dead and uninitialized and
/// the supervisor stops; from then on every event leaves it dead and
/// uninitialized, and every call that needs an initialized runtime is
/// refused.
pub proof fn lemma_give_up_is_final(
    cfg: SupervisorConfig,
    s: SupervisorState,
    close: TransportCloseKind,
    uptime_ms: i64,
    subsec_nanos: u32,
    later: Seq<SupervisorEvent>,
)
    requires
        s.connection != ConnectionState::Dead,
        supervisor_decision(cfg, close, uptime_ms, s.attempts, subsec_nanos) == SupervisorDecision::GiveUp,
    ensures
        ({
            let (n, a) = supervisor_transition(
                cfg,
                s,
                SupervisorEvent::TransportClosed { close, uptime_ms, shutting_down: false, detached: true, subsec_nanos },
            );
            &&& n.connection == ConnectionState::Dead && !n.initialized && a == SupervisorAction::Stop
            &&& run_supervisor(cfg, n, later).connection == ConnectionState::Dead
            &&& !run_supervisor(cfg, n, later).initialized
        }),
{
    let (n, a) = supervisor_transition(
        cfg,
        s,
        SupervisorEvent::TransportClosed { close, uptime_ms, shutting_down: false, detached: true, subsec_nanos },
    );
    lemma_dead_stays_dead(cfg, n, later);
}

/// The state after a sequence of events.
pub open spec fn run_supervisor(cfg: SupervisorConfig, s: SupervisorState, events: Seq<SupervisorEvent>) -> SupervisorState
    decreases events.len(),
{
    if events.len() == 0 {
        s
    } else {
        run_supervisor(cfg, supervisor_transition(cfg, s, events[0]).0, events.drop_first())
    }
}

/// A dead connection stays dead and uninitialized whatever happens next.
pub proof fn lemma_dead_stays_dead(cfg: SupervisorConfig, s: SupervisorState, events: Seq<SupervisorEvent>)
    requires
        s.connection == ConnectionState::Dead,
        !s.initialized,
    ensures
        run_supervisor(cfg, s, events).connection == ConnectionState::Dead,
        !run_supervisor(cfg, s, events).initialized,
    decreases events.len(),
{
    if events.len() > 0 {
        lemma_dead_stays_dead(cfg, supervisor_transition(cfg, s, events[0]).0, events.drop_first());
    }
}

} // verus!
