//! Outcome of a prompt run: how a turn's terminal event, the streamed
//! assistant text, a snapshot read after the live stream lagged and the last
//! turn error signal combine into the run's result or error.
use vstd::prelude::*;
use std::time::Duration;
use crate::json::{JsonValue, spec_get, opt_get, spec_as_i64};
use crate::ids::{opt_view, or_else, opt_ref, get_in};
use crate::text::{contains, contains_str, trim, trim_str, concat, str_eq, clone_opt_string};
use crate::errors::{RpcError, RuntimeError, rpc_error_eq};
use crate::plugin::{BlockReason, HookPhase};
use crate::thread_views::{ThreadTurnView, ThreadTurnStatus};
use crate::flow::{extract_assistant_text_from_turn, agent_texts, join_lines, HookExecutionState};
use crate::hooks::RuntimeHookConfig;
use crate::input::PromptAttachment;
use crate::policies::{ApprovalPolicy, ReasoningEffort, SandboxPolicy, SandboxPreset, DEFAULT_REASONING_EFFORT};
use crate::time::{duration_from_secs, secs_duration};
use crate::events::{
    Envelope, error_message_of, extract_error_message, decode_notification, decoded,
    RuntimeNotification, AgentMessageDeltaNotification, TurnCompletedNotification,
    TurnFailedNotification, TurnInterruptedNotification, TurnCancelledNotification,
};

verus! {

#[derive(Clone, Copy, Debug, PartialEq, Eq, Structural)]
pub enum PromptTurnFailureKind {
    RateLimit,
    QuotaExceeded,
    Other,
}

#[derive(Clone, Copy, Debug, PartialEq, Eq, Structural)]
pub enum PromptTurnTerminalState {
    Failed,
    CompletedWithoutAssistantText,
}

/// A failed turn with the error signal that explains it.
#[derive(Debug, PartialEq, Eq)]
pub struct PromptTurnFailure {
    pub terminal_state: PromptTurnTerminalState,
    pub kind: PromptTurnFailureKind,
    pub source_method: String,
    pub code: Option<i64>,
    pub message: String,
}

impl Clone for PromptTurnFailure {
    fn clone(&self) -> (r: Self)
        ensures
            r == *self,
    {
        PromptTurnFailure {
            terminal_state: self.terminal_state,
            kind: self.kind,
            source_method: self.source_method.clone(),
            code: self.code,
            message: self.message.clone(),
        }
    }
}

#[derive(Debug, PartialEq)]
pub enum PromptRunError {
    Rpc(RpcError),
    Runtime(RuntimeError),
    BlockedByHook { hook_name: String, phase: HookPhase, message: String },
    Timeout(Duration),
    TurnFailed,
    TurnFailedWithContext(PromptTurnFailure),
    TurnInterrupted,
    TurnCompletedWithoutAssistantText(PromptTurnFailure),
    EmptyAssistantText,
    AttachmentNotFound(String),
}

/// The failure carried by an error, if it carries one.
pub open spec fn error_failure(e: PromptRunError) -> Option<PromptTurnFailure> {
    match e {
        PromptRunError::TurnFailedWithContext(f) => Some(f),
        PromptRunError::TurnCompletedWithoutAssistantText(f) => Some(f),
        _ => None,
    }
}

impl PromptRunError {
    /// The turn failed because the account's usage quota is exhausted.
    pub fn is_quota_exceeded(&self) -> (r: bool)
        ensures
            r == (error_failure(*self) matches Some(f) && f.kind == PromptTurnFailureKind::QuotaExceeded),
    {
        match self {
            PromptRunError::TurnFailedWithContext(f) => f.kind == PromptTurnFailureKind::QuotaExceeded,
            PromptRunError::TurnCompletedWithoutAssistantText(f) => f.kind == PromptTurnFailureKind::QuotaExceeded,
            _ => false,
        }
    }

    /// The error a hook's block turns into.
    pub fn from_block(reason: BlockReason) -> (r: PromptRunError)
        ensures
            r == (PromptRunError::BlockedByHook {
                hook_name: reason.hook_name,
                phase: reason.phase,
                message: reason.message,
            }),
    {
        PromptRunError::BlockedByHook {
            hook_name: reason.hook_name,
            phase: reason.phase,
            message: reason.message,
        }
    }
}

/// Message phrases by which the server reports an exhausted quota or a
/// missing subscription.
pub open spec fn quota_message(m: Seq<char>) -> bool {
    contains(m, "usage limit"@) || contains(m, "purchase more credits"@) || contains(
        m,
        "hit your usage"@,
    ) || contains(m, "Upgrade to Pro"@) || contains(m, "upgrade to Pro"@)
}

/// Kind of a turn failure: code 429 is a rate limit, a quota phrase in the
/// message is an exhausted quota, anything else is other.
pub open spec fn failure_kind(code: Option<i64>, m: Seq<char>) -> PromptTurnFailureKind {
    if code == Some(429i64) {
        PromptTurnFailureKind::RateLimit
    } else if quota_message(m) {
        PromptTurnFailureKind::QuotaExceeded
    } else {
        PromptTurnFailureKind::Other
    }
}

pub fn signals_quota_exhausted(msg: &str) -> (r: bool)
    ensures
        r == quota_message(msg@),
{
    contains_str(msg, "usage limit") || contains_str(msg, "purchase more credits") || contains_str(
        msg,
        "hit your usage",
    ) || contains_str(msg, "Upgrade to Pro") || contains_str(msg, "upgrade to Pro")
}

pub fn classify_failure(code: Option<i64>, message: &str) -> (r: PromptTurnFailureKind)
    ensures
        r == failure_kind(code, message@),
{
    if code == Some(429i64) {
        return PromptTurnFailureKind::RateLimit;
    }
    if signals_quota_exhausted(message) {
        return PromptTurnFailureKind::QuotaExceeded;
    }
    PromptTurnFailureKind::Other
}

/// The error a turn reported, as seen on one envelope.
#[derive(Debug, PartialEq, Eq)]
pub struct PromptTurnErrorSignal {
    pub source_method: String,
    pub code: Option<i64>,
    pub message: String,
}

impl Clone for PromptTurnErrorSignal {
    fn clone(&self) -> (r: Self)
        ensures
            r == *self,
    {
        PromptTurnErrorSignal {
            source_method: self.source_method.clone(),
            code: self.code,
            message: self.message.clone(),
        }
    }
}

/// `f` is the failure of signal `s` in terminal state `state`.
pub open spec fn failure_of(s: PromptTurnErrorSignal, state: PromptTurnTerminalState, f: PromptTurnFailure) -> bool {
    f == PromptTurnFailure {
        terminal_state: state,
        kind: failure_kind(s.code, s.message@),
        source_method: s.source_method,
        code: s.code,
        message: s.message,
    }
}

impl PromptTurnErrorSignal {
    pub fn into_failure(self, terminal_state: PromptTurnTerminalState) -> (r: PromptTurnFailure)
        ensures
            failure_of(self, terminal_state, r),
    {
        let kind = classify_failure(self.code, self.message.as_str());
        PromptTurnFailure {
            terminal_state,
            kind,
            source_method: self.source_method,
            code: self.code,
            message: self.message,
        }
    }
}

/// Code and message of one error root: the message as `error_message_of`
/// finds it, the code from the root's own `code` field.
pub open spec fn root_signal(root: Option<JsonValue>) -> Option<(Option<i64>, Seq<char>)> {
    match root {
        Some(v) => match error_message_of(v) {
            Some(m) => Some((spec_as_i64(spec_get(v, "code"@)), m)),
            None => None,
        },
        None => None,
    }
}

/// The first root that yields a message, looked for in `params.error`,
/// `error`, `params` and the whole message, in this order.
pub open spec fn message_signal(json: JsonValue) -> Option<(Option<i64>, Seq<char>)> {
    let params = spec_get(json, "params"@);
    or_else(
        root_signal(opt_get(params, "error"@)),
        or_else(
            root_signal(spec_get(json, "error"@)),
            or_else(root_signal(params), root_signal(Some(json))),
        ),
    )
}

pub open spec fn is_turn_error_method(m: Seq<char>) -> bool {
    m == "error"@ || m == "turn/failed"@
}

/// The turn error signal of an envelope: present exactly for `error` and
/// `turn/failed` messages, with a fallback message `"<method> event"`.
pub open spec fn signal_of(env: Envelope, r: Option<PromptTurnErrorSignal>) -> bool {
    match env.method {
        Some(m) if is_turn_error_method(m@) => r matches Some(s) && s.source_method@ == m@
            && match message_signal(env.json) {
            Some(cm) => s.code == cm.0 && s.message@ == cm.1,
            None => s.code is None && s.message@ == m@ + " event"@,
        },
        _ => r is None,
    }
}

fn root_signal_exec(root: Option<&JsonValue>) -> (r: Option<(Option<i64>, String)>)
    ensures
        match r {
            Some(cm) => root_signal(opt_ref(root)) == Some((cm.0, cm.1@)),
            None => root_signal(opt_ref(root)) is None,
        },
{
    match root {
        Some(v) => {
            let (_, message) = extract_error_message(v);
            match message {
                Some(m) => {
                    let code = match v.get("code") {
                        Some(c) => c.as_i64(),
                        None => None,
                    };
                    Some((code, m))
                },
                None => None,
            }
        },
        None => None,
    }
}

pub fn extract_turn_error_signal(envelope: &Envelope) -> (r: Option<PromptTurnErrorSignal>)
    ensures
        signal_of(*envelope, r),
{
    let method = match &envelope.method {
        Some(m) => m,
        None => return None,
    };
    if !str_eq(method.as_str(), "error") && !str_eq(method.as_str(), "turn/failed") {
        return None;
    }
    let params = envelope.json.get("params");
    let mut found = root_signal_exec(get_in(params, "error"));
    if found.is_none() {
        found = root_signal_exec(envelope.json.get("error"));
    }
    if found.is_none() {
        found = root_signal_exec(params);
    }
    if found.is_none() {
        found = root_signal_exec(Some(&envelope.json));
    }
    match found {
        Some((code, message)) => Some(
            PromptTurnErrorSignal { source_method: method.clone(), code, message },
        ),
        None => Some(
            PromptTurnErrorSignal {
                source_method: method.clone(),
                code: None,
                message: concat(method.as_str(), " event"),
            },
        ),
    }
}

/// How a turn ended.
#[derive(Clone, Copy, Debug, PartialEq, Eq, Structural)]
pub enum TurnTerminalEvent {
    Completed,
    Failed,
    Interrupted,
    Cancelled,
}

/// A turn's terminal state as read from the thread after the live stream lagged.
#[derive(Debug, PartialEq, Eq)]
pub enum LaggedTurnTerminal {
    Completed { assistant_text: Option<String> },
    Failed { message: Option<String> },
    Cancelled,
    Interrupted,
}


impl Clone for LaggedTurnTerminal {
    fn clone(&self) -> (r: Self)
        ensures
            r == *self,
    {
        match self {
            LaggedTurnTerminal::Completed { assistant_text } => LaggedTurnTerminal::Completed {
                assistant_text: clone_opt_string(assistant_text),
            },
            LaggedTurnTerminal::Failed { message } => LaggedTurnTerminal::Failed {
                message: clone_opt_string(message),
            },
            LaggedTurnTerminal::Cancelled => LaggedTurnTerminal::Cancelled,
            LaggedTurnTerminal::Interrupted => LaggedTurnTerminal::Interrupted,
        }
    }
}

pub open spec fn terminal_event_of(t: LaggedTurnTerminal) -> TurnTerminalEvent {
    match t {
        LaggedTurnTerminal::Completed { .. } => TurnTerminalEvent::Completed,
        LaggedTurnTerminal::Failed { .. } => TurnTerminalEvent::Failed,
        LaggedTurnTerminal::Cancelled => TurnTerminalEvent::Cancelled,
        LaggedTurnTerminal::Interrupted => TurnTerminalEvent::Interrupted,
    }
}

impl LaggedTurnTerminal {
    pub fn as_terminal_event(&self) -> (r: TurnTerminalEvent)
        ensures
            r == terminal_event_of(*self),
    {
        match self {
            LaggedTurnTerminal::Completed { .. } => TurnTerminalEvent::Completed,
            LaggedTurnTerminal::Failed { .. } => TurnTerminalEvent::Failed,
            LaggedTurnTerminal::Cancelled => TurnTerminalEvent::Cancelled,
            LaggedTurnTerminal::Interrupted => TurnTerminalEvent::Interrupted,
        }
    }
}

/// Assistant text of a lagged snapshot of a completed turn.
pub open spec fn snapshot_text(lagged: Option<LaggedTurnTerminal>) -> Option<String> {
    match lagged {
        Some(LaggedTurnTerminal::Completed { assistant_text }) => assistant_text,
        _ => None,
    }
}

pub fn lagged_completed_text(lagged_terminal: Option<&LaggedTurnTerminal>) -> (r: Option<String>)
    ensures
        r == snapshot_text(opt_lagged(lagged_terminal)),
{
    match lagged_terminal {
        Some(LaggedTurnTerminal::Completed { assistant_text }) => clone_opt_string(assistant_text),
        _ => None,
    }
}

pub open spec fn opt_lagged(v: Option<&LaggedTurnTerminal>) -> Option<LaggedTurnTerminal> {
    match v {
        Some(x) => Some(*x),
        None => None,
    }
}

/// The text a completed turn answers with: a snapshot's text when it has
/// non-blank text, else the streamed text; then trimmed.
pub open spec fn answer_text(collected: Seq<char>, snapshot: Option<Seq<char>>) -> Seq<char> {
    match snapshot {
        Some(s) => if trim(s).len() == 0 {
            trim(collected)
        } else {
            trim(s)
        },
        None => trim(collected),
    }
}

/// Result of a completed turn: its answer text, or, when that is empty, the
/// last turn error as a failure (`EmptyAssistantText` without one).
pub open spec fn completed_outcome(
    collected: Seq<char>,
    snapshot: Option<Seq<char>>,
    last_error: Option<PromptTurnErrorSignal>,
    r: Result<String, PromptRunError>,
) -> bool {
    let t = answer_text(collected, snapshot);
    if t.len() > 0 {
        r matches Ok(s) && s@ == t
    } else {
        match last_error {
            Some(e) => r matches Err(PromptRunError::TurnCompletedWithoutAssistantText(f)) && failure_of(
                e,
                PromptTurnTerminalState::CompletedWithoutAssistantText,
                f,
            ),
            None => r == Err::<String, PromptRunError>(PromptRunError::EmptyAssistantText),
        }
    }
}

/// Result of a failed turn: the last turn error as context, else the
/// snapshot's failure message, else a bare `TurnFailed`.
pub open spec fn failed_outcome(
    last_error: Option<PromptTurnErrorSignal>,
    lagged: Option<LaggedTurnTerminal>,
    r: Result<String, PromptRunError>,
) -> bool {
    match last_error {
        Some(e) => r matches Err(PromptRunError::TurnFailedWithContext(f)) && failure_of(
            e,
            PromptTurnTerminalState::Failed,
            f,
        ),
        None => match lagged {
            Some(LaggedTurnTerminal::Failed { message: Some(m) }) => r matches Err(
                PromptRunError::TurnFailedWithContext(f),
            ) && f.terminal_state == PromptTurnTerminalState::Failed && f.kind
                == PromptTurnFailureKind::Other && f.source_method@ == "thread/read"@ && f.code is None
                && f.message == m,
            _ => r == Err::<String, PromptRunError>(PromptRunError::TurnFailed),
        },
    }
}

/// Result of a turn by its terminal event.
pub open spec fn turn_outcome(
    terminal: TurnTerminalEvent,
    collected: Seq<char>,
    lagged: Option<LaggedTurnTerminal>,
    last_error: Option<PromptTurnErrorSignal>,
    r: Result<String, PromptRunError>,
) -> bool {
    match terminal {
        TurnTerminalEvent::Completed => completed_outcome(
            collected,
            opt_view(snapshot_text(lagged)),
            last_error,
            r,
        ),
        TurnTerminalEvent::Failed => failed_outcome(last_error, lagged, r),
        _ => r == Err::<String, PromptRunError>(PromptRunError::TurnInterrupted),
    }
}

pub fn finalize_prompt_turn_assistant_text(
    collected_assistant_text: String,
    lagged_completed_text: Option<String>,
    last_turn_error: Option<PromptTurnErrorSignal>,
) -> (r: Result<String, PromptRunError>)
    ensures
        completed_outcome(
            collected_assistant_text@,
            opt_view(lagged_completed_text),
            last_turn_error,
            r,
        ),
{
    let assistant_text = match lagged_completed_text {
        Some(snapshot) => {
            let t = trim_str(snapshot.as_str());
            if t.as_str().is_empty() {
                trim_str(collected_assistant_text.as_str())
            } else {
                t
            }
        },
        None => trim_str(collected_assistant_text.as_str()),
    };
    if assistant_text.as_str().is_empty() {
        match last_turn_error {
            Some(err) => Err(
                PromptRunError::TurnCompletedWithoutAssistantText(
                    err.into_failure(PromptTurnTerminalState::CompletedWithoutAssistantText),
                ),
            ),
            None => Err(PromptRunError::EmptyAssistantText),
        }
    } else {
        Ok(assistant_text)
    }
}

pub fn prompt_turn_failed_error(
    last_turn_error: Option<PromptTurnErrorSignal>,
    lagged_terminal: Option<&LaggedTurnTerminal>,
) -> (r: Result<String, PromptRunError>)
    ensures
        failed_outcome(last_turn_error, opt_lagged(lagged_terminal), r),
{
    match last_turn_error {
        Some(err) => Err(
            PromptRunError::TurnFailedWithContext(err.into_failure(PromptTurnTerminalState::Failed)),
        ),
        None => match lagged_terminal {
            Some(LaggedTurnTerminal::Failed { message: Some(message) }) => Err(
                PromptRunError::TurnFailedWithContext(
                    PromptTurnFailure {
                        terminal_state: PromptTurnTerminalState::Failed,
                        kind: PromptTurnFailureKind::Other,
                        source_method: "thread/read".to_owned(),
                        code: None,
                        message: message.clone(),
                    },
                ),
            ),
            _ => Err(PromptRunError::TurnFailed),
        },
    }
}

pub fn resolve_prompt_turn_assistant_text(
    terminal: TurnTerminalEvent,
    collected_assistant_text: String,
    lagged_terminal: Option<&LaggedTurnTerminal>,
    last_turn_error: Option<PromptTurnErrorSignal>,
) -> (r: Result<String, PromptRunError>)
    ensures
        turn_outcome(
            terminal,
            collected_assistant_text@,
            opt_lagged(lagged_terminal),
            last_turn_error,
            r,
        ),
{
    match terminal {
        TurnTerminalEvent::Completed => finalize_prompt_turn_assistant_text(
            collected_assistant_text,
            lagged_completed_text(lagged_terminal),
            last_turn_error,
        ),
        TurnTerminalEvent::Failed => prompt_turn_failed_error(last_turn_error, lagged_terminal),
        TurnTerminalEvent::Interrupted | TurnTerminalEvent::Cancelled => Err(
            PromptRunError::TurnInterrupted,
        ),
    }
}

/// Where a prompt runs: a thread to open (or resume, when an id is given),
/// or a thread already loaded.
pub enum PromptRunTarget {
    OpenOrResume(Option<String>),
    Loaded(String),
}

impl PromptRunTarget {
    /// The thread id the run's hooks see before the thread is known: the id
    /// to resume or the loaded thread's.
    pub fn hook_thread_id(&self) -> (r: Option<&str>)
        ensures
            match *self {
                PromptRunTarget::OpenOrResume(t) => match t {
                    Some(x) => r matches Some(y) && y@ == x@,
                    None => r is None,
                },
                PromptRunTarget::Loaded(t) => r matches Some(y) && y@ == t@,
            },
    {
        match self {
            PromptRunTarget::OpenOrResume(t) => match t {
                Some(x) => Some(x.as_str()),
                None => None,
            },
            PromptRunTarget::Loaded(t) => Some(t.as_str()),
        }
    }
}

/// Why collecting a turn's output stopped before its terminal event.
#[derive(Debug, PartialEq)]
pub enum TurnCollectError {
    /// The run's deadline passed.
    Timeout,
    /// The live stream was closed; the text says why.
    StreamClosed(String),
    /// More events came than the collection allows.
    EventBudgetExceeded,
    /// An envelope of the turn was refused.
    TargetEnvelope(RpcError),
    /// Reading the turn after a lag failed.
    LagProbe(RpcError),
}

/// The run error of a collection that stopped early, and whether the turn is
/// to be interrupted (best effort): timeouts, of the run or of the read after
/// a lag, end as the run's timeout and interrupt the turn; a closed stream is
/// an internal error `live stream closed: <why>`; an exhausted event budget an
/// internal error; a refused envelope or a failed read that RPC error.
pub open spec fn collect_failure(err: TurnCollectError, timeout: Duration, r: (PromptRunError, bool)) -> bool {
    match err {
        TurnCollectError::Timeout => r == (PromptRunError::Timeout(timeout), true),
        TurnCollectError::LagProbe(RpcError::Timeout) => r == (PromptRunError::Timeout(timeout), true),
        TurnCollectError::StreamClosed(why) => r.0 matches PromptRunError::Runtime(RuntimeError::Internal(m))
            && m@ == "live stream closed: "@ + why@ && !r.1,
        TurnCollectError::EventBudgetExceeded => r.0 matches PromptRunError::Runtime(RuntimeError::Internal(m))
            && m@ == "turn event budget exhausted while collecting assistant output"@ && !r.1,
        TurnCollectError::TargetEnvelope(e) => r == (PromptRunError::Rpc(e), false),
        TurnCollectError::LagProbe(e) => r == (PromptRunError::Rpc(e), false),
    }
}

pub fn collect_error_outcome(err: TurnCollectError, timeout: Duration) -> (r: (PromptRunError, bool))
    ensures
        collect_failure(err, timeout, r),
{
    match err {
        TurnCollectError::Timeout => (PromptRunError::Timeout(timeout), true),
        TurnCollectError::StreamClosed(why) => (
            PromptRunError::Runtime(RuntimeError::Internal(concat("live stream closed: ", why.as_str()))),
            false,
        ),
        TurnCollectError::EventBudgetExceeded => (
            PromptRunError::Runtime(
                RuntimeError::Internal("turn event budget exhausted while collecting assistant output".to_owned()),
            ),
            false,
        ),
        TurnCollectError::TargetEnvelope(e) => (PromptRunError::Rpc(e), false),
        TurnCollectError::LagProbe(e) => match e {
            RpcError::Timeout => (PromptRunError::Timeout(timeout), true),
            other => (PromptRunError::Rpc(other), false),
        },
    }
}

#[derive(Debug, PartialEq, Eq)]
pub struct PromptRunResult {
    pub thread_id: String,
    pub turn_id: String,
    pub assistant_text: String,
}

/// `r` is the run result of the turn `turn_id` of thread `thread_id`.
pub open spec fn run_outcome(
    thread_id: Seq<char>,
    turn_id: Seq<char>,
    terminal: TurnTerminalEvent,
    collected: Seq<char>,
    lagged: Option<LaggedTurnTerminal>,
    last_error: Option<PromptTurnErrorSignal>,
    r: Result<PromptRunResult, PromptRunError>,
) -> bool {
    match r {
        Ok(res) => res.thread_id@ == thread_id && res.turn_id@ == turn_id && turn_outcome(
            terminal,
            collected,
            lagged,
            last_error,
            Ok(res.assistant_text),
        ),
        Err(e) => turn_outcome(terminal, collected, lagged, last_error, Err(e)),
    }
}

pub fn build_prompt_run_result(
    thread_id: &str,
    turn_id: &str,
    collected_assistant_text: String,
    lagged_terminal: Option<&LaggedTurnTerminal>,
    last_turn_error: Option<PromptTurnErrorSignal>,
    terminal: TurnTerminalEvent,
) -> (r: Result<PromptRunResult, PromptRunError>)
    ensures
        run_outcome(
            thread_id@,
            turn_id@,
            terminal,
            collected_assistant_text@,
            opt_lagged(lagged_terminal),
            last_turn_error,
            r,
        ),
{
    match resolve_prompt_turn_assistant_text(
        terminal,
        collected_assistant_text,
        lagged_terminal,
        last_turn_error,
    ) {
        Ok(assistant_text) => Ok(
            PromptRunResult {
                thread_id: thread_id.to_owned(),
                turn_id: turn_id.to_owned(),
                assistant_text,
            },
        ),
        Err(e) => Err(e),
    }
}

/// `"ok"` for a result, `"error"` for an error.
pub fn stream_result_status(result: &Result<PromptRunResult, PromptRunError>) -> (r: &'static str)
    ensures
        r@ == (if result is Ok { "ok"@ } else { "error"@ }),
{
    if result.is_ok() {
        "ok"
    } else {
        "error"
    }
}

/// One typed event of a prompt stream.
#[derive(Debug, PartialEq)]
pub enum PromptRunStreamEvent {
    AgentMessageDelta(AgentMessageDeltaNotification),
    TurnCompleted(TurnCompletedNotification),
    TurnFailed(TurnFailedNotification),
    TurnInterrupted(TurnInterruptedNotification),
    TurnCancelled(TurnCancelledNotification),
}

/// The stream event of a decoded notification: deltas and terminal turn
/// notifications pass, everything else is dropped.
pub open spec fn stream_event_of(n: Option<RuntimeNotification>) -> Option<PromptRunStreamEvent> {
    match n {
        Some(RuntimeNotification::AgentMessageDelta(x)) => Some(PromptRunStreamEvent::AgentMessageDelta(x)),
        Some(RuntimeNotification::TurnCompleted(x)) => Some(PromptRunStreamEvent::TurnCompleted(x)),
        Some(RuntimeNotification::TurnFailed(x)) => Some(PromptRunStreamEvent::TurnFailed(x)),
        Some(RuntimeNotification::TurnInterrupted(x)) => Some(PromptRunStreamEvent::TurnInterrupted(x)),
        Some(RuntimeNotification::TurnCancelled(x)) => Some(PromptRunStreamEvent::TurnCancelled(x)),
        _ => None,
    }
}

pub fn envelope_to_stream_event(envelope: &Envelope) -> (r: Option<PromptRunStreamEvent>)
    ensures
        exists|n: Option<RuntimeNotification>| decoded(*envelope, n) && r == stream_event_of(n),
{
    let n = decode_notification(envelope);
    let ghost g = n;
    let r = match n {
        Some(RuntimeNotification::AgentMessageDelta(x)) => Some(PromptRunStreamEvent::AgentMessageDelta(x)),
        Some(RuntimeNotification::TurnCompleted(x)) => Some(PromptRunStreamEvent::TurnCompleted(x)),
        Some(RuntimeNotification::TurnFailed(x)) => Some(PromptRunStreamEvent::TurnFailed(x)),
        Some(RuntimeNotification::TurnInterrupted(x)) => Some(PromptRunStreamEvent::TurnInterrupted(x)),
        Some(RuntimeNotification::TurnCancelled(x)) => Some(PromptRunStreamEvent::TurnCancelled(x)),
        _ => None,
    };
    assert(decoded(*envelope, g) && r == stream_event_of(g));
    r
}

/// The stream event that stands for a lagged snapshot of turn `turn_id`.
pub open spec fn lagged_event(
    thread_id: Seq<char>,
    turn_id: Seq<char>,
    t: LaggedTurnTerminal,
    r: Option<PromptRunStreamEvent>,
) -> bool {
    match t {
        LaggedTurnTerminal::Completed { assistant_text } => r matches Some(
            PromptRunStreamEvent::TurnCompleted(n),
        ) && n.thread_id@ == thread_id && n.turn_id@ == turn_id && n.text == assistant_text,
        LaggedTurnTerminal::Failed { message } => r matches Some(PromptRunStreamEvent::TurnFailed(n))
            && n.thread_id@ == thread_id && n.turn_id@ == turn_id && n.code is None && n.message
            == message,
        LaggedTurnTerminal::Cancelled => r matches Some(PromptRunStreamEvent::TurnCancelled(n))
            && n.thread_id@ == thread_id && n.turn_id@ == turn_id,
        LaggedTurnTerminal::Interrupted => r matches Some(
            PromptRunStreamEvent::TurnInterrupted(n),
        ) && n.thread_id@ == thread_id && n.turn_id@ == turn_id,
    }
}

pub fn lagged_terminal_to_stream_event(
    thread_id: &str,
    turn_id: &str,
    terminal: &LaggedTurnTerminal,
) -> (r: Option<PromptRunStreamEvent>)
    ensures
        lagged_event(thread_id@, turn_id@, *terminal, r),
{
    match terminal {
        LaggedTurnTerminal::Completed { assistant_text } => Some(
            PromptRunStreamEvent::TurnCompleted(
                TurnCompletedNotification {
                    thread_id: thread_id.to_owned(),
                    turn_id: turn_id.to_owned(),
                    text: clone_opt_string(assistant_text),
                },
            ),
        ),
        LaggedTurnTerminal::Failed { message } => Some(
            PromptRunStreamEvent::TurnFailed(
                TurnFailedNotification {
                    thread_id: thread_id.to_owned(),
                    turn_id: turn_id.to_owned(),
                    code: None,
                    message: clone_opt_string(message),
                },
            ),
        ),
        LaggedTurnTerminal::Cancelled => Some(
            PromptRunStreamEvent::TurnCancelled(
                TurnCancelledNotification { thread_id: thread_id.to_owned(), turn_id: turn_id.to_owned() },
            ),
        ),
        LaggedTurnTerminal::Interrupted => Some(
            PromptRunStreamEvent::TurnInterrupted(
                TurnInterruptedNotification { thread_id: thread_id.to_owned(), turn_id: turn_id.to_owned() },
            ),
        ),
    }
}

/// What one envelope (or one lagged snapshot) tells a prompt stream.
pub struct PromptStreamObservation {
    pub event: Option<PromptRunStreamEvent>,
    pub terminal: Option<TurnTerminalEvent>,
    pub turn_error: Option<PromptTurnErrorSignal>,
}

pub fn observe_target_envelope(envelope: &Envelope, terminal: Option<TurnTerminalEvent>) -> (r: PromptStreamObservation)
    ensures
        exists|n: Option<RuntimeNotification>| decoded(*envelope, n) && r.event == stream_event_of(n),
        r.terminal == terminal,
        signal_of(*envelope, r.turn_error),
{
    PromptStreamObservation {
        event: envelope_to_stream_event(envelope),
        terminal,
        turn_error: extract_turn_error_signal(envelope),
    }
}

pub fn observe_lagged_terminal(thread_id: &str, turn_id: &str, terminal: &LaggedTurnTerminal) -> (r: PromptStreamObservation)
    ensures
        lagged_event(thread_id@, turn_id@, *terminal, r.event),
        r.terminal == Some(terminal_event_of(*terminal)),
        r.turn_error is None,
{
    PromptStreamObservation {
        event: lagged_terminal_to_stream_event(thread_id, turn_id, terminal),
        terminal: Some(terminal.as_terminal_event()),
        turn_error: None,
    }
}

/// The end of the turn a stream event reports, if it reports one.
pub open spec fn terminal_of_event(e: Option<PromptRunStreamEvent>) -> Option<TurnTerminalEvent> {
    match e {
        Some(PromptRunStreamEvent::TurnCompleted(_)) => Some(TurnTerminalEvent::Completed),
        Some(PromptRunStreamEvent::TurnFailed(_)) => Some(TurnTerminalEvent::Failed),
        Some(PromptRunStreamEvent::TurnInterrupted(_)) => Some(TurnTerminalEvent::Interrupted),
        Some(PromptRunStreamEvent::TurnCancelled(_)) => Some(TurnTerminalEvent::Cancelled),
        _ => None,
    }
}

/// An envelope belongs to turn `turn_id` of thread `thread_id`.
pub open spec fn targets_turn(env: Envelope, thread_id: Seq<char>, turn_id: Seq<char>) -> bool {
    &&& env.thread_id matches Some(t) && t@ == thread_id
    &&& env.turn_id matches Some(u) && u@ == turn_id
}

/// What one live envelope means for a run waiting on turn `turn_id` of
/// thread `thread_id`: nothing for envelopes of other turns; otherwise its
/// observation, whose terminal is the end its event reports.
pub fn observe_turn_envelope(envelope: &Envelope, thread_id: &str, turn_id: &str) -> (r: Option<PromptStreamObservation>)
    ensures
        !targets_turn(*envelope, thread_id@, turn_id@) ==> r is None,
        targets_turn(*envelope, thread_id@, turn_id@) ==> (r matches Some(o) && (exists|n: Option<RuntimeNotification>|
            decoded(*envelope, n) && o.event == stream_event_of(n)) && o.terminal == terminal_of_event(o.event)
            && signal_of(*envelope, o.turn_error)),
{
    let on_target = match (&envelope.thread_id, &envelope.turn_id) {
        (Some(t), Some(u)) => str_eq(t.as_str(), thread_id) && str_eq(u.as_str(), turn_id),
        _ => false,
    };
    if !on_target {
        return None;
    }
    let event = envelope_to_stream_event(envelope);
    let terminal = match &event {
        Some(PromptRunStreamEvent::TurnCompleted(_)) => Some(TurnTerminalEvent::Completed),
        Some(PromptRunStreamEvent::TurnFailed(_)) => Some(TurnTerminalEvent::Failed),
        Some(PromptRunStreamEvent::TurnInterrupted(_)) => Some(TurnTerminalEvent::Interrupted),
        Some(PromptRunStreamEvent::TurnCancelled(_)) => Some(TurnTerminalEvent::Cancelled),
        _ => None,
    };
    Some(PromptStreamObservation { event, terminal, turn_error: extract_turn_error_signal(envelope) })
}

/// The assistant text collected so far, with an agent-message delta added.
pub fn append_delta(collected: &mut String, event: &Option<PromptRunStreamEvent>)
    ensures
        match *event {
            Some(PromptRunStreamEvent::AgentMessageDelta(n)) => final(collected)@ == old(collected)@ + n.delta@,
            _ => final(collected)@ == old(collected)@,
        },
{
    match event {
        Some(PromptRunStreamEvent::AgentMessageDelta(n)) => crate::text::push_str(collected, n.delta.as_str()),
        _ => {},
    }
}

/// Progress of a prompt stream.
pub struct PromptRunStreamState {
    pub last_turn_error: Option<PromptTurnErrorSignal>,
    pub lagged_terminal: Option<LaggedTurnTerminal>,
    pub final_result: Option<Result<PromptRunResult, PromptRunError>>,
}

/// What a stream does with one observation: the event to hand out and, once
/// the turn ended, the run's result.
pub struct PromptStreamTransition {
    pub event: Option<PromptRunStreamEvent>,
    pub terminal_result: Option<Result<PromptRunResult, PromptRunError>>,
}

pub fn clone_signal(s: &Option<PromptTurnErrorSignal>) -> (r: Option<PromptTurnErrorSignal>)
    ensures
        r == *s,
{
    match s {
        Some(x) => Some(x.clone()),
        None => None,
    }
}

/// The latest error signal wins; a terminal observation resolves the run.
pub fn reduce_prompt_stream_observation(
    state: &mut PromptRunStreamState,
    thread_id: &str,
    turn_id: &str,
    collected_assistant_text: String,
    observation: PromptStreamObservation,
) -> (r: PromptStreamTransition)
    ensures
        final(state).last_turn_error == (if observation.turn_error is Some {
            observation.turn_error
        } else {
            old(state).last_turn_error
        }),
        final(state).lagged_terminal == old(state).lagged_terminal,
        final(state).final_result == old(state).final_result,
        r.event == observation.event,
        match observation.terminal {
            None => r.terminal_result is None,
            Some(t) => r.terminal_result matches Some(res) && run_outcome(
                thread_id@,
                turn_id@,
                t,
                collected_assistant_text@,
                old(state).lagged_terminal,
                final(state).last_turn_error,
                res,
            ),
        },
{
    let PromptStreamObservation { event, terminal, turn_error } = observation;
    if turn_error.is_some() {
        state.last_turn_error = turn_error;
    }
    let terminal_result = match terminal {
        Some(t) => Some(
            build_prompt_run_result(
                thread_id,
                turn_id,
                collected_assistant_text,
                state.lagged_terminal.as_ref(),
                clone_signal(&state.last_turn_error),
                t,
            ),
        ),
        None => None,
    };
    PromptStreamTransition { event, terminal_result }
}

/// Terminal state of a turn read from the thread after the live stream
/// lagged; a turn still in progress has none.
pub open spec fn lagged_of_turn(turn: ThreadTurnView, r: Option<LaggedTurnTerminal>) -> bool {
    match turn.status {
        ThreadTurnStatus::Completed => r matches Some(LaggedTurnTerminal::Completed { assistant_text })
            && (if agent_texts(turn.items@).len() == 0 {
            assistant_text is None
        } else {
            assistant_text matches Some(t) && t@ == join_lines(agent_texts(turn.items@))
        }),
        ThreadTurnStatus::Failed => r matches Some(LaggedTurnTerminal::Failed { message }) && match turn.error {
            Some(e) => message matches Some(m) && m@ == e.message@,
            None => message is None,
        },
        ThreadTurnStatus::Cancelled => r == Some(LaggedTurnTerminal::Cancelled),
        ThreadTurnStatus::Interrupted => r == Some(LaggedTurnTerminal::Interrupted),
        ThreadTurnStatus::InProgress => r is None,
    }
}

pub fn lagged_terminal_from_turn(turn: &ThreadTurnView) -> (r: Option<LaggedTurnTerminal>)
    ensures
        lagged_of_turn(*turn, r),
{
    match turn.status {
        ThreadTurnStatus::Completed => Some(
            LaggedTurnTerminal::Completed { assistant_text: extract_assistant_text_from_turn(turn) },
        ),
        ThreadTurnStatus::Failed => Some(
            LaggedTurnTerminal::Failed {
                message: match &turn.error {
                    Some(e) => Some(e.message.clone()),
                    None => None,
                },
            },
        ),
        ThreadTurnStatus::Cancelled => Some(LaggedTurnTerminal::Cancelled),
        ThreadTurnStatus::Interrupted => Some(LaggedTurnTerminal::Interrupted),
        ThreadTurnStatus::InProgress => None,
    }
}

/// One prompt run: where it runs, what it asks, and under which policies.
pub struct PromptRunParams {
    pub cwd: String,
    pub prompt: String,
    pub model: Option<String>,
    pub effort: Option<ReasoningEffort>,
    pub approval_policy: ApprovalPolicy,
    pub sandbox_policy: SandboxPolicy,
    /// Explicit opt-in to a privileged sandbox.
    pub privileged_escalation_approved: bool,
    pub attachments: Vec<PromptAttachment>,
    pub timeout: Duration,
    pub output_schema: Option<JsonValue>,
}

impl PromptRunParams {
    /// Safe defaults: medium effort, no approvals asked, read-only sandbox,
    /// no escalation, no attachments, a 120-second timeout, no schema.
    pub fn new(cwd: String, prompt: String) -> (r: Self)
        ensures
            r.cwd == cwd,
            r.prompt == prompt,
            r.model is None,
            r.effort == Some(DEFAULT_REASONING_EFFORT),
            r.approval_policy == ApprovalPolicy::Never,
            r.sandbox_policy == SandboxPolicy::Preset(SandboxPreset::ReadOnly),
            !r.privileged_escalation_approved,
            r.attachments@.len() == 0,
            r.timeout == secs_duration(120),
            r.output_schema is None,
    {
        PromptRunParams {
            cwd,
            prompt,
            model: None,
            effort: Some(DEFAULT_REASONING_EFFORT),
            approval_policy: ApprovalPolicy::Never,
            sandbox_policy: SandboxPolicy::Preset(SandboxPreset::ReadOnly),
            privileged_escalation_approved: false,
            attachments: Vec::new(),
            timeout: duration_from_secs(120),
            output_schema: None,
        }
    }

    pub fn with_model(self, model: String) -> (r: Self)
        ensures
            r == (PromptRunParams { model: Some(model), ..self }),
    {
        PromptRunParams { model: Some(model), ..self }
    }

    pub fn with_effort(self, effort: ReasoningEffort) -> (r: Self)
        ensures
            r == (PromptRunParams { effort: Some(effort), ..self }),
    {
        PromptRunParams { effort: Some(effort), ..self }
    }

    pub fn with_approval_policy(self, approval_policy: ApprovalPolicy) -> (r: Self)
        ensures
            r == (PromptRunParams { approval_policy, ..self }),
    {
        PromptRunParams { approval_policy, ..self }
    }

    pub fn with_sandbox_policy(self, sandbox_policy: SandboxPolicy) -> (r: Self)
        ensures
            r == (PromptRunParams { sandbox_policy, ..self }),
    {
        PromptRunParams { sandbox_policy, ..self }
    }

    pub fn allow_privileged_escalation(self) -> (r: Self)
        ensures
            r == (PromptRunParams { privileged_escalation_approved: true, ..self }),
    {
        PromptRunParams { privileged_escalation_approved: true, ..self }
    }

    pub fn with_timeout(self, timeout: Duration) -> (r: Self)
        ensures
            r == (PromptRunParams { timeout, ..self }),
    {
        PromptRunParams { timeout, ..self }
    }

    pub fn with_output_schema(self, output_schema: JsonValue) -> (r: Self)
        ensures
            r == (PromptRunParams { output_schema: Some(output_schema), ..self }),
    {
        PromptRunParams { output_schema: Some(output_schema), ..self }
    }

    pub fn with_attachment(self, attachment: PromptAttachment) -> (r: Self)
        ensures
            r.attachments@ == self.attachments@.push(attachment),
            r == (PromptRunParams { attachments: r.attachments, ..self }),
    {
        let mut s = self;
        s.attachments.push(attachment);
        s
    }

    pub fn attach_path(self, path: String) -> (r: Self)
        ensures
            r.attachments@ == self.attachments@.push(PromptAttachment::AtPath { path, placeholder: None }),
            r == (PromptRunParams { attachments: r.attachments, ..self }),
    {
        self.with_attachment(PromptAttachment::AtPath { path, placeholder: None })
    }

    pub fn attach_path_with_placeholder(self, path: String, placeholder: String) -> (r: Self)
        ensures
            r.attachments@ == self.attachments@.push(
                PromptAttachment::AtPath { path, placeholder: Some(placeholder) },
            ),
            r == (PromptRunParams { attachments: r.attachments, ..self }),
    {
        self.with_attachment(PromptAttachment::AtPath { path, placeholder: Some(placeholder) })
    }

    pub fn attach_image_url(self, url: String) -> (r: Self)
        ensures
            r.attachments@ == self.attachments@.push(PromptAttachment::ImageUrl { url }),
            r == (PromptRunParams { attachments: r.attachments, ..self }),
    {
        self.with_attachment(PromptAttachment::ImageUrl { url })
    }

    pub fn attach_local_image(self, path: String) -> (r: Self)
        ensures
            r.attachments@ == self.attachments@.push(PromptAttachment::LocalImage { path }),
            r == (PromptRunParams { attachments: r.attachments, ..self }),
    {
        self.with_attachment(PromptAttachment::LocalImage { path })
    }

    pub fn attach_skill(self, name: String, path: String) -> (r: Self)
        ensures
            r.attachments@ == self.attachments@.push(PromptAttachment::Skill { name, path }),
            r == (PromptRunParams { attachments: r.attachments, ..self }),
    {
        self.with_attachment(PromptAttachment::Skill { name, path })
    }
}

/// Leftover work of a prompt stream: post-turn hooks, an optional interrupt
/// and the removal of the thread's scoped tool hooks.
pub struct PromptStreamCleanupPlan {
    pub thread_id: String,
    pub turn_id: String,
    pub run_cwd: String,
    pub run_model: Option<String>,
    pub scoped_hooks: Option<RuntimeHookConfig>,
    pub hook_state: Option<HookExecutionState>,
    pub main_status: &'static str,
    pub send_interrupt: bool,
}

/// What a prompt stream keeps for its cleanup, which runs at most once.
pub struct PromptStreamCleanupState {
    pub run_cwd: String,
    pub run_model: Option<String>,
    pub scoped_hooks: Option<RuntimeHookConfig>,
    pub hook_state: Option<HookExecutionState>,
    pub cleaned_up: bool,
}

/// `s1` and `r` are what taking the cleanup plan makes of `s0`.
pub open spec fn took_plan(
    s0: PromptStreamCleanupState,
    s1: PromptStreamCleanupState,
    thread_id: String,
    turn_id: String,
    main_status: &'static str,
    send_interrupt: bool,
    r: Option<PromptStreamCleanupPlan>,
) -> bool {
    if s0.cleaned_up {
        r is None && s1 == s0
    } else {
        &&& s1.cleaned_up
        &&& s1.hook_state is None
        &&& s1.run_cwd == s0.run_cwd
        &&& s1.run_model == s0.run_model
        &&& s1.scoped_hooks == s0.scoped_hooks
        &&& r matches Some(p)
        &&& p.thread_id == thread_id && p.turn_id == turn_id
        &&& p.run_cwd == s0.run_cwd && p.run_model == s0.run_model
        &&& p.hook_state == s0.hook_state
        &&& (p.scoped_hooks is Some <==> s0.scoped_hooks is Some)
        &&& (s0.scoped_hooks matches Some(h) ==> p.scoped_hooks->0.pre_hooks@ == h.pre_hooks@
            && p.scoped_hooks->0.post_hooks@ == h.post_hooks@ && p.scoped_hooks->0.pre_tool_use_hooks@
            == h.pre_tool_use_hooks@)
        &&& p.main_status == main_status && p.send_interrupt == send_interrupt
    }
}

impl PromptStreamCleanupState {
    pub fn take_plan(&mut self, thread_id: String, turn_id: String, main_status: &'static str, send_interrupt: bool) -> (r: Option<PromptStreamCleanupPlan>)
        ensures
            took_plan(*old(self), *final(self), thread_id, turn_id, main_status, send_interrupt, r),
    {
        if self.cleaned_up {
            return None;
        }
        self.cleaned_up = true;
        let scoped_hooks = match &self.scoped_hooks {
            Some(h) => Some(h.copy()),
            None => None,
        };
        Some(
            PromptStreamCleanupPlan {
                thread_id,
                turn_id,
                run_cwd: self.run_cwd.clone(),
                run_model: clone_opt_string(&self.run_model),
                scoped_hooks,
                hook_state: self.hook_state.take(),
                main_status,
                send_interrupt,
            },
        )
    }
}

/// Cleanup runs at most once: after a plan was taken, taking again yields
/// nothing and changes nothing.
pub proof fn lemma_cleanup_at_most_once(
    s0: PromptStreamCleanupState,
    s1: PromptStreamCleanupState,
    s2: PromptStreamCleanupState,
    t1: String,
    u1: String,
    m1: &'static str,
    i1: bool,
    r1: Option<PromptStreamCleanupPlan>,
    t2: String,
    u2: String,
    m2: &'static str,
    i2: bool,
    r2: Option<PromptStreamCleanupPlan>,
)
    requires
        took_plan(s0, s1, t1, u1, m1, i1, r1),
        took_plan(s1, s2, t2, u2, m2, i2, r2),
    ensures
        r2 is None,
        s2 == s1,
        s1.cleaned_up,
{
}

/// Same error, RPC errors compared by `rpc_error_eq`.
pub open spec fn prompt_error_eq(a: PromptRunError, b: PromptRunError) -> bool {
    match (a, b) {
        (PromptRunError::Rpc(x), PromptRunError::Rpc(y)) => rpc_error_eq(x, y),
        _ => a == b,
    }
}

impl Clone for PromptRunError {
    fn clone(&self) -> (r: Self)
        ensures
            prompt_error_eq(*self, r),
    {
        match self {
            PromptRunError::Rpc(e) => PromptRunError::Rpc(e.clone()),
            PromptRunError::Runtime(e) => PromptRunError::Runtime(e.clone()),
            PromptRunError::BlockedByHook { hook_name, phase, message } => PromptRunError::BlockedByHook {
                hook_name: hook_name.clone(),
                phase: *phase,
                message: message.clone(),
            },
            PromptRunError::Timeout(d) => PromptRunError::Timeout(*d),
            PromptRunError::TurnFailed => PromptRunError::TurnFailed,
            PromptRunError::TurnFailedWithContext(f) => PromptRunError::TurnFailedWithContext(f.clone()),
            PromptRunError::TurnInterrupted => PromptRunError::TurnInterrupted,
            PromptRunError::TurnCompletedWithoutAssistantText(f) => PromptRunError::TurnCompletedWithoutAssistantText(
                f.clone(),
            ),
            PromptRunError::EmptyAssistantText => PromptRunError::EmptyAssistantText,
            PromptRunError::AttachmentNotFound(p) => PromptRunError::AttachmentNotFound(p.clone()),
        }
    }
}

/// The decision core of a scoped prompt stream: which turn it follows, what
/// it has seen, its final result once known, and its one-time cleanup. The
/// embedding application feeds it observations and carries out the plans.
pub struct PromptRunStream {
    pub thread_id: String,
    pub turn_id: String,
    pub state: PromptRunStreamState,
    pub cleanup: PromptStreamCleanupState,
    pub timeout: Duration,
}

/// One step of a prompt stream: the event to hand out, and the cleanup to
/// run when the turn just ended.
pub struct PromptStreamStep {
    pub event: Option<PromptRunStreamEvent>,
    pub cleanup: Option<PromptStreamCleanupPlan>,
}

/// What a prompt stream that waits for its turn does next.
pub enum StreamStep {
    /// Hand out this step's event (none means the stream has finished) and
    /// run its cleanup plan, if it carries one.
    Step(PromptStreamStep),
    /// Nothing to hand out yet: keep reading the live stream.
    KeepWaiting,
    /// The live stream fell behind: read the turn from its thread, within
    /// the time left.
    ProbeLag,
    /// The stream failed: when `interrupt`, ask the server to interrupt the
    /// turn (best effort); then run the cleanup plan, if any.
    Failed { error: PromptRunError, cleanup: Option<PromptStreamCleanupPlan>, interrupt: bool },
}

/// What the live stream gave a prompt stream that waits for its turn.
pub enum LiveRecv {
    /// A notification of the stream's turn, observed.
    Observed(PromptStreamObservation),
    /// The receiver fell behind and missed notifications; `time_left` says
    /// whether any time is left before the deadline.
    Lagged { time_left: bool },
    /// The live stream was closed; the text says why.
    Closed(String),
    /// The deadline passed before anything arrived.
    DeadlinePassed,
}

/// `s1` and `step` are what taking `obs` makes of `s0`, with `collected`
/// the assistant text streamed so far: the event is handed out, a turn error
/// is remembered, and a terminal event stores the run's result and hands out
/// the cleanup plan (status `ok` or `error`).
pub open spec fn observation_applied(
    s0: PromptRunStream,
    s1: PromptRunStream,
    collected: Seq<char>,
    obs: PromptStreamObservation,
    step: PromptStreamStep,
) -> bool {
    &&& step.event == obs.event
    &&& s1.thread_id == s0.thread_id && s1.turn_id == s0.turn_id
    &&& s1.timeout == s0.timeout
    &&& s1.state.lagged_terminal == s0.state.lagged_terminal
    &&& s1.state.last_turn_error == (if obs.turn_error is Some {
        obs.turn_error
    } else {
        s0.state.last_turn_error
    })
    &&& match obs.terminal {
        None => step.cleanup is None && s1.state.final_result == s0.state.final_result && s1.cleanup == s0.cleanup,
        Some(t) => s1.state.final_result matches Some(res) && run_outcome(
            s0.thread_id@,
            s0.turn_id@,
            t,
            collected,
            s0.state.lagged_terminal,
            s1.state.last_turn_error,
            res,
        ) && took_plan(
            s0.cleanup,
            s1.cleanup,
            s0.thread_id,
            s0.turn_id,
            (if res is Ok { "ok" } else { "error" }),
            false,
            step.cleanup,
        ),
    }
}

/// `s1` is `s0` ended with `err`: the error is its final result and the
/// cleanup plan `plan` (status `error`, no interrupt of its own) was taken.
pub open spec fn failed_with(
    s0: PromptRunStream,
    s1: PromptRunStream,
    err: PromptRunError,
    plan: Option<PromptStreamCleanupPlan>,
) -> bool {
    &&& s1.thread_id == s0.thread_id && s1.turn_id == s0.turn_id
    &&& s1.timeout == s0.timeout
    &&& s1.state.last_turn_error == s0.state.last_turn_error
    &&& s1.state.lagged_terminal == s0.state.lagged_terminal
    &&& s1.state.final_result matches Some(Err(e)) && prompt_error_eq(err, e)
    &&& took_plan(s0.cleanup, s1.cleanup, s0.thread_id, s0.turn_id, "error", false, plan)
}

/// `step` is the failure `err` of a stream, with `interrupt` telling whether
/// the turn is to be interrupted, and `s1` what it made of `s0`.
pub open spec fn failure_step(s0: PromptRunStream, s1: PromptRunStream, err: PromptRunError, interrupt: bool, step: StreamStep) -> bool {
    step matches StreamStep::Failed { error, cleanup, interrupt: i } && error == err && i == interrupt && failed_with(
        s0,
        s1,
        err,
        cleanup,
    )
}

/// `s1` is `s0` unchanged.
pub open spec fn unchanged(s0: PromptRunStream, s1: PromptRunStream) -> bool {
    &&& s1.thread_id == s0.thread_id && s1.turn_id == s0.turn_id
    &&& s1.timeout == s0.timeout
    &&& s1.state == s0.state
    &&& s1.cleanup == s0.cleanup
}

impl PromptRunStream {
    pub fn new(thread_id: String, turn_id: String, timeout: Duration, cleanup: PromptStreamCleanupState) -> (r: Self)
        ensures
            r.thread_id == thread_id,
            r.turn_id == turn_id,
            r.timeout == timeout,
            r.cleanup == cleanup,
            r.state.last_turn_error is None,
            r.state.lagged_terminal is None,
            r.state.final_result is None,
    {
        PromptRunStream {
            thread_id,
            turn_id,
            state: PromptRunStreamState { last_turn_error: None, lagged_terminal: None, final_result: None },
            cleanup,
            timeout,
        }
    }

    /// The thread this stream follows.
    pub fn thread_id(&self) -> (r: &str)
        ensures
            r@ == self.thread_id@,
    {
        self.thread_id.as_str()
    }

    /// The turn this stream follows.
    pub fn turn_id(&self) -> (r: &str)
        ensures
            r@ == self.turn_id@,
    {
        self.turn_id.as_str()
    }

    /// The stream has its final result.
    pub fn is_finished(&self) -> (r: bool)
        ensures
            r == self.state.final_result is Some,
    {
        self.state.final_result.is_some()
    }

    /// Remember a terminal snapshot read after the live stream lagged.
    pub fn record_lagged_terminal(&mut self, snapshot: LaggedTurnTerminal)
        ensures
            final(self).state.lagged_terminal == Some(snapshot),
            final(self).state.last_turn_error == old(self).state.last_turn_error,
            final(self).state.final_result == old(self).state.final_result,
            final(self).thread_id == old(self).thread_id && final(self).turn_id == old(self).turn_id,
            final(self).cleanup == old(self).cleanup && final(self).timeout == old(self).timeout,
    {
        self.state.lagged_terminal = Some(snapshot);
    }

    /// Take one observation; `collected` is the assistant text streamed so
    /// far. When the observation ends the turn, the result is stored and the
    /// cleanup plan (with status `ok` or `error`) is handed out.
    pub fn apply_observation(&mut self, collected: String, observation: PromptStreamObservation) -> (r: PromptStreamStep)
        ensures
            observation_applied(*old(self), *final(self), collected@, observation, r),
    {
        let transition = reduce_prompt_stream_observation(
            &mut self.state,
            self.thread_id.as_str(),
            self.turn_id.as_str(),
            collected,
            observation,
        );
        let PromptStreamTransition { event, terminal_result } = transition;
        match terminal_result {
            Some(result) => {
                let status = if result.is_ok() { "ok" } else { "error" };
                let plan = self.cleanup.take_plan(self.thread_id.clone(), self.turn_id.clone(), status, false);
                self.state.final_result = Some(result);
                PromptStreamStep { event, cleanup: plan }
            },
            None => PromptStreamStep { event, cleanup: None },
        }
    }

    /// End the stream with an error: it is stored as the final result and
    /// the cleanup plan (status `error`) is handed out with the error.
    pub fn fail(&mut self, err: PromptRunError) -> (r: (PromptRunError, Option<PromptStreamCleanupPlan>))
        ensures
            r.0 == err,
            failed_with(*old(self), *final(self), err, r.1),
    {
        let plan = self.cleanup.take_plan(self.thread_id.clone(), self.turn_id.clone(), "error", false);
        self.state.final_result = Some(Err(err.clone()));
        (err, plan)
    }

    fn fail_step(&mut self, err: PromptRunError, interrupt: bool) -> (r: StreamStep)
        ensures
            failure_step(*old(self), *final(self), err, interrupt, r),
    {
        let (error, cleanup) = self.fail(err);
        StreamStep::Failed { error, cleanup, interrupt }
    }

    /// Take what the live stream gave; `collected` is the assistant text
    /// streamed so far. An observation is applied: its event is handed out,
    /// or the end of the stream when the turn ended without one, else the
    /// stream waits on. A lag asks to read the turn from its thread while
    /// time is left, and times out otherwise; a closed stream fails with
    /// `live stream closed: <why>`; a passed deadline times out. A timeout
    /// fails with the stream's timeout and interrupts the turn.
    pub fn on_live_recv(&mut self, collected: String, recv: LiveRecv) -> (r: StreamStep)
        ensures
            match recv {
                LiveRecv::Observed(obs) => match r {
                    StreamStep::Step(step) => observation_applied(*old(self), *final(self), collected@, obs, step)
                        && (obs.event is Some || final(self).state.final_result is Some),
                    StreamStep::KeepWaiting => observation_applied(
                        *old(self),
                        *final(self),
                        collected@,
                        obs,
                        PromptStreamStep { event: None, cleanup: None },
                    ) && obs.event is None && final(self).state.final_result is None,
                    _ => false,
                },
                LiveRecv::Lagged { time_left } => if time_left {
                    r is ProbeLag && unchanged(*old(self), *final(self))
                } else {
                    failure_step(*old(self), *final(self), PromptRunError::Timeout(old(self).timeout), true, r)
                },
                LiveRecv::Closed(why) => exists|m: String|
                    m@ == "live stream closed: "@ + why@ && failure_step(
                        *old(self),
                        *final(self),
                        PromptRunError::Runtime(RuntimeError::Internal(m)),
                        false,
                        r,
                    ),
                LiveRecv::DeadlinePassed => failure_step(
                    *old(self),
                    *final(self),
                    PromptRunError::Timeout(old(self).timeout),
                    true,
                    r,
                ),
            },
    {
        match recv {
            LiveRecv::Observed(obs) => {
                let step = self.apply_observation(collected, obs);
                if step.event.is_some() || self.state.final_result.is_some() {
                    StreamStep::Step(step)
                } else {
                    StreamStep::KeepWaiting
                }
            },
            LiveRecv::Lagged { time_left } => {
                if time_left {
                    StreamStep::ProbeLag
                } else {
                    let timeout = self.timeout;
                    self.fail_step(PromptRunError::Timeout(timeout), true)
                }
            },
            LiveRecv::Closed(why) => {
                let m = concat("live stream closed: ", why.as_str());
                self.fail_step(PromptRunError::Runtime(RuntimeError::Internal(m)), false)
            },
            LiveRecv::DeadlinePassed => {
                let timeout = self.timeout;
                self.fail_step(PromptRunError::Timeout(timeout), true)
            },
        }
    }

    /// Take the outcome of reading the turn after the live stream lagged;
    /// `collected` is the assistant text streamed so far. A terminal snapshot
    /// is remembered and ends the turn as a live terminal event would; no
    /// terminal yet means waiting on; a timed-out read times the stream out
    /// (interrupting the turn); another failure fails it with that error.
    pub fn on_lag_probe(&mut self, collected: String, probe: Result<Option<LaggedTurnTerminal>, RpcError>) -> (r: StreamStep)
        ensures
            match probe {
                Ok(None) => r is KeepWaiting && unchanged(*old(self), *final(self)),
                Ok(Some(snapshot)) => r matches StreamStep::Step(step) && lagged_event(
                    old(self).thread_id@,
                    old(self).turn_id@,
                    snapshot,
                    step.event,
                ) && observation_applied(
                    PromptRunStream {
                        state: PromptRunStreamState { lagged_terminal: Some(snapshot), ..old(self).state },
                        ..*old(self)
                    },
                    *final(self),
                    collected@,
                    PromptStreamObservation {
                        event: step.event,
                        terminal: Some(terminal_event_of(snapshot)),
                        turn_error: None,
                    },
                    step,
                ),
                Err(RpcError::Timeout) => failure_step(
                    *old(self),
                    *final(self),
                    PromptRunError::Timeout(old(self).timeout),
                    true,
                    r,
                ),
                Err(err) => failure_step(*old(self), *final(self), PromptRunError::Rpc(err), false, r),
            },
    {
        match probe {
            Ok(found) => match found {
                None => StreamStep::KeepWaiting,
                Some(snapshot) => {
                    let observation = observe_lagged_terminal(self.thread_id.as_str(), self.turn_id.as_str(), &snapshot);
                    self.record_lagged_terminal(snapshot);
                    StreamStep::Step(self.apply_observation(collected, observation))
                },
            },
            Err(err) => {
                let timed_out = match err {
                    RpcError::Timeout => true,
                    _ => false,
                };
                if timed_out {
                    let timeout = self.timeout;
                    self.fail_step(PromptRunError::Timeout(timeout), true)
                } else {
                    self.fail_step(PromptRunError::Rpc(err), false)
                }
            },
        }
    }

    /// The final result, taken out; without one, the stream finished early.
    pub fn take_final_result(&mut self) -> (r: Result<PromptRunResult, PromptRunError>)
        ensures
            match old(self).state.final_result {
                Some(res) => r == res,
                None => r matches Err(PromptRunError::Runtime(RuntimeError::Internal(m)))
                    && m@ == "prompt stream finished without terminal result"@,
            },
            final(self).state.final_result is None,
    {
        match self.state.final_result.take() {
            Some(result) => result,
            None => Err(
                PromptRunError::Runtime(
                    RuntimeError::Internal("prompt stream finished without terminal result".to_owned()),
                ),
            ),
        }
    }
}

/// The local path an attachment names, which must exist before a run
/// (an image URL names none).
pub open spec fn local_path_of(a: PromptAttachment) -> Option<Seq<char>> {
    match a {
        PromptAttachment::AtPath { path, .. } => Some(path@),
        PromptAttachment::LocalImage { path } => Some(path@),
        PromptAttachment::Skill { path, .. } => Some(path@),
        PromptAttachment::ImageUrl { .. } => None,
    }
}

/// The local paths of the attachments, in order.
pub open spec fn local_paths(attachments: Seq<PromptAttachment>) -> Seq<Seq<char>>
    decreases attachments.len(),
{
    if attachments.len() == 0 {
        Seq::empty()
    } else {
        let rest = local_paths(attachments.drop_last());
        match local_path_of(attachments.last()) {
            Some(p) => rest.push(p),
            None => rest,
        }
    }
}

/// `cwd` joined with `path` by the Unix path rules: a `path` that starts
/// with `/` is absolute and stands alone; otherwise `/` separates the two,
/// unless `cwd` is empty or already ends with `/`.
pub open spec fn joined_path(cwd: Seq<char>, path: Seq<char>) -> Seq<char> {
    if path.len() > 0 && path[0] == '/' {
        path
    } else if cwd.len() == 0 || cwd.last() == '/' {
        cwd + path
    } else {
        cwd + "/"@ + path
    }
}

/// Where an attachment path points: relative to the working directory
/// unless it is absolute.
pub fn resolve_attachment_path(cwd: &str, path: &str) -> (r: String)
    ensures
        r@ == joined_path(cwd@, path@),
{
    let p = crate::text::chars_of(path);
    if p.len() > 0 && p[0] == '/' {
        return path.to_owned();
    }
    let c = crate::text::chars_of(cwd);
    if c.len() == 0 || c[c.len() - 1] == '/' {
        concat(cwd, path)
    } else {
        let with_sep = concat(cwd, "/");
        let r = concat(with_sep.as_str(), path);
        proof {
            assert(r@ == cwd@ + "/"@ + path@);
        }
        r
    }
}


/// The paths of the attachments that must exist on disk, in order.
pub fn attachment_local_paths(attachments: &[PromptAttachment]) -> (r: Vec<String>)
    ensures
        r@.map_values(|s: String| s@) == local_paths(attachments@),
{
    let mut out: Vec<String> = Vec::new();
    let mut i: usize = 0;
    while i < attachments.len()
        invariant
            i <= attachments@.len(),
            out@.map_values(|s: String| s@) == local_paths(attachments@.take(i as int)),
        decreases attachments.len() - i,
    {
        proof {
            assert(attachments@.take(i as int + 1).drop_last() =~= attachments@.take(i as int));
        }
        match &attachments[i] {
            PromptAttachment::AtPath { path, .. } | PromptAttachment::LocalImage { path } | PromptAttachment::Skill {
                path,
                ..
            } => {
                out.push(path.clone());
            },
            PromptAttachment::ImageUrl { .. } => {},
        }
        i += 1;
        proof {
            assert(out@.map_values(|s: String| s@) =~= local_paths(attachments@.take(i as int)));
        }
    }
    proof {
        assert(attachments@.take(attachments@.len() as int) =~= attachments@);
    }
    out
}

/// Checks the attachments' resolved paths in order: the first one that does
/// not exist (`exists[i]` false) is reported as `AttachmentNotFound`.
pub fn validate_prompt_attachments(resolved: &Vec<String>, exists: &Vec<bool>) -> (r: Result<(), PromptRunError>)
    requires
        resolved@.len() == exists@.len(),
    ensures
        r is Ok <==> forall|i: int| 0 <= i < exists@.len() ==> exists@[i],
        r is Err ==> exists|i: int|
            0 <= i < exists@.len() && !exists@[i] && (forall|j: int| 0 <= j < i ==> exists@[j])
                && r == Err::<(), PromptRunError>(PromptRunError::AttachmentNotFound(resolved@[i])),
{
    let mut i: usize = 0;
    while i < exists.len()
        invariant
            i <= exists@.len(),
            resolved@.len() == exists@.len(),
            forall|j: int| 0 <= j < i ==> exists@[j],
        decreases exists.len() - i,
    {
        if !exists[i] {
            return Err(PromptRunError::AttachmentNotFound(resolved[i].clone()));
        }
        i += 1;
    }
    Ok(())
}

/// Every attachment that names a file on disk, a path mention, a local
/// image or a skill, has its path checked before a run, in the order of the
/// attachments; an image URL is the only kind not checked, and no path is
/// checked that no attachment names.
pub proof fn lemma_local_attachments_are_checked(atts: Seq<PromptAttachment>)
    ensures
        forall|i: int|
            #![trigger atts[i]]
            0 <= i < atts.len() ==> match atts[i] {
                PromptAttachment::AtPath { path, .. } => local_paths(atts).contains(path@),
                PromptAttachment::LocalImage { path } => local_paths(atts).contains(path@),
                PromptAttachment::Skill { path, .. } => local_paths(atts).contains(path@),
                PromptAttachment::ImageUrl { .. } => true,
            },
        local_paths(atts).len() <= atts.len(),
        forall|i: int| 0 <= i < atts.len() ==> !(#[trigger] atts[i] is ImageUrl) ==> local_paths(atts).len() > 0,
        forall|p: Seq<char>|
            local_paths(atts).contains(p) ==> exists|i: int|
                #![trigger atts[i]]
                0 <= i < atts.len() && match atts[i] {
                    PromptAttachment::AtPath { path, .. } => path@ == p,
                    PromptAttachment::LocalImage { path } => path@ == p,
                    PromptAttachment::Skill { path, .. } => path@ == p,
                    PromptAttachment::ImageUrl { .. } => false,
                },
    decreases atts.len(),
{
    if atts.len() > 0 {
        let d = atts.drop_last();
        lemma_local_attachments_are_checked(d);
        let prev = local_paths(d);
        let cur = local_paths(atts);
        assert(forall|k: int| 0 <= k < prev.len() ==> cur[k] == prev[k]);
        assert forall|i: int|
            #![trigger atts[i]]
            0 <= i < atts.len() implies match atts[i] {
                PromptAttachment::AtPath { path, .. } => cur.contains(path@),
                PromptAttachment::LocalImage { path } => cur.contains(path@),
                PromptAttachment::Skill { path, .. } => cur.contains(path@),
                PromptAttachment::ImageUrl { .. } => true,
            } by {
            if i < d.len() {
                assert(atts[i] == d[i]);
                if let Some(p) = local_path_of(atts[i]) {
                    assert(prev.contains(p));
                    let k = choose|k: int| 0 <= k < prev.len() && prev[k] == p;
                    assert(cur[k] == p);
                }
            } else {
                assert(atts[i] == atts.last());
                if let Some(p) = local_path_of(atts[i]) {
                    assert(cur[cur.len() - 1] == p);
                }
            }
        }
        assert forall|i: int| 0 <= i < atts.len() && !(#[trigger] atts[i] is ImageUrl) implies cur.len() > 0 by {
            if i < d.len() {
                assert(atts[i] == d[i]);
            }
        }
        assert forall|p: Seq<char>| cur.contains(p) implies exists|i: int|
            #![trigger atts[i]]
            0 <= i < atts.len() && match atts[i] {
                PromptAttachment::AtPath { path, .. } => path@ == p,
                PromptAttachment::LocalImage { path } => path@ == p,
                PromptAttachment::Skill { path, .. } => path@ == p,
                PromptAttachment::ImageUrl { .. } => false,
            } by {
            let k = choose|k: int| 0 <= k < cur.len() && cur[k] == p;
            if k < prev.len() {
                assert(prev.contains(p));
                let i = choose|i: int|
                    #![trigger d[i]]
                    0 <= i < d.len() && match d[i] {
                        PromptAttachment::AtPath { path, .. } => path@ == p,
                        PromptAttachment::LocalImage { path } => path@ == p,
                        PromptAttachment::Skill { path, .. } => path@ == p,
                        PromptAttachment::ImageUrl { .. } => false,
                    };
                assert(atts[i] == d[i]);
            } else {
                let i = atts.len() - 1;
                assert(atts[i] == atts.last());
            }
        }
    }
}

} // verus!
