//! Wire envelopes and the typed runtime notifications decoded from them.
use vstd::prelude::*;
use crate::json::{JsonValue, json_eq, spec_get, opt_get, spec_as_text, spec_as_i64};
use crate::ids::{opt_view, or_else, opt_ref, get_in};
use crate::text::{str_eq, push_str, clone_opt_string};
use crate::command_exec::{CommandExecOutputDeltaNotification, decode_output_delta, output_delta_of};

verus! {

#[derive(Debug, PartialEq, Eq, Hash)]
pub enum JsonRpcId {
    Number(u64),
    Text(String),
}

impl Clone for JsonRpcId {
    fn clone(&self) -> (r: Self)
        ensures
            r == *self,
    {
        match self {
            JsonRpcId::Number(n) => JsonRpcId::Number(*n),
            JsonRpcId::Text(s) => JsonRpcId::Text(s.clone()),
        }
    }
}

#[derive(Clone, Copy, Debug, PartialEq, Eq, Structural)]
pub enum Direction {
    Inbound,
    Outbound,
}

#[derive(Clone, Copy, Debug, PartialEq, Eq, Structural)]
pub enum MsgKind {
    Response,
    ServerRequest,
    Notification,
    Unknown,
}

/// One message observed on the connection, with the metadata extracted at dispatch.
#[derive(Debug, PartialEq)]
pub struct Envelope {
    pub seq: u64,
    pub ts_millis: i64,
    pub direction: Direction,
    pub kind: MsgKind,
    pub rpc_id: Option<JsonRpcId>,
    pub method: Option<String>,
    pub thread_id: Option<String>,
    pub turn_id: Option<String>,
    pub item_id: Option<String>,
    pub json: JsonValue,
}


#[derive(Clone, Copy, Debug, Default, PartialEq, Eq)]
pub struct SkillsChangedNotification {}

#[derive(Clone, Debug, PartialEq, Eq)]
pub struct AgentMessageDeltaNotification {
    pub thread_id: String,
    pub turn_id: String,
    pub item_id: Option<String>,
    pub delta: String,
}

#[derive(Clone, Debug, PartialEq, Eq)]
pub struct TurnCompletedNotification {
    pub thread_id: String,
    pub turn_id: String,
    pub text: Option<String>,
}

#[derive(Clone, Debug, PartialEq, Eq)]
pub struct TurnFailedNotification {
    pub thread_id: String,
    pub turn_id: String,
    pub code: Option<i64>,
    pub message: Option<String>,
}

#[derive(Clone, Debug, PartialEq, Eq)]
pub struct TurnInterruptedNotification {
    pub thread_id: String,
    pub turn_id: String,
}

#[derive(Clone, Debug, PartialEq, Eq)]
pub struct TurnCancelledNotification {
    pub thread_id: String,
    pub turn_id: String,
}

/// Payload of an `fs/changed` notification, kept as sent.
pub type FsChangedNotification = JsonValue;

#[derive(Debug, PartialEq)]
pub enum RuntimeNotification {
    SkillsChanged(SkillsChangedNotification),
    FsChanged(FsChangedNotification),
    CommandExecOutputDelta(CommandExecOutputDeltaNotification),
    AgentMessageDelta(AgentMessageDeltaNotification),
    TurnCompleted(TurnCompletedNotification),
    TurnFailed(TurnFailedNotification),
    TurnInterrupted(TurnInterruptedNotification),
    TurnCancelled(TurnCancelledNotification),
    /// Notification of a method without a narrower typed projection.
    Other { method: String, params: JsonValue },
}

/// Text of `params`: `item.text`, `text`, `outputText` or `output.text`, else
/// the concatenated `text` of the `item.content` parts (absent when empty).
pub open spec fn params_text(p: JsonValue) -> Option<Seq<char>> {
    or_else(
        spec_as_text(opt_get(spec_get(p, "item"@), "text"@)),
        or_else(
            spec_as_text(spec_get(p, "text"@)),
            or_else(
                spec_as_text(spec_get(p, "outputText"@)),
                or_else(spec_as_text(opt_get(spec_get(p, "output"@), "text"@)), content_text(p)),
            ),
        ),
    )
}

pub open spec fn part_text(part: JsonValue) -> Seq<char> {
    match spec_as_text(spec_get(part, "text"@)) {
        Some(t) => t,
        None => Seq::empty(),
    }
}

/// Concatenated `text` of the parts.
pub open spec fn joined_text(parts: Seq<JsonValue>) -> Seq<char>
    decreases parts.len(),
{
    if parts.len() == 0 {
        Seq::empty()
    } else {
        joined_text(parts.drop_last()) + part_text(parts.last())
    }
}

pub open spec fn content_text(p: JsonValue) -> Option<Seq<char>> {
    match opt_get(spec_get(p, "item"@), "content"@) {
        Some(JsonValue::Array(parts)) => {
            let j = joined_text(parts@);
            if j.len() == 0 {
                None
            } else {
                Some(j)
            }
        },
        _ => None,
    }
}

/// Message of an error payload: `message`, `detail`, `reason`, `text` or `error.message`.
pub open spec fn error_message_of(root: JsonValue) -> Option<Seq<char>> {
    or_else(
        spec_as_text(spec_get(root, "message"@)),
        or_else(
            spec_as_text(spec_get(root, "detail"@)),
            or_else(
                spec_as_text(spec_get(root, "reason"@)),
                or_else(
                    spec_as_text(spec_get(root, "text"@)),
                    spec_as_text(opt_get(spec_get(root, "error"@), "message"@)),
                ),
            ),
        ),
    )
}

/// Code of an error payload: `code`, else `error.code`.
pub open spec fn error_code_of(root: JsonValue) -> Option<i64> {
    or_else(spec_as_i64(spec_get(root, "code"@)), spec_as_i64(opt_get(spec_get(root, "error"@), "code"@)))
}

/// Text of `params` (see `params_text`).
pub fn extract_text_from_params(params: &JsonValue) -> (r: Option<String>)
    ensures
        opt_view(r) == params_text(*params),
{
    let item = params.get("item");
    match get_in(item, "text") {
        Some(JsonValue::Text(t)) => return Some(t.clone()),
        _ => {},
    }
    match params.get("text") {
        Some(JsonValue::Text(t)) => return Some(t.clone()),
        _ => {},
    }
    match params.get("outputText") {
        Some(JsonValue::Text(t)) => return Some(t.clone()),
        _ => {},
    }
    match get_in(params.get("output"), "text") {
        Some(JsonValue::Text(t)) => return Some(t.clone()),
        _ => {},
    }
    let parts = match get_in(item, "content") {
        Some(JsonValue::Array(parts)) => parts,
        _ => return None,
    };
    let mut joined = String::new();
    let mut i: usize = 0;
    while i < parts.len()
        invariant
            i <= parts@.len(),
            joined@ == joined_text(parts@.take(i as int)),
        decreases parts.len() - i,
    {
        proof {
            assert(parts@.take(i + 1).drop_last() == parts@.take(i as int));
        }
        match parts[i].get("text") {
            Some(JsonValue::Text(t)) => push_str(&mut joined, t.as_str()),
            _ => {
                proof {
                    assert(joined@ == joined@ + Seq::<char>::empty());
                }
            },
        }
        i += 1;
    }
    proof {
        assert(parts@.take(parts@.len() as int) == parts@);
    }
    if joined.as_str().is_empty() {
        proof {
            assert(joined@.len() == 0);
        }
        None
    } else {
        Some(joined)
    }
}

/// Code and message of an error payload.
pub fn extract_error_message(root: &JsonValue) -> (r: (Option<i64>, Option<String>))
    ensures
        r.0 == error_code_of(*root),
        opt_view(r.1) == error_message_of(*root),
{
    let err = root.get("error");
    let message = match root.get("message") {
        Some(JsonValue::Text(t)) => Some(t.clone()),
        _ => match root.get("detail") {
            Some(JsonValue::Text(t)) => Some(t.clone()),
            _ => match root.get("reason") {
                Some(JsonValue::Text(t)) => Some(t.clone()),
                _ => match root.get("text") {
                    Some(JsonValue::Text(t)) => Some(t.clone()),
                    _ => match get_in(err, "message") {
                        Some(JsonValue::Text(t)) => Some(t.clone()),
                        _ => None,
                    },
                },
            },
        },
    };
    let code = match root.get("code") {
        Some(c) => match c.as_i64() {
            Some(n) => Some(n),
            None => match get_in(err, "code") {
                Some(e) => e.as_i64(),
                None => None,
            },
        },
        None => match get_in(err, "code") {
            Some(e) => e.as_i64(),
            None => None,
        },
    };
    (code, message)
}

/// Ids of a turn-scoped envelope, when both are present.
pub open spec fn turn_ids_present(env: Envelope) -> bool {
    env.thread_id is Some && env.turn_id is Some
}

pub open spec fn same_ids(env: Envelope, thread_id: String, turn_id: String) -> bool {
    thread_id@ == env.thread_id->0@ && turn_id@ == env.turn_id->0@
}

/// What a notification envelope decodes to.
pub open spec fn decoded(env: Envelope, r: Option<RuntimeNotification>) -> bool {
    if env.kind != MsgKind::Notification || env.method is None {
        r is None
    } else {
        let m = env.method->0@;
        let params = spec_get(env.json, "params"@);
        if m == "skills/changed"@ {
            r == Some(RuntimeNotification::SkillsChanged(SkillsChangedNotification {  }))
        } else if m == "fs/changed"@ {
            match params {
                Some(p) => r matches Some(RuntimeNotification::FsChanged(x)) && json_eq(p, x),
                None => r is None,
            }
        } else if m == "command/exec/outputDelta"@ {
            match params {
                Some(p) => exists|n: Option<CommandExecOutputDeltaNotification>| output_delta_of(p, n)
                    && match n {
                    Some(x) => r == Some(RuntimeNotification::CommandExecOutputDelta(x)),
                    None => r is None,
                },
                None => r is None,
            }
        } else if m == "item/agentMessage/delta"@ {
            let delta = spec_as_text(opt_get(params, "delta"@));
            if turn_ids_present(env) && delta is Some {
                r matches Some(RuntimeNotification::AgentMessageDelta(n)) && same_ids(
                    env,
                    n.thread_id,
                    n.turn_id,
                ) && opt_view(n.item_id) == opt_view(env.item_id) && n.delta@ == delta->0
            } else {
                r is None
            }
        } else if m == "turn/completed"@ {
            if turn_ids_present(env) && params is Some {
                r matches Some(RuntimeNotification::TurnCompleted(n)) && same_ids(
                    env,
                    n.thread_id,
                    n.turn_id,
                ) && opt_view(n.text) == params_text(params->0)
            } else {
                r is None
            }
        } else if m == "turn/failed"@ {
            if turn_ids_present(env) && params is Some {
                r matches Some(RuntimeNotification::TurnFailed(n)) && same_ids(
                    env,
                    n.thread_id,
                    n.turn_id,
                ) && n.code == error_code_of(params->0) && opt_view(n.message) == error_message_of(
                    params->0,
                )
            } else {
                r is None
            }
        } else if m == "turn/interrupted"@ {
            if turn_ids_present(env) {
                r matches Some(RuntimeNotification::TurnInterrupted(n)) && same_ids(
                    env,
                    n.thread_id,
                    n.turn_id,
                )
            } else {
                r is None
            }
        } else if m == "turn/cancelled"@ {
            if turn_ids_present(env) {
                r matches Some(RuntimeNotification::TurnCancelled(n)) && same_ids(
                    env,
                    n.thread_id,
                    n.turn_id,
                )
            } else {
                r is None
            }
        } else {
            r matches Some(RuntimeNotification::Other { method, params: p }) && method@ == m
                && match params {
                Some(x) => json_eq(x, p),
                None => p is Null,
            }
        }
    }
}


/// Typed runtime notification of a live envelope (`None` for non-notifications
/// and for known methods whose payload is incomplete).
pub fn decode_notification(envelope: &Envelope) -> (r: Option<RuntimeNotification>)
    ensures
        decoded(*envelope, r),
{
    if envelope.kind != MsgKind::Notification {
        return None;
    }
    let method = match &envelope.method {
        Some(m) => m,
        None => return None,
    };
    let params = envelope.json.get("params");
    let m = method.as_str();
    let ids_present = envelope.thread_id.is_some() && envelope.turn_id.is_some();
    if str_eq(m, "skills/changed") {
        Some(RuntimeNotification::SkillsChanged(SkillsChangedNotification {  }))
    } else if str_eq(m, "fs/changed") {
        match params {
            Some(p) => Some(RuntimeNotification::FsChanged(p.deep_clone())),
            None => None,
        }
    } else if str_eq(m, "command/exec/outputDelta") {
        match params {
            Some(p) => match decode_output_delta(p) {
                Some(n) => Some(RuntimeNotification::CommandExecOutputDelta(n)),
                None => None,
            },
            None => None,
        }
    } else if str_eq(m, "item/agentMessage/delta") {
        let delta = match get_in(params, "delta") {
            Some(JsonValue::Text(d)) => d.clone(),
            _ => return None,
        };
        if !ids_present {
            return None;
        }
        Some(
            RuntimeNotification::AgentMessageDelta(
                AgentMessageDeltaNotification {
                    thread_id: envelope.thread_id.as_ref().unwrap().clone(),
                    turn_id: envelope.turn_id.as_ref().unwrap().clone(),
                    item_id: clone_opt_string(&envelope.item_id),
                    delta,
                },
            ),
        )
    } else if str_eq(m, "turn/completed") {
        if !ids_present {
            return None;
        }
        match params {
            Some(p) => Some(
                RuntimeNotification::TurnCompleted(
                    TurnCompletedNotification {
                        thread_id: envelope.thread_id.as_ref().unwrap().clone(),
                        turn_id: envelope.turn_id.as_ref().unwrap().clone(),
                        text: extract_text_from_params(p),
                    },
                ),
            ),
            None => None,
        }
    } else if str_eq(m, "turn/failed") {
        if !ids_present {
            return None;
        }
        match params {
            Some(p) => {
                let (code, message) = extract_error_message(p);
                Some(
                    RuntimeNotification::TurnFailed(
                        TurnFailedNotification {
                            thread_id: envelope.thread_id.as_ref().unwrap().clone(),
                            turn_id: envelope.turn_id.as_ref().unwrap().clone(),
                            code,
                            message,
                        },
                    ),
                )
            },
            None => None,
        }
    } else if str_eq(m, "turn/interrupted") {
        if !ids_present {
            return None;
        }
        Some(
            RuntimeNotification::TurnInterrupted(
                TurnInterruptedNotification {
                    thread_id: envelope.thread_id.as_ref().unwrap().clone(),
                    turn_id: envelope.turn_id.as_ref().unwrap().clone(),
                },
            ),
        )
    } else if str_eq(m, "turn/cancelled") {
        if !ids_present {
            return None;
        }
        Some(
            RuntimeNotification::TurnCancelled(
                TurnCancelledNotification {
                    thread_id: envelope.thread_id.as_ref().unwrap().clone(),
                    turn_id: envelope.turn_id.as_ref().unwrap().clone(),
                },
            ),
        )
    } else {
        let p = match params {
            Some(p) => p.deep_clone(),
            None => JsonValue::Null,
        };
        Some(RuntimeNotification::Other { method: method.clone(), params: p })
    }
}

/// The zero-payload `skills/changed` invalidation notification.
pub fn extract_skills_changed_notification(envelope: &Envelope) -> (r: Option<SkillsChangedNotification>)
    ensures
        r is Some <==> envelope.kind == MsgKind::Notification && envelope.method is Some
            && envelope.method->0@ == "skills/changed"@,
{
    match decode_notification(envelope) {
        Some(RuntimeNotification::SkillsChanged(n)) => Some(n),
        _ => None,
    }
}

/// One `fs/changed` notification payload.
pub fn extract_fs_changed_notification(envelope: &Envelope) -> (r: Option<FsChangedNotification>)
    ensures
        match r {
            Some(n) => decoded(*envelope, Some(RuntimeNotification::FsChanged(n))),
            None => !(exists|n: FsChangedNotification| decoded(*envelope, Some(RuntimeNotification::FsChanged(n)))),
        },
{
    match decode_notification(envelope) {
        Some(RuntimeNotification::FsChanged(n)) => Some(n),
        _ => None,
    }
}

/// One `command/exec/outputDelta` notification.
pub fn extract_command_exec_output_delta(envelope: &Envelope) -> (r: Option<CommandExecOutputDeltaNotification>)
    ensures
        match r {
            Some(n) => decoded(*envelope, Some(RuntimeNotification::CommandExecOutputDelta(n))),
            None => !(exists|n: CommandExecOutputDeltaNotification| decoded(*envelope, Some(RuntimeNotification::CommandExecOutputDelta(n)))),
        },
{
    match decode_notification(envelope) {
        Some(RuntimeNotification::CommandExecOutputDelta(n)) => Some(n),
        _ => None,
    }
}

/// One `item/agentMessage/delta` notification.
pub fn extract_agent_message_delta(envelope: &Envelope) -> (r: Option<AgentMessageDeltaNotification>)
    ensures
        match r {
            Some(n) => decoded(*envelope, Some(RuntimeNotification::AgentMessageDelta(n))),
            None => !(exists|n: AgentMessageDeltaNotification| decoded(*envelope, Some(RuntimeNotification::AgentMessageDelta(n)))),
        },
{
    match decode_notification(envelope) {
        Some(RuntimeNotification::AgentMessageDelta(n)) => Some(n),
        _ => None,
    }
}

/// One `turn/completed` notification.
pub fn extract_turn_completed(envelope: &Envelope) -> (r: Option<TurnCompletedNotification>)
    ensures
        match r {
            Some(n) => decoded(*envelope, Some(RuntimeNotification::TurnCompleted(n))),
            None => !(exists|n: TurnCompletedNotification| decoded(*envelope, Some(RuntimeNotification::TurnCompleted(n)))),
        },
{
    match decode_notification(envelope) {
        Some(RuntimeNotification::TurnCompleted(n)) => Some(n),
        _ => None,
    }
}

/// One `turn/failed` notification.
pub fn extract_turn_failed(envelope: &Envelope) -> (r: Option<TurnFailedNotification>)
    ensures
        match r {
            Some(n) => decoded(*envelope, Some(RuntimeNotification::TurnFailed(n))),
            None => !(exists|n: TurnFailedNotification| decoded(*envelope, Some(RuntimeNotification::TurnFailed(n)))),
        },
{
    match decode_notification(envelope) {
        Some(RuntimeNotification::TurnFailed(n)) => Some(n),
        _ => None,
    }
}

/// One `turn/interrupted` notification.
pub fn extract_turn_interrupted(envelope: &Envelope) -> (r: Option<TurnInterruptedNotification>)
    ensures
        match r {
            Some(n) => decoded(*envelope, Some(RuntimeNotification::TurnInterrupted(n))),
            None => !(exists|n: TurnInterruptedNotification| decoded(*envelope, Some(RuntimeNotification::TurnInterrupted(n)))),
        },
{
    match decode_notification(envelope) {
        Some(RuntimeNotification::TurnInterrupted(n)) => Some(n),
        _ => None,
    }
}

/// One `turn/cancelled` notification.
pub fn extract_turn_cancelled(envelope: &Envelope) -> (r: Option<TurnCancelledNotification>)
    ensures
        match r {
            Some(n) => decoded(*envelope, Some(RuntimeNotification::TurnCancelled(n))),
            None => !(exists|n: TurnCancelledNotification| decoded(*envelope, Some(RuntimeNotification::TurnCancelled(n)))),
        },
{
    match decode_notification(envelope) {
        Some(RuntimeNotification::TurnCancelled(n)) => Some(n),
        _ => None,
    }
}

} // verus!
