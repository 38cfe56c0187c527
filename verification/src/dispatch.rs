//! Decisions of the dispatcher: how responses are routed, how server
//! requests are keyed, answered, checked and expired, and what a
//! pre-tool-use hook run answers.
use vstd::prelude::*;
use crate::json::{JsonValue, JsonNumber, spec_get, spec_as_text, json_eq};
use crate::errors::{RpcError, RuntimeError};
use crate::events::JsonRpcId;
use crate::approvals::TimeoutAction;
use crate::rpc::{map_rpc_error, rpc_error_of};
use crate::io_policy::{
    timeout_result_payload, timeout_error_payload, timeout_result, compute_deadline_millis, deadline, request_kind,
    ServerRequestPlanKind,
};
use crate::text::{concat, str_eq, u64_to_decimal, decimal};
use crate::methods::{
    ITEM_COMMAND_EXECUTION_REQUEST_APPROVAL, ITEM_FILE_CHANGE_REQUEST_APPROVAL,
    ITEM_TOOL_REQUEST_USER_INPUT, ITEM_TOOL_CALL, ACCOUNT_CHATGPT_AUTH_TOKENS_REFRESH,
};

verus! {

/// A server request waiting for an answer, as the dispatcher tracks it.
#[derive(Debug, PartialEq, Eq)]
pub struct PendingServerRequestEntry {
    pub rpc_id: JsonRpcId,
    pub rpc_key: String,
    pub method: String,
    pub created_at_millis: i64,
    pub deadline_millis: i64,
}

/// Outcome of a JSON-RPC response message: its `error` mapped, else its
/// `result` (`null` when absent).
pub open spec fn response_outcome(json: JsonValue, r: Result<JsonValue, RpcError>) -> bool {
    match spec_get(json, "error"@) {
        Some(e) => r matches Err(x) && rpc_error_of(e, x),
        None => match spec_get(json, "result"@) {
            Some(v) => r matches Ok(x) && json_eq(v, x),
            None => r == Ok::<JsonValue, RpcError>(JsonValue::Null),
        },
    }
}

pub fn response_result(json: &JsonValue) -> (r: Result<JsonValue, RpcError>)
    ensures
        response_outcome(*json, r),
{
    match json.get("error") {
        Some(err) => Err(map_rpc_error(err)),
        None => match json.get("result") {
            Some(v) => Ok(v.deep_clone()),
            None => Ok(JsonValue::Null),
        },
    }
}

/// Key under which a server request is tracked (and its approval id):
/// `n:<number>` or `s:<text>`.
pub open spec fn state_key(id: JsonRpcId) -> Seq<char> {
    match id {
        JsonRpcId::Number(v) => "n:"@ + decimal(v as nat),
        JsonRpcId::Text(v) => "s:"@ + v@,
    }
}

pub fn jsonrpc_state_key(id: &JsonRpcId) -> (r: String)
    ensures
        r@ == state_key(*id),
{
    match id {
        JsonRpcId::Number(v) => {
            let digits = u64_to_decimal(*v);
            concat("n:", digits.as_str())
        },
        JsonRpcId::Text(v) => concat("s:", v.as_str()),
    }
}

/// Distinct ids get distinct keys.
#[verifier::spinoff_prover]
pub proof fn lemma_state_key_injective(a: JsonRpcId, b: JsonRpcId)
    requires
        state_key(a) == state_key(b),
    ensures
        match (a, b) {
            (JsonRpcId::Number(x), JsonRpcId::Number(y)) => x == y,
            (JsonRpcId::Text(x), JsonRpcId::Text(y)) => x@ == y@,
            _ => false,
        },
{
    reveal_strlit("n:");
    reveal_strlit("s:");
    let ka = state_key(a);
    let kb = state_key(b);
    assert(ka[0] == kb[0]);
    match (a, b) {
        (JsonRpcId::Number(x), JsonRpcId::Number(y)) => {
            assert(ka.skip(2) == decimal(x as nat));
            assert(kb.skip(2) == decimal(y as nat));
            lemma_decimal_injective(x as nat, y as nat);
        },
        (JsonRpcId::Text(x), JsonRpcId::Text(y)) => {
            assert(ka.skip(2) == x@);
            assert(kb.skip(2) == y@);
        },
        _ => {},
    }
}

proof fn lemma_decimal_len(n: nat)
    ensures
        decimal(n).len() >= 1,
    decreases n,
{
    if n >= 10 {
        lemma_decimal_len(n / 10);
    }
}

proof fn lemma_decimal_injective(x: nat, y: nat)
    requires
        decimal(x) == decimal(y),
    ensures
        x == y,
    decreases x,
{
    let dx = decimal(x);
    let dy = decimal(y);
    if x < 10 && y < 10 {
        assert(dx[0] == crate::text::digit_char(x));
        assert(dy[0] == crate::text::digit_char(y));
    } else if x >= 10 && y >= 10 {
        assert(dx.drop_last() == decimal(x / 10));
        assert(dy.drop_last() == decimal(y / 10));
        lemma_decimal_injective(x / 10, y / 10);
        assert(dx.last() == crate::text::digit_char(x % 10));
        assert(dy.last() == crate::text::digit_char(y % 10));
    } else if x < 10 {
        lemma_decimal_len(y / 10);
        assert(dy.len() >= 2);
    } else {
        lemma_decimal_len(x / 10);
        assert(dx.len() >= 2);
    }
}

/// A JSON-RPC id as a JSON value.
pub fn jsonrpc_id_to_value(id: &JsonRpcId) -> (r: JsonValue)
    ensures
        r == (match *id {
            JsonRpcId::Number(v) => JsonValue::Number(JsonNumber::PosInt(v)),
            JsonRpcId::Text(v) => JsonValue::Text(r->Text_0),
        }),
        id matches JsonRpcId::Text(v) ==> r matches JsonValue::Text(t) && t@ == v@,
{
    match id {
        JsonRpcId::Number(v) => JsonValue::Number(JsonNumber::PosInt(*v)),
        JsonRpcId::Text(v) => JsonValue::Text(v.clone()),
    }
}

proof fn lemma_message_keys()
    ensures
        "id"@ != "result"@,
        "id"@ != "error"@,
{
    reveal_strlit("id");
    reveal_strlit("result");
    reveal_strlit("error");
    assert("id"@.len() == 2 && "result"@.len() == 6 && "error"@.len() == 5);
}

/// A JSON-RPC response carrying `result` for request `rpc_id`.
pub fn rpc_result_message(rpc_id: &JsonRpcId, result: JsonValue) -> (r: JsonValue)
    ensures
        r is Object,
        spec_get(r, "id"@) matches Some(v) && v == jsonrpc_id_to_value_spec(*rpc_id, v),
        spec_get(r, "result"@) == Some(result),
{
    proof {
        lemma_message_keys();
    }
    JsonValue::object().with("id", jsonrpc_id_to_value(rpc_id)).with("result", result)
}

/// A JSON-RPC error response carrying `error` for request `rpc_id`.
pub fn rpc_error_message(rpc_id: &JsonRpcId, error: JsonValue) -> (r: JsonValue)
    ensures
        r is Object,
        spec_get(r, "id"@) matches Some(v) && v == jsonrpc_id_to_value_spec(*rpc_id, v),
        spec_get(r, "error"@) == Some(error),
{
    proof {
        lemma_message_keys();
    }
    JsonValue::object().with("id", jsonrpc_id_to_value(rpc_id)).with("error", error)
}

/// `v` is the JSON form of `id` (a text id compared by its characters).
pub open spec fn jsonrpc_id_to_value_spec(id: JsonRpcId, v: JsonValue) -> JsonValue {
    match id {
        JsonRpcId::Number(n) => JsonValue::Number(JsonNumber::PosInt(n)),
        JsonRpcId::Text(t) => if v matches JsonValue::Text(s) && s@ == t@ {
            v
        } else {
            JsonValue::Text(t)
        },
    }
}

/// How a timed-out server request is answered.
#[derive(Debug, PartialEq)]
pub enum TimeoutResponse {
    /// Send this result.
    Result(JsonValue),
    /// Send this JSON-RPC error.
    Error(JsonValue),
    /// No answer can be built.
    Fail(RuntimeError),
}

/// Shape of the timeout error object for `method`.
pub open spec fn timeout_error_shape(e: JsonValue, method: Seq<char>) -> bool {
    &&& e is Object
    &&& spec_get(e, "code"@) == Some(JsonValue::Number(JsonNumber::NegInt(-32000i64)))
    &&& spec_as_text(spec_get(e, "message"@)) == Some("server request timed out"@)
    &&& spec_get(e, "data"@) matches Some(d) && spec_as_text(spec_get(d, "method"@)) == Some(method)
}

/// A token refresh always gets the timeout error; otherwise the configured
/// action decides: a decline or cancel result of the request's shape, or the
/// timeout error.
pub open spec fn timeout_response(method: Seq<char>, action: TimeoutAction, r: TimeoutResponse) -> bool {
    if method == ACCOUNT_CHATGPT_AUTH_TOKENS_REFRESH@ || action == TimeoutAction::Error {
        r matches TimeoutResponse::Error(e) && timeout_error_shape(e, method)
    } else {
        let cancel = action == TimeoutAction::Cancel;
        match r {
            TimeoutResponse::Result(v) => timeout_result(method, cancel, Ok(v)),
            TimeoutResponse::Fail(e) => timeout_result(method, cancel, Err(e)),
            TimeoutResponse::Error(_) => false,
        }
    }
}

pub fn plan_timeout_response(method: &str, on_timeout: TimeoutAction) -> (r: TimeoutResponse)
    ensures
        timeout_response(method@, on_timeout, r),
{
    if str_eq(method, ACCOUNT_CHATGPT_AUTH_TOKENS_REFRESH) {
        return TimeoutResponse::Error(timeout_error_payload(method));
    }
    match on_timeout {
        TimeoutAction::Decline => match timeout_result_payload(method, false) {
            Ok(v) => TimeoutResponse::Result(v),
            Err(e) => TimeoutResponse::Fail(e),
        },
        TimeoutAction::Cancel => match timeout_result_payload(method, true) {
            Ok(v) => TimeoutResponse::Result(v),
            Err(e) => TimeoutResponse::Fail(e),
        },
        TimeoutAction::Error => TimeoutResponse::Error(timeout_error_payload(method)),
    }
}

pub open spec fn internal(r: Result<(), RuntimeError>, m: Seq<char>) -> bool {
    r matches Err(RuntimeError::Internal(x)) && x@ == m
}

/// Check of an application's answer to a server request, by the request's
/// method: approvals need a decision, user input an `answers` object, tool
/// calls `success` and `contentItems`, token refreshes the tokens; other
/// methods are not checked.
pub open spec fn answer_check(method: Seq<char>, v: JsonValue, r: Result<(), RuntimeError>) -> bool {
    if method == ITEM_COMMAND_EXECUTION_REQUEST_APPROVAL@ || method == ITEM_FILE_CHANGE_REQUEST_APPROVAL@ {
        match spec_get(v, "decision"@) {
            Some(JsonValue::Text(_)) => r is Ok,
            Some(JsonValue::Object(m)) if m@.len() > 0 => r is Ok,
            _ => internal(r, "invalid approval payload for "@ + method + ": missing decision"@),
        }
    } else if method == ITEM_TOOL_REQUEST_USER_INPUT@ {
        if !(v is Object) {
            internal(r, "invalid requestUserInput payload: expected object"@)
        } else if !(spec_get(v, "answers"@) matches Some(JsonValue::Object(_))) {
            internal(r, "invalid requestUserInput payload: missing answers object"@)
        } else {
            r is Ok
        }
    } else if method == ITEM_TOOL_CALL@ {
        if !(v is Object) {
            internal(r, "invalid dynamic tool call payload: expected object"@)
        } else if !(spec_get(v, "success"@) matches Some(JsonValue::Bool(_))) {
            internal(r, "invalid dynamic tool call payload: missing success boolean"@)
        } else if !(spec_get(v, "contentItems"@) matches Some(JsonValue::Array(_))) {
            internal(r, "invalid dynamic tool call payload: missing contentItems array"@)
        } else {
            r is Ok
        }
    } else if method == ACCOUNT_CHATGPT_AUTH_TOKENS_REFRESH@ {
        if !(v is Object) {
            internal(r, "invalid auth refresh payload: expected object"@)
        } else if !(spec_get(v, "accessToken"@) matches Some(JsonValue::Text(_))) {
            internal(r, "invalid auth refresh payload: missing accessToken"@)
        } else if !(spec_get(v, "chatgptAccountId"@) matches Some(JsonValue::Text(_))) {
            internal(r, "invalid auth refresh payload: missing chatgptAccountId"@)
        } else if !(match spec_get(v, "chatgptPlanType"@) {
            None => true,
            Some(JsonValue::Text(_)) => true,
            Some(JsonValue::Null) => true,
            _ => false,
        }) {
            internal(r, "invalid auth refresh payload: chatgptPlanType must be string|null"@)
        } else {
            r is Ok
        }
    } else {
        r is Ok
    }
}

fn err_internal(m: &str) -> (r: Result<(), RuntimeError>)
    ensures
        internal(r, m@),
{
    Err(RuntimeError::Internal(m.to_owned()))
}

pub fn validate_server_request_result_payload(method: &str, result: &JsonValue) -> (r: Result<(), RuntimeError>)
    ensures
        answer_check(method@, *result, r),
{
    if str_eq(method, ITEM_COMMAND_EXECUTION_REQUEST_APPROVAL) || str_eq(method, ITEM_FILE_CHANGE_REQUEST_APPROVAL) {
        match result.get("decision") {
            Some(JsonValue::Text(_)) => Ok(()),
            Some(JsonValue::Object(m)) if m.len() > 0 => Ok(()),
            _ => {
                let mut msg = concat("invalid approval payload for ", method);
                crate::text::push_str(&mut msg, ": missing decision");
                Err(RuntimeError::Internal(msg))
            },
        }
    } else if str_eq(method, ITEM_TOOL_REQUEST_USER_INPUT) {
        if !result.is_object() {
            return err_internal("invalid requestUserInput payload: expected object");
        }
        match result.get("answers") {
            Some(JsonValue::Object(_)) => Ok(()),
            _ => err_internal("invalid requestUserInput payload: missing answers object"),
        }
    } else if str_eq(method, ITEM_TOOL_CALL) {
        if !result.is_object() {
            return err_internal("invalid dynamic tool call payload: expected object");
        }
        match result.get("success") {
            Some(JsonValue::Bool(_)) => {},
            _ => return err_internal("invalid dynamic tool call payload: missing success boolean"),
        }
        match result.get("contentItems") {
            Some(JsonValue::Array(_)) => Ok(()),
            _ => err_internal("invalid dynamic tool call payload: missing contentItems array"),
        }
    } else if str_eq(method, ACCOUNT_CHATGPT_AUTH_TOKENS_REFRESH) {
        if !result.is_object() {
            return err_internal("invalid auth refresh payload: expected object");
        }
        match result.get("accessToken") {
            Some(JsonValue::Text(_)) => {},
            _ => return err_internal("invalid auth refresh payload: missing accessToken"),
        }
        match result.get("chatgptAccountId") {
            Some(JsonValue::Text(_)) => {},
            _ => return err_internal("invalid auth refresh payload: missing chatgptAccountId"),
        }
        match result.get("chatgptPlanType") {
            None => Ok(()),
            Some(JsonValue::Text(_)) => Ok(()),
            Some(JsonValue::Null) => Ok(()),
            _ => err_internal("invalid auth refresh payload: chatgptPlanType must be string|null"),
        }
    } else {
        Ok(())
    }
}

/// Whether a server request of `method` is routed through pre-tool-use hooks
/// (command and file-change approvals).
pub open spec fn tool_approval_method(method: Seq<char>) -> bool {
    method == ITEM_COMMAND_EXECUTION_REQUEST_APPROVAL@ || method == ITEM_FILE_CHANGE_REQUEST_APPROVAL@
}

pub fn is_tool_approval_method(method: &str) -> (r: bool)
    ensures
        r == tool_approval_method(method@),
{
    str_eq(method, ITEM_COMMAND_EXECUTION_REQUEST_APPROVAL) || str_eq(method, ITEM_FILE_CHANGE_REQUEST_APPROVAL)
}

/// The answer to an approval decided by pre-tool-use hooks: accept, or
/// decline when a hook blocked.
pub fn tool_use_decision(blocked: bool) -> (r: JsonValue)
    ensures
        r is Object,
        spec_as_text(spec_get(r, "decision"@)) == Some(if blocked { "decline"@ } else { "accept"@ }),
{
    let d = if blocked { "decline" } else { "accept" };
    JsonValue::object().with("decision", JsonValue::text(d))
}

/// Entries past their deadline at `now` (deadline not after `now`).
pub open spec fn expired_at(e: PendingServerRequestEntry, now: i64) -> bool {
    e.deadline_millis <= now
}

/// Split the pending entries into those still waiting and those expired at
/// `now`, each in their original order.
pub fn split_expired(entries: Vec<PendingServerRequestEntry>, now: i64) -> (r: (Vec<PendingServerRequestEntry>, Vec<PendingServerRequestEntry>))
    ensures
        r.0@ == entries@.filter(|e: PendingServerRequestEntry| !expired_at(e, now)),
        r.1@ == entries@.filter(|e: PendingServerRequestEntry| expired_at(e, now)),
{
    let ghost all = entries@;
    let mut kept: Vec<PendingServerRequestEntry> = Vec::new();
    let mut expired: Vec<PendingServerRequestEntry> = Vec::new();
    let mut rest = entries;
    let mut i: usize = 0;
    assert(all.len() == rest.len());
    proof {
        assert(all.take(0) == Seq::<PendingServerRequestEntry>::empty());
    }
    while rest.len() > 0
        invariant
            i <= all.len(),
            all.len() <= usize::MAX,
            rest@ == all.skip(i as int),
            kept@ == all.take(i as int).filter(|e: PendingServerRequestEntry| !expired_at(e, now)),
            expired@ == all.take(i as int).filter(|e: PendingServerRequestEntry| expired_at(e, now)),
        decreases rest.len(),
    {
        let e = rest.remove(0);
        proof {
            assert(all[i as int] == e);
            let t = all.take(i + 1);
            assert(t.drop_last() == all.take(i as int));
            assert(t.last() == e);
            assert(rest@ == all.skip(i + 1));
            all.take(i as int).lemma_filter_push(e, |e: PendingServerRequestEntry| !expired_at(e, now));
            all.take(i as int).lemma_filter_push(e, |e: PendingServerRequestEntry| expired_at(e, now));
            assert(all.take(i as int).push(e) == t);
        }
        if e.deadline_millis <= now {
            expired.push(e);
        } else {
            kept.push(e);
        }
        i += 1;
    }
    proof {
        assert(all.take(i as int) == all);
    }
    (kept, expired)
}

/// How a server request is handled when it arrives.
#[derive(Debug, PartialEq)]
pub enum ServerRequestRoute {
    /// Run the pre-tool-use hooks and answer the request, whose id this is,
    /// at once with their decision.
    RunToolUseHooks(JsonRpcId),
    /// Track the request as pending and hand it to the application.
    Queue(PendingServerRequestEntry),
}

/// A command or file-change approval goes through the pre-tool-use hooks
/// when any is registered; every other request is queued, keyed by its id,
/// with a deadline `default_timeout_ms` after `now`.
pub open spec fn server_request_route(
    rpc_id: JsonRpcId,
    method: Seq<char>,
    has_pre_tool_use_hooks: bool,
    now: i64,
    default_timeout_ms: u64,
    r: ServerRequestRoute,
) -> bool {
    if tool_approval_method(method) && has_pre_tool_use_hooks {
        r == ServerRequestRoute::RunToolUseHooks(rpc_id)
    } else {
        r matches ServerRequestRoute::Queue(e) && e.rpc_id == rpc_id && e.rpc_key@ == state_key(rpc_id)
            && e.method@ == method && e.created_at_millis == now && e.deadline_millis == deadline(
            now,
            default_timeout_ms,
        )
    }
}

pub fn route_server_request(
    rpc_id: JsonRpcId,
    method: &str,
    has_pre_tool_use_hooks: bool,
    now: i64,
    default_timeout_ms: u64,
) -> (r: ServerRequestRoute)
    ensures
        server_request_route(rpc_id, method@, has_pre_tool_use_hooks, now, default_timeout_ms, r),
{
    if is_tool_approval_method(method) && has_pre_tool_use_hooks {
        return ServerRequestRoute::RunToolUseHooks(rpc_id);
    }
    let rpc_key = jsonrpc_state_key(&rpc_id);
    ServerRequestRoute::Queue(
        PendingServerRequestEntry {
            rpc_id,
            rpc_key,
            method: method.to_owned(),
            created_at_millis: now,
            deadline_millis: compute_deadline_millis(now, default_timeout_ms),
        },
    )
}

/// Index of the first pending entry keyed `key`, or -1.
pub open spec fn entry_index(pending: Seq<PendingServerRequestEntry>, key: Seq<char>) -> int
    decreases pending.len(),
{
    if pending.len() == 0 {
        -1
    } else if pending[0].rpc_key@ == key {
        0
    } else {
        let r = entry_index(pending.drop_first(), key);
        if r < 0 {
            -1
        } else {
            r + 1
        }
    }
}

proof fn lemma_entry_index(pending: Seq<PendingServerRequestEntry>, key: Seq<char>)
    ensures
        -1 <= entry_index(pending, key) < pending.len(),
        entry_index(pending, key) >= 0 ==> pending[entry_index(pending, key)].rpc_key@ == key,
        forall|j: int|
            0 <= j < pending.len() && (j < entry_index(pending, key) || entry_index(pending, key) < 0)
                ==> #[trigger] pending[j].rpc_key@ != key,
    decreases pending.len(),
{
    if pending.len() > 0 && pending[0].rpc_key@ != key {
        let rest = pending.drop_first();
        lemma_entry_index(rest, key);
        assert forall|j: int|
            0 <= j < pending.len() && (j < entry_index(pending, key) || entry_index(pending, key) < 0)
            implies #[trigger] pending[j].rpc_key@ != key by {
            if j > 0 {
                assert(pending[j] == rest[j - 1]);
                assert(rest[j - 1].rpc_key@ != key);
            }
        }
    }
}

/// After handing a queued request to the application: when it was not
/// delivered (the queue is full or closed), its pending entry, the first keyed
/// `rpc_key`, is taken out and answered at once by the timeout policy; when
/// it was delivered, or no entry is keyed so, nothing changes.
pub fn settle_server_request_handoff(
    delivered: bool,
    pending: &mut Vec<PendingServerRequestEntry>,
    rpc_key: &str,
    on_timeout: TimeoutAction,
) -> (r: Option<(PendingServerRequestEntry, TimeoutResponse)>)
    ensures
        ({
            let i = entry_index(old(pending)@, rpc_key@);
            if delivered || i < 0 {
                r is None && final(pending)@ == old(pending)@
            } else {
                r matches Some((e, resp)) && e == old(pending)@[i] && final(pending)@ == old(pending)@.remove(i)
                    && timeout_response(e.method@, on_timeout, resp)
            }
        }),
{
    proof {
        lemma_entry_index(pending@, rpc_key@);
    }
    if delivered {
        return None;
    }
    let mut i: usize = 0;
    while i < pending.len()
        invariant
            !delivered,
            i <= pending@.len(),
            pending@ == old(pending)@,
            forall|j: int| 0 <= j < i ==> #[trigger] pending@[j].rpc_key@ != rpc_key@,
        decreases pending.len() - i,
    {
        if str_eq(pending[i].rpc_key.as_str(), rpc_key) {
            proof {
                lemma_entry_index(pending@, rpc_key@);
                let k = entry_index(pending@, rpc_key@);
                assert(pending@[i as int].rpc_key@ == rpc_key@);
                if k >= 0 && k < i {
                    assert(pending@[k].rpc_key@ != rpc_key@);
                }
                assert(k == i);
            }
            let entry = pending.remove(i);
            let resp = plan_timeout_response(entry.method.as_str(), on_timeout);
            return Some((entry, resp));
        }
        i += 1;
    }
    proof {
        lemma_entry_index(pending@, rpc_key@);
        let k = entry_index(pending@, rpc_key@);
        if k >= 0 {
            assert(pending@[k].rpc_key@ != rpc_key@);
        }
    }
    None
}

/// An application's answer is accepted for a request of `method`.
pub open spec fn answer_accepted(method: Seq<char>, v: JsonValue) -> bool {
    answer_check(method, v, Ok(()))
}

/// Take the pending request an application answers. An unknown id is
/// refused with `approval id not found: <id>`; a result (`Some`) that fails
/// the check of the request's method is refused with that check's error and
/// the request stays pending; otherwise the request, the first keyed by the
/// id, is taken out.
pub fn take_answered_request(
    pending: &mut Vec<PendingServerRequestEntry>,
    approval_id: &str,
    result: Option<&JsonValue>,
) -> (r: Result<PendingServerRequestEntry, RuntimeError>)
    ensures
        ({
            let i = entry_index(old(pending)@, approval_id@);
            if i < 0 {
                final(pending)@ == old(pending)@ && (r matches Err(RuntimeError::Internal(m)) && m@
                    == "approval id not found: "@ + approval_id@)
            } else {
                match result {
                    Some(v) => if answer_accepted(old(pending)@[i].method@, *v) {
                        r == Ok::<PendingServerRequestEntry, RuntimeError>(old(pending)@[i]) && final(pending)@
                            == old(pending)@.remove(i)
                    } else {
                        final(pending)@ == old(pending)@ && (r matches Err(e) && answer_check(
                            old(pending)@[i].method@,
                            *v,
                            Err(e),
                        ))
                    },
                    None => r == Ok::<PendingServerRequestEntry, RuntimeError>(old(pending)@[i]) && final(pending)@
                        == old(pending)@.remove(i),
                }
            }
        }),
{
    let mut i: usize = 0;
    while i < pending.len()
        invariant
            i <= pending@.len(),
            pending@ == old(pending)@,
            forall|j: int| 0 <= j < i ==> #[trigger] pending@[j].rpc_key@ != approval_id@,
        decreases pending.len() - i,
    {
        if str_eq(pending[i].rpc_key.as_str(), approval_id) {
            proof {
                lemma_entry_index(pending@, approval_id@);
                let k = entry_index(pending@, approval_id@);
                assert(pending@[i as int].rpc_key@ == approval_id@);
                if k >= 0 && k < i {
                    assert(pending@[k].rpc_key@ != approval_id@);
                }
                assert(k == i);
            }
            match result {
                Some(v) => {
                    let checked = validate_server_request_result_payload(pending[i].method.as_str(), v);
                    match checked {
                        Ok(()) => {},
                        Err(e) => return Err(e),
                    }
                },
                None => {},
            }
            return Ok(pending.remove(i));
        }
        i += 1;
    }
    proof {
        lemma_entry_index(pending@, approval_id@);
        let k = entry_index(pending@, approval_id@);
        if k >= 0 {
            assert(pending@[k].rpc_key@ != approval_id@);
        }
    }
    Err(RuntimeError::Internal(concat("approval id not found: ", approval_id)))
}

/// Hand out the server-request receiver; it can be taken once, and a
/// later request is refused with `ServerRequestReceiverTaken`.
pub fn take_server_request_receiver<T>(slot: &mut Option<T>) -> (r: Result<T, RuntimeError>)
    ensures
        *final(slot) == None::<T>,
        match *old(slot) {
            Some(x) => r == Ok::<T, RuntimeError>(x),
            None => r == Err::<T, RuntimeError>(RuntimeError::ServerRequestReceiverTaken),
        },
{
    match slot.take() {
        Some(x) => Ok(x),
        None => Err(RuntimeError::ServerRequestReceiverTaken),
    }
}

/// The two approval requests for tools, command execution and file changes,
/// are decided by the pre-tool-use hooks when any are installed: for any
/// id, time and timeout, such a request is routed to the hooks and not
/// queued for the application. Every other request is queued.
pub proof fn lemma_tool_approvals_go_to_hooks(rpc_id: JsonRpcId, method: Seq<char>, now: i64, timeout_ms: u64)
    ensures
        forall|r: ServerRequestRoute|
            server_request_route(rpc_id, ITEM_COMMAND_EXECUTION_REQUEST_APPROVAL@, true, now, timeout_ms, r) ==> r
                == ServerRequestRoute::RunToolUseHooks(rpc_id),
        forall|r: ServerRequestRoute|
            server_request_route(rpc_id, ITEM_FILE_CHANGE_REQUEST_APPROVAL@, true, now, timeout_ms, r) ==> r
                == ServerRequestRoute::RunToolUseHooks(rpc_id),
        forall|r: ServerRequestRoute|
            server_request_route(rpc_id, method, false, now, timeout_ms, r) ==> r is Queue,
{
}

/// The methods routed through the pre-tool-use hooks are exactly the
/// command and file-change approvals among the server requests.
pub proof fn lemma_tool_approval_methods_are_approval_requests(method: Seq<char>)
    ensures
        tool_approval_method(method) <==> (request_kind(method) == Some(
            ServerRequestPlanKind::CommandExecutionRequestApproval,
        ) || request_kind(method) == Some(ServerRequestPlanKind::FileChangeRequestApproval)),
{
}

} // verus!
