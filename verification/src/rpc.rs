//! JSON-RPC message classification and dispatch metadata.
use vstd::prelude::*;
use crate::errors::{RpcError, RpcErrorObject, opt_json_eq, clone_opt_json};
use crate::events::{JsonRpcId, MsgKind};
use crate::ids::{extract_item_id, extract_thread_id, extract_turn_id, field_id, opt_view, or_else, opt_ref};
use crate::json::{JsonValue, JsonNumber, spec_get, spec_as_text, spec_as_i64, spec_as_u64};
use crate::text::{chars_of, parse_unsigned, parse_unsigned_chars};

verus! {

#[derive(Debug, PartialEq, Eq)]
pub struct ExtractedIds {
    pub thread_id: Option<String>,
    pub turn_id: Option<String>,
    pub item_id: Option<String>,
}

#[derive(Debug, PartialEq, Eq)]
pub struct MsgMetadata {
    pub kind: MsgKind,
    pub response_id: Option<u64>,
    pub rpc_id: Option<JsonRpcId>,
    pub method: Option<String>,
    pub thread_id: Option<String>,
    pub turn_id: Option<String>,
    pub item_id: Option<String>,
}

/// Kind of a message from which of `id`, `method`, `result`, `error` are present.
pub open spec fn shape_kind(has_id: bool, has_method: bool, has_result: bool, has_error: bool) -> MsgKind {
    if has_id && !has_method && (has_result || has_error) {
        MsgKind::Response
    } else if has_id && has_method && !has_result && !has_error {
        MsgKind::ServerRequest
    } else if has_method && !has_id {
        MsgKind::Notification
    } else {
        MsgKind::Unknown
    }
}

/// Kind of a raw message.
pub open spec fn message_kind(json: JsonValue) -> MsgKind {
    shape_kind(
        spec_get(json, "id"@) is Some,
        spec_get(json, "method"@) is Some,
        spec_get(json, "result"@) is Some,
        spec_get(json, "error"@) is Some,
    )
}

/// Numeric response id: a non-negative integer, or a string that parses as one.
pub open spec fn response_id_of(id: Option<JsonValue>) -> Option<u64> {
    match id {
        Some(JsonValue::Number(_)) => spec_as_u64(id),
        Some(JsonValue::Text(s)) => match parse_unsigned(s@, u64::MAX as nat) {
            Some(n) => Some(n as u64),
            None => None,
        },
        _ => None,
    }
}

/// Request id as a typed JSON-RPC id.
pub open spec fn rpc_id_matches(id: Option<JsonValue>, r: Option<JsonRpcId>) -> bool {
    match id {
        Some(JsonValue::Number(_)) => match spec_as_u64(id) {
            Some(n) => r == Some(JsonRpcId::Number(n)),
            None => r is None,
        },
        Some(JsonValue::Text(s)) => r matches Some(JsonRpcId::Text(t)) && t@ == s@,
        _ => r is None,
    }
}

/// Id found in an optional payload root.
pub open spec fn root_id(root: Option<JsonValue>, camel_key: Seq<char>, object_key: Seq<char>) -> Option<Seq<char>> {
    match root {
        Some(r) => field_id(r, camel_key, object_key),
        None => None,
    }
}

/// Id found in the first of the roots `params`, `result`, `error.data` and the message itself.
pub open spec fn message_id(json: JsonValue, camel_key: Seq<char>, object_key: Seq<char>) -> Option<Seq<char>> {
    or_else(
        root_id(spec_get(json, "params"@), camel_key, object_key),
        or_else(
            root_id(spec_get(json, "result"@), camel_key, object_key),
            or_else(
                root_id(match spec_get(json, "error"@) {
                    Some(e) => spec_get(e, "data"@),
                    None => None,
                }, camel_key, object_key),
                field_id(json, camel_key, object_key),
            ),
        ),
    )
}

pub fn classify_jsonrpc_shape(has_id: bool, has_method: bool, has_result: bool, has_error: bool) -> (r: MsgKind)
    ensures
        r == shape_kind(has_id, has_method, has_result, has_error),
{
    if has_id && !has_method && (has_result || has_error) {
        return MsgKind::Response;
    }
    if has_id && has_method && !has_result && !has_error {
        return MsgKind::ServerRequest;
    }
    if has_method && !has_id {
        return MsgKind::Notification;
    }
    MsgKind::Unknown
}

/// Classify a raw JSON message by key presence.
pub fn classify_message(json: &JsonValue) -> (r: MsgKind)
    ensures
        r == message_kind(*json),
{
    let has_id = json.get("id").is_some();
    let has_method = json.get("method").is_some();
    let has_result = json.get("result").is_some();
    let has_error = json.get("error").is_some();
    classify_jsonrpc_shape(has_id, has_method, has_result, has_error)
}

fn parse_response_rpc_id_value(id_value: Option<&JsonValue>) -> (r: Option<u64>)
    ensures
        r == response_id_of(opt_ref(id_value)),
{
    match id_value {
        Some(JsonValue::Number(_)) => id_value.unwrap().as_u64(),
        Some(JsonValue::Text(text)) => {
            let chars = chars_of(text.as_str());
            parse_unsigned_chars(&chars, u64::MAX)
        },
        _ => None,
    }
}

fn parse_jsonrpc_id_value(id_value: Option<&JsonValue>) -> (r: Option<JsonRpcId>)
    ensures
        rpc_id_matches(opt_ref(id_value), r),
{
    match id_value {
        Some(JsonValue::Number(_)) => match id_value.unwrap().as_u64() {
            Some(n) => Some(JsonRpcId::Number(n)),
            None => None,
        },
        Some(JsonValue::Text(text)) => Some(JsonRpcId::Text(text.clone())),
        _ => None,
    }
}

fn root_extract(root: Option<&JsonValue>, which: u8) -> (r: Option<String>)
    requires
        which < 3,
    ensures
        opt_view(r) == (if which == 0 {
            root_id(opt_ref(root), "threadId"@, "thread"@)
        } else if which == 1 {
            root_id(opt_ref(root), "turnId"@, "turn"@)
        } else {
            root_id(opt_ref(root), "itemId"@, "item"@)
        }),
{
    match root {
        Some(v) => if which == 0 {
            extract_thread_id(v)
        } else if which == 1 {
            extract_turn_id(v)
        } else {
            extract_item_id(v)
        },
        None => None,
    }
}

fn first_root_id(json: &JsonValue, which: u8) -> (r: Option<String>)
    requires
        which < 3,
    ensures
        opt_view(r) == (if which == 0 {
            message_id(*json, "threadId"@, "thread"@)
        } else if which == 1 {
            message_id(*json, "turnId"@, "turn"@)
        } else {
            message_id(*json, "itemId"@, "item"@)
        }),
{
    let from_params = root_extract(json.get("params"), which);
    if from_params.is_some() {
        return from_params;
    }
    let from_result = root_extract(json.get("result"), which);
    if from_result.is_some() {
        return from_result;
    }
    let data = match json.get("error") {
        Some(e) => e.get("data"),
        None => None,
    };
    let from_data = root_extract(data, which);
    if from_data.is_some() {
        return from_data;
    }
    root_extract(Some(json), which)
}

/// Dispatch metadata of one message: kind, ids and method.
pub fn extract_message_metadata(json: &JsonValue) -> (r: MsgMetadata)
    ensures
        r.kind == message_kind(*json),
        r.response_id == response_id_of(spec_get(*json, "id"@)),
        rpc_id_matches(spec_get(*json, "id"@), r.rpc_id),
        opt_view(r.method) == spec_as_text(spec_get(*json, "method"@)),
        opt_view(r.thread_id) == message_id(*json, "threadId"@, "thread"@),
        opt_view(r.turn_id) == message_id(*json, "turnId"@, "turn"@),
        opt_view(r.item_id) == message_id(*json, "itemId"@, "item"@),
{
    let id_value = json.get("id");
    let kind = classify_message(json);
    let method = match json.get("method") {
        Some(JsonValue::Text(m)) => Some(m.clone()),
        _ => None,
    };
    let response_id = parse_response_rpc_id_value(id_value);
    let rpc_id = parse_jsonrpc_id_value(id_value);
    let thread_id = first_root_id(json, 0);
    let turn_id = first_root_id(json, 1);
    let item_id = first_root_id(json, 2);
    MsgMetadata { kind, response_id, rpc_id, method, thread_id, turn_id, item_id }
}

/// Best-effort thread/turn/item ids of one message.
pub fn extract_ids(json: &JsonValue) -> (r: ExtractedIds)
    ensures
        opt_view(r.thread_id) == message_id(*json, "threadId"@, "thread"@),
        opt_view(r.turn_id) == message_id(*json, "turnId"@, "turn"@),
        opt_view(r.item_id) == message_id(*json, "itemId"@, "item"@),
{
    let meta = extract_message_metadata(json);
    ExtractedIds { thread_id: meta.thread_id, turn_id: meta.turn_id, item_id: meta.item_id }
}

/// The error a JSON-RPC error object maps to.
pub open spec fn rpc_error_of(json_error: JsonValue, r: RpcError) -> bool {
    let message = match spec_as_text(spec_get(json_error, "message"@)) {
        Some(m) => m,
        None => "unknown rpc error"@,
    };
    match spec_as_i64(spec_get(json_error, "code"@)) {
        Some(-32001) => r == RpcError::Overloaded,
        Some(-32600) => r matches RpcError::InvalidRequest(m) && m@ == message,
        Some(-32601) => r matches RpcError::MethodNotFound(m) && m@ == message,
        Some(code) => r matches RpcError::ServerError(o) && o.code == code && o.message@ == message
            && opt_json_eq(spec_get(json_error, "data"@), o.data),
        None => r matches RpcError::InvalidRequest(m) && m@ == "invalid rpc error payload"@,
    }
}

/// Map a JSON-RPC error object into a typed error.
pub fn map_rpc_error(json_error: &JsonValue) -> (r: RpcError)
    ensures
        rpc_error_of(*json_error, r),
{
    let code = match json_error.get("code") {
        Some(c) => c.as_i64(),
        None => None,
    };
    let message = match json_error.get("message") {
        Some(JsonValue::Text(m)) => m.clone(),
        _ => "unknown rpc error".to_owned(),
    };
    match code {
        Some(-32001) => RpcError::Overloaded,
        Some(-32600) => RpcError::InvalidRequest(message),
        Some(-32601) => RpcError::MethodNotFound(message),
        Some(code) => {
            let data = match json_error.get("data") {
                Some(d) => Some(d.deep_clone()),
                None => None,
            };
            RpcError::ServerError(RpcErrorObject { code, message, data })
        },
        None => RpcError::InvalidRequest("invalid rpc error payload".to_owned()),
    }
}

/// A message with an id and no method is a response whenever it carries a
/// result or an error: an error response is a response just as a result is,
/// and neither member is needed alongside the other.
pub proof fn lemma_error_or_result_makes_a_response(has_result: bool, has_error: bool)
    ensures
        (has_result || has_error) ==> shape_kind(true, false, has_result, has_error) == MsgKind::Response,
        shape_kind(true, false, false, true) == shape_kind(true, false, true, false),
        !(has_result || has_error) ==> shape_kind(true, false, has_result, has_error) != MsgKind::Response,
{
}

/// How the members of a message decide its kind: a response has an id and a
/// result or an error but no method; a server request has an id and a
/// method but neither a result nor an error; a notification has a method and
/// no id; a message with neither id nor method is of no known kind.
pub proof fn lemma_message_kinds(has_id: bool, has_method: bool, has_result: bool, has_error: bool)
    ensures
        shape_kind(has_id, has_method, has_result, has_error) == MsgKind::Response <==> (has_id && !has_method && (
        has_result || has_error)),
        shape_kind(has_id, has_method, has_result, has_error) == MsgKind::ServerRequest <==> (has_id && has_method
            && !has_result && !has_error),
        shape_kind(has_id, has_method, has_result, has_error) == MsgKind::Notification <==> (has_method && !has_id),
        !has_id && !has_method ==> shape_kind(has_id, has_method, has_result, has_error) == MsgKind::Unknown,
{
}

/// Every message with an `id`, no `method` and an `error` member is
/// classified as a response, whether or not it also has a `result`.
pub proof fn lemma_error_message_is_response(json: JsonValue)
    requires
        spec_get(json, "id"@) is Some,
        spec_get(json, "method"@) is None,
        spec_get(json, "error"@) is Some,
    ensures
        message_kind(json) == MsgKind::Response,
{
}

} // verus!
