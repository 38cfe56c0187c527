//! What pre-tool-use hooks learn of an approval request: the tool's name and
//! its input.
use vstd::prelude::*;
use crate::json::{JsonValue, spec_get, json_eq};
use crate::text::{is_ws, is_whitespace, chars_of, string_from_range, str_eq};
use crate::plugin::{HookContext, HookPhase};
use crate::methods::{ITEM_COMMAND_EXECUTION_REQUEST_APPROVAL, ITEM_FILE_CHANGE_REQUEST_APPROVAL, ITEM_TOOL_CALL};
use crate::text::concat;

verus! {

/// Index of the first character of `s` from `from` on for which `ws` is
/// `want`, or `s.len()`.
pub open spec fn scan(s: Seq<char>, from: int, want: bool) -> int
    decreases s.len() - from,
{
    if from >= s.len() || from < 0 {
        s.len() as int
    } else if is_ws(s[from]) == want {
        from
    } else {
        scan(s, from + 1, want)
    }
}

/// First whitespace-separated word of `s` (`split_whitespace().next()`).
pub open spec fn first_word(s: Seq<char>) -> Option<Seq<char>> {
    let start = scan(s, 0, false);
    if start >= s.len() {
        None
    } else {
        Some(s.subrange(start, scan(s, start, true)))
    }
}

fn scan_exec(v: &Vec<char>, from: usize, want: bool) -> (r: usize)
    requires
        from <= v@.len(),
    ensures
        r == scan(v@, from as int, want),
        from <= r <= v@.len(),
{
    let mut i = from;
    while i < v.len() && is_whitespace(v[i]) != want
        invariant
            from <= i <= v@.len(),
            scan(v@, from as int, want) == scan(v@, i as int, want),
        decreases v.len() - i,
    {
        i += 1;
    }
    i
}

pub fn first_whitespace_word(s: &str) -> (r: Option<String>)
    ensures
        match first_word(s@) {
            Some(w) => r matches Some(x) && x@ == w,
            None => r is None,
        },
{
    let v = chars_of(s);
    let start = scan_exec(&v, 0, false);
    if start >= v.len() {
        return None;
    }
    let end = scan_exec(&v, start, true);
    Some(string_from_range(&v, start, end))
}

/// Tool name of an approval request: the command's program for a command
/// approval, `file_change` for a file change, `toolName` of a tool call.
pub open spec fn tool_name_of(method: Seq<char>, params: JsonValue) -> Option<Seq<char>> {
    if method == ITEM_COMMAND_EXECUTION_REQUEST_APPROVAL@ {
        match spec_get(params, "command"@) {
            Some(JsonValue::Text(c)) => first_word(c@),
            _ => None,
        }
    } else if method == ITEM_FILE_CHANGE_REQUEST_APPROVAL@ {
        Some("file_change"@)
    } else if method == ITEM_TOOL_CALL@ {
        match spec_get(params, "toolName"@) {
            Some(JsonValue::Text(n)) => Some(n@),
            _ => None,
        }
    } else {
        None
    }
}

pub fn extract_tool_name(method: &str, params: &JsonValue) -> (r: Option<String>)
    ensures
        crate::flow::opt_string_view(r) == tool_name_of(method@, *params),
{
    if str_eq(method, ITEM_COMMAND_EXECUTION_REQUEST_APPROVAL) {
        match params.get("command") {
            Some(JsonValue::Text(c)) => first_whitespace_word(c.as_str()),
            _ => None,
        }
    } else if str_eq(method, ITEM_FILE_CHANGE_REQUEST_APPROVAL) {
        Some("file_change".to_owned())
    } else if str_eq(method, ITEM_TOOL_CALL) {
        match params.get("toolName") {
            Some(JsonValue::Text(n)) => Some(n.clone()),
            _ => None,
        }
    } else {
        None
    }
}

/// Tool input of an approval request: its params, unless they are `null`.
pub fn extract_tool_input(params: &JsonValue) -> (r: Option<JsonValue>)
    ensures
        params is Null ==> r is None,
        !(params is Null) ==> (r matches Some(v) && json_eq(*params, v)),
{
    if params.is_null() {
        None
    } else {
        Some(params.deep_clone())
    }
}

/// Context of the pre-tool-use hooks for the approval request keyed `rpc_key`
/// made at `ts_ms`: the request's thread, correlation id `tu-<key>`, tool name
/// and input.
pub fn pre_tool_use_context(method: &str, params: &JsonValue, rpc_key: &str, ts_ms: i64) -> (r: HookContext)
    ensures
        r.phase == HookPhase::PreToolUse,
        crate::flow::opt_string_view(r.thread_id) == (match spec_get(*params, "threadId"@) {
            Some(JsonValue::Text(t)) => Some(t@),
            _ => None,
        }),
        r.turn_id is None && r.cwd is None && r.model is None && r.main_status is None,
        r.correlation_id@ == "tu-"@ + rpc_key@,
        r.ts_ms == ts_ms,
        r.metadata is Null,
        crate::flow::opt_string_view(r.tool_name) == tool_name_of(method@, *params),
        *params is Null ==> r.tool_input is None,
        !(*params is Null) ==> (r.tool_input matches Some(v) && json_eq(*params, v)),
{
    let thread_id = match params.get("threadId") {
        Some(JsonValue::Text(t)) => Some(t.clone()),
        _ => None,
    };
    HookContext {
        phase: HookPhase::PreToolUse,
        thread_id,
        turn_id: None,
        cwd: None,
        model: None,
        main_status: None,
        correlation_id: concat("tu-", rpc_key),
        ts_ms,
        metadata: JsonValue::Null,
        tool_name: extract_tool_name(method, params),
        tool_input: extract_tool_input(params),
    }
}

} // verus!
