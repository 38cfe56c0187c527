//! Read-side views of a thread: turn status, item kinds and the payloads the
//! runtime inspects.
use vstd::prelude::*;
use crate::json::{
    JsonValue, JsonNumber, json_eq, spec_get, spec_as_text, spec_as_i64, member_index, lemma_json_eq_refl,
    lemma_json_eq_symm, lemma_member_index_first, lemma_member_index_range,
};
use crate::errors::{opt_json_eq, lemma_opt_json_eq_transitive};
use crate::text::str_eq;

verus! {

#[derive(Clone, Copy, Debug, PartialEq, Eq, Structural)]
pub enum ThreadTurnStatus {
    Completed,
    Cancelled,
    Interrupted,
    Failed,
    InProgress,
}

/// Kind of a thread item; names outside the known set are kept verbatim.
#[derive(Debug, PartialEq, Eq)]
pub enum ThreadItemType {
    UserMessage,
    AgentMessage,
    Reasoning,
    CommandExecution,
    FileChange,
    McpToolCall,
    CollabAgentToolCall,
    WebSearch,
    ImageView,
    EnteredReviewMode,
    ExitedReviewMode,
    Unknown(String),
}

/// Wire name of an item kind.
pub open spec fn item_type_wire(t: ThreadItemType) -> Seq<char> {
    match t {
        ThreadItemType::UserMessage => "userMessage"@,
        ThreadItemType::AgentMessage => "agentMessage"@,
        ThreadItemType::Reasoning => "reasoning"@,
        ThreadItemType::CommandExecution => "commandExecution"@,
        ThreadItemType::FileChange => "fileChange"@,
        ThreadItemType::McpToolCall => "mcpToolCall"@,
        ThreadItemType::CollabAgentToolCall => "collabAgentToolCall"@,
        ThreadItemType::WebSearch => "webSearch"@,
        ThreadItemType::ImageView => "imageView"@,
        ThreadItemType::EnteredReviewMode => "enteredReviewMode"@,
        ThreadItemType::ExitedReviewMode => "exitedReviewMode"@,
        ThreadItemType::Unknown(raw) => raw@,
    }
}

/// The known item kind with this wire name, if any.
pub open spec fn known_item_type(raw: Seq<char>) -> Option<ThreadItemType> {
    if raw == "userMessage"@ {
        Some(ThreadItemType::UserMessage)
    } else if raw == "agentMessage"@ {
        Some(ThreadItemType::AgentMessage)
    } else if raw == "reasoning"@ {
        Some(ThreadItemType::Reasoning)
    } else if raw == "commandExecution"@ {
        Some(ThreadItemType::CommandExecution)
    } else if raw == "fileChange"@ {
        Some(ThreadItemType::FileChange)
    } else if raw == "mcpToolCall"@ {
        Some(ThreadItemType::McpToolCall)
    } else if raw == "collabAgentToolCall"@ {
        Some(ThreadItemType::CollabAgentToolCall)
    } else if raw == "webSearch"@ {
        Some(ThreadItemType::WebSearch)
    } else if raw == "imageView"@ {
        Some(ThreadItemType::ImageView)
    } else if raw == "enteredReviewMode"@ {
        Some(ThreadItemType::EnteredReviewMode)
    } else if raw == "exitedReviewMode"@ {
        Some(ThreadItemType::ExitedReviewMode)
    } else {
        None
    }
}

/// `t` is what `from_wire` gives for `raw`.
pub open spec fn parsed_item_type(raw: Seq<char>, t: ThreadItemType) -> bool {
    match known_item_type(raw) {
        Some(k) => t == k,
        None => t matches ThreadItemType::Unknown(s) && s@ == raw,
    }
}

/// An `Unknown` kind never carries a known name.
pub open spec fn canonical_item_type(t: ThreadItemType) -> bool {
    t matches ThreadItemType::Unknown(s) ==> known_item_type(s@) is None
}

impl ThreadItemType {
    pub fn as_wire(&self) -> (r: &str)
        ensures
            r@ == item_type_wire(*self),
    {
        match self {
            ThreadItemType::UserMessage => "userMessage",
            ThreadItemType::AgentMessage => "agentMessage",
            ThreadItemType::Reasoning => "reasoning",
            ThreadItemType::CommandExecution => "commandExecution",
            ThreadItemType::FileChange => "fileChange",
            ThreadItemType::McpToolCall => "mcpToolCall",
            ThreadItemType::CollabAgentToolCall => "collabAgentToolCall",
            ThreadItemType::WebSearch => "webSearch",
            ThreadItemType::ImageView => "imageView",
            ThreadItemType::EnteredReviewMode => "enteredReviewMode",
            ThreadItemType::ExitedReviewMode => "exitedReviewMode",
            ThreadItemType::Unknown(raw) => raw.as_str(),
        }
    }

    pub fn from_wire(raw: &str) -> (r: ThreadItemType)
        ensures
            parsed_item_type(raw@, r),
    {
        if str_eq(raw, "userMessage") {
            ThreadItemType::UserMessage
        } else if str_eq(raw, "agentMessage") {
            ThreadItemType::AgentMessage
        } else if str_eq(raw, "reasoning") {
            ThreadItemType::Reasoning
        } else if str_eq(raw, "commandExecution") {
            ThreadItemType::CommandExecution
        } else if str_eq(raw, "fileChange") {
            ThreadItemType::FileChange
        } else if str_eq(raw, "mcpToolCall") {
            ThreadItemType::McpToolCall
        } else if str_eq(raw, "collabAgentToolCall") {
            ThreadItemType::CollabAgentToolCall
        } else if str_eq(raw, "webSearch") {
            ThreadItemType::WebSearch
        } else if str_eq(raw, "imageView") {
            ThreadItemType::ImageView
        } else if str_eq(raw, "enteredReviewMode") {
            ThreadItemType::EnteredReviewMode
        } else if str_eq(raw, "exitedReviewMode") {
            ThreadItemType::ExitedReviewMode
        } else {
            ThreadItemType::Unknown(raw.to_owned())
        }
    }
}

/// Reading a wire name and writing it back gives the same name.
pub proof fn lemma_item_type_wire_roundtrip(raw: Seq<char>, t: ThreadItemType)
    requires
        parsed_item_type(raw, t),
    ensures
        item_type_wire(t) == raw,
        canonical_item_type(t),
{
}

/// Equal kinds; an unknown name is compared by its characters.
pub open spec fn same_item_type(a: ThreadItemType, b: ThreadItemType) -> bool {
    match (a, b) {
        (ThreadItemType::Unknown(x), ThreadItemType::Unknown(y)) => x@ == y@,
        _ => a == b,
    }
}

/// Writing a kind and reading its name back gives the same kind.
pub proof fn lemma_item_type_parse_roundtrip(t: ThreadItemType, r: ThreadItemType)
    requires
        canonical_item_type(t),
        parsed_item_type(item_type_wire(t), r),
    ensures
        same_item_type(r, t),
{
    reveal_strlit("userMessage");
    assert("userMessage"@.len() == 11 && "userMessage"@[0] == 'u');
    reveal_strlit("agentMessage");
    assert("agentMessage"@.len() == 12 && "agentMessage"@[0] == 'a');
    reveal_strlit("reasoning");
    assert("reasoning"@.len() == 9 && "reasoning"@[0] == 'r');
    reveal_strlit("commandExecution");
    assert("commandExecution"@.len() == 16 && "commandExecution"@[0] == 'c');
    reveal_strlit("fileChange");
    assert("fileChange"@.len() == 10 && "fileChange"@[0] == 'f');
    reveal_strlit("mcpToolCall");
    assert("mcpToolCall"@.len() == 11 && "mcpToolCall"@[0] == 'm');
    reveal_strlit("collabAgentToolCall");
    assert("collabAgentToolCall"@.len() == 19 && "collabAgentToolCall"@[0] == 'c');
    reveal_strlit("webSearch");
    assert("webSearch"@.len() == 9 && "webSearch"@[0] == 'w');
    reveal_strlit("imageView");
    assert("imageView"@.len() == 9 && "imageView"@[0] == 'i');
    reveal_strlit("enteredReviewMode");
    assert("enteredReviewMode"@.len() == 17 && "enteredReviewMode"@[0] == 'e');
    reveal_strlit("exitedReviewMode");
    assert("exitedReviewMode"@.len() == 16 && "exitedReviewMode"@[0] == 'e');
}

#[derive(Debug, PartialEq)]
pub struct ThreadAgentMessageItemView {
    pub text: String,
    pub extra: Vec<(String, JsonValue)>,
}

#[derive(Debug, PartialEq)]
pub struct ThreadCommandExecutionItemView {
    pub command: String,
    pub command_actions: Vec<JsonValue>,
    pub cwd: String,
    pub status: String,
    pub aggregated_output: Option<String>,
    pub duration_ms: Option<i64>,
    pub exit_code: Option<i32>,
    pub process_id: Option<String>,
    pub extra: Vec<(String, JsonValue)>,
}

#[derive(Debug, PartialEq)]
pub enum ThreadItemPayloadView {
    AgentMessage(ThreadAgentMessageItemView),
    CommandExecution(ThreadCommandExecutionItemView),
    Unknown(Vec<(String, JsonValue)>),
}

#[derive(Debug, PartialEq)]
pub struct ThreadItemView {
    pub id: String,
    pub item_type: ThreadItemType,
    pub payload: ThreadItemPayloadView,
}

#[derive(Debug, PartialEq)]
pub struct ThreadTurnErrorView {
    pub message: String,
    pub additional_details: Option<String>,
    pub codex_error_info: Option<JsonValue>,
    pub extra: Vec<(String, JsonValue)>,
}

#[derive(Debug, PartialEq)]
pub struct ThreadTurnView {
    pub id: String,
    pub status: ThreadTurnStatus,
    pub items: Vec<ThreadItemView>,
    pub error: Option<ThreadTurnErrorView>,
    pub extra: Vec<(String, JsonValue)>,
}

#[derive(Debug, PartialEq)]
pub struct ThreadView {
    pub id: String,
    pub cli_version: String,
    pub created_at: i64,
    pub cwd: String,
    pub git_info: Option<JsonValue>,
    pub model_provider: String,
    pub path: String,
    pub preview: String,
    pub source: String,
    pub turns: Vec<ThreadTurnView>,
    pub updated_at: i64,
    pub extra: Vec<(String, JsonValue)>,
}

#[derive(Debug, PartialEq)]
pub struct ThreadReadResponse {
    pub thread: ThreadView,
}

/// Which members of a thread item object its payload reads itself.
#[derive(Clone, Copy, Debug, PartialEq, Eq, Structural)]
pub enum ItemShape {
    AgentMessage,
    CommandExecution,
    Other,
}

/// Keys a payload of `shape` consumes; the other members are kept as extra.
pub open spec fn consumed_key(shape: ItemShape, k: Seq<char>) -> bool {
    ||| k == "id"@
    ||| k == "type"@
    ||| (shape == ItemShape::AgentMessage && k == "text"@)
    ||| (shape == ItemShape::CommandExecution && (k == "command"@ || k == "commandActions"@ || k == "cwd"@
        || k == "status"@ || k == "aggregatedOutput"@ || k == "durationMs"@ || k == "exitCode"@
        || k == "processId"@))
}

/// The members not consumed by `shape`, in order.
pub open spec fn remaining_members(ms: Seq<(String, JsonValue)>, shape: ItemShape) -> Seq<(String, JsonValue)>
    decreases ms.len(),
{
    if ms.len() == 0 {
        Seq::empty()
    } else {
        let rest = remaining_members(ms.drop_last(), shape);
        if consumed_key(shape, ms.last().0@) {
            rest
        } else {
            rest.push(ms.last())
        }
    }
}

fn is_consumed_key(shape: ItemShape, k: &str) -> (r: bool)
    ensures
        r == consumed_key(shape, k@),
{
    if str_eq(k, "id") || str_eq(k, "type") {
        return true;
    }
    match shape {
        ItemShape::AgentMessage => str_eq(k, "text"),
        ItemShape::CommandExecution => str_eq(k, "command") || str_eq(k, "commandActions") || str_eq(k, "cwd")
            || str_eq(k, "status") || str_eq(k, "aggregatedOutput") || str_eq(k, "durationMs") || str_eq(
            k,
            "exitCode",
        ) || str_eq(k, "processId"),
        ItemShape::Other => false,
    }
}

/// Moves out the members that `shape` does not consume, keeping their order.
fn take_remaining(ms: Vec<(String, JsonValue)>, shape: ItemShape) -> (r: Vec<(String, JsonValue)>)
    ensures
        r@ == remaining_members(ms@, shape),
{
    let ghost orig = ms@;
    let n: usize = ms.len();
    let mut src = ms;
    let mut kept: Vec<(String, JsonValue)> = Vec::new();
    let mut i: usize = 0;
    while src.len() > 0
        invariant
            orig.len() == n,
            i <= orig.len(),
            src@ == orig.skip(i as int),
            kept@ == remaining_members(orig.take(i as int), shape),
        decreases src.len(),
    {
        let m = src.remove(0);
        proof {
            assert(orig.take(i as int + 1).drop_last() =~= orig.take(i as int));
            assert(orig.take(i as int + 1).last() == orig[i as int]);
            assert(src@ =~= orig.skip(i as int + 1));
        }
        if !is_consumed_key(shape, m.0.as_str()) {
            kept.push(m);
        }
        i += 1;
    }
    proof {
        assert(orig.take(i as int) =~= orig);
    }
    kept
}

/// An optional string member: absent or `null` is `None`; another type is invalid.
pub open spec fn opt_text_field(v: Option<JsonValue>) -> Option<Option<Seq<char>>> {
    match v {
        None => Some(None),
        Some(JsonValue::Null) => Some(None),
        Some(JsonValue::Text(s)) => Some(Some(s@)),
        _ => None,
    }
}

/// An optional integer member in `lo..=hi`: absent or `null` is `None`.
pub open spec fn opt_int_field(v: Option<JsonValue>, lo: int, hi: int) -> Option<Option<int>> {
    match v {
        None => Some(None),
        Some(JsonValue::Null) => Some(None),
        Some(x) => match spec_as_i64(Some(x)) {
            Some(n) => if lo <= n <= hi {
                Some(Some(n as int))
            } else {
                None
            },
            None => None,
        },
    }
}

pub open spec fn opt_string_view(s: Option<String>) -> Option<Seq<char>> {
    match s {
        Some(t) => Some(t@),
        None => None,
    }
}


fn opt_text_member(v: Option<&JsonValue>) -> (r: Result<Option<String>, ()>)
    ensures
        opt_text_field(match v {
            Some(x) => Some(*x),
            None => None,
        }) matches Some(o) ==> (r matches Ok(s) && opt_string_view(s) == o),
        opt_text_field(match v {
            Some(x) => Some(*x),
            None => None,
        }) is None ==> r is Err,
{
    match v {
        None => Ok(None),
        Some(JsonValue::Null) => Ok(None),
        Some(JsonValue::Text(s)) => Ok(Some(s.clone())),
        _ => Err(()),
    }
}

fn opt_int_member(v: Option<&JsonValue>, lo: i64, hi: i64) -> (r: Result<Option<i64>, ()>)
    requires
        lo <= hi,
    ensures
        opt_int_field(match v {
            Some(x) => Some(*x),
            None => None,
        }, lo as int, hi as int) matches Some(o) ==> (r matches Ok(n) && match n {
            Some(k) => o == Some(k as int),
            None => o is None,
        }),
        opt_int_field(match v {
            Some(x) => Some(*x),
            None => None,
        }, lo as int, hi as int) is None ==> r is Err,
{
    match v {
        None => Ok(None),
        Some(JsonValue::Null) => Ok(None),
        Some(x) => match x.as_i64() {
            Some(n) => if lo <= n && n <= hi {
                Ok(Some(n))
            } else {
                Err(())
            },
            None => Err(()),
        },
    }
}

/// An agent-message item with id `id` and text `text`, keeping the members of
/// `ms` it does not read.
pub open spec fn agent_item(v: ThreadItemView, id: Seq<char>, text: Seq<char>, ms: Seq<(String, JsonValue)>) -> bool {
    &&& v.id@ == id
    &&& v.item_type == ThreadItemType::AgentMessage
    &&& match v.payload {
        ThreadItemPayloadView::AgentMessage(d) => d.text@ == text && d.extra@ == remaining_members(
            ms,
            ItemShape::AgentMessage,
        ),
        _ => false,
    }
}

/// A command-execution item read from the object `value` with members `ms`.
pub open spec fn command_item(v: ThreadItemView, id: Seq<char>, value: JsonValue, ms: Seq<(String, JsonValue)>) -> bool {
    &&& v.id@ == id
    &&& v.item_type == ThreadItemType::CommandExecution
    &&& match v.payload {
        ThreadItemPayloadView::CommandExecution(d) => {
            &&& spec_as_text(spec_get(value, "command"@)) == Some(d.command@)
            &&& spec_as_text(spec_get(value, "cwd"@)) == Some(d.cwd@)
            &&& spec_as_text(spec_get(value, "status"@)) == Some(d.status@)
            &&& spec_get(value, "commandActions"@) matches Some(a) && json_eq(a, JsonValue::Array(d.command_actions))
            &&& opt_text_field(spec_get(value, "aggregatedOutput"@)) == Some(opt_string_view(d.aggregated_output))
            &&& opt_int_field(spec_get(value, "durationMs"@), i64::MIN as int, i64::MAX as int) == Some(
                match d.duration_ms {
                    Some(n) => Some(n as int),
                    None => None::<int>,
                },
            )
            &&& opt_int_field(spec_get(value, "exitCode"@), i32::MIN as int, i32::MAX as int) == Some(
                match d.exit_code {
                    Some(n) => Some(n as int),
                    None => None::<int>,
                },
            )
            &&& opt_text_field(spec_get(value, "processId"@)) == Some(opt_string_view(d.process_id))
            &&& d.extra@ == remaining_members(ms, ItemShape::CommandExecution)
        },
        _ => false,
    }
}

/// The object `value` has every member a command-execution item needs, of
/// the right type.
pub open spec fn command_fields_valid(value: JsonValue) -> bool {
    &&& spec_as_text(spec_get(value, "command"@)) is Some
    &&& spec_as_text(spec_get(value, "cwd"@)) is Some
    &&& spec_as_text(spec_get(value, "status"@)) is Some
    &&& spec_get(value, "commandActions"@) matches Some(JsonValue::Array(_))
    &&& opt_text_field(spec_get(value, "aggregatedOutput"@)) is Some
    &&& opt_int_field(spec_get(value, "durationMs"@), i64::MIN as int, i64::MAX as int) is Some
    &&& opt_int_field(spec_get(value, "exitCode"@), i32::MIN as int, i32::MAX as int) is Some
    &&& opt_text_field(spec_get(value, "processId"@)) is Some
}

/// An item of another kind, keeping every member but `id` and `type`.
pub open spec fn other_item(v: ThreadItemView, id: Seq<char>, ty: Seq<char>, ms: Seq<(String, JsonValue)>) -> bool {
    &&& v.id@ == id
    &&& parsed_item_type(ty, v.item_type)
    &&& match v.payload {
        ThreadItemPayloadView::Unknown(f) => f@ == remaining_members(ms, ItemShape::Other),
        _ => false,
    }
}

pub open spec fn is_err_with(r: Result<ThreadItemView, String>, msg: Seq<char>) -> bool {
    match r {
        Err(e) => e@ == msg,
        Ok(_) => false,
    }
}

/// What decoding a thread item object gives: `id` and `type` must be
/// strings; an agent message needs a string `text`; a command execution
/// needs string `command`, `cwd`, `status`, an array `commandActions`, and
/// takes optional `aggregatedOutput`, `durationMs`, `exitCode` (a 32-bit
/// integer) and `processId`. Members a payload does not read stay as its
/// extra fields; any other kind keeps all of them but `id` and `type`.
pub open spec fn item_decoded(value: JsonValue, r: Result<ThreadItemView, String>) -> bool {
    match value {
        JsonValue::Object(ms) => {
            let id = spec_as_text(spec_get(value, "id"@));
            let ty = spec_as_text(spec_get(value, "type"@));
            if id is None {
                is_err_with(r, "thread item missing string id"@)
            } else if ty is None {
                is_err_with(r, "thread item missing string type"@)
            } else if ty->0 == "agentMessage"@ {
                match spec_as_text(spec_get(value, "text"@)) {
                    Some(text) => match r {
                        Ok(v) => agent_item(v, id->0, text, ms@),
                        Err(_) => false,
                    },
                    None => r is Err,
                }
            } else if ty->0 == "commandExecution"@ {
                if command_fields_valid(value) {
                    match r {
                        Ok(v) => command_item(v, id->0, value, ms@),
                        Err(_) => false,
                    }
                } else {
                    r is Err
                }
            } else {
                match r {
                    Ok(v) => other_item(v, id->0, ty->0, ms@),
                    Err(_) => false,
                }
            }
        },
        _ => is_err_with(r, "thread item must be an object"@),
    }
}

fn text_member(v: Option<&JsonValue>) -> (r: Option<String>)
    ensures
        opt_string_view(r) == spec_as_text(match v {
            Some(x) => Some(*x),
            None => None,
        }),
{
    match v {
        Some(JsonValue::Text(s)) => Some(s.clone()),
        _ => None,
    }
}

impl ThreadItemView {
    /// Decodes a thread item object of the wire.
    #[verifier::rlimit(60)]
    pub fn from_json(value: JsonValue) -> (r: Result<ThreadItemView, String>)
        ensures
            item_decoded(value, r),
    {
        proof {
            reveal_strlit("agentMessage");
            reveal_strlit("commandExecution");
            assert("agentMessage"@.len() == 12 && "commandExecution"@.len() == 16);
        }
        if !value.is_object() {
            return Err("thread item must be an object".to_owned());
        }
        let id = match text_member(value.get("id")) {
            Some(id) => id,
            None => return Err("thread item missing string id".to_owned()),
        };
        let raw_type = match text_member(value.get("type")) {
            Some(t) => t,
            None => return Err("thread item missing string type".to_owned()),
        };
        if str_eq(raw_type.as_str(), "agentMessage") {
            let text = match text_member(value.get("text")) {
                Some(t) => t,
                None => return Err("agent message item missing string text".to_owned()),
            };
            let members = match value {
                JsonValue::Object(ms) => ms,
                _ => Vec::new(),
            };
            let extra = take_remaining(members, ItemShape::AgentMessage);
            Ok(
                ThreadItemView {
                    id,
                    item_type: ThreadItemType::AgentMessage,
                    payload: ThreadItemPayloadView::AgentMessage(ThreadAgentMessageItemView { text, extra }),
                },
            )
        } else if str_eq(raw_type.as_str(), "commandExecution") {
            let command = match text_member(value.get("command")) {
                Some(t) => t,
                None => return Err("command execution item missing string command".to_owned()),
            };
            let cwd = match text_member(value.get("cwd")) {
                Some(t) => t,
                None => return Err("command execution item missing string cwd".to_owned()),
            };
            let status = match text_member(value.get("status")) {
                Some(t) => t,
                None => return Err("command execution item missing string status".to_owned()),
            };
            let command_actions = match value.get("commandActions") {
                Some(a) => match a {
                    JsonValue::Array(_) => match a.deep_clone() {
                        JsonValue::Array(items) => items,
                        _ => return Err("command execution item missing commandActions array".to_owned()),
                    },
                    _ => return Err("command execution item missing commandActions array".to_owned()),
                },
                None => return Err("command execution item missing commandActions array".to_owned()),
            };
            let aggregated_output = match opt_text_member(value.get("aggregatedOutput")) {
                Ok(o) => o,
                Err(_) => return Err("command execution item has an invalid aggregatedOutput".to_owned()),
            };
            let duration_ms = match opt_int_member(value.get("durationMs"), i64::MIN, i64::MAX) {
                Ok(o) => o,
                Err(_) => return Err("command execution item has an invalid durationMs".to_owned()),
            };
            let exit_code = match opt_int_member(value.get("exitCode"), i32::MIN as i64, i32::MAX as i64) {
                Ok(Some(n)) => Some(n as i32),
                Ok(None) => None,
                Err(_) => return Err("command execution item has an invalid exitCode".to_owned()),
            };
            let process_id = match opt_text_member(value.get("processId")) {
                Ok(o) => o,
                Err(_) => return Err("command execution item has an invalid processId".to_owned()),
            };
            let members = match value {
                JsonValue::Object(ms) => ms,
                _ => Vec::new(),
            };
            let extra = take_remaining(members, ItemShape::CommandExecution);
            Ok(
                ThreadItemView {
                    id,
                    item_type: ThreadItemType::CommandExecution,
                    payload: ThreadItemPayloadView::CommandExecution(
                        ThreadCommandExecutionItemView {
                            command,
                            command_actions,
                            cwd,
                            status,
                            aggregated_output,
                            duration_ms,
                            exit_code,
                            process_id,
                            extra,
                        },
                    ),
                },
            )
        } else {
            let members = match value {
                JsonValue::Object(ms) => ms,
                _ => Vec::new(),
            };
            let extra = take_remaining(members, ItemShape::Other);
            let item_type = ThreadItemType::from_wire(raw_type.as_str());
            Ok(ThreadItemView { id, item_type, payload: ThreadItemPayloadView::Unknown(extra) })
        }
    }
}

/// The last value given to `key` among `ms`.
pub open spec fn member_lookup(ms: Seq<(String, JsonValue)>, key: Seq<char>) -> Option<JsonValue>
    decreases ms.len(),
{
    if ms.len() == 0 {
        None
    } else if ms.last().0@ == key {
        Some(ms.last().1)
    } else {
        member_lookup(ms.drop_last(), key)
    }
}

/// JSON integer of the wire.
pub open spec fn int_json(n: i64) -> JsonValue {
    if n >= 0 {
        JsonValue::Number(JsonNumber::PosInt(n as u64))
    } else {
        JsonValue::Number(JsonNumber::NegInt(n))
    }
}

pub open spec fn opt_text_json(s: Option<String>) -> JsonValue {
    match s {
        Some(t) => JsonValue::Text(t),
        None => JsonValue::Null,
    }
}

/// Wire value of a payload's own member `k` (unset optional members are `null`).
pub open spec fn payload_field(p: ThreadItemPayloadView, k: Seq<char>) -> Option<JsonValue> {
    match p {
        ThreadItemPayloadView::AgentMessage(d) => if k == "text"@ {
            Some(JsonValue::Text(d.text))
        } else {
            None
        },
        ThreadItemPayloadView::CommandExecution(d) => if k == "command"@ {
            Some(JsonValue::Text(d.command))
        } else if k == "commandActions"@ {
            Some(JsonValue::Array(d.command_actions))
        } else if k == "cwd"@ {
            Some(JsonValue::Text(d.cwd))
        } else if k == "status"@ {
            Some(JsonValue::Text(d.status))
        } else if k == "aggregatedOutput"@ {
            Some(opt_text_json(d.aggregated_output))
        } else if k == "durationMs"@ {
            Some(
                match d.duration_ms {
                    Some(n) => int_json(n),
                    None => JsonValue::Null,
                },
            )
        } else if k == "exitCode"@ {
            Some(
                match d.exit_code {
                    Some(n) => int_json(n as i64),
                    None => JsonValue::Null,
                },
            )
        } else if k == "processId"@ {
            Some(opt_text_json(d.process_id))
        } else {
            None
        },
        ThreadItemPayloadView::Unknown(_) => None,
    }
}

/// The extra members a payload carries.
pub open spec fn payload_extra(p: ThreadItemPayloadView) -> Seq<(String, JsonValue)> {
    match p {
        ThreadItemPayloadView::AgentMessage(d) => d.extra@,
        ThreadItemPayloadView::CommandExecution(d) => d.extra@,
        ThreadItemPayloadView::Unknown(f) => f@,
    }
}

/// Member `k` of an encoded item other than `id` and `type`: an extra
/// member's value overrides the payload's own.
pub open spec fn encoded_member(p: ThreadItemPayloadView, k: Seq<char>) -> Option<JsonValue> {
    overlay(payload_extra(p), p, k)
}

/// Member `k` after writing the members `ms` over the payload's own.
pub open spec fn overlay(ms: Seq<(String, JsonValue)>, p: ThreadItemPayloadView, k: Seq<char>) -> Option<JsonValue> {
    match member_lookup(ms, k) {
        Some(v) => Some(v),
        None => payload_field(p, k),
    }
}

/// `w` is the wire object of `item`: its `id` and `type`, and every other
/// member as `encoded_member` gives it.
pub open spec fn item_encoded(item: ThreadItemView, w: JsonValue) -> bool {
    &&& w is Object
    &&& spec_get(w, "id"@) == Some(JsonValue::Text(item.id))
    &&& spec_as_text(spec_get(w, "type"@)) == Some(item_type_wire(item.item_type))
    &&& forall|k: Seq<char>|
        k != "id"@ && k != "type"@ ==> opt_json_eq(#[trigger] spec_get(w, k), encoded_member(item.payload, k))
}

fn opt_text_to_json(s: &Option<String>) -> (r: JsonValue)
    ensures
        r == opt_text_json(*s),
{
    match s {
        Some(t) => JsonValue::Text(t.clone()),
        None => JsonValue::Null,
    }
}

fn values_deep_clone(items: &Vec<JsonValue>) -> (r: Vec<JsonValue>)
    ensures
        json_eq(JsonValue::Array(*items), JsonValue::Array(r)),
{
    let mut out: Vec<JsonValue> = Vec::new();
    let mut i: usize = 0;
    while i < items.len()
        invariant
            i <= items@.len(),
            out@.len() == i,
            forall|k: int| 0 <= k < i ==> json_eq(#[trigger] items@[k], out@[k]),
        decreases items.len() - i,
    {
        out.push(items[i].deep_clone());
        i += 1;
    }
    out
}

/// The payload's own members as an object.
#[verifier::rlimit(40)]
fn payload_fields_to_json(p: &ThreadItemPayloadView) -> (r: JsonValue)
    ensures
        r is Object,
        forall|k: Seq<char>| #[trigger] opt_json_eq(spec_get(r, k), payload_field(*p, k)),
{
    proof {
        reveal_strlit("text");
        reveal_strlit("command");
        reveal_strlit("commandActions");
        reveal_strlit("cwd");
        reveal_strlit("status");
        reveal_strlit("aggregatedOutput");
        reveal_strlit("durationMs");
        reveal_strlit("exitCode");
        reveal_strlit("processId");
        assert("command"@.len() == 7 && "command"@[0] == 'c');
        assert("commandActions"@.len() == 14 && "commandActions"@[0] == 'c');
        assert("cwd"@.len() == 3 && "cwd"@[0] == 'c');
        assert("status"@.len() == 6 && "status"@[0] == 's');
        assert("aggregatedOutput"@.len() == 16 && "aggregatedOutput"@[0] == 'a');
        assert("durationMs"@.len() == 10 && "durationMs"@[0] == 'd');
        assert("exitCode"@.len() == 8 && "exitCode"@[0] == 'e');
        assert("processId"@.len() == 9 && "processId"@[0] == 'p');
    }
    match p {
        ThreadItemPayloadView::AgentMessage(d) => {
            let r = JsonValue::object().with("text", JsonValue::Text(d.text.clone()));
            proof {
                assert forall|k: Seq<char>| #[trigger] opt_json_eq(spec_get(r, k), payload_field(*p, k)) by {
                    if k == "text"@ {
                        lemma_json_eq_refl(JsonValue::Text(d.text));
                    }
                }
            }
            r
        },
        ThreadItemPayloadView::CommandExecution(d) => {
            let actions = values_deep_clone(&d.command_actions);
            let duration = match d.duration_ms {
                Some(n) => JsonValue::integer(n),
                None => JsonValue::Null,
            };
            let exit = match d.exit_code {
                Some(n) => JsonValue::integer(n as i64),
                None => JsonValue::Null,
            };
            let r = JsonValue::object().with("command", JsonValue::Text(d.command.clone())).with(
                "commandActions",
                JsonValue::Array(actions),
            ).with("cwd", JsonValue::Text(d.cwd.clone())).with("status", JsonValue::Text(d.status.clone())).with(
                "aggregatedOutput",
                opt_text_to_json(&d.aggregated_output),
            ).with("durationMs", duration).with("exitCode", exit).with(
                "processId",
                opt_text_to_json(&d.process_id),
            );
            proof {
                assert forall|k: Seq<char>| #[trigger] opt_json_eq(spec_get(r, k), payload_field(*p, k)) by {
                    match payload_field(*p, k) {
                        Some(v) => {
                            lemma_json_eq_refl(v);
                        },
                        None => {},
                    }
                    if k == "commandActions"@ {
                        lemma_json_eq_symm(JsonValue::Array(d.command_actions), JsonValue::Array(actions));
                    }
                }
            }
            r
        },
        ThreadItemPayloadView::Unknown(_) => JsonValue::object(),
    }
}

impl ThreadItemView {
    /// Encodes the item as a wire object: the payload's members, then its
    /// extra members, then `id` and `type`.
    pub fn to_json(&self) -> (r: JsonValue)
        ensures
            item_encoded(*self, r),
    {
        proof {
            reveal_strlit("id");
            reveal_strlit("type");
            assert("id"@.len() == 2 && "type"@.len() == 4);
        }
        let mut obj = payload_fields_to_json(&self.payload);
        let extra = match &self.payload {
            ThreadItemPayloadView::AgentMessage(d) => &d.extra,
            ThreadItemPayloadView::CommandExecution(d) => &d.extra,
            ThreadItemPayloadView::Unknown(f) => f,
        };
        let ghost p = self.payload;
        let mut i: usize = 0;
        while i < extra.len()
            invariant
                i <= extra@.len(),
                extra@ == payload_extra(p),
                obj is Object,
                forall|k: Seq<char>| #[trigger] opt_json_eq(spec_get(obj, k), overlay(extra@.take(i as int), p, k)),
            decreases extra.len() - i,
        {
            let ghost before = obj;
            obj = obj.with(extra[i].0.as_str(), extra[i].1.deep_clone());
            proof {
                let t = extra@.take(i as int + 1);
                assert(t.drop_last() =~= extra@.take(i as int));
                assert(t.last() == extra@[i as int]);
                assert forall|k: Seq<char>| #[trigger] opt_json_eq(spec_get(obj, k), overlay(t, p, k)) by {
                    if k == extra@[i as int].0@ {
                        lemma_json_eq_symm(extra@[i as int].1, spec_get(obj, k)->0);
                    } else {
                        assert(spec_get(obj, k) == spec_get(before, k));
                        assert(overlay(t, p, k) == overlay(extra@.take(i as int), p, k));
                    }
                }
            }
            i += 1;
        }
        proof {
            assert(extra@.take(extra@.len() as int) =~= extra@);
        }
        let obj = obj.with("id", JsonValue::Text(self.id.clone())).with("type", JsonValue::text(self.item_type.as_wire()));
        obj
    }
}

/// No two members share a key.
pub open spec fn keys_distinct(ms: Seq<(String, JsonValue)>) -> bool {
    forall|i: int, j: int| 0 <= i < j < ms.len() ==> ms[i].0@ != ms[j].0@
}

/// A number in its canonical shape: the negative-integer shape only for
/// negative values, as every JSON parser gives it.
pub open spec fn canonical_number(n: JsonNumber) -> bool {
    n matches JsonNumber::NegInt(i) ==> i < 0
}

/// With distinct keys, the last member of a key is its first one.
proof fn lemma_member_lookup_first(ms: Seq<(String, JsonValue)>, k: Seq<char>)
    requires
        keys_distinct(ms),
    ensures
        member_lookup(ms, k) == (if member_index(ms, k) < 0 {
            None
        } else {
            Some(ms[member_index(ms, k)].1)
        }),
    decreases ms.len(),
{
    lemma_member_index_range(ms, k);
    if ms.len() > 0 {
        let d = ms.drop_last();
        assert(keys_distinct(d));
        lemma_member_lookup_first(d, k);
        lemma_member_index_range(d, k);
        let n = ms.len() - 1;
        if ms.last().0@ == k {
            lemma_member_index_first(ms, k, n);
        } else {
            let i = member_index(d, k);
            if i >= 0 {
                assert forall|j: int| 0 <= j < i implies ms[j].0@ != k by {
                    assert(ms[j] == d[j]);
                }
                lemma_member_index_first(ms, k, i);
            } else {
                assert forall|j: int| 0 <= j < ms.len() implies ms[j].0@ != k by {
                    if j < n {
                        assert(ms[j] == d[j]);
                    }
                }
                crate::json::lemma_member_index_absent(ms, k);
            }
        }
    }
}

/// The members a payload keeps are those of the object but for the keys it consumes.
proof fn lemma_remaining_lookup(ms: Seq<(String, JsonValue)>, shape: ItemShape, k: Seq<char>)
    ensures
        member_lookup(remaining_members(ms, shape), k) == (if consumed_key(shape, k) {
            None
        } else {
            member_lookup(ms, k)
        }),
    decreases ms.len(),
{
    if ms.len() > 0 {
        lemma_remaining_lookup(ms.drop_last(), shape, k);
        let rest = remaining_members(ms.drop_last(), shape);
        if !consumed_key(shape, ms.last().0@) {
            assert(rest.push(ms.last()).drop_last() =~= rest);
        }
    }
}

proof fn lemma_int_json_canonical(x: JsonValue, n: i64)
    requires
        spec_as_i64(Some(x)) == Some(n),
        x matches JsonValue::Number(m) ==> canonical_number(m),
    ensures
        x == int_json(n),
{
}

/// Decoding a thread item and encoding it again gives back its members:
/// every member of the object (with distinct keys and numbers in canonical
/// shape) comes back with an equal value, and a member it did not have comes
/// back absent, or `null` for an optional member of a command execution.
pub proof fn lemma_item_decode_encode_roundtrip(v: JsonValue, item: ThreadItemView, w: JsonValue)
    requires
        v matches JsonValue::Object(ms) && keys_distinct(ms@),
        forall|k: Seq<char>| (#[trigger] spec_get(v, k)) matches Some(JsonValue::Number(n)) ==> canonical_number(n),
        item_decoded(v, Ok(item)),
        item_encoded(item, w),
    ensures
        forall|k: Seq<char>| (#[trigger] spec_get(v, k)) is Some ==> opt_json_eq(spec_get(w, k), spec_get(v, k)),
        forall|k: Seq<char>|
            (#[trigger] spec_get(v, k)) is None ==> (spec_get(w, k) is None || spec_get(w, k) == Some(JsonValue::Null)),
{
    reveal_strlit("id");
    reveal_strlit("type");
    reveal_strlit("text");
    reveal_strlit("agentMessage");
    reveal_strlit("commandExecution");
    reveal_strlit("command");
    reveal_strlit("commandActions");
    reveal_strlit("cwd");
    reveal_strlit("status");
    reveal_strlit("aggregatedOutput");
    reveal_strlit("durationMs");
    reveal_strlit("exitCode");
    reveal_strlit("processId");
    assert("id"@.len() == 2 && "type"@.len() == 4 && "text"@.len() == 4 && "text"@[0] == 't' && "type"@[1] == 'y');
    assert("agentMessage"@.len() == 12 && "commandExecution"@.len() == 16);
    assert("command"@.len() == 7 && "commandActions"@.len() == 14 && "cwd"@.len() == 3 && "status"@.len() == 6);
    assert("aggregatedOutput"@.len() == 16 && "durationMs"@.len() == 10 && "exitCode"@.len() == 8);
    assert("processId"@.len() == 9);
    let ms = v->Object_0@;
    let ty = spec_as_text(spec_get(v, "type"@))->0;
    let shape = if ty == "agentMessage"@ {
        ItemShape::AgentMessage
    } else if ty == "commandExecution"@ {
        ItemShape::CommandExecution
    } else {
        ItemShape::Other
    };
    assert(payload_extra(item.payload) == remaining_members(ms, shape));
    if shape == ItemShape::Other {
        lemma_item_type_wire_roundtrip(ty, item.item_type);
    }
    assert forall|k: Seq<char>| (#[trigger] spec_get(v, k)) is Some implies opt_json_eq(spec_get(w, k), spec_get(v, k)) by {
        lemma_member_lookup_first(ms, k);
        lemma_remaining_lookup(ms, shape, k);
        if k != "id"@ && k != "type"@ {
            let x = encoded_member(item.payload, k);
            if consumed_key(shape, k) {
                if shape == ItemShape::CommandExecution && (k == "durationMs"@ || k == "exitCode"@) {
                    if !(spec_get(v, k) == Some(JsonValue::Null)) {
                        lemma_int_json_canonical(spec_get(v, k)->0, spec_as_i64(spec_get(v, k))->0);
                    }
                }
                if shape == ItemShape::CommandExecution && k == "commandActions"@ {
                    lemma_json_eq_symm(spec_get(v, k)->0, x->0);
                }
            } else {
                lemma_json_eq_refl(spec_get(v, k)->0);
            }
            lemma_opt_json_eq_transitive(spec_get(w, k), x, spec_get(v, k));
        }
    }
    assert forall|k: Seq<char>| (#[trigger] spec_get(v, k)) is None implies (spec_get(w, k) is None || spec_get(w, k)
        == Some(JsonValue::Null)) by {
        lemma_member_lookup_first(ms, k);
        lemma_remaining_lookup(ms, shape, k);
    }
}

} // verus!
