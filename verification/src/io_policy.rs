//! Input/output policy of the connection: how each kind of server request is
//! answered when it times out, which result payloads are accepted for it,
//! request framing, deadlines, and the handling of process output tails.
use vstd::prelude::*;
use vstd::utf8::{valid_utf8, decode_utf8};
use crate::json::{JsonValue, spec_get, spec_as_text, member_index};
use crate::errors::RuntimeError;
use crate::text::{str_eq, concat, push_str};
use crate::methods::{
    ITEM_COMMAND_EXECUTION_REQUEST_APPROVAL, ITEM_FILE_CHANGE_REQUEST_APPROVAL,
    ITEM_TOOL_REQUEST_USER_INPUT, MCP_SERVER_ELICITATION_REQUEST,
    ITEM_PERMISSIONS_REQUEST_APPROVAL, ITEM_TOOL_CALL, ACCOUNT_CHATGPT_AUTH_TOKENS_REFRESH,
};

verus! {

#[derive(Clone, Copy, Debug, PartialEq, Eq, Structural)]
pub enum ServerRequestPlanKind {
    CommandExecutionRequestApproval,
    FileChangeRequestApproval,
    ToolRequestUserInput,
    McpServerElicitationRequest,
    PermissionsRequestApproval,
    DynamicToolCall,
    ChatgptAuthTokensRefresh,
}

/// One requirement on a field of a result payload.
#[derive(Clone, Copy, Debug, PartialEq, Eq)]
pub enum PayloadFieldContract {
    Decision,
    RequiredObject(&'static str),
    RequiredBool(&'static str),
    RequiredArray(&'static str),
    RequiredString(&'static str),
    NullableString(&'static str),
}

#[derive(Clone, Debug, PartialEq, Eq)]
pub struct PayloadContract {
    pub payload_name: &'static str,
    pub fields: Vec<PayloadFieldContract>,
}

#[derive(Clone, Copy, Debug, PartialEq, Eq, Structural)]
pub enum TimeoutResultShape {
    ApprovalDecision,
    ElicitationAction,
    EmptyAnswers,
    DynamicToolCallFailure,
    ErrorOnly,
}

#[derive(Clone, Debug, PartialEq, Eq)]
pub struct ServerRequestPlanDescriptor {
    pub kind: ServerRequestPlanKind,
    pub payload_contract: PayloadContract,
    pub timeout_shape: TimeoutResultShape,
}

/// Kind of a server request by its method.
pub open spec fn request_kind(m: Seq<char>) -> Option<ServerRequestPlanKind> {
    if m == ITEM_COMMAND_EXECUTION_REQUEST_APPROVAL@ {
        Some(ServerRequestPlanKind::CommandExecutionRequestApproval)
    } else if m == ITEM_FILE_CHANGE_REQUEST_APPROVAL@ {
        Some(ServerRequestPlanKind::FileChangeRequestApproval)
    } else if m == ITEM_TOOL_REQUEST_USER_INPUT@ {
        Some(ServerRequestPlanKind::ToolRequestUserInput)
    } else if m == MCP_SERVER_ELICITATION_REQUEST@ {
        Some(ServerRequestPlanKind::McpServerElicitationRequest)
    } else if m == ITEM_PERMISSIONS_REQUEST_APPROVAL@ {
        Some(ServerRequestPlanKind::PermissionsRequestApproval)
    } else if m == ITEM_TOOL_CALL@ {
        Some(ServerRequestPlanKind::DynamicToolCall)
    } else if m == ACCOUNT_CHATGPT_AUTH_TOKENS_REFRESH@ {
        Some(ServerRequestPlanKind::ChatgptAuthTokensRefresh)
    } else {
        None
    }
}

/// How a request of a kind is answered on timeout.
pub open spec fn timeout_shape_of(k: ServerRequestPlanKind) -> TimeoutResultShape {
    match k {
        ServerRequestPlanKind::CommandExecutionRequestApproval => TimeoutResultShape::ApprovalDecision,
        ServerRequestPlanKind::FileChangeRequestApproval => TimeoutResultShape::ApprovalDecision,
        ServerRequestPlanKind::ToolRequestUserInput => TimeoutResultShape::EmptyAnswers,
        ServerRequestPlanKind::McpServerElicitationRequest => TimeoutResultShape::ElicitationAction,
        ServerRequestPlanKind::PermissionsRequestApproval => TimeoutResultShape::ApprovalDecision,
        ServerRequestPlanKind::DynamicToolCall => TimeoutResultShape::DynamicToolCallFailure,
        ServerRequestPlanKind::ChatgptAuthTokensRefresh => TimeoutResultShape::ErrorOnly,
    }
}

/// Fields a result payload of a kind must carry.
pub open spec fn contract_fields(k: ServerRequestPlanKind) -> Seq<PayloadFieldContract> {
    match k {
        ServerRequestPlanKind::CommandExecutionRequestApproval => seq![PayloadFieldContract::Decision],
        ServerRequestPlanKind::FileChangeRequestApproval => seq![PayloadFieldContract::Decision],
        ServerRequestPlanKind::ToolRequestUserInput => seq![PayloadFieldContract::RequiredObject("answers")],
        ServerRequestPlanKind::McpServerElicitationRequest => seq![],
        ServerRequestPlanKind::PermissionsRequestApproval => seq![PayloadFieldContract::Decision],
        ServerRequestPlanKind::DynamicToolCall => seq![
            PayloadFieldContract::RequiredBool("success"),
            PayloadFieldContract::RequiredArray("contentItems"),
        ],
        ServerRequestPlanKind::ChatgptAuthTokensRefresh => seq![
            PayloadFieldContract::RequiredString("accessToken"),
            PayloadFieldContract::RequiredString("chatgptAccountId"),
            PayloadFieldContract::NullableString("chatgptPlanType"),
        ],
    }
}

fn descriptor(kind: ServerRequestPlanKind, payload_name: &'static str) -> (r: ServerRequestPlanDescriptor)
    ensures
        r.kind == kind,
        r.payload_contract.payload_name == payload_name,
        r.payload_contract.fields@ == contract_fields(kind),
        r.timeout_shape == timeout_shape_of(kind),
{
    let fields = match kind {
        ServerRequestPlanKind::CommandExecutionRequestApproval
        | ServerRequestPlanKind::FileChangeRequestApproval
        | ServerRequestPlanKind::PermissionsRequestApproval => vec![PayloadFieldContract::Decision],
        ServerRequestPlanKind::ToolRequestUserInput => vec![PayloadFieldContract::RequiredObject("answers")],
        ServerRequestPlanKind::McpServerElicitationRequest => Vec::new(),
        ServerRequestPlanKind::DynamicToolCall => vec![
            PayloadFieldContract::RequiredBool("success"),
            PayloadFieldContract::RequiredArray("contentItems"),
        ],
        ServerRequestPlanKind::ChatgptAuthTokensRefresh => vec![
            PayloadFieldContract::RequiredString("accessToken"),
            PayloadFieldContract::RequiredString("chatgptAccountId"),
            PayloadFieldContract::NullableString("chatgptPlanType"),
        ],
    };
    let timeout_shape = match kind {
        ServerRequestPlanKind::CommandExecutionRequestApproval => TimeoutResultShape::ApprovalDecision,
        ServerRequestPlanKind::FileChangeRequestApproval => TimeoutResultShape::ApprovalDecision,
        ServerRequestPlanKind::ToolRequestUserInput => TimeoutResultShape::EmptyAnswers,
        ServerRequestPlanKind::McpServerElicitationRequest => TimeoutResultShape::ElicitationAction,
        ServerRequestPlanKind::PermissionsRequestApproval => TimeoutResultShape::ApprovalDecision,
        ServerRequestPlanKind::DynamicToolCall => TimeoutResultShape::DynamicToolCallFailure,
        ServerRequestPlanKind::ChatgptAuthTokensRefresh => TimeoutResultShape::ErrorOnly,
    };
    proof {
        assert(fields@ == contract_fields(kind));
    }
    ServerRequestPlanDescriptor {
        kind,
        payload_contract: PayloadContract { payload_name, fields },
        timeout_shape,
    }
}

/// The plan for a server request of method `method`; an unknown method
/// cannot be planned.
pub fn describe_server_request(method: &str) -> (r: Result<ServerRequestPlanDescriptor, RuntimeError>)
    ensures
        match request_kind(method@) {
            Some(k) => r matches Ok(d) && d.kind == k && d.payload_contract.payload_name@ == method@
                && d.payload_contract.fields@ == contract_fields(k) && d.timeout_shape == timeout_shape_of(k),
            None => r matches Err(RuntimeError::Internal(m)) && m@ == "cannot classify unknown server request"@,
        },
{
    if str_eq(method, ITEM_COMMAND_EXECUTION_REQUEST_APPROVAL) {
        Ok(descriptor(ServerRequestPlanKind::CommandExecutionRequestApproval, ITEM_COMMAND_EXECUTION_REQUEST_APPROVAL))
    } else if str_eq(method, ITEM_FILE_CHANGE_REQUEST_APPROVAL) {
        Ok(descriptor(ServerRequestPlanKind::FileChangeRequestApproval, ITEM_FILE_CHANGE_REQUEST_APPROVAL))
    } else if str_eq(method, ITEM_TOOL_REQUEST_USER_INPUT) {
        Ok(descriptor(ServerRequestPlanKind::ToolRequestUserInput, ITEM_TOOL_REQUEST_USER_INPUT))
    } else if str_eq(method, MCP_SERVER_ELICITATION_REQUEST) {
        Ok(descriptor(ServerRequestPlanKind::McpServerElicitationRequest, MCP_SERVER_ELICITATION_REQUEST))
    } else if str_eq(method, ITEM_PERMISSIONS_REQUEST_APPROVAL) {
        Ok(descriptor(ServerRequestPlanKind::PermissionsRequestApproval, ITEM_PERMISSIONS_REQUEST_APPROVAL))
    } else if str_eq(method, ITEM_TOOL_CALL) {
        Ok(descriptor(ServerRequestPlanKind::DynamicToolCall, ITEM_TOOL_CALL))
    } else if str_eq(method, ACCOUNT_CHATGPT_AUTH_TOKENS_REFRESH) {
        Ok(descriptor(ServerRequestPlanKind::ChatgptAuthTokensRefresh, ACCOUNT_CHATGPT_AUTH_TOKENS_REFRESH))
    } else {
        Err(RuntimeError::Internal("cannot classify unknown server request".to_owned()))
    }
}

/// Whether payload object `obj` satisfies one field requirement.
pub open spec fn field_ok(obj: JsonValue, f: PayloadFieldContract) -> bool {
    match f {
        PayloadFieldContract::Decision => match spec_get(obj, "decision"@) {
            Some(JsonValue::Text(_)) => true,
            Some(JsonValue::Object(m)) => m@.len() > 0,
            _ => false,
        },
        PayloadFieldContract::RequiredObject(n) => spec_get(obj, n@) matches Some(JsonValue::Object(_)),
        PayloadFieldContract::RequiredBool(n) => spec_get(obj, n@) matches Some(JsonValue::Bool(_)),
        PayloadFieldContract::RequiredArray(n) => spec_get(obj, n@) matches Some(JsonValue::Array(_)),
        PayloadFieldContract::RequiredString(n) => spec_get(obj, n@) matches Some(JsonValue::Text(_)),
        PayloadFieldContract::NullableString(n) => match spec_get(obj, n@) {
            None => true,
            Some(JsonValue::Text(_)) => true,
            Some(JsonValue::Null) => true,
            _ => false,
        },
    }
}

/// The error message for a field requirement that is not met.
pub open spec fn field_error(p: Seq<char>, f: PayloadFieldContract) -> Seq<char> {
    match f {
        PayloadFieldContract::Decision => "invalid approval payload for "@ + p + ": missing decision"@,
        PayloadFieldContract::RequiredObject(n) => "invalid "@ + p + " payload: missing "@ + n@ + " object"@,
        PayloadFieldContract::RequiredBool(n) => "invalid "@ + p + " payload: missing "@ + n@ + " boolean"@,
        PayloadFieldContract::RequiredArray(n) => "invalid "@ + p + " payload: missing "@ + n@ + " array"@,
        PayloadFieldContract::RequiredString(n) => "invalid "@ + p + " payload: missing "@ + n@,
        PayloadFieldContract::NullableString(n) => "invalid "@ + p + " payload: "@ + n@ + " must be string|null"@,
    }
}

fn message3(a: &str, b: &str, c: &str) -> (r: String)
    ensures
        r@ == a@ + b@ + c@,
{
    let mut s = concat(a, b);
    push_str(&mut s, c);
    s
}

fn message4(a: &str, b: &str, c: &str, d: &str) -> (r: String)
    ensures
        r@ == a@ + b@ + c@ + d@,
{
    let mut s = message3(a, b, c);
    push_str(&mut s, d);
    s
}

fn message5(a: &str, b: &str, c: &str, d: &str, e: &str) -> (r: String)
    ensures
        r@ == a@ + b@ + c@ + d@ + e@,
{
    let mut s = message3(a, b, c);
    push_str(&mut s, d);
    push_str(&mut s, e);
    s
}

pub fn validate_payload_field(payload_name: &str, obj: &JsonValue, field: PayloadFieldContract) -> (r: Result<(), RuntimeError>)
    ensures
        field_ok(*obj, field) ==> r is Ok,
        !field_ok(*obj, field) ==> (r matches Err(RuntimeError::Internal(m)) && m@ == field_error(payload_name@, field)),
{
    match field {
        PayloadFieldContract::Decision => match obj.get("decision") {
            Some(JsonValue::Text(_)) => Ok(()),
            Some(JsonValue::Object(m)) => if m.len() > 0 {
                Ok(())
            } else {
                Err(RuntimeError::Internal(message3("invalid approval payload for ", payload_name, ": missing decision")))
            },
            _ => Err(RuntimeError::Internal(message3("invalid approval payload for ", payload_name, ": missing decision"))),
        },
        PayloadFieldContract::RequiredObject(name) => match obj.get(name) {
            Some(JsonValue::Object(_)) => Ok(()),
            _ => Err(RuntimeError::Internal(message5("invalid ", payload_name, " payload: missing ", name, " object"))),
        },
        PayloadFieldContract::RequiredBool(name) => match obj.get(name) {
            Some(JsonValue::Bool(_)) => Ok(()),
            _ => Err(RuntimeError::Internal(message5("invalid ", payload_name, " payload: missing ", name, " boolean"))),
        },
        PayloadFieldContract::RequiredArray(name) => match obj.get(name) {
            Some(JsonValue::Array(_)) => Ok(()),
            _ => Err(RuntimeError::Internal(message5("invalid ", payload_name, " payload: missing ", name, " array"))),
        },
        PayloadFieldContract::RequiredString(name) => match obj.get(name) {
            Some(JsonValue::Text(_)) => Ok(()),
            _ => Err(RuntimeError::Internal(message4("invalid ", payload_name, " payload: missing ", name))),
        },
        PayloadFieldContract::NullableString(name) => match obj.get(name) {
            None => Ok(()),
            Some(JsonValue::Text(_)) => Ok(()),
            Some(JsonValue::Null) => Ok(()),
            _ => Err(RuntimeError::Internal(message5("invalid ", payload_name, " payload: ", name, " must be string|null"))),
        },
    }
}

/// The first requirement of `fields` that `obj` does not meet.
pub open spec fn first_failed(obj: JsonValue, fields: Seq<PayloadFieldContract>) -> Option<PayloadFieldContract>
    decreases fields.len(),
{
    if fields.len() == 0 {
        None
    } else if !field_ok(obj, fields[0]) {
        Some(fields[0])
    } else {
        first_failed(obj, fields.drop_first())
    }
}

/// A result payload must be an object meeting every field requirement; the
/// first unmet one is reported.
pub fn validate_payload_contract(result: &JsonValue, contract: &PayloadContract) -> (r: Result<(), RuntimeError>)
    ensures
        !(*result is Object) ==> (r matches Err(RuntimeError::Internal(m)) && m@ == "invalid "@
            + contract.payload_name@ + " payload: expected object"@),
        *result is Object ==> match first_failed(*result, contract.fields@) {
            None => r is Ok,
            Some(f) => r matches Err(RuntimeError::Internal(m)) && m@ == field_error(contract.payload_name@, f),
        },
{
    if !result.is_object() {
        return Err(RuntimeError::Internal(message3("invalid ", contract.payload_name, " payload: expected object")));
    }
    let mut i: usize = 0;
    proof {
        assert(contract.fields@.skip(0) == contract.fields@);
    }
    while i < contract.fields.len()
        invariant
            i <= contract.fields@.len(),
            *result is Object,
            first_failed(*result, contract.fields@) == first_failed(*result, contract.fields@.skip(i as int)),
        decreases contract.fields.len() - i,
    {
        let field = contract.fields[i];
        proof {
            let s = contract.fields@.skip(i as int);
            assert(s[0] == field);
            assert(s.drop_first() == contract.fields@.skip(i + 1));
        }
        match validate_payload_field(contract.payload_name, result, field) {
            Ok(()) => {},
            Err(e) => return Err(e),
        }
        i += 1;
    }
    proof {
        assert(contract.fields@.skip(i as int).len() == 0);
    }
    Ok(())
}

/// A capacity must be positive.
pub fn validate_positive_capacity(name: &str, value: usize) -> (r: Result<(), RuntimeError>)
    ensures
        value > 0 ==> r is Ok,
        value == 0 ==> (r matches Err(RuntimeError::InvalidConfig(m)) && m@ == name@ + " must be > 0"@),
{
    if value > 0 {
        return Ok(());
    }
    Err(RuntimeError::InvalidConfig(concat(name, " must be > 0")))
}

/// Keep only the last `max_tail_bytes` bytes.
pub fn trim_tail_bytes(tail: &mut Vec<u8>, max_tail_bytes: usize)
    ensures
        old(tail)@.len() <= max_tail_bytes ==> final(tail)@ == old(tail)@,
        old(tail)@.len() > max_tail_bytes ==> final(tail)@ == old(tail)@.skip(
            old(tail)@.len() - max_tail_bytes,
        ),
{
    if tail.len() <= max_tail_bytes {
        return;
    }
    let overflow = tail.len() - max_tail_bytes;
    let kept = tail.split_off(overflow);
    *tail = kept;
}

/// `s` without its trailing `\n` and `\r` characters.
pub open spec fn trim_newlines_end(s: Seq<char>) -> Seq<char>
    decreases s.len(),
{
    if s.len() > 0 && (s.last() == '\n' || s.last() == '\r') {
        trim_newlines_end(s.drop_last())
    } else {
        s
    }
}

/// `bytes` without its trailing `\n` (10) and `\r` (13) bytes.
pub open spec fn trim_newline_bytes(b: Seq<u8>) -> Seq<u8>
    decreases b.len(),
{
    if b.len() > 0 && (b.last() == 10u8 || b.last() == 13u8) {
        trim_newline_bytes(b.drop_last())
    } else {
        b
    }
}

pub fn trim_ascii_line_endings(raw: &[u8]) -> (r: &[u8])
    ensures
        r@ == trim_newline_bytes(raw@),
{
    let mut n: usize = raw.len();
    proof {
        assert(raw@.subrange(0, raw@.len() as int) == raw@);
    }
    while n > 0 && (raw[n - 1] == 10u8 || raw[n - 1] == 13u8)
        invariant
            n <= raw@.len(),
            trim_newline_bytes(raw@) == trim_newline_bytes(raw@.subrange(0, n as int)),
        decreases n,
    {
        proof {
            assert(raw@.subrange(0, n as int).drop_last() == raw@.subrange(0, n - 1));
        }
        n -= 1;
    }
    proof {
        assert(raw@.subrange(0, raw@.len() as int) == raw@);
    }
    vstd::slice::slice_subrange(raw, 0, n)
}

/// Characters of the lossy UTF-8 decoding of `bytes` (invalid sequences become
/// U+FFFD), as `String::from_utf8_lossy` computes it.
pub uninterp spec fn utf8_lossy(bytes: Seq<u8>) -> Seq<char>;

/// `String::from_utf8_lossy`: decodes valid UTF-8 exactly and replaces each
/// invalid sequence by U+FFFD. Only the valid case is stated beyond the name.
#[verifier::external_body]
fn string_from_utf8_lossy(bytes: &[u8]) -> (r: String)
    ensures
        r@ == utf8_lossy(bytes@),
        valid_utf8(bytes@) ==> r@ == decode_utf8(bytes@),
{
    String::from_utf8_lossy(bytes).into_owned()
}

/// Decoded output tail with trailing line breaks removed; `None` when nothing
/// is left.
pub fn normalize_decoded_tail(text: String) -> (r: Option<String>)
    ensures
        trim_newlines_end(text@).len() == 0 ==> r is None,
        trim_newlines_end(text@).len() > 0 ==> (r matches Some(s) && s@ == trim_newlines_end(text@)),
{
    let chars = crate::text::chars_of(text.as_str());
    let mut n: usize = chars.len();
    proof {
        assert(chars@.subrange(0, chars@.len() as int) == chars@);
    }
    while n > 0 && (chars[n - 1] == '\n' || chars[n - 1] == '\r')
        invariant
            n <= chars@.len(),
            trim_newlines_end(text@) == trim_newlines_end(chars@.subrange(0, n as int)),
            chars@ == text@,
        decreases n,
    {
        proof {
            assert(chars@.subrange(0, n as int).drop_last() == chars@.subrange(0, n - 1));
        }
        n -= 1;
    }
    proof {
        assert(chars@.subrange(0, chars@.len() as int) == chars@);
    }
    if n == 0 {
        return None;
    }
    Some(crate::text::string_from_range(&chars, 0, n))
}

/// Output tail as text: `None` for no bytes, else the lossy decoding with
/// trailing line breaks removed (`None` when nothing is left).
pub fn normalize_text_tail(bytes: &[u8]) -> (r: Option<String>)
    ensures
        bytes@.len() == 0 ==> r is None,
        bytes@.len() > 0 ==> (trim_newlines_end(utf8_lossy(bytes@)).len() == 0 ==> r is None),
        bytes@.len() > 0 ==> (trim_newlines_end(utf8_lossy(bytes@)).len() > 0 ==> (r matches Some(s)
            && s@ == trim_newlines_end(utf8_lossy(bytes@)))),
{
    if bytes.len() == 0 {
        return None;
    }
    normalize_decoded_tail(string_from_utf8_lossy(bytes))
}

/// Flush once `pending_writes` reaches `events` (at least one).
pub fn should_flush_after_n_events(pending_writes: u64, events: u64) -> (r: bool)
    ensures
        r == (pending_writes >= (if events == 0 { 1 } else { events })),
{
    let threshold = if events == 0 { 1 } else { events };
    pending_writes >= threshold
}

/// A JSON-RPC request message: `id`, `method`, `params`.
pub fn build_rpc_request(rpc_id: u64, method: &str, params: JsonValue) -> (r: JsonValue)
    ensures
        r is Object,
        spec_get(r, "id"@) == Some(JsonValue::Number(crate::json::JsonNumber::PosInt(rpc_id))),
        spec_as_text(spec_get(r, "method"@)) == Some(method@),
        spec_get(r, "params"@) == Some(params),
{
    proof {
        reveal_strlit("id");
        reveal_strlit("method");
        reveal_strlit("params");
        assert("id"@.len() == 2 && "method"@.len() == 6 && "params"@.len() == 6);
        assert("method"@[0] == 'm' && "params"@[0] == 'p');
    }
    JsonValue::object().with("id", JsonValue::uint(rpc_id)).with("method", JsonValue::text(method)).with(
        "params",
        params,
    )
}

/// Deadline `timeout_ms` after `now_millis`, saturating at `i64::MAX`.
pub open spec fn deadline(now: i64, timeout_ms: u64) -> i64 {
    let t: int = if timeout_ms > i64::MAX { i64::MAX as int } else { timeout_ms as int };
    if now + t > i64::MAX {
        i64::MAX
    } else {
        (now + t) as i64
    }
}

pub fn compute_deadline_millis(now_millis: i64, timeout_ms: u64) -> (r: i64)
    ensures
        r == deadline(now_millis, timeout_ms),
{
    let t: i64 = if timeout_ms > i64::MAX as u64 { i64::MAX } else { timeout_ms as i64 };
    if now_millis > i64::MAX - t {
        i64::MAX
    } else {
        now_millis + t
    }
}

pub open spec fn empty_object(v: Option<JsonValue>) -> bool {
    v matches Some(JsonValue::Object(m)) && m@.len() == 0
}

pub open spec fn empty_array(v: Option<JsonValue>) -> bool {
    v matches Some(JsonValue::Array(items)) && items@.len() == 0
}

/// `v` is an object of exactly `n` members.
pub open spec fn object_of_size(v: JsonValue, n: nat) -> bool {
    v matches JsonValue::Object(ms) && ms@.len() == n
}

/// The result sent for a server request that timed out: a decline (or a
/// cancel when `cancel` is set) in the shape of the request's kind, an
/// object with exactly the members named here and no other. A token
/// refresh has no synthetic result; an unknown method cannot be answered.
pub open spec fn timeout_result(method: Seq<char>, cancel: bool, r: Result<JsonValue, RuntimeError>) -> bool {
    let decision: Seq<char> = if cancel { "cancel"@ } else { "decline"@ };
    match request_kind(method) {
        None => r matches Err(RuntimeError::Internal(m)) && m@ == "cannot classify unknown server request"@,
        Some(k) => match timeout_shape_of(k) {
            TimeoutResultShape::ApprovalDecision => r matches Ok(v) && object_of_size(v, 1) && spec_as_text(
                spec_get(v, "decision"@),
            ) == Some(decision),
            TimeoutResultShape::EmptyAnswers => r matches Ok(v) && object_of_size(v, 1) && empty_object(
                spec_get(v, "answers"@),
            ),
            TimeoutResultShape::ElicitationAction => r matches Ok(v) && object_of_size(v, 2) && spec_as_text(
                spec_get(v, "action"@),
            ) == Some(decision) && spec_get(v, "content"@) == Some(JsonValue::Null),
            TimeoutResultShape::DynamicToolCallFailure => r matches Ok(v) && object_of_size(v, 2) && spec_get(
                v,
                "success"@,
            ) == Some(JsonValue::Bool(false)) && empty_array(spec_get(v, "contentItems"@)),
            TimeoutResultShape::ErrorOnly => r matches Err(RuntimeError::Internal(m)) && m@
                == "auth refresh timeout must use error path, not synthetic result"@,
        },
    }
}

proof fn lemma_timeout_keys_distinct()
    ensures
        "action"@ != "content"@,
        "success"@ != "contentItems"@,
{
    reveal_strlit("action");
    reveal_strlit("content");
    reveal_strlit("success");
    reveal_strlit("contentItems");
    assert("action"@[0] == 'a' && "content"@[0] == 'c' && "success"@[0] == 's' && "contentItems"@[0] == 'c');
}

pub fn timeout_result_payload(method: &str, cancel: bool) -> (r: Result<JsonValue, RuntimeError>)
    ensures
        timeout_result(method@, cancel, r),
{
    proof {
        lemma_timeout_keys_distinct();
    }
    let decision = if cancel { "cancel" } else { "decline" };
    let descriptor = match describe_server_request(method) {
        Ok(d) => d,
        Err(e) => return Err(e),
    };
    match descriptor.timeout_shape {
        TimeoutResultShape::ApprovalDecision => {
            let v = JsonValue::Object(vec![("decision".to_owned(), JsonValue::text(decision))]);
            proof {
                reveal_with_fuel(member_index, 2);
            }
            Ok(v)
        },
        TimeoutResultShape::EmptyAnswers => {
            let v = JsonValue::Object(vec![("answers".to_owned(), JsonValue::object())]);
            proof {
                reveal_with_fuel(member_index, 2);
            }
            Ok(v)
        },
        TimeoutResultShape::ElicitationAction => {
            let members = vec![("action".to_owned(), JsonValue::text(decision)), ("content".to_owned(), JsonValue::Null)];
            proof {
                reveal_with_fuel(member_index, 3);
                assert(members@[0].0@ == "action"@ && members@[1].0@ == "content"@);
                assert(member_index(members@.drop_first(), "content"@) == 0);
                assert(member_index(members@, "content"@) == 1);
            }
            Ok(JsonValue::Object(members))
        },
        TimeoutResultShape::DynamicToolCallFailure => {
            let members = vec![
                ("success".to_owned(), JsonValue::Bool(false)),
                ("contentItems".to_owned(), JsonValue::Array(Vec::new())),
            ];
            proof {
                reveal_with_fuel(member_index, 3);
                assert(members@[0].0@ == "success"@ && members@[1].0@ == "contentItems"@);
                assert(member_index(members@.drop_first(), "contentItems"@) == 0);
                assert(member_index(members@, "contentItems"@) == 1);
            }
            Ok(JsonValue::Object(members))
        },
        TimeoutResultShape::ErrorOnly => Err(
            RuntimeError::Internal("auth refresh timeout must use error path, not synthetic result".to_owned()),
        ),
    }
}

/// JSON-RPC error object for a server request that timed out.
pub fn timeout_error_payload(method: &str) -> (r: JsonValue)
    ensures
        r is Object,
        spec_get(r, "code"@) == Some(JsonValue::Number(crate::json::JsonNumber::NegInt(-32000i64))),
        spec_as_text(spec_get(r, "message"@)) == Some("server request timed out"@),
        spec_get(r, "data"@) matches Some(d) && spec_as_text(spec_get(d, "method"@)) == Some(method@),
{
    proof {
        reveal_strlit("code");
        reveal_strlit("message");
        reveal_strlit("data");
        assert("code"@.len() == 4 && "message"@.len() == 7 && "data"@.len() == 4);
        assert("code"@[0] == 'c' && "data"@[0] == 'd');
    }
    let data = JsonValue::object().with("method", JsonValue::text(method));
    JsonValue::object().with("code", JsonValue::integer(-32000)).with(
        "message",
        JsonValue::text("server request timed out"),
    ).with("data", data)
}

} // verus!
