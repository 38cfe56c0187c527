//! Parameter and response shapes of standalone command execution, and the
//! decoding of its output-delta notification.
use vstd::prelude::*;
use crate::json::{JsonValue, JsonNumber, spec_get, spec_as_text, spec_as_i64, json_eq};
use crate::policies::{SandboxPolicy, sandbox_policy_to_wire_value, preset_wire, text_array};

verus! {

#[derive(Clone, Copy, Debug, PartialEq, Eq, Structural)]
pub struct CommandExecTerminalSize {
    pub rows: u16,
    pub cols: u16,
}

/// A standalone command to run. `env` entries with no value remove the
/// variable; a later entry of a key overrides an earlier one.
#[derive(Debug, PartialEq)]
pub struct CommandExecParams {
    pub command: Vec<String>,
    pub process_id: Option<String>,
    pub tty: bool,
    pub stream_stdin: bool,
    pub stream_stdout_stderr: bool,
    pub output_bytes_cap: Option<usize>,
    pub disable_output_cap: bool,
    pub disable_timeout: bool,
    pub timeout_ms: Option<i64>,
    pub cwd: Option<String>,
    pub env: Option<Vec<(String, Option<String>)>>,
    pub size: Option<CommandExecTerminalSize>,
    pub sandbox_policy: Option<SandboxPolicy>,
}

impl Default for CommandExecParams {
    /// A buffered run: no command, no terminal, no streaming, every limit
    /// and override unset.
    fn default() -> (r: Self)
        ensures
            r.command@.len() == 0,
            r.process_id is None && r.output_bytes_cap is None && r.timeout_ms is None && r.cwd is None
                && r.env is None && r.size is None && r.sandbox_policy is None,
            !r.tty && !r.stream_stdin && !r.stream_stdout_stderr && !r.disable_output_cap && !r.disable_timeout,
    {
        CommandExecParams {
            command: Vec::new(),
            process_id: None,
            tty: false,
            stream_stdin: false,
            stream_stdout_stderr: false,
            output_bytes_cap: None,
            disable_output_cap: false,
            disable_timeout: false,
            timeout_ms: None,
            cwd: None,
            env: None,
            size: None,
            sandbox_policy: None,
        }
    }
}

/// Wire value of one environment entry: its text, or `null` to remove it.
pub open spec fn env_value_wire(v: Option<String>) -> JsonValue {
    match v {
        Some(s) => JsonValue::Text(s),
        None => JsonValue::Null,
    }
}

/// Wire value of `key` in the environment object: that of its last entry.
pub open spec fn env_lookup(entries: Seq<(String, Option<String>)>, key: Seq<char>) -> Option<JsonValue>
    decreases entries.len(),
{
    if entries.len() == 0 {
        None
    } else if entries.last().0@ == key {
        Some(env_value_wire(entries.last().1))
    } else {
        env_lookup(entries.drop_last(), key)
    }
}

/// `v` is the wire form of an optional string: absent when `None`.
pub open spec fn opt_text_member(v: Option<JsonValue>, s: Option<String>) -> bool {
    match s {
        Some(t) => spec_as_text(v) == Some(t@),
        None => v is None,
    }
}

/// Wire form of the parameters. A terminal implies streaming both stdin and
/// the output.
pub open spec fn command_exec_wire(p: CommandExecParams, v: JsonValue) -> bool {
    &&& v is Object
    &&& spec_get(v, "command"@) matches Some(a) && text_array(a, p.command@)
    &&& opt_text_member(spec_get(v, "processId"@), p.process_id)
    &&& spec_get(v, "tty"@) == Some(JsonValue::Bool(p.tty))
    &&& spec_get(v, "streamStdin"@) == Some(JsonValue::Bool(p.stream_stdin || p.tty))
    &&& spec_get(v, "streamStdoutStderr"@) == Some(JsonValue::Bool(p.stream_stdout_stderr || p.tty))
    &&& spec_get(v, "outputBytesCap"@) == (match p.output_bytes_cap {
        Some(n) => Some(JsonValue::Number(JsonNumber::PosInt(n as u64))),
        None => None,
    })
    &&& spec_get(v, "disableOutputCap"@) == Some(JsonValue::Bool(p.disable_output_cap))
    &&& spec_get(v, "disableTimeout"@) == Some(JsonValue::Bool(p.disable_timeout))
    &&& match p.timeout_ms {
        Some(t) => spec_as_i64(spec_get(v, "timeoutMs"@)) == Some(t),
        None => spec_get(v, "timeoutMs"@) is None,
    }
    &&& opt_text_member(spec_get(v, "cwd"@), p.cwd)
    &&& match p.env {
        Some(entries) => spec_get(v, "env"@) matches Some(e) && e is Object && forall|k: Seq<char>|
            #[trigger] spec_get(e, k) == env_lookup(entries@, k),
        None => spec_get(v, "env"@) is None,
    }
    &&& match p.size {
        Some(z) => spec_get(v, "size"@) matches Some(o) && spec_get(o, "rows"@) == Some(
            JsonValue::Number(JsonNumber::PosInt(z.rows as u64)),
        ) && spec_get(o, "cols"@) == Some(JsonValue::Number(JsonNumber::PosInt(z.cols as u64))),
        None => spec_get(v, "size"@) is None,
    }
    &&& match p.sandbox_policy {
        Some(SandboxPolicy::Preset(pr)) => spec_get(v, "sandboxPolicy"@) matches Some(w) && preset_wire(pr, w),
        Some(SandboxPolicy::Raw(x)) => spec_get(v, "sandboxPolicy"@) matches Some(w) && json_eq(x, w),
        None => spec_get(v, "sandboxPolicy"@) is None,
    }
}

fn env_to_wire(entries: &Vec<(String, Option<String>)>) -> (r: JsonValue)
    ensures
        r is Object,
        forall|k: Seq<char>| #[trigger] spec_get(r, k) == env_lookup(entries@, k),
{
    let mut obj = JsonValue::object();
    let mut i: usize = 0;
    while i < entries.len()
        invariant
            i <= entries@.len(),
            obj is Object,
            forall|k: Seq<char>| #[trigger] spec_get(obj, k) == env_lookup(entries@.take(i as int), k),
        decreases entries.len() - i,
    {
        let value = match &entries[i].1 {
            Some(s) => JsonValue::Text(s.clone()),
            None => JsonValue::Null,
        };
        obj = obj.with(entries[i].0.as_str(), value);
        proof {
            let t = entries@.take(i as int + 1);
            assert(t.drop_last() =~= entries@.take(i as int));
            assert forall|k: Seq<char>| #[trigger] spec_get(obj, k) == env_lookup(t, k) by {}
        }
        i += 1;
    }
    proof {
        assert(entries@.take(entries@.len() as int) =~= entries@);
    }
    obj
}

fn strings_to_wire(items: &Vec<String>) -> (r: JsonValue)
    ensures
        text_array(r, items@),
{
    let mut out: Vec<JsonValue> = Vec::new();
    let mut i: usize = 0;
    while i < items.len()
        invariant
            i <= items@.len(),
            out@.len() == i,
            forall|k: int| 0 <= k < i ==> (#[trigger] out@[k] matches JsonValue::Text(s) && s@ == items@[k]@),
        decreases items.len() - i,
    {
        out.push(JsonValue::Text(items[i].clone()));
        i += 1;
    }
    JsonValue::Array(out)
}

/// Wire parameters of `command/exec`.
#[verifier::rlimit(40)]
pub fn command_exec_params_to_wire(p: &CommandExecParams) -> (r: JsonValue)
    ensures
        command_exec_wire(*p, r),
{
    proof {
        reveal_strlit("command");
        reveal_strlit("processId");
        reveal_strlit("tty");
        reveal_strlit("streamStdin");
        reveal_strlit("streamStdoutStderr");
        reveal_strlit("outputBytesCap");
        reveal_strlit("disableOutputCap");
        reveal_strlit("disableTimeout");
        reveal_strlit("timeoutMs");
        reveal_strlit("cwd");
        reveal_strlit("env");
        reveal_strlit("size");
        reveal_strlit("sandboxPolicy");
        assert("command"@.len() == 7 && "command"@[0] == 'c');
        assert("processId"@.len() == 9 && "processId"@[0] == 'p');
        assert("tty"@.len() == 3 && "tty"@[0] == 't');
        assert("streamStdin"@.len() == 11 && "streamStdin"@[0] == 's');
        assert("streamStdoutStderr"@.len() == 18 && "streamStdoutStderr"@[0] == 's');
        assert("outputBytesCap"@.len() == 14 && "outputBytesCap"@[0] == 'o');
        assert("disableOutputCap"@.len() == 16 && "disableOutputCap"@[0] == 'd');
        assert("disableTimeout"@.len() == 14 && "disableTimeout"@[0] == 'd');
        assert("timeoutMs"@.len() == 9 && "timeoutMs"@[0] == 't');
        assert("cwd"@.len() == 3 && "cwd"@[0] == 'c');
        assert("env"@.len() == 3 && "env"@[0] == 'e');
        assert("size"@.len() == 4 && "size"@[0] == 's');
        assert("sandboxPolicy"@.len() == 13 && "sandboxPolicy"@[0] == 's');
    }
    let mut v = JsonValue::object().with("command", strings_to_wire(&p.command));
    if let Some(id) = &p.process_id {
        v = v.with("processId", JsonValue::Text(id.clone()));
    }
    v = v.with("tty", JsonValue::Bool(p.tty));
    v = v.with("streamStdin", JsonValue::Bool(p.stream_stdin || p.tty));
    v = v.with("streamStdoutStderr", JsonValue::Bool(p.stream_stdout_stderr || p.tty));
    if let Some(cap) = p.output_bytes_cap {
        v = v.with("outputBytesCap", JsonValue::uint(cap as u64));
    }
    v = v.with("disableOutputCap", JsonValue::Bool(p.disable_output_cap));
    v = v.with("disableTimeout", JsonValue::Bool(p.disable_timeout));
    if let Some(t) = p.timeout_ms {
        v = v.with("timeoutMs", JsonValue::integer(t));
    }
    if let Some(cwd) = &p.cwd {
        v = v.with("cwd", JsonValue::Text(cwd.clone()));
    }
    if let Some(entries) = &p.env {
        v = v.with("env", env_to_wire(entries));
    }
    if let Some(size) = p.size {
        let o = JsonValue::object().with("rows", JsonValue::uint(size.rows as u64)).with(
            "cols",
            JsonValue::uint(size.cols as u64),
        );
        proof {
            reveal_strlit("rows");
            reveal_strlit("cols");
            assert("rows"@[0] == 'r' && "cols"@[0] == 'c');
        }
        v = v.with("size", o);
    }
    if let Some(policy) = &p.sandbox_policy {
        v = v.with("sandboxPolicy", sandbox_policy_to_wire_value(policy));
    }
    v
}

#[derive(Clone, Debug, PartialEq, Eq)]
pub struct CommandExecResponse {
    pub exit_code: i32,
    pub stdout: String,
    pub stderr: String,
}

#[derive(Clone, Debug, PartialEq, Eq)]
pub struct CommandExecWriteParams {
    pub process_id: String,
    pub delta_base64: Option<String>,
    pub close_stdin: bool,
}

#[derive(Clone, Debug, Default, PartialEq, Eq)]
pub struct CommandExecWriteResponse {}

#[derive(Clone, Debug, PartialEq, Eq)]
pub struct CommandExecTerminateParams {
    pub process_id: String,
}

#[derive(Clone, Debug, Default, PartialEq, Eq)]
pub struct CommandExecTerminateResponse {}

#[derive(Clone, Debug, PartialEq, Eq)]
pub struct CommandExecResizeParams {
    pub process_id: String,
    pub size: CommandExecTerminalSize,
}

#[derive(Clone, Debug, Default, PartialEq, Eq)]
pub struct CommandExecResizeResponse {}

#[derive(Clone, Copy, Debug, PartialEq, Eq, Structural)]
pub enum CommandExecOutputStream {
    Stdout,
    Stderr,
}

#[derive(Debug, PartialEq, Eq)]
pub struct CommandExecOutputDeltaNotification {
    pub process_id: String,
    pub stream: CommandExecOutputStream,
    pub delta_base64: String,
    pub cap_reached: bool,
}

/// Output stream named on the wire (`"stdout"` or `"stderr"`).
pub open spec fn stream_of(v: Option<JsonValue>) -> Option<CommandExecOutputStream> {
    match spec_as_text(v) {
        Some(s) => if s == "stdout"@ {
            Some(CommandExecOutputStream::Stdout)
        } else if s == "stderr"@ {
            Some(CommandExecOutputStream::Stderr)
        } else {
            None
        },
        None => None,
    }
}

pub open spec fn bool_of(v: Option<JsonValue>) -> Option<bool> {
    match v {
        Some(JsonValue::Bool(b)) => Some(b),
        _ => None,
    }
}

/// The output-delta fields, decoded: all four present and well typed, or
/// no notification.
pub open spec fn delta_fields(
    pid: Option<JsonValue>,
    stream: Option<JsonValue>,
    delta: Option<JsonValue>,
    cap: Option<JsonValue>,
    r: Option<CommandExecOutputDeltaNotification>,
) -> bool {
    let pid = spec_as_text(pid);
    let stream = stream_of(stream);
    let delta = spec_as_text(delta);
    let cap = bool_of(cap);
    if pid is Some && stream is Some && delta is Some && cap is Some {
        r matches Some(n) && n.process_id@ == pid->0 && n.stream == stream->0 && n.delta_base64@
            == delta->0 && n.cap_reached == cap->0
    } else {
        r is None
    }
}

/// Output-delta payload: an object with string `processId`, a `stream` of
/// `"stdout"`/`"stderr"`, string `deltaBase64` and boolean `capReached`; or
/// the same four fields given in that order as an array of exactly four.
pub open spec fn output_delta_of(params: JsonValue, r: Option<CommandExecOutputDeltaNotification>) -> bool {
    match params {
        JsonValue::Array(items) => if items@.len() == 4 {
            delta_fields(Some(items@[0]), Some(items@[1]), Some(items@[2]), Some(items@[3]), r)
        } else {
            r is None
        },
        _ => delta_fields(
            spec_get(params, "processId"@),
            spec_get(params, "stream"@),
            spec_get(params, "deltaBase64"@),
            spec_get(params, "capReached"@),
            r,
        ),
    }
}

fn decode_stream(v: Option<&JsonValue>) -> (r: Option<CommandExecOutputStream>)
    ensures
        r == stream_of(match v {
            Some(x) => Some(*x),
            None => None,
        }),
{
    match v {
        Some(JsonValue::Text(s)) => {
            if crate::text::str_eq(s.as_str(), "stdout") {
                Some(CommandExecOutputStream::Stdout)
            } else if crate::text::str_eq(s.as_str(), "stderr") {
                Some(CommandExecOutputStream::Stderr)
            } else {
                None
            }
        },
        _ => None,
    }
}

fn decode_delta_fields(
    pid: Option<&JsonValue>,
    stream: Option<&JsonValue>,
    delta: Option<&JsonValue>,
    cap: Option<&JsonValue>,
) -> (r: Option<CommandExecOutputDeltaNotification>)
    ensures
        delta_fields(
            match pid { Some(x) => Some(*x), None => None },
            match stream { Some(x) => Some(*x), None => None },
            match delta { Some(x) => Some(*x), None => None },
            match cap { Some(x) => Some(*x), None => None },
            r,
        ),
{
    let pid = match pid {
        Some(JsonValue::Text(s)) => s.clone(),
        _ => return None,
    };
    let stream = match decode_stream(stream) {
        Some(s) => s,
        None => return None,
    };
    let delta = match delta {
        Some(JsonValue::Text(s)) => s.clone(),
        _ => return None,
    };
    let cap = match cap {
        Some(JsonValue::Bool(b)) => *b,
        _ => return None,
    };
    Some(CommandExecOutputDeltaNotification { process_id: pid, stream, delta_base64: delta, cap_reached: cap })
}

/// Decode the `command/exec/outputDelta` payload.
pub fn decode_output_delta(params: &JsonValue) -> (r: Option<CommandExecOutputDeltaNotification>)
    ensures
        output_delta_of(*params, r),
{
    match params {
        JsonValue::Array(items) => {
            if items.len() == 4 {
                decode_delta_fields(Some(&items[0]), Some(&items[1]), Some(&items[2]), Some(&items[3]))
            } else {
                None
            }
        },
        _ => decode_delta_fields(
            params.get("processId"),
            params.get("stream"),
            params.get("deltaBase64"),
            params.get("capReached"),
        ),
    }
}

} // verus!
