use codexus::command_exec::{
    command_exec_params_to_wire, decode_output_delta, CommandExecOutputStream, CommandExecParams,
    CommandExecTerminalSize,
};
use codexus::json::JsonValue;
use codexus::policies::{SandboxPolicy, SandboxPreset};

fn at<'a>(v: &'a JsonValue, key: &str) -> &'a JsonValue {
    v.get(key).expect("member present")
}

#[test]
fn command_exec_params_default_to_buffered_execution() {
    let params = CommandExecParams::default();
    assert!(params.command.is_empty());
    assert_eq!(params.process_id, None);
    assert!(!params.tty);
    assert!(!params.stream_stdin);
    assert!(!params.stream_stdout_stderr);
    assert_eq!(params.output_bytes_cap, None);
    assert!(!params.disable_output_cap);
    assert!(!params.disable_timeout);
    assert_eq!(params.timeout_ms, None);
    assert_eq!(params.cwd, None);
    assert_eq!(params.env, None);
    assert_eq!(params.size, None);
    assert_eq!(params.sandbox_policy, None);
}

#[test]
fn command_exec_params_serialize_with_tty_implications() {
    let env = vec![
        ("DROP_ME".to_owned(), None),
        ("FOO".to_owned(), Some("bar".to_owned())),
    ];

    let wire = command_exec_params_to_wire(&CommandExecParams {
        command: vec!["bash".to_owned(), "-i".to_owned()],
        process_id: Some("proc-1".to_owned()),
        tty: true,
        stream_stdin: false,
        stream_stdout_stderr: false,
        output_bytes_cap: Some(32768),
        disable_output_cap: false,
        disable_timeout: false,
        timeout_ms: Some(1000),
        cwd: Some("/repo".to_owned()),
        env: Some(env),
        size: Some(CommandExecTerminalSize { rows: 48, cols: 160 }),
        sandbox_policy: Some(SandboxPolicy::Preset(SandboxPreset::ReadOnly)),
    });

    assert_eq!(at(&wire, "command").as_array().expect("array")[0], JsonValue::text("bash"));
    assert_eq!(at(&wire, "processId"), &JsonValue::text("proc-1"));
    assert_eq!(at(&wire, "tty"), &JsonValue::Bool(true));
    assert_eq!(at(&wire, "streamStdin"), &JsonValue::Bool(true));
    assert_eq!(at(&wire, "streamStdoutStderr"), &JsonValue::Bool(true));
    assert_eq!(at(&wire, "outputBytesCap").as_u64(), Some(32768));
    assert_eq!(at(&wire, "timeoutMs").as_i64(), Some(1000));
    assert_eq!(at(&wire, "cwd"), &JsonValue::text("/repo"));
    assert_eq!(at(at(&wire, "env"), "FOO"), &JsonValue::text("bar"));
    assert_eq!(at(at(&wire, "env"), "DROP_ME"), &JsonValue::Null);
    assert_eq!(at(at(&wire, "size"), "rows").as_u64(), Some(48));
    assert_eq!(at(at(&wire, "size"), "cols").as_u64(), Some(160));
    assert_eq!(at(at(&wire, "sandboxPolicy"), "type"), &JsonValue::text("readOnly"));
}

#[test]
fn command_exec_params_without_tty_keep_stream_flags_and_omit_unset_fields() {
    let mut params = CommandExecParams::default();
    params.command = vec!["ls".to_owned()];
    params.stream_stdout_stderr = true;
    params.env = Some(vec![
        ("A".to_owned(), Some("1".to_owned())),
        ("A".to_owned(), Some("2".to_owned())),
    ]);
    let wire = command_exec_params_to_wire(&params);
    assert_eq!(at(&wire, "streamStdin"), &JsonValue::Bool(false));
    assert_eq!(at(&wire, "streamStdoutStderr"), &JsonValue::Bool(true));
    assert_eq!(at(&wire, "disableTimeout"), &JsonValue::Bool(false));
    assert_eq!(at(at(&wire, "env"), "A"), &JsonValue::text("2"));
    assert!(wire.get("processId").is_none());
    assert!(wire.get("cwd").is_none());
    assert!(wire.get("size").is_none());
    assert!(wire.get("sandboxPolicy").is_none());
    assert!(wire.get("timeoutMs").is_none());
}

#[test]
fn output_delta_decodes_object_and_positional_forms() {
    let object = JsonValue::object()
        .with("processId", JsonValue::text("proc-2"))
        .with("stream", JsonValue::text("stderr"))
        .with("deltaBase64", JsonValue::text("b2s="))
        .with("capReached", JsonValue::Bool(true));
    let from_object = decode_output_delta(&object).expect("object form");
    assert_eq!(from_object.process_id, "proc-2");
    assert_eq!(from_object.stream, CommandExecOutputStream::Stderr);
    assert_eq!(from_object.delta_base64, "b2s=");
    assert!(from_object.cap_reached);

    let positional = JsonValue::Array(vec![
        JsonValue::text("proc-2"),
        JsonValue::text("stderr"),
        JsonValue::text("b2s="),
        JsonValue::Bool(true),
    ]);
    assert_eq!(decode_output_delta(&positional), Some(from_object));

    let short = JsonValue::Array(vec![JsonValue::text("proc-2"), JsonValue::text("stderr")]);
    assert_eq!(decode_output_delta(&short), None);
    let bad_stream = object_with_stream("stdin");
    assert_eq!(decode_output_delta(&bad_stream), None);
}

fn object_with_stream(stream: &str) -> JsonValue {
    JsonValue::object()
        .with("processId", JsonValue::text("p"))
        .with("stream", JsonValue::text(stream))
        .with("deltaBase64", JsonValue::text(""))
        .with("capReached", JsonValue::Bool(false))
}
