use codexus::errors::RuntimeError;
use codexus::io_policy::{
    build_rpc_request, compute_deadline_millis, describe_server_request, normalize_text_tail,
    should_flush_after_n_events, timeout_error_payload, timeout_result_payload,
    trim_ascii_line_endings, trim_tail_bytes, validate_payload_contract, validate_positive_capacity,
    ServerRequestPlanKind, TimeoutResultShape,
};
use codexus::json::JsonValue;

fn io_text(v: Option<&JsonValue>) -> Option<&str> {
    match v {
        Some(JsonValue::Text(s)) => Some(s.as_str()),
        _ => None,
    }
}

#[test]
fn trim_ascii_line_endings_removes_crlf_suffix_only() {
    assert_eq!(trim_ascii_line_endings(b"abc\r\n"), b"abc");
    assert_eq!(trim_ascii_line_endings(b"abc"), b"abc");
    assert_eq!(trim_ascii_line_endings(b"\r\n"), b"");
}

#[test]
fn normalize_text_tail_returns_none_for_empty_or_newlines_only() {
    assert_eq!(normalize_text_tail(b""), None);
    assert_eq!(normalize_text_tail(b"\n\r"), None);
    assert_eq!(normalize_text_tail(b"hello\n"), Some("hello".to_owned()));
}

#[test]
fn trim_tail_bytes_keeps_latest_segment() {
    let mut bytes = b"abcdef".to_vec();
    trim_tail_bytes(&mut bytes, 3);
    assert_eq!(bytes, b"def");
}

#[test]
fn should_flush_after_n_events_applies_minimum_one() {
    assert!(!should_flush_after_n_events(0, 0));
    assert!(should_flush_after_n_events(1, 0));
    assert!(!should_flush_after_n_events(1, 2));
    assert!(should_flush_after_n_events(2, 2));
}

#[test]
fn compute_deadline_millis_saturates_timeout_cast_overflow() {
    let deadline = compute_deadline_millis(123, u64::MAX);
    assert_eq!(deadline, i64::MAX);
}

#[test]
fn compute_deadline_millis_saturates_add_overflow() {
    let deadline = compute_deadline_millis(i64::MAX - 5, 10);
    assert_eq!(deadline, i64::MAX);
}

#[test]
fn compute_deadline_millis_preserves_normal_case() {
    let deadline = compute_deadline_millis(10_000, 250);
    assert_eq!(deadline, 10_250);
}

#[test]
fn timeout_result_payload_uses_method_specific_shape() {
    let user_input =
        timeout_result_payload("item/tool/requestUserInput", false).expect("user input payload");
    assert_eq!(user_input.get("answers"), Some(&JsonValue::Object(vec![])));

    let tool_call = timeout_result_payload("item/tool/call", true).expect("tool call payload");
    assert_eq!(tool_call.get("success"), Some(&JsonValue::Bool(false)));
    assert_eq!(tool_call.get("contentItems"), Some(&JsonValue::Array(vec![])));

    let decline = timeout_result_payload("item/commandExecution/requestApproval", false)
        .expect("decline payload");
    assert_eq!(io_text(decline.get("decision")), Some("decline"));

    let cancel = timeout_result_payload("item/commandExecution/requestApproval", true)
        .expect("cancel payload");
    assert_eq!(io_text(cancel.get("decision")), Some("cancel"));
}

#[test]
fn timeout_error_payload_preserves_method_context() {
    let payload = timeout_error_payload("account/chatgptAuthTokens/refresh");
    assert_eq!(payload.get("code").and_then(|c| c.as_i64()), Some(-32000));
    assert_eq!(io_text(payload.get("message")), Some("server request timed out"));
    assert_eq!(
        io_text(payload.get("data").and_then(|d| d.get("method"))),
        Some("account/chatgptAuthTokens/refresh")
    );
}

#[test]
fn all_generated_known_server_requests_have_plan_kind() {
    for meta in codexus::approvals::known_server_request_methods() {
        assert!(
            describe_server_request(meta.wire_name).is_ok(),
            "missing server request plan kind for '{}'",
            meta.wire_name
        );
    }
}

#[test]
fn unknown_server_request_cannot_be_described() {
    let err = describe_server_request("item/unknown/requestApproval").expect_err("unknown");
    assert_eq!(
        err,
        RuntimeError::Internal("cannot classify unknown server request".to_owned())
    );
}

#[test]
fn elicitation_timeout_uses_action_and_null_content() {
    let d = describe_server_request("mcpServer/elicitation/request").expect("known");
    assert_eq!(d.kind, ServerRequestPlanKind::McpServerElicitationRequest);
    assert_eq!(d.timeout_shape, TimeoutResultShape::ElicitationAction);
    let v = timeout_result_payload("mcpServer/elicitation/request", true).expect("payload");
    assert_eq!(io_text(v.get("action")), Some("cancel"));
    assert_eq!(v.get("content"), Some(&JsonValue::Null));
}

#[test]
fn auth_refresh_timeout_has_no_synthetic_result() {
    let err = timeout_result_payload("account/chatgptAuthTokens/refresh", false)
        .expect_err("error path");
    assert_eq!(
        err,
        RuntimeError::Internal(
            "auth refresh timeout must use error path, not synthetic result".to_owned()
        )
    );
}

#[test]
fn payload_contract_reports_first_missing_field() {
    let d = describe_server_request("item/tool/call").expect("known");
    let ok = JsonValue::object()
        .with("success", JsonValue::Bool(true))
        .with("contentItems", JsonValue::Array(vec![]));
    assert!(validate_payload_contract(&ok, &d.payload_contract).is_ok());
    let missing = JsonValue::object().with("success", JsonValue::Bool(true));
    assert_eq!(
        validate_payload_contract(&missing, &d.payload_contract),
        Err(RuntimeError::Internal(
            "invalid item/tool/call payload: missing contentItems array".to_owned()
        ))
    );
    assert_eq!(
        validate_payload_contract(&JsonValue::Null, &d.payload_contract),
        Err(RuntimeError::Internal(
            "invalid item/tool/call payload: expected object".to_owned()
        ))
    );
}

#[test]
fn positive_capacity_is_required() {
    assert!(validate_positive_capacity("live", 1).is_ok());
    assert_eq!(
        validate_positive_capacity("live", 0),
        Err(RuntimeError::InvalidConfig("live must be > 0".to_owned()))
    );
}

#[test]
fn rpc_request_carries_id_method_and_params() {
    let req = build_rpc_request(7, "turn/start", JsonValue::object());
    assert_eq!(req.get("id").and_then(|v| v.as_u64()), Some(7));
    assert_eq!(io_text(req.get("method")), Some("turn/start"));
    assert_eq!(req.get("params"), Some(&JsonValue::Object(vec![])));
}

#[test]
fn text_tail_keeps_inner_newlines() {
    assert_eq!(
        normalize_text_tail(b"a\nb\r\n\r\n"),
        Some("a\nb".to_owned())
    );
}

fn member_count(v: &JsonValue) -> usize {
    match v {
        JsonValue::Object(members) => members.len(),
        _ => panic!("expected an object"),
    }
}

#[test]
fn timeout_result_payload_has_no_extra_members() {
    let answers = timeout_result_payload("item/tool/requestUserInput", false).expect("user input payload");
    assert_eq!(member_count(&answers), 1);
    let decision = timeout_result_payload("item/fileChange/requestApproval", false).expect("approval payload");
    assert_eq!(member_count(&decision), 1);
    let tool_call = timeout_result_payload("item/tool/call", false).expect("tool call payload");
    assert_eq!(member_count(&tool_call), 2);
    let elicitation = timeout_result_payload("mcpServer/elicitation/request", false).expect("elicitation payload");
    assert_eq!(member_count(&elicitation), 2);
}
