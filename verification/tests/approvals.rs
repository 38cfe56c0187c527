use codexus::approvals::{
    is_known_server_request_method, known_server_request_methods, ServerRequestConfig,
    TimeoutAction,
};
use codexus::dispatch::{
    route_server_request, settle_server_request_handoff, take_answered_request, take_server_request_receiver,
    PendingServerRequestEntry, ServerRequestRoute, TimeoutResponse,
};
use codexus::errors::RuntimeError;
use codexus::json::JsonValue;
use codexus::events::JsonRpcId;
use codexus::prompt::resolve_attachment_path;

#[test]
fn classifies_known_file_change_request() {
    assert!(is_known_server_request_method(
        "item/fileChange/requestApproval"
    ));
}

#[test]
fn classifies_known_dynamic_tool_call_request() {
    assert!(is_known_server_request_method("item/tool/call"));
}

#[test]
fn classifies_known_auth_refresh_request() {
    assert!(is_known_server_request_method(
        "account/chatgptAuthTokens/refresh"
    ));
}

#[test]
fn exposes_centralized_known_server_request_methods() {
    let methods = known_server_request_methods();
    assert!(methods
        .iter()
        .any(|meta| meta.wire_name == "item/fileChange/requestApproval"));
    assert!(methods
        .iter()
        .any(|meta| meta.wire_name == "item/tool/call"));
    assert!(methods
        .iter()
        .any(|meta| meta.wire_name == "account/chatgptAuthTokens/refresh"));
}

#[test]
fn leaves_unknown_method_outside_known_inventory() {
    assert!(!is_known_server_request_method(
        "item/unknown/requestApproval"
    ));
}

#[test]
fn default_on_timeout_is_decline() {
    let cfg = ServerRequestConfig::default();
    assert_eq!(cfg.default_timeout_ms, 30_000);
    assert_eq!(cfg.on_timeout, TimeoutAction::Decline);
}

#[test]
fn all_known_server_requests_in_generated_inventory_are_classified() {
    for meta in known_server_request_methods() {
        assert!(
            is_known_server_request_method(meta.wire_name),
            "server request '{}' not classified as known",
            meta.wire_name
        );
    }
}

#[test]
fn unknown_server_request_is_not_classified_as_known() {
    assert!(!is_known_server_request_method(
        "item/unknown/requestApproval"
    ));
    assert!(!is_known_server_request_method(""));
    assert!(!is_known_server_request_method("some/made/up/method"));
}

fn entry(key: &str, method: &str) -> PendingServerRequestEntry {
    PendingServerRequestEntry {
        rpc_id: JsonRpcId::Text(key.to_owned()),
        rpc_key: format!("s:{key}"),
        method: method.to_owned(),
        created_at_millis: 0,
        deadline_millis: 10,
    }
}

#[test]
fn approval_with_tool_hooks_is_answered_by_hooks() {
    let route = route_server_request(
        JsonRpcId::Number(7),
        "item/commandExecution/requestApproval",
        true,
        1_000,
        30_000,
    );
    assert_eq!(route, ServerRequestRoute::RunToolUseHooks(JsonRpcId::Number(7)));
}

#[test]
fn other_requests_are_queued_with_deadline() {
    let route = route_server_request(JsonRpcId::Number(7), "item/tool/requestUserInput", true, 1_000, 30_000);
    match route {
        ServerRequestRoute::Queue(e) => {
            assert_eq!(e.rpc_key, "n:7");
            assert_eq!(e.method, "item/tool/requestUserInput");
            assert_eq!(e.created_at_millis, 1_000);
            assert_eq!(e.deadline_millis, 31_000);
        }
        other => panic!("expected queue, got {other:?}"),
    }
    // Without tool-use hooks an approval is queued as well.
    assert!(matches!(
        route_server_request(JsonRpcId::Number(8), "item/fileChange/requestApproval", false, 0, 5),
        ServerRequestRoute::Queue(_)
    ));
}

#[test]
fn undelivered_request_is_answered_at_once_by_timeout_policy() {
    let mut pending = vec![entry("a", "item/tool/call"), entry("b", "item/fileChange/requestApproval")];
    assert!(settle_server_request_handoff(true, &mut pending, "s:b", TimeoutAction::Decline).is_none());
    assert_eq!(pending.len(), 2);
    let (taken, response) =
        settle_server_request_handoff(false, &mut pending, "s:b", TimeoutAction::Decline).expect("settled");
    assert_eq!(taken.rpc_key, "s:b");
    assert_eq!(pending.len(), 1);
    assert_eq!(pending[0].rpc_key, "s:a");
    match response {
        TimeoutResponse::Result(v) => assert_eq!(v.get("decision").and_then(|d| d.as_str()).map(|s| s.as_str()), Some("decline")),
        other => panic!("expected a decline result, got {other:?}"),
    }
    assert!(settle_server_request_handoff(false, &mut pending, "s:zz", TimeoutAction::Decline).is_none());
    assert_eq!(pending.len(), 1);
}

#[test]
fn attachment_paths_resolve_against_cwd() {
    assert_eq!(resolve_attachment_path("/work", "notes.md"), "/work/notes.md");
    assert_eq!(resolve_attachment_path("/work/", "notes.md"), "/work/notes.md");
    assert_eq!(resolve_attachment_path("/work", "/etc/hosts"), "/etc/hosts");
    assert_eq!(resolve_attachment_path("", "notes.md"), "notes.md");
}

#[test]
fn invalid_approval_result_keeps_request_pending() {
    let mut pending = vec![entry("a", "item/commandExecution/requestApproval")];
    let bad = JsonValue::object().with("other", JsonValue::Bool(true));
    let err = take_answered_request(&mut pending, "s:a", Some(&bad)).expect_err("missing decision");
    assert_eq!(
        err,
        RuntimeError::Internal("invalid approval payload for item/commandExecution/requestApproval: missing decision".to_owned())
    );
    assert_eq!(pending.len(), 1);
    let good = JsonValue::object().with("decision", JsonValue::text("accept"));
    let taken = take_answered_request(&mut pending, "s:a", Some(&good)).expect("accepted");
    assert_eq!(taken.rpc_key, "s:a");
    assert!(pending.is_empty());
    let missing = take_answered_request(&mut pending, "s:a", None).expect_err("gone");
    assert_eq!(missing, RuntimeError::Internal("approval id not found: s:a".to_owned()));
}

#[test]
fn server_request_receiver_is_taken_once() {
    let mut slot = Some(5u8);
    assert_eq!(take_server_request_receiver(&mut slot), Ok(5));
    assert_eq!(take_server_request_receiver(&mut slot), Err(RuntimeError::ServerRequestReceiverTaken));
}
