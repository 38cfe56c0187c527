use codexus::errors::{RpcError, RpcErrorObject};
use codexus::events::{JsonRpcId, MsgKind};
use codexus::json::JsonValue;
use codexus::rpc::{classify_message, extract_ids, extract_message_metadata, map_rpc_error};

fn t(s: &str) -> JsonValue {
    JsonValue::text(s)
}

fn o(members: Vec<(&str, JsonValue)>) -> JsonValue {
    let mut value = JsonValue::object();
    for (key, member_value) in members {
        value = value.with(key, member_value);
    }
    value
}

fn id_obj(id: &str) -> JsonValue {
    o(vec![("id", t(id))])
}

#[test]
fn classify_response() {
    let v = o(vec![("id", JsonValue::uint(1)), ("result", JsonValue::object())]);
    assert_eq!(classify_message(&v), MsgKind::Response);
}

#[test]
fn classify_server_request() {
    let v = o(vec![
        ("id", JsonValue::uint(2)),
        ("method", t("item/fileChange/requestApproval")),
        ("params", JsonValue::object()),
    ]);
    assert_eq!(classify_message(&v), MsgKind::ServerRequest);
}

#[test]
fn classify_notification() {
    let v = o(vec![("method", t("turn/started")), ("params", JsonValue::object())]);
    assert_eq!(classify_message(&v), MsgKind::Notification);
}

#[test]
fn classify_unknown() {
    let v = o(vec![("foo", t("bar"))]);
    assert_eq!(classify_message(&v), MsgKind::Unknown);
}

#[test]
fn extract_ids_prefers_params() {
    let v = o(vec![(
        "params",
        o(vec![("threadId", t("thr_1")), ("turnId", t("turn_1")), ("itemId", t("item_1"))]),
    )]);
    let ids = extract_ids(&v);
    assert_eq!(ids.thread_id.as_deref(), Some("thr_1"));
    assert_eq!(ids.turn_id.as_deref(), Some("turn_1"));
    assert_eq!(ids.item_id.as_deref(), Some("item_1"));
}

#[test]
fn extract_ids_supports_nested_struct_ids() {
    let v = o(vec![(
        "params",
        o(vec![
            ("thread", id_obj("thr_nested")),
            ("turn", id_obj("turn_nested")),
            ("item", id_obj("item_nested")),
        ]),
    )]);
    let ids = extract_ids(&v);
    assert_eq!(ids.thread_id.as_deref(), Some("thr_nested"));
    assert_eq!(ids.turn_id.as_deref(), Some("turn_nested"));
    assert_eq!(ids.item_id.as_deref(), Some("item_nested"));
}

#[test]
fn extract_ids_ignores_legacy_conversation_id() {
    let v = o(vec![("params", o(vec![("conversationId", t("thr_conv"))]))]);
    let ids = extract_ids(&v);
    assert_eq!(ids.thread_id, None);
    assert_eq!(ids.turn_id, None);
    assert_eq!(ids.item_id, None);
}

#[test]
fn extract_ids_rejects_non_canonical_id_values() {
    let v = o(vec![(
        "params",
        o(vec![("threadId", t(" thr_space ")), ("turn", id_obj("")), ("itemId", t("item_ok"))]),
    )]);
    let ids = extract_ids(&v);
    assert_eq!(ids.thread_id, None);
    assert_eq!(ids.turn_id, None);
    assert_eq!(ids.item_id.as_deref(), Some("item_ok"));
}

#[test]
fn map_overloaded_error() {
    let v = o(vec![("code", JsonValue::integer(-32001)), ("message", t("ingress overload"))]);
    assert_eq!(map_rpc_error(&v), RpcError::Overloaded);
}

#[test]
fn map_rpc_error_covers_each_code_class() {
    let v = o(vec![("code", JsonValue::integer(-32600)), ("message", t("bad"))]);
    assert_eq!(map_rpc_error(&v), RpcError::InvalidRequest("bad".to_owned()));
    let v = o(vec![("code", JsonValue::integer(-32601))]);
    assert_eq!(map_rpc_error(&v), RpcError::MethodNotFound("unknown rpc error".to_owned()));
    let v = o(vec![("code", JsonValue::integer(7)), ("message", t("x")), ("data", t("d"))]);
    assert_eq!(
        map_rpc_error(&v),
        RpcError::ServerError(RpcErrorObject { code: 7, message: "x".to_owned(), data: Some(t("d")) })
    );
    assert_eq!(
        map_rpc_error(&o(vec![("message", t("no code"))])),
        RpcError::InvalidRequest("invalid rpc error payload".to_owned())
    );
}

#[test]
fn extract_message_metadata_matches_legacy_helpers() {
    let fixtures = vec![
        o(vec![
            ("id", JsonValue::uint(1)),
            (
                "result",
                o(vec![("thread", id_obj("thr_1")), ("turn", id_obj("turn_1")), ("item", id_obj("item_1"))]),
            ),
        ]),
        o(vec![
            ("id", t("42")),
            ("method", t("item/fileChange/requestApproval")),
            ("params", o(vec![("threadId", t("thr_2")), ("turnId", t("turn_2")), ("itemId", t("item_2"))])),
        ]),
        o(vec![
            ("method", t("turn/started")),
            ("params", o(vec![("thread", id_obj("thr_3")), ("turn", id_obj("turn_3"))])),
        ]),
    ];

    for fixture in fixtures {
        let meta = extract_message_metadata(&fixture);
        let ids = extract_ids(&fixture);

        assert_eq!(meta.kind, classify_message(&fixture));
        assert_eq!(meta.thread_id, ids.thread_id);
        assert_eq!(meta.turn_id, ids.turn_id);
        assert_eq!(meta.item_id, ids.item_id);
    }
}

#[test]
fn message_metadata_keeps_request_id_and_method() {
    let v = o(vec![("id", t("42")), ("method", t("item/tool/call")), ("params", JsonValue::object())]);
    let meta = extract_message_metadata(&v);
    assert_eq!(meta.kind, MsgKind::ServerRequest);
    assert_eq!(meta.rpc_id, Some(JsonRpcId::Text("42".to_owned())));
    assert_eq!(meta.response_id, Some(42));
    assert_eq!(meta.method.as_deref(), Some("item/tool/call"));
    let v = o(vec![("id", JsonValue::uint(9)), ("result", JsonValue::object())]);
    assert_eq!(extract_message_metadata(&v).response_id, Some(9));
    let v = o(vec![("id", t("req-7")), ("method", t("item/tool/call"))]);
    assert_eq!(extract_message_metadata(&v).response_id, None);
}
