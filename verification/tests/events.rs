use codexus::events::{
    decode_notification, extract_agent_message_delta, extract_command_exec_output_delta,
    extract_error_message, extract_fs_changed_notification, extract_skills_changed_notification,
    extract_text_from_params, extract_turn_cancelled, extract_turn_completed, extract_turn_failed,
    extract_turn_interrupted, Direction, Envelope, JsonRpcId, MsgKind, RuntimeNotification,
    SkillsChangedNotification,
};
use codexus::json::JsonValue;

fn text(s: &str) -> JsonValue {
    JsonValue::text(s)
}

fn obj(members: Vec<(&str, JsonValue)>) -> JsonValue {
    let mut value = JsonValue::object();
    for (key, member_value) in members {
        value = value.with(key, member_value);
    }
    value
}

fn notification(method: &str, ids: (Option<&str>, Option<&str>, Option<&str>), params: JsonValue) -> Envelope {
    Envelope {
        seq: 1,
        ts_millis: 0,
        direction: Direction::Inbound,
        kind: MsgKind::Notification,
        rpc_id: None,
        method: Some(method.to_owned()),
        thread_id: ids.0.map(str::to_owned),
        turn_id: ids.1.map(str::to_owned),
        item_id: ids.2.map(str::to_owned),
        json: obj(vec![("method", text(method)), ("params", params)]),
    }
}

#[test]
fn detects_skills_changed_notification() {
    let envelope = notification("skills/changed", (None, None, None), JsonValue::object());
    assert_eq!(
        extract_skills_changed_notification(&envelope),
        Some(SkillsChangedNotification {})
    );
    assert!(matches!(
        decode_notification(&envelope),
        Some(RuntimeNotification::SkillsChanged(_))
    ));
}

#[test]
fn rejects_non_skills_changed_notification() {
    let envelope = Envelope {
        seq: 1,
        ts_millis: 0,
        direction: Direction::Inbound,
        kind: MsgKind::ServerRequest,
        rpc_id: Some(JsonRpcId::Number(1)),
        method: Some("skills/changed".to_owned()),
        thread_id: None,
        turn_id: None,
        item_id: None,
        json: obj(vec![
            ("id", JsonValue::uint(1)),
            ("method", text("skills/changed")),
            ("params", JsonValue::object()),
        ]),
    };

    assert_eq!(extract_skills_changed_notification(&envelope), None);
    assert_eq!(decode_notification(&envelope), None);
}

#[test]
fn detects_command_exec_output_delta_notification() {
    let envelope = notification(
        "command/exec/outputDelta",
        (None, None, None),
        obj(vec![
            ("processId", text("proc-1")),
            ("stream", text("stdout")),
            ("deltaBase64", text("aGVsbG8=")),
            ("capReached", JsonValue::Bool(false)),
        ]),
    );

    let notification =
        extract_command_exec_output_delta(&envelope).expect("typed output delta notification");
    assert_eq!(notification.process_id, "proc-1");
    assert_eq!(notification.delta_base64, "aGVsbG8=");
    assert!(!notification.cap_reached);
    assert!(matches!(
        decode_notification(&envelope),
        Some(RuntimeNotification::CommandExecOutputDelta(_))
    ));
}

#[test]
fn detects_fs_changed_notification() {
    let params = obj(vec![
        ("watchId", text("watch-1")),
        ("changedPaths", JsonValue::Array(vec![text("/tmp/repo/.git/index")])),
    ]);
    let envelope = notification("fs/changed", (None, None, None), obj(vec![
        ("watchId", text("watch-1")),
        ("changedPaths", JsonValue::Array(vec![text("/tmp/repo/.git/index")])),
    ]));

    let notification =
        extract_fs_changed_notification(&envelope).expect("typed fs changed notification");
    assert_eq!(notification, params);
    assert!(matches!(
        decode_notification(&envelope),
        Some(RuntimeNotification::FsChanged(_))
    ));
}

#[test]
fn detects_agent_message_delta_notification() {
    let envelope = notification(
        "item/agentMessage/delta",
        (Some("thr_1"), Some("turn_1"), Some("item_1")),
        obj(vec![
            ("threadId", text("thr_1")),
            ("turnId", text("turn_1")),
            ("itemId", text("item_1")),
            ("delta", text("hello")),
        ]),
    );

    let notification = extract_agent_message_delta(&envelope).expect("agent delta");
    assert_eq!(notification.thread_id, "thr_1");
    assert_eq!(notification.turn_id, "turn_1");
    assert_eq!(notification.item_id.as_deref(), Some("item_1"));
    assert_eq!(notification.delta, "hello");
}

#[test]
fn agent_message_delta_without_ids_is_not_decoded() {
    let envelope = notification(
        "item/agentMessage/delta",
        (None, None, None),
        obj(vec![("delta", text("hello"))]),
    );
    assert_eq!(extract_agent_message_delta(&envelope), None);
    assert_eq!(decode_notification(&envelope), None);
}

#[test]
fn detects_turn_completed_notification() {
    let envelope = notification(
        "turn/completed",
        (Some("thr_1"), Some("turn_1"), None),
        obj(vec![("threadId", text("thr_1")), ("turnId", text("turn_1")), ("text", text("done"))]),
    );

    let notification = extract_turn_completed(&envelope).expect("turn completed");
    assert_eq!(notification.thread_id, "thr_1");
    assert_eq!(notification.turn_id, "turn_1");
    assert_eq!(notification.text.as_deref(), Some("done"));
    assert!(matches!(
        decode_notification(&envelope),
        Some(RuntimeNotification::TurnCompleted(_))
    ));
}

#[test]
fn detects_turn_failed_notification() {
    let envelope = notification(
        "turn/failed",
        (Some("thr_1"), Some("turn_1"), None),
        obj(vec![
            ("threadId", text("thr_1")),
            ("turnId", text("turn_1")),
            ("error", obj(vec![("code", JsonValue::integer(429)), ("message", text("rate limited"))])),
        ]),
    );

    let notification = extract_turn_failed(&envelope).expect("turn failed");
    assert_eq!(notification.thread_id, "thr_1");
    assert_eq!(notification.turn_id, "turn_1");
    assert_eq!(notification.code, Some(429));
    assert_eq!(notification.message.as_deref(), Some("rate limited"));
}

#[test]
fn detects_turn_interrupted_notification() {
    let envelope = notification(
        "turn/interrupted",
        (Some("thr_1"), Some("turn_1"), None),
        obj(vec![("threadId", text("thr_1")), ("turnId", text("turn_1"))]),
    );

    let notification = extract_turn_interrupted(&envelope).expect("turn interrupted");
    assert_eq!(notification.thread_id, "thr_1");
    assert_eq!(notification.turn_id, "turn_1");
}

#[test]
fn detects_turn_cancelled_notification() {
    let envelope = notification(
        "turn/cancelled",
        (Some("thr_1"), Some("turn_1"), None),
        obj(vec![("threadId", text("thr_1")), ("turnId", text("turn_1"))]),
    );

    let notification = extract_turn_cancelled(&envelope).expect("turn cancelled");
    assert_eq!(notification.thread_id, "thr_1");
    assert_eq!(notification.turn_id, "turn_1");
}

#[test]
fn unknown_notification_maps_to_other() {
    let envelope = notification(
        "unknown/customNotification",
        (None, None, None),
        obj(vec![("k", text("v"))]),
    );

    assert!(matches!(
        decode_notification(&envelope),
        Some(RuntimeNotification::Other { .. })
    ));
    match decode_notification(&envelope) {
        Some(RuntimeNotification::Other { method, params }) => {
            assert_eq!(method, "unknown/customNotification");
            assert_eq!(params, obj(vec![("k", text("v"))]));
        }
        other => panic!("unexpected decode: {other:?}"),
    }
}

#[test]
fn text_of_params_prefers_item_text_then_joins_content_parts() {
    let params = obj(vec![("item", obj(vec![("text", text("from item"))])), ("text", text("top"))]);
    assert_eq!(extract_text_from_params(&params).as_deref(), Some("from item"));
    let params = obj(vec![("outputText", text("out"))]);
    assert_eq!(extract_text_from_params(&params).as_deref(), Some("out"));
    let params = obj(vec![(
        "item",
        obj(vec![(
            "content",
            JsonValue::Array(vec![obj(vec![("text", text("a"))]), obj(vec![("text", text("b"))])]),
        )]),
    )]);
    assert_eq!(extract_text_from_params(&params).as_deref(), Some("ab"));
    assert_eq!(extract_text_from_params(&JsonValue::object()), None);
}

#[test]
fn error_message_reads_top_level_then_nested_error() {
    let root = obj(vec![("detail", text("busy")), ("error", obj(vec![("code", JsonValue::integer(-32001))]))]);
    assert_eq!(extract_error_message(&root), (Some(-32001), Some("busy".to_owned())));
    assert_eq!(extract_error_message(&JsonValue::Null), (None, None));
}
