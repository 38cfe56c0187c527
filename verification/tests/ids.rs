use codexus::ids::{
    extract_item_id, extract_thread_id, extract_turn_id, is_canonical, parse_result_thread_id,
    parse_result_turn_id,
};
use codexus::json::JsonValue;

fn single(key: &str, value: JsonValue) -> JsonValue {
    JsonValue::object().with(key, value)
}

fn nested_id(key: &str, id: &str) -> JsonValue {
    single(key, single("id", JsonValue::text(id)))
}

#[test]
fn parse_result_ids_accept_nested_and_camel_shapes() {
    assert_eq!(
        parse_result_thread_id(&nested_id("thread", "thr_nested")).as_deref(),
        Some("thr_nested")
    );
    assert_eq!(
        parse_result_turn_id(&single("turnId", JsonValue::text("turn_field"))).as_deref(),
        Some("turn_field")
    );
}

#[test]
fn parse_result_ids_reject_loose_and_invalid_shapes() {
    assert_eq!(parse_result_thread_id(&single("id", JsonValue::text("thr_top"))), None);
    assert_eq!(parse_result_turn_id(&JsonValue::text("turn_raw")), None);
    assert_eq!(parse_result_thread_id(&single("threadId", JsonValue::text(""))), None);
    assert_eq!(parse_result_turn_id(&nested_id("turn", "  ")), None);
}

#[test]
fn extract_ids_supports_direct_nested_and_params_shapes() {
    assert_eq!(
        extract_thread_id(&single("threadId", JsonValue::text("thr_direct"))).as_deref(),
        Some("thr_direct")
    );
    assert_eq!(
        extract_thread_id(&nested_id("thread", "thr_nested")).as_deref(),
        Some("thr_nested")
    );
    assert_eq!(
        extract_turn_id(&single("params", single("turnId", JsonValue::text("turn_params")))).as_deref(),
        Some("turn_params")
    );
    assert_eq!(
        extract_item_id(&single("params", nested_id("item", "item_nested"))).as_deref(),
        Some("item_nested")
    );
}

#[test]
fn canonical_ids_are_non_empty_and_trimmed() {
    assert!(is_canonical(&"thr_1".to_owned()));
    assert!(!is_canonical(&"".to_owned()));
    assert!(!is_canonical(&" thr_1".to_owned()));
    assert!(!is_canonical(&"thr_1\n".to_owned()));
}
