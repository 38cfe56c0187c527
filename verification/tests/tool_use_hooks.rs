use codexus::hooks::{HookRef, RuntimeHookConfig};
use codexus::json::JsonValue;
use codexus::methods::{ITEM_COMMAND_EXECUTION_REQUEST_APPROVAL, ITEM_FILE_CHANGE_REQUEST_APPROVAL, ITEM_TOOL_CALL};
use codexus::plugin::HookPhase;
use codexus::tool_use::{extract_tool_input, extract_tool_name, first_whitespace_word, pre_tool_use_context};

fn one_member(key: &str, value: &str) -> JsonValue {
    JsonValue::object().with(key, JsonValue::text(value))
}

#[test]
fn extracts_binary_name_from_command() {
    assert_eq!(
        extract_tool_name(
            ITEM_COMMAND_EXECUTION_REQUEST_APPROVAL,
            &one_member("command", "cargo test --lib"),
        ),
        Some("cargo".to_owned())
    );
}

#[test]
fn extracts_file_change_tool_name() {
    assert_eq!(
        extract_tool_name(ITEM_FILE_CHANGE_REQUEST_APPROVAL, &one_member("path", "/foo/bar.rs")),
        Some("file_change".to_owned())
    );
}

#[test]
fn extracts_tool_call_name() {
    assert_eq!(
        extract_tool_name(ITEM_TOOL_CALL, &one_member("toolName", "search_files")),
        Some("search_files".to_owned())
    );
}

#[test]
fn returns_none_for_unknown_method() {
    assert_eq!(extract_tool_name("item/unknown/method", &JsonValue::object()), None);
}

#[test]
fn extracts_tool_input_non_null() {
    assert_eq!(
        extract_tool_input(&one_member("command", "ls")),
        Some(one_member("command", "ls"))
    );
}

#[test]
fn returns_none_for_null_params() {
    assert_eq!(extract_tool_input(&JsonValue::Null), None);
}

#[test]
fn command_made_of_whitespace_has_no_tool_name() {
    assert_eq!(
        extract_tool_name(ITEM_COMMAND_EXECUTION_REQUEST_APPROVAL, &one_member("command", "  \t ")),
        None
    );
    assert_eq!(first_whitespace_word("\t  ls -la"), Some("ls".to_owned()));
    assert_eq!(first_whitespace_word(""), None);
}

#[test]
fn pre_tool_use_context_carries_request_identity() {
    let params = JsonValue::object()
        .with("threadId", JsonValue::text("thr_1"))
        .with("command", JsonValue::text("rm -rf /tmp/x"));
    let ctx = pre_tool_use_context(ITEM_COMMAND_EXECUTION_REQUEST_APPROVAL, &params, "42", 7);
    assert_eq!(ctx.phase, HookPhase::PreToolUse);
    assert_eq!(ctx.thread_id.as_deref(), Some("thr_1"));
    assert_eq!(ctx.correlation_id, "tu-42");
    assert_eq!(ctx.ts_ms, 7);
    assert_eq!(ctx.tool_name.as_deref(), Some("rm"));
    assert_eq!(ctx.tool_input, Some(params));
}

#[test]
fn hook_config_is_empty_reports_configured_hooks() {
    assert!(!RuntimeHookConfig::new().is_empty());
    let hook = HookRef { name: "audit".to_owned(), handle: 1 };
    assert!(RuntimeHookConfig::new().with_post_hook(hook).is_empty());
    let tool = HookRef { name: "guard".to_owned(), handle: 2 };
    assert!(RuntimeHookConfig::new().with_pre_tool_use_hook(tool).is_empty());
}
