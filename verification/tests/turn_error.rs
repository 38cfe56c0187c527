use codexus::events::{Direction, Envelope, MsgKind};
use codexus::json::JsonValue;
use codexus::prompt::{
    classify_failure, extract_turn_error_signal, signals_quota_exhausted, PromptRunError,
    PromptTurnFailure, PromptTurnFailureKind, PromptTurnTerminalState,
};

fn error_envelope(method: &str, json: JsonValue) -> Envelope {
    Envelope {
        seq: 1,
        ts_millis: 0,
        direction: Direction::Inbound,
        kind: MsgKind::Notification,
        rpc_id: None,
        method: Some(method.to_owned()),
        thread_id: None,
        turn_id: None,
        item_id: None,
        json,
    }
}

#[test]
fn classify_429_is_rate_limit() {
    assert_eq!(
        classify_failure(Some(429), "rate limited"),
        PromptTurnFailureKind::RateLimit
    );
}

#[test]
fn classify_usage_limit_message_is_quota_exceeded() {
    let msg = "You've hit your usage limit. Upgrade to Pro (https://chatgpt.com/explore/pro), visit https://chatgpt.com/codex/settings/usage to purchase more credits or try again at 1:20 PM.";
    assert_eq!(
        classify_failure(None, msg),
        PromptTurnFailureKind::QuotaExceeded
    );
}

#[test]
fn classify_purchase_credits_message_is_quota_exceeded() {
    assert_eq!(
        classify_failure(None, "purchase more credits to continue"),
        PromptTurnFailureKind::QuotaExceeded
    );
}

#[test]
fn classify_generic_message_is_other() {
    assert_eq!(
        classify_failure(None, "model unavailable"),
        PromptTurnFailureKind::Other
    );
    assert_eq!(
        classify_failure(Some(500), "internal error"),
        PromptTurnFailureKind::Other
    );
}

#[test]
fn is_quota_exceeded_returns_true_for_quota_exceeded() {
    let quota_err = PromptRunError::TurnCompletedWithoutAssistantText(PromptTurnFailure {
        terminal_state: PromptTurnTerminalState::CompletedWithoutAssistantText,
        kind: PromptTurnFailureKind::QuotaExceeded,
        source_method: "error".to_owned(),
        code: None,
        message: "hit your usage limit".to_owned(),
    });
    assert!(quota_err.is_quota_exceeded());

    let other_err = PromptRunError::TurnFailed;
    assert!(!other_err.is_quota_exceeded());
}

#[test]
fn is_rate_limited_does_not_trigger_quota_exceeded() {
    let rate_err = PromptRunError::TurnFailedWithContext(PromptTurnFailure {
        terminal_state: PromptTurnTerminalState::Failed,
        kind: PromptTurnFailureKind::RateLimit,
        source_method: "turn/failed".to_owned(),
        code: Some(429),
        message: "rate limited".to_owned(),
    });
    assert!(!rate_err.is_quota_exceeded());
}

#[test]
fn quota_phrases_are_case_sensitive_except_upgrade() {
    assert!(signals_quota_exhausted("Upgrade to Pro now"));
    assert!(signals_quota_exhausted("please upgrade to Pro"));
    assert!(!signals_quota_exhausted("USAGE LIMIT"));
    assert!(!signals_quota_exhausted(""));
}

#[test]
fn rate_limit_code_wins_over_quota_message() {
    assert_eq!(
        classify_failure(Some(429), "hit your usage limit"),
        PromptTurnFailureKind::RateLimit
    );
}

#[test]
fn turn_error_signal_reads_nested_error_and_code() {
    let json = JsonValue::object().with(
        "params",
        JsonValue::object().with(
            "error",
            JsonValue::object()
                .with("code", JsonValue::integer(429))
                .with("message", JsonValue::text("rate limited")),
        ),
    );
    let signal = extract_turn_error_signal(&error_envelope("turn/failed", json)).expect("signal");
    assert_eq!(signal.source_method, "turn/failed");
    assert_eq!(signal.code, Some(429));
    assert_eq!(signal.message, "rate limited");
}

#[test]
fn turn_error_signal_falls_back_to_method_event() {
    let json = JsonValue::object().with("params", JsonValue::object());
    let signal = extract_turn_error_signal(&error_envelope("error", json)).expect("signal");
    assert_eq!(signal.code, None);
    assert_eq!(signal.message, "error event");
}

#[test]
fn turn_error_signal_ignores_other_methods() {
    let json = JsonValue::object().with(
        "params",
        JsonValue::object().with("message", JsonValue::text("not an error")),
    );
    assert!(extract_turn_error_signal(&error_envelope("turn/completed", json)).is_none());
}

#[test]
fn turn_error_signal_prefers_params_error_over_params_message() {
    let json = JsonValue::object().with(
        "params",
        JsonValue::object()
            .with("message", JsonValue::text("outer"))
            .with("error", JsonValue::object().with("detail", JsonValue::text("inner"))),
    );
    let signal = extract_turn_error_signal(&error_envelope("error", json)).expect("signal");
    assert_eq!(signal.message, "inner");
}

#[test]
fn into_failure_classifies_signal() {
    let json = JsonValue::object().with(
        "params",
        JsonValue::object().with("message", JsonValue::text("purchase more credits")),
    );
    let signal = extract_turn_error_signal(&error_envelope("error", json)).expect("signal");
    let failure = signal.into_failure(PromptTurnTerminalState::Failed);
    assert_eq!(failure.kind, PromptTurnFailureKind::QuotaExceeded);
    assert_eq!(failure.terminal_state, PromptTurnTerminalState::Failed);
    assert_eq!(failure.source_method, "error");
}
