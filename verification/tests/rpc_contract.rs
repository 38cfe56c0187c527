use codexus::errors::RpcError;
use codexus::json::JsonValue;
use codexus::rpc_contract::{
    payload_summary, sort_texts, validate_method_name, validate_rpc_request, validate_rpc_response,
    RpcValidationMode,
};

#[test]
fn default_validation_mode_is_known_methods() {
    assert_eq!(
        RpcValidationMode::default(),
        RpcValidationMode::KnownMethods
    );
}

#[test]
fn rejects_empty_method() {
    let err = validate_rpc_request("", &JsonValue::object(), RpcValidationMode::KnownMethods, None)
        .expect_err("empty method must fail");
    assert!(matches!(err, RpcError::InvalidRequest(_)));
}

#[test]
fn skips_validation_in_none_mode() {
    validate_rpc_request("", &JsonValue::Null, RpcValidationMode::Disabled, None)
        .expect_err("empty method must still fail");
    validate_rpc_request(
        "turn/start",
        &JsonValue::Null,
        RpcValidationMode::Disabled,
        Some(Err("params must be an object".to_owned())),
    )
    .expect("none mode skips params shape");
    validate_rpc_response(
        "turn/start",
        &JsonValue::Null,
        RpcValidationMode::Disabled,
        Some(Err("result must be an object".to_owned())),
    )
    .expect("none mode skips result shape");
}

#[test]
fn passes_unknown_method_in_known_mode() {
    let params = JsonValue::object().with("k", JsonValue::text("v"));
    validate_rpc_request("echo/custom", &params, RpcValidationMode::KnownMethods, None)
        .expect("unknown method request should pass");
}

#[test]
fn invalid_request_error_redacts_payload_values() {
    let params = JsonValue::object()
        .with("threadId", JsonValue::text("thr_sensitive"))
        .with("secret", JsonValue::text("token-123"));
    let err = validate_rpc_request(
        "turn/interrupt",
        &params,
        RpcValidationMode::KnownMethods,
        Some(Err("params.turnId must be a non-empty string".to_owned())),
    )
    .expect_err("missing turnId must fail");

    let RpcError::InvalidRequest(message) = err else {
        panic!("expected invalid request");
    };
    assert!(message.contains("invalid json-rpc request for turn/interrupt"));
    assert!(message.contains("params.turnId must be a non-empty string"));
    assert!(message.contains("payload=object(keys=[secret,threadId])"));
    assert!(!message.contains("token-123"));
    assert!(!message.contains("thr_sensitive"));
}

#[test]
fn invalid_response_error_redacts_payload_values() {
    let result = JsonValue::object()
        .with("exitCode", JsonValue::integer(0))
        .with("stdout", JsonValue::text("ok"))
        .with("secret", JsonValue::object().with("token", JsonValue::text("abc")));
    let err = validate_rpc_response(
        "command/exec",
        &result,
        RpcValidationMode::KnownMethods,
        Some(Err("result.stderr must be a string".to_owned())),
    )
    .expect_err("missing stderr must fail");
    let RpcError::InvalidRequest(message) = err else {
        panic!("expected invalid request");
    };
    assert!(message.contains("invalid json-rpc response for command/exec"));
    assert!(message.contains("result.stderr must be a string"));
    assert!(message.contains("payload=object(keys=[exitCode,secret,stdout])"));
    assert!(!message.contains("abc"));
}

#[test]
fn blank_method_names_are_refused() {
    assert!(validate_method_name("   ").is_err());
    assert!(validate_method_name("thread/start").is_ok());
}

#[test]
fn payload_summary_names_shapes() {
    assert_eq!(payload_summary(&JsonValue::Null), "null");
    assert_eq!(payload_summary(&JsonValue::Bool(true)), "bool");
    assert_eq!(payload_summary(&JsonValue::integer(3)), "number");
    assert_eq!(payload_summary(&JsonValue::text("héllo")), "string(len=6)");
    assert_eq!(
        payload_summary(&JsonValue::Array(vec![JsonValue::Null, JsonValue::Null])),
        "array(len=2)"
    );
    let mut obj = JsonValue::object();
    for k in ["h", "g", "f", "e", "d", "c", "b", "a"] {
        obj = obj.with(k, JsonValue::Null);
    }
    assert_eq!(payload_summary(&obj), "object(keys=[a,b,c,d,e,f,...])");
}

#[test]
fn sort_texts_orders_by_code_point() {
    let sorted = sort_texts(vec![
        "b".to_owned(),
        "B".to_owned(),
        "a".to_owned(),
        "ab".to_owned(),
    ]);
    assert_eq!(sorted, vec!["B", "a", "ab", "b"]);
}

#[test]
fn payload_summary_ignores_values_and_key_order() {
    let a = JsonValue::object()
        .with("token", JsonValue::text("SECRET-REDACTED"))
        .with("apiKey", JsonValue::integer(12345));
    let b = JsonValue::object()
        .with("apiKey", JsonValue::Bool(false))
        .with("token", JsonValue::Null);
    assert_eq!(payload_summary(&a), payload_summary(&b));
    assert_eq!(payload_summary(&a), "object(keys=[apiKey,token])");
    assert!(!payload_summary(&a).contains("12345"));
}
