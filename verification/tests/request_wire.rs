use codexus::input::InputItem;
use codexus::json::JsonValue;
use codexus::policies::{ApprovalPolicy, Personality, ReasoningEffort, SandboxPolicy, SandboxPreset, ServiceTier};
use codexus::request_wire::{thread_overrides_to_wire, thread_start_params_to_wire, turn_start_params_to_wire};
use codexus::thread_ops::{ThreadStartParams, TurnStartParams};

fn at<'a>(v: &'a JsonValue, key: &str) -> &'a JsonValue {
    v.get(key).expect("member present")
}

fn text(v: &JsonValue) -> &str {
    v.as_str().expect("string member").as_str()
}

fn object(members: Vec<(&str, JsonValue)>) -> JsonValue {
    let mut v = JsonValue::object();
    for (k, m) in members {
        v = v.with(k, m);
    }
    v
}

fn sample_thread_params(service_tier: Option<Option<ServiceTier>>, privileged: bool) -> ThreadStartParams {
    ThreadStartParams {
        model: Some("gpt-5".to_owned()),
        model_provider: Some("openai".to_owned()),
        service_tier,
        cwd: Some("/work".to_owned()),
        approval_policy: Some(ApprovalPolicy::OnRequest),
        sandbox_policy: Some(SandboxPolicy::Preset(SandboxPreset::ReadOnly)),
        config: Some(vec![("telemetry".to_owned(), JsonValue::Bool(true))]),
        service_name: Some("codex".to_owned()),
        base_instructions: Some("base".to_owned()),
        developer_instructions: Some("dev".to_owned()),
        personality: Some(Personality::Friendly),
        ephemeral: Some(true),
        privileged_escalation_approved: privileged,
    }
}

#[test]
fn maps_turn_start_params_to_wire_shape() {
    let params = TurnStartParams {
        input: vec![
            InputItem::Text { text: "hello".to_owned() },
            InputItem::LocalImage { path: "/tmp/a.png".to_owned() },
        ],
        cwd: Some("/tmp".to_owned()),
        approval_policy: Some(ApprovalPolicy::Never),
        sandbox_policy: Some(SandboxPolicy::Preset(SandboxPreset::WorkspaceWrite {
            writable_roots: vec!["/tmp".to_owned()],
            network_access: false,
        })),
        privileged_escalation_approved: true,
        model: Some("gpt-5".to_owned()),
        service_tier: Some(Some(ServiceTier::Fast)),
        effort: Some(ReasoningEffort::High),
        summary: Some("brief".to_owned()),
        personality: Some(Personality::Pragmatic),
        output_schema: Some(object(vec![("type", JsonValue::text("object"))])),
    };

    let wire = turn_start_params_to_wire("thr_1", &params);
    assert_eq!(text(at(&wire, "threadId")), "thr_1");
    let input = at(&wire, "input").as_array().expect("input array");
    assert_eq!(text(at(&input[0], "type")), "text");
    assert_eq!(text(at(&input[0], "text")), "hello");
    assert_eq!(text(at(&input[1], "type")), "localImage");
    assert_eq!(text(at(&input[1], "path")), "/tmp/a.png");
    assert_eq!(text(at(&wire, "approvalPolicy")), "never");
    let sandbox = at(&wire, "sandboxPolicy");
    assert_eq!(text(at(sandbox, "type")), "workspaceWrite");
    assert_eq!(text(&at(sandbox, "writableRoots").as_array().expect("roots")[0]), "/tmp");
    assert_eq!(at(sandbox, "networkAccess"), &JsonValue::Bool(false));
    assert_eq!(at(&wire, "privilegedEscalationApproved"), &JsonValue::Bool(true));
    assert_eq!(text(at(&wire, "serviceTier")), "fast");
    assert_eq!(text(at(&wire, "personality")), "pragmatic");
    assert_eq!(text(at(at(&wire, "outputSchema"), "type")), "object");
    assert_eq!(text(at(&wire, "effort")), "high");
    assert_eq!(text(at(&wire, "summary")), "brief");
}

#[test]
fn maps_thread_start_params_to_wire_shape() {
    let params = sample_thread_params(Some(None), true);
    let wire = thread_start_params_to_wire(&params);
    assert_eq!(text(at(&wire, "model")), "gpt-5");
    assert_eq!(text(at(&wire, "modelProvider")), "openai");
    assert_eq!(at(&wire, "serviceTier"), &JsonValue::Null);
    assert_eq!(text(at(&wire, "cwd")), "/work");
    assert_eq!(text(at(&wire, "approvalPolicy")), "on-request");
    assert_eq!(at(&wire, "privilegedEscalationApproved"), &JsonValue::Bool(true));
    assert_eq!(text(at(at(&wire, "sandboxPolicy"), "type")), "readOnly");
    assert_eq!(at(at(&wire, "config"), "telemetry"), &JsonValue::Bool(true));
    assert_eq!(text(at(&wire, "serviceName")), "codex");
    assert_eq!(text(at(&wire, "baseInstructions")), "base");
    assert_eq!(text(at(&wire, "developerInstructions")), "dev");
    assert_eq!(text(at(&wire, "personality")), "friendly");
    assert_eq!(at(&wire, "ephemeral"), &JsonValue::Bool(true));
}

#[test]
fn maps_thread_resume_overrides_to_supported_subset() {
    let params = sample_thread_params(Some(Some(ServiceTier::Flex)), false);
    let wire = thread_overrides_to_wire(&params);
    assert_eq!(text(at(&wire, "model")), "gpt-5");
    assert_eq!(text(at(&wire, "modelProvider")), "openai");
    assert_eq!(text(at(&wire, "serviceTier")), "flex");
    assert_eq!(text(at(at(&wire, "sandboxPolicy"), "type")), "readOnly");
    assert_eq!(at(at(&wire, "config"), "telemetry"), &JsonValue::Bool(true));
    assert_eq!(text(at(&wire, "baseInstructions")), "base");
    assert_eq!(text(at(&wire, "developerInstructions")), "dev");
    assert_eq!(text(at(&wire, "personality")), "friendly");
    assert!(wire.get("serviceName").is_none());
    assert!(wire.get("ephemeral").is_none());
}

#[test]
fn unset_parameters_are_left_out() {
    let wire = thread_start_params_to_wire(&ThreadStartParams::new());
    assert!(wire.get("model").is_none());
    assert!(wire.get("serviceTier").is_none());
    assert!(wire.get("sandboxPolicy").is_none());
    assert_eq!(at(&wire, "privilegedEscalationApproved"), &JsonValue::Bool(false));
}
