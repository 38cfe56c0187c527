use std::str::FromStr;
use std::time::Duration;

use codexus::input::{build_prompt_inputs, input_item_to_wire, ByteRange, InputItem, PromptAttachment, TextElement};
use codexus::json::{JsonNumber, JsonValue};
use codexus::policies::{
    sandbox_policy_to_wire_value, summarize_sandbox_policy, summarize_sandbox_policy_wire_value,
    summarize_sandbox_policy_wire_value_checked, ApprovalPolicy, ExternalNetworkAccess, ReasoningEffort, SandboxPolicy,
    SandboxPolicyParseError, SandboxPolicyParseViolation, SandboxPreset, DEFAULT_REASONING_EFFORT,
};
use codexus::prompt::PromptRunParams;
use codexus::thread_views::{ThreadItemPayloadView, ThreadItemType, ThreadItemView};

fn member<'a>(v: &'a JsonValue, key: &str) -> &'a JsonValue {
    v.get(key).expect("member present")
}

fn element<'a>(v: &'a JsonValue, index: usize) -> &'a JsonValue {
    &v.as_array().expect("array")[index]
}

fn text_of(v: &JsonValue) -> &str {
    v.as_str().expect("text").as_str()
}

fn object_of(members: Vec<(&str, JsonValue)>) -> JsonValue {
    let mut value = JsonValue::object();
    for (key, member_value) in members {
        value = value.with(key, member_value);
    }
    value
}

#[test]
fn maps_text_with_elements_input_to_wire_shape() {
    let input = InputItem::TextWithElements {
        text: "check @README.md".to_owned(),
        text_elements: vec![TextElement {
            byte_range: ByteRange { start: 6, end: 16 },
            placeholder: Some("README".to_owned()),
        }],
    };
    let wire = input_item_to_wire(&input);
    assert_eq!(text_of(member(&wire, "type")), "text");
    assert_eq!(text_of(member(&wire, "text")), "check @README.md");
    let first = element(member(&wire, "text_elements"), 0);
    assert_eq!(member(member(first, "byteRange"), "start").as_u64(), Some(6));
    assert_eq!(member(member(first, "byteRange"), "end").as_u64(), Some(16));
    assert_eq!(text_of(member(first, "placeholder")), "README");
}

#[test]
fn maps_plain_text_and_media_inputs_to_wire_shape() {
    let wire = input_item_to_wire(&InputItem::Text { text: "hi".to_owned() });
    assert_eq!(text_of(member(&wire, "type")), "text");
    assert_eq!(text_of(member(&wire, "text")), "hi");
    let wire = input_item_to_wire(&InputItem::LocalImage { path: "/tmp/a.png".to_owned() });
    assert_eq!(text_of(member(&wire, "type")), "localImage");
    assert_eq!(text_of(member(&wire, "path")), "/tmp/a.png");
    let wire = input_item_to_wire(&InputItem::Skill { name: "checks".to_owned(), path: "/s".to_owned() });
    assert_eq!(text_of(member(&wire, "type")), "skill");
    assert_eq!(text_of(member(&wire, "name")), "checks");
}

#[test]
fn builds_prompt_input_with_at_path_attachment() {
    let input = build_prompt_inputs(
        "summarize",
        &[PromptAttachment::AtPath {
            path: "README.md".to_owned(),
            placeholder: None,
        }],
    );
    assert_eq!(input.len(), 1);
    match &input[0] {
        InputItem::TextWithElements {
            text,
            text_elements,
        } => {
            assert_eq!(text, "summarize\n@README.md");
            assert_eq!(text_elements.len(), 1);
            assert_eq!(text_elements[0].byte_range.start, 10);
            assert_eq!(text_elements[0].byte_range.end, 20);
        }
        other => panic!("unexpected input variant: {other:?}"),
    }
}

#[test]
fn builds_plain_text_input_without_attachments() {
    let input = build_prompt_inputs("just text", &[]);
    assert_eq!(input, vec![InputItem::Text { text: "just text".to_owned() }]);
}

#[test]
fn builds_prompt_input_with_media_attachments_after_text() {
    let input = build_prompt_inputs(
        "look",
        &[
            PromptAttachment::ImageUrl { url: "https://example.com/a.png".to_owned() },
            PromptAttachment::LocalImage { path: "/tmp/b.png".to_owned() },
            PromptAttachment::Skill { name: "checks".to_owned(), path: "/tmp/skill".to_owned() },
        ],
    );
    assert_eq!(
        input,
        vec![
            InputItem::Text { text: "look".to_owned() },
            InputItem::ImageUrl { url: "https://example.com/a.png".to_owned() },
            InputItem::LocalImage { path: "/tmp/b.png".to_owned() },
            InputItem::Skill { name: "checks".to_owned(), path: "/tmp/skill".to_owned() },
        ]
    );
}

#[test]
fn parses_policy_and_effort_from_str() {
    assert_eq!(
        ApprovalPolicy::from_str("on-request").expect("parse approval"),
        ApprovalPolicy::OnRequest
    );
    assert_eq!(
        ReasoningEffort::from_str("xhigh").expect("parse effort"),
        ReasoningEffort::XHigh
    );
    assert!(ApprovalPolicy::from_str("always").is_err());
    assert!(ReasoningEffort::from_str("ultra").is_err());

    let known_item_type = ThreadItemType::from_wire("agentMessage");
    assert_eq!(known_item_type, ThreadItemType::AgentMessage);

    let unknown_item_type = ThreadItemType::from_wire("futureType");
    assert_eq!(
        unknown_item_type,
        ThreadItemType::Unknown("futureType".to_owned())
    );
    assert_eq!(unknown_item_type.as_wire(), "futureType");
}

#[test]
fn approval_and_effort_wire_names_round_trip() {
    for policy in [
        ApprovalPolicy::Untrusted,
        ApprovalPolicy::OnFailure,
        ApprovalPolicy::OnRequest,
        ApprovalPolicy::Never,
    ] {
        assert_eq!(ApprovalPolicy::parse(policy.as_wire()), Ok(policy));
    }
    for effort in [
        ReasoningEffort::Low,
        ReasoningEffort::Medium,
        ReasoningEffort::High,
        ReasoningEffort::XHigh,
    ] {
        assert_eq!(ReasoningEffort::parse(effort.as_wire()), Ok(effort));
    }
}

#[test]
fn thread_item_type_wire_names_round_trip() {
    for kind in [
        ThreadItemType::UserMessage,
        ThreadItemType::Reasoning,
        ThreadItemType::CommandExecution,
        ThreadItemType::FileChange,
        ThreadItemType::McpToolCall,
        ThreadItemType::CollabAgentToolCall,
        ThreadItemType::WebSearch,
        ThreadItemType::ImageView,
        ThreadItemType::EnteredReviewMode,
        ThreadItemType::ExitedReviewMode,
    ] {
        assert_eq!(ThreadItemType::from_wire(kind.as_wire()), kind);
    }
}

#[test]
fn prompt_run_params_defaults_are_explicit() {
    let params = PromptRunParams::new("/work".to_owned(), "hello".to_owned());
    assert_eq!(params.cwd, "/work");
    assert_eq!(params.prompt, "hello");
    assert_eq!(params.effort, Some(DEFAULT_REASONING_EFFORT));
    assert_eq!(params.approval_policy, ApprovalPolicy::Never);
    assert_eq!(
        params.sandbox_policy,
        SandboxPolicy::Preset(SandboxPreset::ReadOnly)
    );
    assert!(!params.privileged_escalation_approved);
    assert_eq!(params.timeout, Duration::from_secs(120));
    assert_eq!(params.output_schema, None);
    assert!(params.attachments.is_empty());
}

#[test]
fn prompt_run_params_builder_overrides_defaults() {
    let schema = object_of(vec![
        ("type", JsonValue::text("object")),
        ("required", JsonValue::Array(vec![JsonValue::text("answer")])),
    ]);
    let params = PromptRunParams::new("/work".to_owned(), "hello".to_owned())
        .with_model("gpt-5-codex".to_owned())
        .with_effort(ReasoningEffort::High)
        .with_approval_policy(ApprovalPolicy::OnRequest)
        .with_sandbox_policy(SandboxPolicy::Preset(SandboxPreset::WorkspaceWrite {
            writable_roots: vec!["/work".to_owned()],
            network_access: false,
        }))
        .allow_privileged_escalation()
        .attach_path("README.md".to_owned())
        .attach_path_with_placeholder("docs/API_REFERENCE.md".to_owned(), "core-doc".to_owned())
        .attach_image_url("https://example.com/a.png".to_owned())
        .attach_local_image("/tmp/a.png".to_owned())
        .attach_skill("checks".to_owned(), "/tmp/skill".to_owned())
        .with_output_schema(object_of(vec![
            ("type", JsonValue::text("object")),
            ("required", JsonValue::Array(vec![JsonValue::text("answer")])),
        ]))
        .with_timeout(Duration::from_secs(30));

    assert_eq!(params.cwd, "/work");
    assert_eq!(params.prompt, "hello");
    assert_eq!(params.model.as_deref(), Some("gpt-5-codex"));
    assert_eq!(params.effort, Some(ReasoningEffort::High));
    assert_eq!(params.approval_policy, ApprovalPolicy::OnRequest);
    assert_eq!(
        params.sandbox_policy,
        SandboxPolicy::Preset(SandboxPreset::WorkspaceWrite {
            writable_roots: vec!["/work".to_owned()],
            network_access: false,
        })
    );
    assert!(params.privileged_escalation_approved);
    assert_eq!(params.timeout, Duration::from_secs(30));
    assert_eq!(params.output_schema, Some(schema));
    assert_eq!(params.attachments.len(), 5);
    assert!(matches!(
        params.attachments[0],
        PromptAttachment::AtPath {
            ref path,
            placeholder: None
        } if path == "README.md"
    ));
    assert!(matches!(
        params.attachments[1],
        PromptAttachment::AtPath {
            ref path,
            placeholder: Some(ref placeholder)
        } if path == "docs/API_REFERENCE.md" && placeholder == "core-doc"
    ));
    assert!(matches!(
        params.attachments[2],
        PromptAttachment::ImageUrl { ref url } if url == "https://example.com/a.png"
    ));
    assert!(matches!(
        params.attachments[3],
        PromptAttachment::LocalImage { ref path } if path == "/tmp/a.png"
    ));
    assert!(matches!(
        params.attachments[4],
        PromptAttachment::Skill {
            ref name,
            ref path
        } if name == "checks" && path == "/tmp/skill"
    ));
}

#[test]
fn summarize_sandbox_policy_read_only_is_not_privileged() {
    let summary = summarize_sandbox_policy(&SandboxPolicy::Preset(SandboxPreset::ReadOnly))
        .expect("preset summary");
    assert!(!summary.is_privileged());
    assert!(!summary.has_non_empty_writable_roots());
}

#[test]
fn summarize_sandbox_policy_workspace_write_tracks_non_empty_roots() {
    let summary =
        summarize_sandbox_policy(&SandboxPolicy::Preset(SandboxPreset::WorkspaceWrite {
            writable_roots: vec!["".to_owned(), " /tmp ".to_owned()],
            network_access: false,
        }))
        .expect("preset summary");
    assert!(summary.is_privileged());
    assert!(summary.has_non_empty_writable_roots());
}

#[test]
fn summarize_sandbox_policy_workspace_write_with_blank_roots_is_empty() {
    let summary =
        summarize_sandbox_policy(&SandboxPolicy::Preset(SandboxPreset::WorkspaceWrite {
            writable_roots: vec!["".to_owned(), "   ".to_owned()],
            network_access: true,
        }))
        .expect("preset summary");
    assert!(summary.is_privileged());
    assert!(!summary.has_non_empty_writable_roots());
}

#[test]
fn summarize_sandbox_policy_wire_requires_object() {
    let err = summarize_sandbox_policy_wire_value(&JsonValue::text("read-only"), "params.sandboxPolicy")
        .expect_err("non-object must fail");
    assert_eq!(err, "params.sandboxPolicy must be an object when provided");
}

#[test]
fn summarize_sandbox_policy_wire_requires_non_empty_type() {
    let err = summarize_sandbox_policy_wire_value(
        &object_of(vec![
            ("type", JsonValue::text("   ")),
            ("writableRoots", JsonValue::Array(vec![JsonValue::text("/tmp")])),
        ]),
        "params.sandboxPolicy",
    )
    .expect_err("empty type must fail");
    assert_eq!(err, "params.sandboxPolicy.type must be a non-empty string");
}

#[test]
fn sandbox_policy_to_wire_value_emits_workspace_write_shape() {
    let wire =
        sandbox_policy_to_wire_value(&SandboxPolicy::Preset(SandboxPreset::WorkspaceWrite {
            writable_roots: vec!["/tmp".to_owned()],
            network_access: false,
        }));
    assert_eq!(text_of(member(&wire, "type")), "workspaceWrite");
    assert_eq!(text_of(element(member(&wire, "writableRoots"), 0)), "/tmp");
    assert_eq!(member(&wire, "networkAccess"), &JsonValue::Bool(false));
}

#[test]
fn summarize_sandbox_policy_wire_accepts_legacy_camel_case_aliases() {
    let read_only = summarize_sandbox_policy_wire_value(
        &object_of(vec![("type", JsonValue::text("readOnly"))]),
        "params.sandboxPolicy",
    )
    .expect("legacy readOnly must still classify");
    assert!(!read_only.is_privileged());

    let workspace_write = summarize_sandbox_policy_wire_value(
        &object_of(vec![
            ("type", JsonValue::text("workspaceWrite")),
            ("writableRoots", JsonValue::Array(vec![JsonValue::text("/tmp")])),
        ]),
        "params.sandboxPolicy",
    )
    .expect("legacy workspaceWrite must still classify");
    assert!(workspace_write.is_privileged());
    assert!(workspace_write.has_non_empty_writable_roots());
}

#[test]
fn structured_parse_error_keeps_field_path_and_violation() {
    let err = summarize_sandbox_policy_wire_value_checked(
        &object_of(vec![("type", JsonValue::text("   "))]),
        "params.sandboxPolicy",
    )
    .expect_err("empty type must fail");
    assert_eq!(
        err,
        SandboxPolicyParseError {
            field_path: "params.sandboxPolicy".to_owned(),
            violation: SandboxPolicyParseViolation::MissingType,
        }
    );
    assert_eq!(
        err.message(),
        "params.sandboxPolicy.type must be a non-empty string"
    );
}

#[test]
fn raw_sandbox_policy_wire_value_passes_through() {
    let raw = object_of(vec![("type", JsonValue::text("dangerFullAccess"))]);
    let wire = sandbox_policy_to_wire_value(&SandboxPolicy::Raw(object_of(vec![(
        "type",
        JsonValue::text("dangerFullAccess"),
    )])));
    assert_eq!(wire, raw);
    let summary = summarize_sandbox_policy(&SandboxPolicy::Raw(raw)).expect("raw summary");
    assert!(summary.is_privileged());
    assert_eq!(JsonValue::Number(JsonNumber::PosInt(1)).as_u64(), Some(1));
}

#[test]
fn parses_thread_item_payload_variants() {
    let agent = ThreadItemView::from_json(object_of(vec![
        ("id", JsonValue::text("item_a")),
        ("type", JsonValue::text("agentMessage")),
        ("text", JsonValue::text("hello")),
    ]))
    .expect("parse agent item");
    assert_eq!(agent.id, "item_a");
    assert_eq!(agent.item_type, ThreadItemType::AgentMessage);
    match agent.payload {
        ThreadItemPayloadView::AgentMessage(data) => assert_eq!(data.text, "hello"),
        other => panic!("unexpected payload: {other:?}"),
    }

    let command = ThreadItemView::from_json(object_of(vec![
        ("id", JsonValue::text("item_c")),
        ("type", JsonValue::text("commandExecution")),
        ("command", JsonValue::text("echo hi")),
        ("commandActions", JsonValue::Array(vec![])),
        ("cwd", JsonValue::text("/tmp")),
        ("status", JsonValue::text("completed")),
    ]))
    .expect("parse command item");
    match command.payload {
        ThreadItemPayloadView::CommandExecution(data) => {
            assert_eq!(data.command, "echo hi");
            assert_eq!(data.cwd, "/tmp");
            assert_eq!(data.status, "completed");
        }
        other => panic!("unexpected payload: {other:?}"),
    }

    let unknown = ThreadItemView::from_json(object_of(vec![
        ("id", JsonValue::text("item_u")),
        ("type", JsonValue::text("futureType")),
        ("foo", JsonValue::text("bar")),
    ]))
    .expect("parse unknown item");
    assert_eq!(
        unknown.item_type,
        ThreadItemType::Unknown("futureType".to_owned())
    );
    match unknown.payload {
        ThreadItemPayloadView::Unknown(fields) => {
            assert_eq!(fields, vec![("foo".to_owned(), JsonValue::text("bar"))]);
        }
        other => panic!("unexpected payload: {other:?}"),
    }
}

#[test]
fn thread_item_decoding_rejects_bad_shapes_and_keeps_extra_fields() {
    assert_eq!(
        ThreadItemView::from_json(JsonValue::text("x")),
        Err("thread item must be an object".to_owned())
    );
    assert_eq!(
        ThreadItemView::from_json(object_of(vec![("type", JsonValue::text("reasoning"))])),
        Err("thread item missing string id".to_owned())
    );
    assert_eq!(
        ThreadItemView::from_json(object_of(vec![("id", JsonValue::text("i"))])),
        Err("thread item missing string type".to_owned())
    );
    assert!(ThreadItemView::from_json(object_of(vec![
        ("id", JsonValue::text("i")),
        ("type", JsonValue::text("agentMessage")),
    ]))
    .is_err());
    let bad_exit = ThreadItemView::from_json(object_of(vec![
        ("id", JsonValue::text("item_c")),
        ("type", JsonValue::text("commandExecution")),
        ("command", JsonValue::text("echo hi")),
        ("commandActions", JsonValue::Array(vec![])),
        ("cwd", JsonValue::text("/tmp")),
        ("status", JsonValue::text("completed")),
        ("exitCode", JsonValue::integer(1 << 40)),
    ]));
    assert!(bad_exit.is_err());
    let with_extra = ThreadItemView::from_json(object_of(vec![
        ("id", JsonValue::text("item_c")),
        ("type", JsonValue::text("commandExecution")),
        ("command", JsonValue::text("ls")),
        ("commandActions", JsonValue::Array(vec![JsonValue::text("read")])),
        ("cwd", JsonValue::text("/")),
        ("status", JsonValue::text("failed")),
        ("exitCode", JsonValue::integer(-1)),
        ("aggregatedOutput", JsonValue::Null),
        ("durationMs", JsonValue::integer(12)),
        ("note", JsonValue::Bool(true)),
    ]))
    .expect("parse command item");
    match with_extra.payload {
        ThreadItemPayloadView::CommandExecution(data) => {
            assert_eq!(data.exit_code, Some(-1));
            assert_eq!(data.duration_ms, Some(12));
            assert_eq!(data.aggregated_output, None);
            assert_eq!(data.process_id, None);
            assert_eq!(data.command_actions, vec![JsonValue::text("read")]);
            assert_eq!(data.extra, vec![("note".to_owned(), JsonValue::Bool(true))]);
        }
        other => panic!("unexpected payload: {other:?}"),
    }
}

#[test]
fn thread_item_encoding_writes_id_type_payload_and_extra() {
    let item = ThreadItemView::from_json(object_of(vec![
        ("id", JsonValue::text("item_a")),
        ("type", JsonValue::text("agentMessage")),
        ("text", JsonValue::text("hello")),
        ("phase", JsonValue::text("final")),
    ]))
    .expect("parse agent item");
    let wire = item.to_json();
    assert_eq!(text_of(member(&wire, "id")), "item_a");
    assert_eq!(text_of(member(&wire, "type")), "agentMessage");
    assert_eq!(text_of(member(&wire, "text")), "hello");
    assert_eq!(text_of(member(&wire, "phase")), "final");

    let command = ThreadItemView::from_json(object_of(vec![
        ("id", JsonValue::text("item_c")),
        ("type", JsonValue::text("commandExecution")),
        ("command", JsonValue::text("echo hi")),
        ("commandActions", JsonValue::Array(vec![])),
        ("cwd", JsonValue::text("/tmp")),
        ("status", JsonValue::text("completed")),
        ("exitCode", JsonValue::integer(0)),
    ]))
    .expect("parse command item");
    let wire = command.to_json();
    assert_eq!(text_of(member(&wire, "type")), "commandExecution");
    assert_eq!(member(&wire, "exitCode").as_i64(), Some(0));
    assert_eq!(member(&wire, "processId"), &JsonValue::Null);
    assert_eq!(member(&wire, "commandActions"), &JsonValue::Array(vec![]));
}

#[test]
fn element_byte_ranges_cover_each_mention_in_utf8_text() {
    let input = build_prompt_inputs(
        "résumé",
        &[
            PromptAttachment::AtPath { path: "naïve.md".to_owned(), placeholder: None },
            PromptAttachment::ImageUrl { url: "https://example.com/x.png".to_owned() },
            PromptAttachment::AtPath { path: "b".to_owned(), placeholder: Some("B".to_owned()) },
        ],
    );
    match &input[0] {
        InputItem::TextWithElements { text, text_elements } => {
            let bytes = text.as_bytes();
            assert_eq!(text_elements.len(), 2);
            let first = &text_elements[0].byte_range;
            let second = &text_elements[1].byte_range;
            assert_eq!(&bytes[first.start as usize..first.end as usize], "@naïve.md".as_bytes());
            assert_eq!(&bytes[second.start as usize..second.end as usize], "@b".as_bytes());
            assert_eq!(text_elements[1].placeholder.as_deref(), Some("B"));
        }
        other => panic!("unexpected input variant: {other:?}"),
    }
    assert_eq!(input[1], InputItem::ImageUrl { url: "https://example.com/x.png".to_owned() });
}

fn reasoning_item_members() -> Vec<(&'static str, JsonValue)> {
    vec![
        ("id", JsonValue::text("item_u")),
        ("type", JsonValue::text("reasoning")),
        ("summary", JsonValue::Array(vec![JsonValue::text("s")])),
        ("count", JsonValue::integer(-4)),
    ]
}

#[test]
fn thread_item_decoding_then_encoding_keeps_every_member() {
    let item = ThreadItemView::from_json(object_of(reasoning_item_members())).expect("parse item");
    let wire = item.to_json();
    for (key, value) in reasoning_item_members() {
        assert_eq!(member(&wire, key), &value);
    }
}

fn sample_preset(i: usize) -> SandboxPreset {
    match i {
        0 => SandboxPreset::ReadOnly,
        1 => SandboxPreset::WorkspaceWrite {
            writable_roots: vec!["  ".to_owned(), "/work".to_owned()],
            network_access: true,
        },
        2 => SandboxPreset::WorkspaceWrite { writable_roots: vec![" ".to_owned()], network_access: false },
        3 => SandboxPreset::DangerFullAccess,
        _ => SandboxPreset::ExternalSandbox { network_access: ExternalNetworkAccess::Enabled },
    }
}

#[test]
fn preset_and_its_wire_value_summarize_alike() {
    for i in 0..5 {
        let direct = summarize_sandbox_policy(&SandboxPolicy::Preset(sample_preset(i))).expect("preset summary");
        let wire = sandbox_policy_to_wire_value(&SandboxPolicy::Preset(sample_preset(i)));
        let via_wire = summarize_sandbox_policy(&SandboxPolicy::Raw(wire)).expect("wire summary");
        assert_eq!(direct, via_wire);
    }
    let roots = summarize_sandbox_policy(&SandboxPolicy::Preset(sample_preset(1))).expect("summary");
    assert!(roots.has_non_empty_writable_roots());
    let blank = summarize_sandbox_policy(&SandboxPolicy::Preset(sample_preset(2))).expect("summary");
    assert!(!blank.has_non_empty_writable_roots());
}
