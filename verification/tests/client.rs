use std::time::Duration;

use codexus::compat::{
    parse_initialize_user_agent, validate_runtime_compatibility, ClientError, CompatibilityGuard,
    SemVerTriplet,
};
use codexus::config::{initialize_params, ClientConfig, InitializeCapabilities};
use codexus::json::JsonValue;
use codexus::errors::RpcError;
use codexus::input::PromptAttachment;
use codexus::policies::{ApprovalPolicy, ReasoningEffort, SandboxPolicy, SandboxPreset};
use codexus::profile::{prompt_params_from_profile, session_prompt_params, RunProfile, SessionConfig};
use codexus::prompt::PromptRunError;
use codexus::session::{next_close_state, SessionCloseState, SessionState};

#[test]
fn config_builder_sets_fields() {
    let cfg = ClientConfig::new()
        .with_cli_bin("/opt/homebrew/bin/cli".to_owned())
        .with_process_env("CODEX_HOME".to_owned(), "/tmp/codex-home".to_owned())
        .with_process_cwd("/tmp/runtime".to_owned())
        .with_app_server_arg("--json".to_owned());
    assert_eq!(cfg.cli_bin, "/opt/homebrew/bin/cli");
    assert_eq!(
        cfg.process_env
            .iter()
            .find(|(k, _)| k == "CODEX_HOME")
            .map(|(_, v)| v.as_str()),
        Some("/tmp/codex-home")
    );
    assert_eq!(cfg.process_cwd, Some("/tmp/runtime".to_owned()));
    assert_eq!(cfg.app_server_args, vec!["--json".to_owned()]);
    assert_eq!(
        cfg.compatibility_guard,
        CompatibilityGuard {
            require_initialize_user_agent: true,
            min_codex_version: Some(SemVerTriplet::new(0, 104, 0)),
        }
    );
}

#[test]
fn disable_compatibility_guard_overrides_defaults() {
    let cfg = ClientConfig::new().without_compatibility_guard();
    assert_eq!(
        cfg.compatibility_guard,
        CompatibilityGuard {
            require_initialize_user_agent: false,
            min_codex_version: None,
        }
    );
}

#[test]
fn parse_initialize_user_agent_extracts_product_and_semver() {
    let parsed = parse_initialize_user_agent("Codex Desktop/0.104.0 (Mac OS 26.3.0; arm64)");
    assert_eq!(
        parsed,
        Some(("Codex Desktop".to_owned(), SemVerTriplet::new(0, 104, 0)))
    );
}

#[test]
fn parse_initialize_user_agent_rejects_invalid_format() {
    assert_eq!(parse_initialize_user_agent("Codex Desktop"), None);
    assert_eq!(parse_initialize_user_agent("Codex Desktop/x.y.z"), None);
}

#[test]
fn session_config_defaults_are_explicit() {
    let cfg = SessionConfig::new("/work".to_owned());
    assert_eq!(cfg.cwd, "/work");
    assert_eq!(cfg.model, None);
    assert_eq!(cfg.effort, ReasoningEffort::Medium);
    assert_eq!(cfg.approval_policy, ApprovalPolicy::Never);
    assert_eq!(
        cfg.sandbox_policy,
        SandboxPolicy::Preset(SandboxPreset::ReadOnly)
    );
    assert!(!cfg.privileged_escalation_approved);
    assert_eq!(cfg.timeout, Duration::from_secs(120));
    assert!(cfg.attachments.is_empty());
}

#[test]
fn run_profile_defaults_are_explicit() {
    let profile = RunProfile::new();
    assert_eq!(profile.model, None);
    assert_eq!(profile.effort, ReasoningEffort::Medium);
    assert_eq!(profile.approval_policy, ApprovalPolicy::Never);
    assert_eq!(
        profile.sandbox_policy,
        SandboxPolicy::Preset(SandboxPreset::ReadOnly)
    );
    assert!(!profile.privileged_escalation_approved);
    assert_eq!(profile.timeout, Duration::from_secs(120));
    assert_eq!(profile.output_schema, None);
    assert!(profile.attachments.is_empty());
}

#[test]
fn client_config_initialize_capabilities_are_explicit() {
    let cfg = ClientConfig::new();
    assert_eq!(
        cfg.initialize_capabilities,
        InitializeCapabilities {
            experimental_api: false,
        }
    );
}

#[test]
fn client_config_enable_experimental_api_sets_capability() {
    let cfg = ClientConfig::new().enable_experimental_api();
    assert!(cfg.initialize_capabilities.experimental_api);
}

fn schema_with_ok_flag() -> JsonValue {
    JsonValue::object().with("type", JsonValue::text("object")).with(
        "properties",
        JsonValue::object().with("ok", JsonValue::object().with("type", JsonValue::text("boolean"))),
    )
}

fn text_property_schema() -> JsonValue {
    JsonValue::object().with("type", JsonValue::text("object")).with(
        "properties",
        JsonValue::object().with("text", JsonValue::object().with("type", JsonValue::text("string"))),
    )
}

fn sample_run_profile() -> RunProfile {
    RunProfile::new()
        .with_model("gpt-5-codex".to_owned())
        .with_effort(ReasoningEffort::High)
        .with_approval_policy(ApprovalPolicy::OnRequest)
        .with_sandbox_policy(SandboxPolicy::Preset(SandboxPreset::WorkspaceWrite {
            writable_roots: vec!["/work".to_owned()],
            network_access: false,
        }))
        .allow_privileged_escalation()
        .with_timeout(Duration::from_secs(33))
        .with_output_schema(schema_with_ok_flag())
        .with_attachment(PromptAttachment::ImageUrl {
            url: "https://example.com/a.png".to_owned(),
        })
}

#[test]
fn session_config_from_profile_maps_all_fields() {
    let profile = sample_run_profile();

    let cfg = SessionConfig::from_profile("/work".to_owned(), sample_run_profile());
    assert_eq!(cfg.cwd, "/work");
    assert_eq!(cfg.model.as_deref(), Some("gpt-5-codex"));
    assert_eq!(cfg.effort, ReasoningEffort::High);
    assert_eq!(cfg.approval_policy, ApprovalPolicy::OnRequest);
    assert_eq!(
        cfg.sandbox_policy,
        SandboxPolicy::Preset(SandboxPreset::WorkspaceWrite {
            writable_roots: vec!["/work".to_owned()],
            network_access: false,
        })
    );
    assert!(cfg.privileged_escalation_approved);
    assert_eq!(cfg.timeout, Duration::from_secs(33));
    assert_eq!(cfg.output_schema, Some(schema_with_ok_flag()));
    assert_eq!(
        cfg.attachments,
        vec![PromptAttachment::ImageUrl {
            url: "https://example.com/a.png".to_owned()
        }]
    );

    let restored = cfg.profile();
    assert_eq!(restored, profile);
}

#[test]
fn session_prompt_params_maps_config_and_prompt() {
    let cfg = SessionConfig::new("/work".to_owned())
        .with_model("gpt-5-codex".to_owned())
        .with_effort(ReasoningEffort::High)
        .with_approval_policy(ApprovalPolicy::OnRequest)
        .with_sandbox_policy(SandboxPolicy::Preset(SandboxPreset::WorkspaceWrite {
            writable_roots: vec!["/work".to_owned()],
            network_access: false,
        }))
        .allow_privileged_escalation()
        .with_timeout(Duration::from_secs(33))
        .with_output_schema(
            JsonValue::object()
                .with("type", JsonValue::text("object"))
                .with("required", JsonValue::Array(vec![JsonValue::text("answer")])),
        )
        .with_attachment(PromptAttachment::ImageUrl {
            url: "https://example.com/a.png".to_owned(),
        });

    let params = session_prompt_params(&cfg, "hello".to_owned());
    assert_eq!(params.cwd, "/work");
    assert_eq!(params.prompt, "hello");
    assert_eq!(params.model.as_deref(), Some("gpt-5-codex"));
    assert_eq!(params.effort, Some(ReasoningEffort::High));
    assert_eq!(params.approval_policy, ApprovalPolicy::OnRequest);
    assert_eq!(
        params.sandbox_policy,
        SandboxPolicy::Preset(SandboxPreset::WorkspaceWrite {
            writable_roots: vec!["/work".to_owned()],
            network_access: false,
        })
    );
    assert!(params.privileged_escalation_approved);
    assert_eq!(params.timeout, Duration::from_secs(33));
    assert_eq!(
        params.output_schema,
        Some(
            JsonValue::object()
                .with("type", JsonValue::text("object"))
                .with("required", JsonValue::Array(vec![JsonValue::text("answer")]))
        )
    );
    assert_eq!(
        params.attachments,
        vec![PromptAttachment::ImageUrl {
            url: "https://example.com/a.png".to_owned()
        }]
    );
}

#[test]
fn profile_to_prompt_params_maps_profile_and_input() {
    let profile = RunProfile::new()
        .with_model("gpt-5-codex".to_owned())
        .with_effort(ReasoningEffort::Low)
        .with_approval_policy(ApprovalPolicy::OnFailure)
        .with_sandbox_policy(SandboxPolicy::Preset(SandboxPreset::WorkspaceWrite {
            writable_roots: vec!["/tmp/work".to_owned()],
            network_access: true,
        }))
        .allow_privileged_escalation()
        .with_timeout(Duration::from_secs(15))
        .with_output_schema(text_property_schema())
        .attach_path("README.md".to_owned());

    let (params, _hooks) =
        prompt_params_from_profile("/tmp/work".to_owned(), "hello".to_owned(), profile);
    assert_eq!(params.cwd, "/tmp/work");
    assert_eq!(params.prompt, "hello");
    assert_eq!(params.model.as_deref(), Some("gpt-5-codex"));
    assert_eq!(params.effort, Some(ReasoningEffort::Low));
    assert_eq!(params.approval_policy, ApprovalPolicy::OnFailure);
    assert_eq!(
        params.sandbox_policy,
        SandboxPolicy::Preset(SandboxPreset::WorkspaceWrite {
            writable_roots: vec!["/tmp/work".to_owned()],
            network_access: true,
        })
    );
    assert!(params.privileged_escalation_approved);
    assert_eq!(params.timeout, Duration::from_secs(15));
    assert_eq!(params.output_schema, Some(text_property_schema()));
    assert_eq!(
        params.attachments,
        vec![PromptAttachment::AtPath {
            path: "README.md".to_owned(),
            placeholder: None
        }]
    );
}

#[test]
fn session_open_guards_return_error_when_closed() {
    let mut state = SessionState::new();
    state.mark_closed();

    let prompt_err = state.ensure_open_for_prompt().expect_err("must fail");
    assert!(matches!(
        prompt_err,
        PromptRunError::Rpc(RpcError::InvalidRequest(_))
    ));

    let rpc_err = state.ensure_open_for_rpc().expect_err("must fail");
    assert!(matches!(rpc_err, RpcError::InvalidRequest(_)));
}

#[test]
fn session_state_open_guards_are_data_first() {
    let state = SessionState::new();
    assert!(state.ensure_open_for_prompt().is_ok());
    assert!(state.ensure_open_for_rpc().is_ok());
}

#[test]
fn session_close_state_is_data_first() {
    let cached = Err(RpcError::InvalidRequest("cached".to_owned()));
    assert!(matches!(
        next_close_state(None),
        SessionCloseState::StartClosing
    ));
    assert_eq!(
        next_close_state(Some(&cached)),
        SessionCloseState::ReturnCached(cached)
    );
}

#[test]
fn second_close_returns_first_outcome() {
    let mut state = SessionState::new();
    assert_eq!(state.begin_close(), SessionCloseState::StartClosing);
    assert!(state.is_closed());
    let stored = state.store_result(Err(RpcError::Timeout));
    assert_eq!(stored, Err(RpcError::Timeout));
    assert_eq!(
        state.begin_close(),
        SessionCloseState::ReturnCached(Err(RpcError::Timeout))
    );
}

#[test]
fn guard_rejects_old_codex_versions() {
    let guard = CompatibilityGuard::default();
    let err = validate_runtime_compatibility(
        Some("Codex Desktop/0.103.9 (Mac OS)".to_owned()),
        &guard,
    )
    .expect_err("old version must fail");
    assert_eq!(
        err,
        ClientError::IncompatibleCodexVersion {
            detected: "0.103.9".to_owned(),
            required: "0.104.0".to_owned(),
            user_agent: "Codex Desktop/0.103.9 (Mac OS)".to_owned(),
        }
    );
}

#[test]
fn guard_accepts_new_codex_and_other_products() {
    let guard = CompatibilityGuard::default();
    assert!(validate_runtime_compatibility(Some("Codex CLI/0.105.1".to_owned()), &guard).is_ok());
    assert!(validate_runtime_compatibility(Some("Other/0.1.0".to_owned()), &guard).is_ok());
}

#[test]
fn guard_reports_missing_and_invalid_user_agents() {
    let guard = CompatibilityGuard::default();
    assert_eq!(
        validate_runtime_compatibility(None, &guard),
        Err(ClientError::MissingInitializeUserAgent)
    );
    assert_eq!(
        validate_runtime_compatibility(Some("garbage".to_owned()), &guard),
        Err(ClientError::InvalidInitializeUserAgent("garbage".to_owned()))
    );
    let off = CompatibilityGuard {
        require_initialize_user_agent: false,
        min_codex_version: None,
    };
    assert!(validate_runtime_compatibility(None, &off).is_ok());
}

#[test]
fn semver_renders_as_dotted_text() {
    assert_eq!(SemVerTriplet::new(1, 20, 300).to_text(), "1.20.300");
    assert!(SemVerTriplet::new(0, 9, 9).is_older_than(&SemVerTriplet::new(0, 10, 0)));
    assert!(!SemVerTriplet::new(1, 0, 0).is_older_than(&SemVerTriplet::new(0, 99, 99)));
}

#[test]
fn process_envs_keep_last_value_per_key() {
    let cfg = ClientConfig::new().with_process_envs(vec![
        ("A".to_owned(), "1".to_owned()),
        ("B".to_owned(), "2".to_owned()),
        ("A".to_owned(), "3".to_owned()),
    ]);
    assert_eq!(cfg.process_env.len(), 2);
    assert!(cfg.process_env.contains(&("A".to_owned(), "3".to_owned())));
    assert!(cfg.process_env.contains(&("B".to_owned(), "2".to_owned())));
}

#[test]
fn runtime_config_enable_experimental_api_updates_initialize_payload() {
    let params = initialize_params(&InitializeCapabilities::new().enable_experimental_api());
    let caps = params.get("capabilities").expect("capabilities");
    assert_eq!(caps.get("experimentalApi"), Some(&JsonValue::Bool(true)));
    let plain = initialize_params(&InitializeCapabilities::new());
    let caps = plain.get("capabilities").expect("capabilities");
    assert_eq!(caps.get("experimentalApi"), Some(&JsonValue::Bool(false)));
    let info = plain.get("clientInfo").expect("clientInfo");
    assert_eq!(info.get("name"), Some(&JsonValue::text("codexus")));
}

#[test]
fn lower_minimum_version_accepts_every_server_a_higher_one_accepts() {
    let guard = |min: SemVerTriplet| CompatibilityGuard {
        require_initialize_user_agent: true,
        min_codex_version: Some(min),
    };
    let ua = Some("Codex Desktop/0.103.9 (Mac OS 15.0; arm64)".to_owned());
    assert!(validate_runtime_compatibility(ua.clone(), &guard(SemVerTriplet::new(0, 104, 0))).is_err());
    assert_eq!(validate_runtime_compatibility(ua.clone(), &guard(SemVerTriplet::new(0, 103, 9))), Ok(()));
    assert_eq!(validate_runtime_compatibility(ua, &guard(SemVerTriplet::new(0, 100, 0))), Ok(()));
    assert!(SemVerTriplet::new(0, 103, 9).is_older_than(&SemVerTriplet::new(0, 104, 0)));
    assert!(!SemVerTriplet::new(0, 104, 0).is_older_than(&SemVerTriplet::new(0, 104, 0)));
    assert!(SemVerTriplet::new(0, 104, 0).is_older_than(&SemVerTriplet::new(1, 0, 0)));
}
