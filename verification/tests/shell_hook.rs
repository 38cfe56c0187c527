use std::time::Duration;

use codexus::json::JsonValue;
use codexus::plugin::{HookAction, HookIssue, HookIssueClass, HookPhase};
use codexus::shell_hook::{
    exit_code_message, parse_block_output, parse_pre_output, post_hook_outcome, pre_exit_plan,
    str_eq_ignore_ascii_case, timeout_issue, PreExitPlan, ShellCommandHook, ShellPreOutput,
};

fn phase() -> HookPhase {
    HookPhase::PreRun
}

fn answer(action: &str, prompt_override: Option<&str>, model_override: Option<&str>) -> ShellPreOutput {
    ShellPreOutput {
        action: action.to_owned(),
        prompt_override: prompt_override.map(str::to_owned),
        model_override: model_override.map(str::to_owned),
        add_attachments: Vec::new(),
        metadata_delta: JsonValue::Null,
    }
}

#[test]
fn empty_stdout_is_noop() {
    assert_eq!(
        parse_pre_output("h", phase(), "", Err("EOF while parsing a value".to_owned())),
        Ok(HookAction::Noop)
    );
    assert_eq!(
        parse_pre_output("h", phase(), "  ", Err("EOF while parsing a value".to_owned())),
        Ok(HookAction::Noop)
    );
}

#[test]
fn empty_object_is_noop() {
    assert_eq!(parse_pre_output("h", phase(), "{}", Ok(answer("", None, None))), Ok(HookAction::Noop));
}

#[test]
fn action_noop_explicit() {
    assert_eq!(
        parse_pre_output("h", phase(), r#"{"action":"noop"}"#, Ok(answer("noop", None, None))),
        Ok(HookAction::Noop)
    );
}

#[test]
fn action_mutate_model_override() {
    let out = parse_pre_output(
        "h",
        phase(),
        r#"{"action":"mutate","modelOverride":"gpt-5.1-codex-max"}"#,
        Ok(answer("mutate", None, Some("gpt-5.1-codex-max"))),
    );
    match out {
        Ok(HookAction::Mutate(patch)) => {
            assert_eq!(patch.model_override.as_deref(), Some("gpt-5.1-codex-max"));
            assert!(patch.prompt_override.is_none());
        }
        other => panic!("expected Mutate, got {other:?}"),
    }
}

#[test]
fn action_mutate_prompt_override() {
    let out = parse_pre_output(
        "h",
        phase(),
        r#"{"action":"mutate","promptOverride":"new prompt"}"#,
        Ok(answer("mutate", Some("new prompt"), None)),
    );
    match out {
        Ok(HookAction::Mutate(patch)) => {
            assert_eq!(patch.prompt_override.as_deref(), Some("new prompt"));
        }
        other => panic!("expected Mutate, got {other:?}"),
    }
}

#[test]
fn action_mutate_matches_case_insensitively() {
    let out = parse_pre_output("h", phase(), r#"{"action":"MuTaTe"}"#, Ok(answer("MuTaTe", None, None)));
    assert!(matches!(out, Ok(HookAction::Mutate(_))));
    assert!(str_eq_ignore_ascii_case("MUTATE", "mutate"));
    assert!(!str_eq_ignore_ascii_case("mutated", "mutate"));
}

#[test]
fn unknown_action_is_noop() {
    assert_eq!(
        parse_pre_output("h", phase(), r#"{"action":"unknown"}"#, Ok(answer("unknown", None, None))),
        Ok(HookAction::Noop)
    );
}

#[test]
fn invalid_json_is_execution_issue() {
    let result = parse_pre_output("h", phase(), "not-json", Err("expected value at line 1 column 1".to_owned()));
    assert!(matches!(
        result,
        Err(HookIssue {
            class: HookIssueClass::Execution,
            ..
        })
    ));
    match result {
        Err(issue) => assert_eq!(issue.message, "stdout parse error: expected value at line 1 column 1"),
        Ok(other) => panic!("expected an issue, got {other:?}"),
    }
}

#[test]
fn block_with_json_message() {
    let r = parse_block_output("h", phase(), r#"{"message":"rm -rf blocked"}"#, Some("rm -rf blocked".to_owned()));
    assert_eq!(r.message, "rm -rf blocked");
    assert_eq!(r.hook_name, "h");
}

#[test]
fn block_with_plain_text_message() {
    let r = parse_block_output("h", phase(), "plain text reason", None);
    assert_eq!(r.message, "plain text reason");
}

#[test]
fn block_with_empty_stdout_gives_fallback() {
    let r = parse_block_output("h", phase(), "", None);
    assert_eq!(r.message, "blocked by hook (no message)");
}

#[test]
fn block_with_json_empty_message_falls_back_to_raw() {
    let r = parse_block_output("h", phase(), r#"{"message":""}"#, Some(String::new()));
    assert_eq!(r.message, r#"{"message":""}"#);
}

#[test]
fn exit_codes_select_the_pre_hook_outcome() {
    assert_eq!(pre_exit_plan(0), PreExitPlan::ParseAnswer);
    assert_eq!(pre_exit_plan(2), PreExitPlan::ParseBlock);
    assert_eq!(pre_exit_plan(1), PreExitPlan::Failed);
    assert_eq!(pre_exit_plan(-1), PreExitPlan::Failed);
    assert_eq!(exit_code_message(-1), "exited with code -1");
    assert_eq!(exit_code_message(17), "exited with code 17");
}

#[test]
fn post_hook_fails_on_non_zero_exit() {
    assert_eq!(post_hook_outcome("p", HookPhase::PostRun, 0), Ok(()));
    let issue = post_hook_outcome("p", HookPhase::PostRun, 3).expect_err("non-zero exit fails");
    assert_eq!(issue.class, HookIssueClass::Execution);
    assert_eq!(issue.message, "exited with code 3");
    assert_eq!(issue.hook_name, "p");
}

#[test]
fn timeout_issue_names_the_limit() {
    let issue = timeout_issue("h", phase(), "5s");
    assert_eq!(issue.class, HookIssueClass::Timeout);
    assert_eq!(issue.message, "shell hook timed out after 5s");
}

#[test]
fn shell_hook_builder_defaults_and_overrides() {
    let hook = ShellCommandHook::new("guard".to_owned(), "python3 hook.py".to_owned());
    assert_eq!(hook.timeout, Duration::from_secs(5));
    assert!(hook.env.is_empty());
    let hook = hook
        .with_timeout(Duration::from_millis(250))
        .with_env("A".to_owned(), "1".to_owned())
        .with_env("A".to_owned(), "2".to_owned())
        .with_env("B".to_owned(), "3".to_owned());
    assert_eq!(hook.timeout, Duration::from_millis(250));
    assert_eq!(hook.env, vec![("A".to_owned(), "2".to_owned()), ("B".to_owned(), "3".to_owned())]);
}

#[test]
fn shell_hook_env_with_repeated_names_sets_the_last_entry() {
    let mut hook = ShellCommandHook::new("guard".to_owned(), "true".to_owned());
    hook.env = vec![
        ("A".to_owned(), "1".to_owned()),
        ("B".to_owned(), "x".to_owned()),
        ("A".to_owned(), "2".to_owned()),
    ];
    let hook = hook.with_env("A".to_owned(), "3".to_owned());
    assert_eq!(
        hook.env,
        vec![
            ("A".to_owned(), "1".to_owned()),
            ("B".to_owned(), "x".to_owned()),
            ("A".to_owned(), "3".to_owned()),
        ]
    );
}
