use codexus::prompt_phases::{
    prompt_run_start, prompt_run_step, status_text, PromptRunAction, PromptRunEvent, PromptRunPhase,
};

/// Feed a run its beginning and then the given step outcomes; collect the steps.
fn drive(hooks_enabled: bool, streaming: bool, outcomes: &[bool]) -> Vec<PromptRunAction> {
    let mut state = prompt_run_start();
    let (next, first) = prompt_run_step(state, PromptRunEvent::Begin { hooks_enabled, streaming });
    state = next;
    let mut actions = vec![first];
    for ok in outcomes {
        let event = if *ok { PromptRunEvent::Succeeded } else { PromptRunEvent::Failed };
        let (next, action) = prompt_run_step(state, event);
        state = next;
        actions.push(action);
        if state.phase == PromptRunPhase::Done {
            break;
        }
    }
    actions
}

fn hook_phases(actions: &[PromptRunAction]) -> Vec<&'static str> {
    actions
        .iter()
        .filter_map(|a| match a {
            PromptRunAction::RunPreRunHooks => Some("pre:PreRun"),
            PromptRunAction::RunPreTurnHooks => Some("pre:PreTurn"),
            PromptRunAction::RunPostTurnHooks { .. } => Some("post:PostTurn"),
            PromptRunAction::RunPostRunHooks { .. } => Some("post:PostRun"),
            _ => None,
        })
        .collect()
}

#[test]
fn run_prompt_hook_order_is_pre_then_post() {
    let actions = drive(true, false, &[true; 10]);
    assert_eq!(hook_phases(&actions), vec!["pre:PreRun", "pre:PreTurn", "post:PostTurn", "post:PostRun"]);
    assert_eq!(
        actions,
        vec![
            PromptRunAction::RunPreRunHooks,
            PromptRunAction::OpenThread,
            PromptRunAction::RunPreTurnHooks,
            PromptRunAction::StartTurn,
            PromptRunAction::CollectOutput,
            PromptRunAction::RunPostTurnHooks { ok: true, turn_started: true },
            PromptRunAction::ClearScopedHooks,
            PromptRunAction::RunPostRunHooks { ok: true },
            PromptRunAction::PublishReport,
            PromptRunAction::Finish,
        ]
    );
}

#[test]
fn run_without_hooks_skips_hook_phases() {
    let actions = drive(false, false, &[true; 10]);
    assert_eq!(
        actions,
        vec![
            PromptRunAction::OpenThread,
            PromptRunAction::StartTurn,
            PromptRunAction::CollectOutput,
            PromptRunAction::ClearScopedHooks,
            PromptRunAction::Finish,
        ]
    );
}

#[test]
fn failed_turn_collection_reports_error_status() {
    // open, pre-turn and turn start succeed; the collected turn fails.
    let actions = drive(true, false, &[true, true, true, true, false, true, true, true, true]);
    assert!(actions.contains(&PromptRunAction::RunPostTurnHooks { ok: false, turn_started: true }));
    assert!(actions.contains(&PromptRunAction::RunPostRunHooks { ok: false }));
    assert_eq!(status_text(false), "error");
    assert_eq!(status_text(true), "ok");
}

#[test]
fn blocked_pre_run_ends_the_run_at_once() {
    let actions = drive(true, false, &[false]);
    assert_eq!(actions, vec![PromptRunAction::RunPreRunHooks, PromptRunAction::Finish]);
}

#[test]
fn failed_open_still_runs_post_run_hooks() {
    let actions = drive(true, false, &[true, false, true, true]);
    assert_eq!(
        actions,
        vec![
            PromptRunAction::RunPreRunHooks,
            PromptRunAction::OpenThread,
            PromptRunAction::RunPostRunHooks { ok: false },
            PromptRunAction::PublishReport,
            PromptRunAction::Finish,
        ]
    );
}

#[test]
fn stream_turn_start_failure_runs_post_turn_publishes_and_clears() {
    // open and pre-turn succeed, turn/start fails.
    let actions = drive(true, true, &[true, true, false, true, true, true]);
    assert_eq!(
        actions,
        vec![
            PromptRunAction::OpenThread,
            PromptRunAction::RunPreTurnHooks,
            PromptRunAction::StartTurn,
            PromptRunAction::RunPostTurnHooks { ok: false, turn_started: false },
            PromptRunAction::PublishReport,
            PromptRunAction::ClearScopedHooks,
            PromptRunAction::Finish,
        ]
    );
}

#[test]
fn stream_started_turn_is_handed_out() {
    let actions = drive(true, true, &[true, true, true]);
    assert_eq!(
        actions,
        vec![
            PromptRunAction::OpenThread,
            PromptRunAction::RunPreTurnHooks,
            PromptRunAction::StartTurn,
            PromptRunAction::HandOffStream,
        ]
    );
}
