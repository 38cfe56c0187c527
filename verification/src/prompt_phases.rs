//! The order of a prompt run's steps and hook phases.
//!
//! A run (blocking, or one that hands out a stream) goes through the hook
//! phases PreRun, PreTurn, PostTurn and PostRun in that order, around opening
//! the thread, starting the turn and collecting its output. The thread-scoped
//! pre-tool-use hooks are registered when the turn is started and cleared
//! before the run ends. `prompt_run_step` decides, from the state of a run and
//! the outcome of its last step, the next state and the step to perform.
use vstd::prelude::*;

verus! {

/// Where a prompt run stands.
#[derive(Clone, Copy, Debug, PartialEq, Eq, Structural)]
pub enum PromptRunPhase {
    /// Nothing done yet.
    Start,
    /// The pre-run hooks run.
    PreRun,
    /// The attachments are checked and the thread is opened.
    Open,
    /// The pre-turn hooks run.
    PreTurn,
    /// The scoped hooks are registered and the turn is started.
    TurnStart,
    /// The turn's output is collected.
    Collect,
    /// The post-turn hooks run.
    PostTurn,
    /// The hook report is published.
    Publish,
    /// The thread-scoped pre-tool-use hooks are cleared.
    Clear,
    /// The post-run hooks run.
    PostRun,
    /// The run is over.
    Done,
}

/// A prompt run's state: its phase, whether hooks take part, whether the run
/// hands out a stream, and whether its result so far is a success.
#[derive(Clone, Copy, Debug, PartialEq, Eq, Structural)]
pub struct PromptRunState {
    pub phase: PromptRunPhase,
    pub hooked: bool,
    pub streaming: bool,
    pub ok: bool,
}

/// What the last step of a run came to.
#[derive(Clone, Copy, Debug, PartialEq, Eq, Structural)]
pub enum PromptRunEvent {
    /// The run begins; `hooks_enabled` says whether any hook takes part.
    Begin { hooks_enabled: bool, streaming: bool },
    /// The step succeeded.
    Succeeded,
    /// The step failed (a hook blocked, a check or a call failed, the turn
    /// ended with an error).
    Failed,
}

/// The step a run performs next.
#[derive(Clone, Copy, Debug, PartialEq, Eq, Structural)]
pub enum PromptRunAction {
    RunPreRunHooks,
    OpenThread,
    RunPreTurnHooks,
    /// Register the thread-scoped pre-tool-use hooks, then start the turn.
    StartTurn,
    CollectOutput,
    /// Run the post-turn hooks with this status; `turn_started` says whether
    /// the turn id is known.
    RunPostTurnHooks { ok: bool, turn_started: bool },
    PublishReport,
    ClearScopedHooks,
    /// Run the post-run hooks with this status.
    RunPostRunHooks { ok: bool },
    /// The run ends with the result it has.
    Finish,
    /// The started turn is handed out as a stream, which cleans up itself.
    HandOffStream,
    /// Nothing more to do.
    Idle,
}

/// The status word a hook sees for a result.
pub open spec fn status_word(ok: bool) -> Seq<char> {
    if ok { "ok"@ } else { "error"@ }
}

pub open spec fn at(s: PromptRunState, phase: PromptRunPhase, ok: bool) -> PromptRunState {
    PromptRunState { phase, ok, ..s }
}

/// The transition of a prompt run.
///
/// - A blocking run with hooks: PreRun, Open, PreTurn, TurnStart, Collect,
///   PostTurn, Clear, PostRun, Publish. Without hooks: Open, TurnStart,
///   Collect, Clear. A blocked pre-run ends the run at once; a failed open or
///   a blocked pre-turn goes straight to the post-run hooks with status
///   `error`; a failed turn start runs the post-turn hooks with status
///   `error` and no turn id, then clears the scoped hooks.
/// - A streaming run: Open, PreTurn (with hooks), TurnStart, then the stream
///   is handed out. A failed turn start runs the post-turn hooks with status
///   `error`, publishes the report, clears the scoped hooks and ends.
pub open spec fn prompt_run_transition(s: PromptRunState, e: PromptRunEvent) -> (PromptRunState, PromptRunAction) {
    let h = s.hooked;
    let st = s.streaming;
    match s.phase {
        PromptRunPhase::Start => match e {
            PromptRunEvent::Begin { hooks_enabled, streaming } => {
                let n = PromptRunState { phase: PromptRunPhase::Start, hooked: hooks_enabled, streaming, ok: true };
                if hooks_enabled && !streaming {
                    (at(n, PromptRunPhase::PreRun, true), PromptRunAction::RunPreRunHooks)
                } else {
                    (at(n, PromptRunPhase::Open, true), PromptRunAction::OpenThread)
                }
            },
            _ => (s, PromptRunAction::Idle),
        },
        PromptRunPhase::PreRun => match e {
            PromptRunEvent::Succeeded => (at(s, PromptRunPhase::Open, true), PromptRunAction::OpenThread),
            PromptRunEvent::Failed => (at(s, PromptRunPhase::Done, false), PromptRunAction::Finish),
            _ => (s, PromptRunAction::Idle),
        },
        PromptRunPhase::Open => match e {
            PromptRunEvent::Succeeded => if h {
                (at(s, PromptRunPhase::PreTurn, true), PromptRunAction::RunPreTurnHooks)
            } else {
                (at(s, PromptRunPhase::TurnStart, true), PromptRunAction::StartTurn)
            },
            PromptRunEvent::Failed => if h && !st {
                (at(s, PromptRunPhase::PostRun, false), PromptRunAction::RunPostRunHooks { ok: false })
            } else {
                (at(s, PromptRunPhase::Done, false), PromptRunAction::Finish)
            },
            _ => (s, PromptRunAction::Idle),
        },
        PromptRunPhase::PreTurn => match e {
            PromptRunEvent::Succeeded => (at(s, PromptRunPhase::TurnStart, true), PromptRunAction::StartTurn),
            PromptRunEvent::Failed => if !st {
                (at(s, PromptRunPhase::PostRun, false), PromptRunAction::RunPostRunHooks { ok: false })
            } else {
                (at(s, PromptRunPhase::Done, false), PromptRunAction::Finish)
            },
            _ => (s, PromptRunAction::Idle),
        },
        PromptRunPhase::TurnStart => match e {
            PromptRunEvent::Succeeded => if st {
                (at(s, PromptRunPhase::Done, true), PromptRunAction::HandOffStream)
            } else {
                (at(s, PromptRunPhase::Collect, true), PromptRunAction::CollectOutput)
            },
            PromptRunEvent::Failed => if h {
                (at(s, PromptRunPhase::PostTurn, false), PromptRunAction::RunPostTurnHooks { ok: false, turn_started: false })
            } else {
                (at(s, PromptRunPhase::Clear, false), PromptRunAction::ClearScopedHooks)
            },
            _ => (s, PromptRunAction::Idle),
        },
        PromptRunPhase::Collect => match e {
            PromptRunEvent::Begin { .. } => (s, PromptRunAction::Idle),
            _ => {
                let ok = e == PromptRunEvent::Succeeded;
                if h {
                    (at(s, PromptRunPhase::PostTurn, ok), PromptRunAction::RunPostTurnHooks { ok, turn_started: true })
                } else {
                    (at(s, PromptRunPhase::Clear, ok), PromptRunAction::ClearScopedHooks)
                }
            },
        },
        PromptRunPhase::PostTurn => match e {
            PromptRunEvent::Begin { .. } => (s, PromptRunAction::Idle),
            _ => if st {
                (at(s, PromptRunPhase::Publish, s.ok), PromptRunAction::PublishReport)
            } else {
                (at(s, PromptRunPhase::Clear, s.ok), PromptRunAction::ClearScopedHooks)
            },
        },
        PromptRunPhase::Clear => match e {
            PromptRunEvent::Begin { .. } => (s, PromptRunAction::Idle),
            _ => if h && !st {
                (at(s, PromptRunPhase::PostRun, s.ok), PromptRunAction::RunPostRunHooks { ok: s.ok })
            } else {
                (at(s, PromptRunPhase::Done, s.ok), PromptRunAction::Finish)
            },
        },
        PromptRunPhase::PostRun => match e {
            PromptRunEvent::Begin { .. } => (s, PromptRunAction::Idle),
            _ => (at(s, PromptRunPhase::Publish, s.ok), PromptRunAction::PublishReport),
        },
        PromptRunPhase::Publish => match e {
            PromptRunEvent::Begin { .. } => (s, PromptRunAction::Idle),
            _ => if st {
                (at(s, PromptRunPhase::Clear, s.ok), PromptRunAction::ClearScopedHooks)
            } else {
                (at(s, PromptRunPhase::Done, s.ok), PromptRunAction::Finish)
            },
        },
        PromptRunPhase::Done => (s, PromptRunAction::Idle),
    }
}

/// A run that has not begun.
pub fn prompt_run_start() -> (r: PromptRunState)
    ensures
        well_shaped(r),
        r == (PromptRunState { phase: PromptRunPhase::Start, hooked: false, streaming: false, ok: true }),
{
    PromptRunState { phase: PromptRunPhase::Start, hooked: false, streaming: false, ok: true }
}

fn moved(s: PromptRunState, phase: PromptRunPhase, ok: bool) -> (r: PromptRunState)
    ensures
        r == at(s, phase, ok),
{
    PromptRunState { phase, ok, ..s }
}

/// The next state of a prompt run and the step it performs.
pub fn prompt_run_step(s: PromptRunState, e: PromptRunEvent) -> (r: (PromptRunState, PromptRunAction))
    ensures
        r == prompt_run_transition(s, e),
{
    let h = s.hooked;
    let st = s.streaming;
    match s.phase {
        PromptRunPhase::Start => match e {
            PromptRunEvent::Begin { hooks_enabled, streaming } => {
                let n = PromptRunState { phase: PromptRunPhase::Start, hooked: hooks_enabled, streaming, ok: true };
                if hooks_enabled && !streaming {
                    (moved(n, PromptRunPhase::PreRun, true), PromptRunAction::RunPreRunHooks)
                } else {
                    (moved(n, PromptRunPhase::Open, true), PromptRunAction::OpenThread)
                }
            },
            _ => (s, PromptRunAction::Idle),
        },
        PromptRunPhase::PreRun => match e {
            PromptRunEvent::Succeeded => (moved(s, PromptRunPhase::Open, true), PromptRunAction::OpenThread),
            PromptRunEvent::Failed => (moved(s, PromptRunPhase::Done, false), PromptRunAction::Finish),
            _ => (s, PromptRunAction::Idle),
        },
        PromptRunPhase::Open => match e {
            PromptRunEvent::Succeeded => if h {
                (moved(s, PromptRunPhase::PreTurn, true), PromptRunAction::RunPreTurnHooks)
            } else {
                (moved(s, PromptRunPhase::TurnStart, true), PromptRunAction::StartTurn)
            },
            PromptRunEvent::Failed => if h && !st {
                (moved(s, PromptRunPhase::PostRun, false), PromptRunAction::RunPostRunHooks { ok: false })
            } else {
                (moved(s, PromptRunPhase::Done, false), PromptRunAction::Finish)
            },
            _ => (s, PromptRunAction::Idle),
        },
        PromptRunPhase::PreTurn => match e {
            PromptRunEvent::Succeeded => (moved(s, PromptRunPhase::TurnStart, true), PromptRunAction::StartTurn),
            PromptRunEvent::Failed => if !st {
                (moved(s, PromptRunPhase::PostRun, false), PromptRunAction::RunPostRunHooks { ok: false })
            } else {
                (moved(s, PromptRunPhase::Done, false), PromptRunAction::Finish)
            },
            _ => (s, PromptRunAction::Idle),
        },
        PromptRunPhase::TurnStart => match e {
            PromptRunEvent::Succeeded => if st {
                (moved(s, PromptRunPhase::Done, true), PromptRunAction::HandOffStream)
            } else {
                (moved(s, PromptRunPhase::Collect, true), PromptRunAction::CollectOutput)
            },
            PromptRunEvent::Failed => if h {
                (
                    moved(s, PromptRunPhase::PostTurn, false),
                    PromptRunAction::RunPostTurnHooks { ok: false, turn_started: false },
                )
            } else {
                (moved(s, PromptRunPhase::Clear, false), PromptRunAction::ClearScopedHooks)
            },
            _ => (s, PromptRunAction::Idle),
        },
        PromptRunPhase::Collect => match e {
            PromptRunEvent::Begin { .. } => (s, PromptRunAction::Idle),
            PromptRunEvent::Succeeded => if h {
                (moved(s, PromptRunPhase::PostTurn, true), PromptRunAction::RunPostTurnHooks { ok: true, turn_started: true })
            } else {
                (moved(s, PromptRunPhase::Clear, true), PromptRunAction::ClearScopedHooks)
            },
            PromptRunEvent::Failed => if h {
                (
                    moved(s, PromptRunPhase::PostTurn, false),
                    PromptRunAction::RunPostTurnHooks { ok: false, turn_started: true },
                )
            } else {
                (moved(s, PromptRunPhase::Clear, false), PromptRunAction::ClearScopedHooks)
            },
        },
        PromptRunPhase::PostTurn => match e {
            PromptRunEvent::Begin { .. } => (s, PromptRunAction::Idle),
            _ => if st {
                (moved(s, PromptRunPhase::Publish, s.ok), PromptRunAction::PublishReport)
            } else {
                (moved(s, PromptRunPhase::Clear, s.ok), PromptRunAction::ClearScopedHooks)
            },
        },
        PromptRunPhase::Clear => match e {
            PromptRunEvent::Begin { .. } => (s, PromptRunAction::Idle),
            _ => if h && !st {
                (moved(s, PromptRunPhase::PostRun, s.ok), PromptRunAction::RunPostRunHooks { ok: s.ok })
            } else {
                (moved(s, PromptRunPhase::Done, s.ok), PromptRunAction::Finish)
            },
        },
        PromptRunPhase::PostRun => match e {
            PromptRunEvent::Begin { .. } => (s, PromptRunAction::Idle),
            _ => (moved(s, PromptRunPhase::Publish, s.ok), PromptRunAction::PublishReport),
        },
        PromptRunPhase::Publish => match e {
            PromptRunEvent::Begin { .. } => (s, PromptRunAction::Idle),
            _ => if st {
                (moved(s, PromptRunPhase::Clear, s.ok), PromptRunAction::ClearScopedHooks)
            } else {
                (moved(s, PromptRunPhase::Done, s.ok), PromptRunAction::Finish)
            },
        },
        PromptRunPhase::Done => (s, PromptRunAction::Idle),
    }
}

/// The status word of a run result as hooks see it.
pub fn status_text(ok: bool) -> (r: &'static str)
    ensures
        r@ == status_word(ok),
{
    if ok { "ok" } else { "error" }
}

/// Position of a phase in a run's order (a streaming run publishes its
/// report before clearing the scoped hooks, and has no post-run phase).
pub open spec fn phase_rank(s: PromptRunState) -> int {
    match s.phase {
        PromptRunPhase::Start => 0,
        PromptRunPhase::PreRun => 1,
        PromptRunPhase::Open => 2,
        PromptRunPhase::PreTurn => 3,
        PromptRunPhase::TurnStart => 4,
        PromptRunPhase::Collect => 5,
        PromptRunPhase::PostTurn => 6,
        PromptRunPhase::Clear => if s.streaming { 8 } else { 7 },
        PromptRunPhase::PostRun => 8,
        PromptRunPhase::Publish => if s.streaming { 7 } else { 9 },
        PromptRunPhase::Done => 10,
    }
}

/// The step performed on entering a phase.
pub open spec fn entry_action(phase: PromptRunPhase, a: PromptRunAction) -> bool {
    match phase {
        PromptRunPhase::Start => false,
        PromptRunPhase::PreRun => a == PromptRunAction::RunPreRunHooks,
        PromptRunPhase::Open => a == PromptRunAction::OpenThread,
        PromptRunPhase::PreTurn => a == PromptRunAction::RunPreTurnHooks,
        PromptRunPhase::TurnStart => a == PromptRunAction::StartTurn,
        PromptRunPhase::Collect => a == PromptRunAction::CollectOutput,
        PromptRunPhase::PostTurn => a is RunPostTurnHooks,
        PromptRunPhase::Publish => a == PromptRunAction::PublishReport,
        PromptRunPhase::Clear => a == PromptRunAction::ClearScopedHooks,
        PromptRunPhase::PostRun => a is RunPostRunHooks,
        PromptRunPhase::Done => a == PromptRunAction::Finish || a == PromptRunAction::HandOffStream,
    }
}

/// The phases a run can be in: a run without hooks is never in a hook
/// phase, and a streaming run never runs pre-run or post-run hooks nor
/// collects output itself.
pub open spec fn well_shaped(s: PromptRunState) -> bool {
    &&& !s.hooked ==> !(s.phase == PromptRunPhase::PreRun || s.phase == PromptRunPhase::PreTurn
        || s.phase == PromptRunPhase::PostTurn || s.phase == PromptRunPhase::PostRun)
    &&& s.streaming ==> !(s.phase == PromptRunPhase::PreRun || s.phase == PromptRunPhase::PostRun
        || s.phase == PromptRunPhase::Collect)
}

/// Hook phases run in a fixed order, each at most once: every step that does
/// something enters a later phase than the one the run was in, and what it
/// does is what that phase is for (PreRun, Open, PreTurn, TurnStart, Collect,
/// PostTurn, then Clear, PostRun, Publish for a blocking run, or Publish,
/// Clear for a streaming one); a step that does nothing leaves the run as it
/// was, and an ended run does nothing. Every state a run reaches from its
/// start is well shaped, and stays so.
pub proof fn lemma_phase_order(s: PromptRunState, e: PromptRunEvent)
    requires
        well_shaped(s),
    ensures
        ({
            let (n, a) = prompt_run_transition(s, e);
            &&& well_shaped(n)
            &&& a == PromptRunAction::Idle ==> n == s
            &&& a != PromptRunAction::Idle ==> phase_rank(n) > phase_rank(s) && entry_action(n.phase, a)
            &&& s.phase == PromptRunPhase::Done ==> a == PromptRunAction::Idle
            &&& s.phase != PromptRunPhase::Start ==> n.hooked == s.hooked && n.streaming == s.streaming
            &&& !n.hooked ==> !(a is RunPreRunHooks || a is RunPreTurnHooks || a is RunPostTurnHooks
                || a is RunPostRunHooks)
            &&& n.streaming ==> !(a is RunPreRunHooks || a is RunPostRunHooks || a is CollectOutput)
        }),
{
}

/// The thread-scoped hooks are registered from the turn start until they are
/// cleared.
pub open spec fn scoped_registered(s: PromptRunState) -> bool {
    ||| s.phase == PromptRunPhase::TurnStart
    ||| s.phase == PromptRunPhase::Collect
    ||| s.phase == PromptRunPhase::PostTurn
    ||| (s.streaming && s.phase == PromptRunPhase::Publish)
}

/// Once the scoped pre-tool-use hooks are registered, a run never ends
/// without clearing them first, unless it hands the started turn out as a
/// stream (whose cleanup clears them).
pub proof fn lemma_scoped_hooks_cleared(s: PromptRunState, e: PromptRunEvent)
    requires
        scoped_registered(s),
    ensures
        ({
            let (n, a) = prompt_run_transition(s, e);
            a != PromptRunAction::Finish
                && (scoped_registered(n) || a == PromptRunAction::ClearScopedHooks || a == PromptRunAction::HandOffStream
                || a == PromptRunAction::Idle)
        }),
{
}

/// A turn that fails to start: with hooks, the post-turn hooks run with
/// status `error` and no turn id; then a streaming run publishes the report,
/// clears the scoped hooks and ends, while a blocking run clears the scoped
/// hooks, runs the post-run hooks with status `error`, publishes the report
/// and ends. Without hooks the scoped hooks are cleared and the run ends.
/// The outcomes of the steps after the failure do not matter.
pub proof fn lemma_failed_turn_start(
    s: PromptRunState,
    e1: PromptRunEvent,
    e2: PromptRunEvent,
    e3: PromptRunEvent,
    e4: PromptRunEvent,
)
    requires
        s.phase == PromptRunPhase::TurnStart,
        e1 == PromptRunEvent::Failed,
        !(e2 is Begin),
        !(e3 is Begin),
        !(e4 is Begin),
    ensures
        ({
            let (s1, a1) = prompt_run_transition(s, e1);
            let (s2, a2) = prompt_run_transition(s1, e2);
            let (s3, a3) = prompt_run_transition(s2, e3);
            let (s4, a4) = prompt_run_transition(s3, e4);
            if s.hooked && s.streaming {
                &&& a1 == PromptRunAction::RunPostTurnHooks { ok: false, turn_started: false }
                &&& a2 == PromptRunAction::PublishReport
                &&& a3 == PromptRunAction::ClearScopedHooks
                &&& a4 == PromptRunAction::Finish
                &&& !s4.ok
            } else if s.hooked {
                &&& a1 == PromptRunAction::RunPostTurnHooks { ok: false, turn_started: false }
                &&& a2 == PromptRunAction::ClearScopedHooks
                &&& a3 == PromptRunAction::RunPostRunHooks { ok: false }
                &&& a4 == PromptRunAction::PublishReport
                &&& prompt_run_transition(s4, e4).1 == PromptRunAction::Finish
            } else {
                &&& a1 == PromptRunAction::ClearScopedHooks
                &&& a2 == PromptRunAction::Finish
                &&& s2.phase == PromptRunPhase::Done
            }
        }),
{
}

/// The post-turn and post-run hooks of a blocking run see the status of the
/// collected result: `ok` after a success, `error` after a failure.
pub proof fn lemma_post_status(s: PromptRunState, e: PromptRunEvent, e2: PromptRunEvent)
    requires
        s.phase == PromptRunPhase::Collect,
        s.hooked,
        !s.streaming,
        !(e is Begin),
        !(e2 is Begin),
    ensures
        ({
            let ok = e == PromptRunEvent::Succeeded;
            let (s1, a1) = prompt_run_transition(s, e);
            let (s2, a2) = prompt_run_transition(s1, e2);
            &&& a1 == PromptRunAction::RunPostTurnHooks { ok, turn_started: true }
            &&& a2 == PromptRunAction::ClearScopedHooks
            &&& prompt_run_transition(s2, e2).1 == PromptRunAction::RunPostRunHooks { ok }
        }),
{
}

} // verus!
