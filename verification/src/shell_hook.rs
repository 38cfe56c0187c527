//! A shell command used as a hook: its configuration and how its exit code
//! and standard output become the hook's answer.
//!
//! A pre-hook that exits 0 answers with nothing (`noop`) or a JSON object
//! whose `action` is `mutate` (any case) with the patch; exit 2 blocks, with
//! a JSON `message` or the output as the reason; any other exit is an
//! execution issue. A post-hook succeeds exactly on exit 0.
use vstd::prelude::*;
use std::time::Duration;
use crate::json::JsonValue;
use crate::plugin::{BlockReason, HookAction, HookAttachment, HookIssue, HookIssueClass, HookPatch, HookPhase};
use crate::text::{trim, trim_str, concat, i64_to_decimal, signed_decimal, chars_of};
use crate::config::{env_get, env_unique, env_insert};
use crate::time::{duration_from_secs, secs_duration};

verus! {

pub struct ShellCommandHook {
    pub name: String,
    /// Command run with `sh -c`.
    pub command: String,
    /// Wall-clock limit of one run.
    pub timeout: Duration,
    /// Extra environment variables of the process.
    pub env: Vec<(String, String)>,
}

impl ShellCommandHook {
    /// A hook with a five-second timeout and no extra environment.
    pub fn new(name: String, command: String) -> (r: Self)
        ensures
            r.name == name,
            r.command == command,
            r.timeout == secs_duration(5),
            r.env@.len() == 0,
    {
        ShellCommandHook { name, command, timeout: duration_from_secs(5), env: Vec::new() }
    }

    pub fn with_timeout(self, timeout: Duration) -> (r: Self)
        ensures
            r == (ShellCommandHook { timeout, ..self }),
    {
        ShellCommandHook { timeout, ..self }
    }

    /// Add one environment variable (replacing an earlier value); lookups go
    /// by the last entry of a name.
    pub fn with_env(self, key: String, value: String) -> (r: Self)
        ensures
            env_unique(self.env@) ==> env_unique(r.env@),
            env_get(r.env@, key@) == Some(value@),
            forall|k: Seq<char>| k != key@ ==> env_get(r.env@, k) == env_get(self.env@, k),
            r.name == self.name && r.command == self.command && r.timeout == self.timeout,
    {
        let mut s = self;
        env_insert(&mut s.env, key, value);
        s
    }
}

/// What a shell pre-hook printed on success, once parsed.
pub struct ShellPreOutput {
    pub action: String,
    pub prompt_override: Option<String>,
    pub model_override: Option<String>,
    pub add_attachments: Vec<HookAttachment>,
    pub metadata_delta: JsonValue,
}

pub open spec fn ascii_lower(c: char) -> char {
    if 'A' <= c && c <= 'Z' {
        ((c as u32) + 32) as char
    } else {
        c
    }
}

/// ASCII case-insensitive equality.
pub open spec fn eq_ignore_ascii_case(a: Seq<char>, b: Seq<char>) -> bool {
    a.len() == b.len() && forall|i: int| 0 <= i < a.len() ==> ascii_lower(#[trigger] a[i]) == ascii_lower(b[i])
}

fn lower(c: char) -> (r: char)
    ensures
        r == ascii_lower(c),
{
    if 'A' <= c && c <= 'Z' {
        let b: u8 = ((c as u32) + 32) as u8;
        b as char
    } else {
        c
    }
}

pub fn str_eq_ignore_ascii_case(a: &str, b: &str) -> (r: bool)
    ensures
        r == eq_ignore_ascii_case(a@, b@),
{
    let x = chars_of(a);
    let y = chars_of(b);
    if x.len() != y.len() {
        return false;
    }
    let mut i: usize = 0;
    while i < x.len()
        invariant
            x@ == a@,
            y@ == b@,
            x@.len() == y@.len(),
            i <= x@.len(),
            forall|k: int| 0 <= k < i ==> ascii_lower(#[trigger] x@[k]) == ascii_lower(y@[k]),
        decreases x.len() - i,
    {
        if lower(x[i]) != lower(y[i]) {
            return false;
        }
        i += 1;
    }
    true
}

/// The text of a pre-hook's output to parse, or `None` when it printed
/// nothing but whitespace (which means `noop`).
pub fn pre_output_text(stdout: &str) -> (r: Option<String>)
    ensures
        trim(stdout@).len() == 0 ==> r is None,
        trim(stdout@).len() > 0 ==> (r matches Some(t) && t@ == trim(stdout@)),
{
    let t = trim_str(stdout);
    if t.as_str().is_empty() {
        None
    } else {
        Some(t)
    }
}

/// What a pre-hook answers for its parsed output: a `mutate` action carries
/// the patch, any other action is `noop`; unparsable output is an execution
/// issue `stdout parse error: <error>`.
pub open spec fn pre_answer(
    hook_name: Seq<char>,
    phase: HookPhase,
    parsed: Result<ShellPreOutput, String>,
    r: Result<HookAction, HookIssue>,
) -> bool {
    match parsed {
        Err(e) => r matches Err(i) && i.hook_name@ == hook_name && i.phase == phase && i.class
            == HookIssueClass::Execution && i.message@ == "stdout parse error: "@ + e@,
        Ok(p) => if eq_ignore_ascii_case(p.action@, "mutate"@) {
            r == Ok::<HookAction, HookIssue>(
                HookAction::Mutate(
                    HookPatch {
                        prompt_override: p.prompt_override,
                        model_override: p.model_override,
                        add_attachments: p.add_attachments,
                        metadata_delta: p.metadata_delta,
                    },
                ),
            )
        } else {
            r == Ok::<HookAction, HookIssue>(HookAction::Noop)
        },
    }
}

/// Answer of a pre-hook from its parsed output.
pub fn pre_action_from_parsed(hook_name: &str, phase: HookPhase, parsed: Result<ShellPreOutput, String>) -> (r: Result<HookAction, HookIssue>)
    ensures
        pre_answer(hook_name@, phase, parsed, r),
{
    match parsed {
        Err(e) => Err(
            HookIssue {
                hook_name: hook_name.to_owned(),
                phase,
                class: HookIssueClass::Execution,
                message: concat("stdout parse error: ", e.as_str()),
            },
        ),
        Ok(p) => {
            if str_eq_ignore_ascii_case(p.action.as_str(), "mutate") {
                Ok(
                    HookAction::Mutate(
                        HookPatch {
                            prompt_override: p.prompt_override,
                            model_override: p.model_override,
                            add_attachments: p.add_attachments,
                            metadata_delta: p.metadata_delta,
                        },
                    ),
                )
            } else {
                Ok(HookAction::Noop)
            }
        },
    }
}

/// Answer of a pre-hook that exited 0. Output made of whitespace only is a
/// `noop`; otherwise `parsed` is its trimmed text read as a pre-hook answer.
pub fn parse_pre_output(hook_name: &str, phase: HookPhase, stdout: &str, parsed: Result<ShellPreOutput, String>) -> (r: Result<HookAction, HookIssue>)
    ensures
        trim(stdout@).len() == 0 ==> r == Ok::<HookAction, HookIssue>(HookAction::Noop),
        trim(stdout@).len() > 0 ==> pre_answer(hook_name@, phase, parsed, r),
{
    match pre_output_text(stdout) {
        None => Ok(HookAction::Noop),
        Some(_) => pre_action_from_parsed(hook_name, phase, parsed),
    }
}

/// Reason of a pre-hook that exited 2. `parsed_message` is the `message`
/// field of its output read as JSON (`None` when the output is not such an
/// object). Blank output gives a fixed reason; an empty or missing message
/// gives the trimmed output.
pub fn parse_block_output(hook_name: &str, phase: HookPhase, stdout: &str, parsed_message: Option<String>) -> (r: BlockReason)
    ensures
        r.hook_name@ == hook_name@,
        r.phase == phase,
        r.message@ == (if trim(stdout@).len() == 0 {
            "blocked by hook (no message)"@
        } else {
            match parsed_message {
                Some(m) => if m@.len() == 0 { trim(stdout@) } else { m@ },
                None => trim(stdout@),
            }
        }),
{
    let trimmed = trim_str(stdout);
    let message = if trimmed.as_str().is_empty() {
        "blocked by hook (no message)".to_owned()
    } else {
        match parsed_message {
            Some(m) => if m.as_str().is_empty() {
                trimmed
            } else {
                m
            },
            None => trimmed,
        }
    };
    BlockReason { hook_name: hook_name.to_owned(), phase, message }
}

/// An execution issue of a hook.
pub fn execution_issue(hook_name: &str, phase: HookPhase, message: String) -> (r: HookIssue)
    ensures
        r.hook_name@ == hook_name@,
        r.phase == phase,
        r.class == HookIssueClass::Execution,
        r.message == message,
{
    HookIssue { hook_name: hook_name.to_owned(), phase, class: HookIssueClass::Execution, message }
}

/// A timeout issue of a hook; `timeout_text` renders the limit that passed.
pub fn timeout_issue(hook_name: &str, phase: HookPhase, timeout_text: &str) -> (r: HookIssue)
    ensures
        r.hook_name@ == hook_name@,
        r.phase == phase,
        r.class == HookIssueClass::Timeout,
        r.message@ == "shell hook timed out after "@ + timeout_text@,
{
    HookIssue {
        hook_name: hook_name.to_owned(),
        phase,
        class: HookIssueClass::Timeout,
        message: concat("shell hook timed out after ", timeout_text),
    }
}

/// `exited with code <code>`.
pub fn exit_code_message(code: i32) -> (r: String)
    ensures
        r@ == "exited with code "@ + signed_decimal(code as int),
{
    let digits = i64_to_decimal(code as i64);
    concat("exited with code ", digits.as_str())
}

/// What a pre-hook's exit code asks for.
#[derive(Clone, Copy, Debug, PartialEq, Eq, Structural)]
pub enum PreExitPlan {
    /// Read the output as a `noop` or `mutate` answer.
    ParseAnswer,
    /// Read the output as a block reason.
    ParseBlock,
    /// The hook failed.
    Failed,
}

pub fn pre_exit_plan(exit_code: i32) -> (r: PreExitPlan)
    ensures
        r == (if exit_code == 0 {
            PreExitPlan::ParseAnswer
        } else if exit_code == 2 {
            PreExitPlan::ParseBlock
        } else {
            PreExitPlan::Failed
        }),
{
    if exit_code == 0 {
        PreExitPlan::ParseAnswer
    } else if exit_code == 2 {
        PreExitPlan::ParseBlock
    } else {
        PreExitPlan::Failed
    }
}

/// Outcome of a post-hook run by its exit code.
pub fn post_hook_outcome(hook_name: &str, phase: HookPhase, exit_code: i32) -> (r: Result<(), HookIssue>)
    ensures
        exit_code == 0 ==> r is Ok,
        exit_code != 0 ==> (r matches Err(i) && i.hook_name@ == hook_name@ && i.phase == phase && i.class
            == HookIssueClass::Execution && i.message@ == "exited with code "@ + signed_decimal(exit_code as int)),
{
    if exit_code == 0 {
        Ok(())
    } else {
        Err(execution_issue(hook_name, phase, exit_code_message(exit_code)))
    }
}

} // verus!
