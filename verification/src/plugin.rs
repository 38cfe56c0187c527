//! Hook-side contracts: lifecycle phases, actions a pre-hook can return,
//! issues it can report, and the context a hook receives.
use vstd::prelude::*;
use crate::json::JsonValue;

verus! {

#[derive(Clone, Copy, Debug, PartialEq, Eq, Structural)]
pub enum HookPhase {
    PreRun,
    PostRun,
    PreSessionStart,
    PostSessionStart,
    PreTurn,
    PostTurn,
    PreToolUse,
}

#[derive(Clone, Copy, Debug, PartialEq, Eq, Structural)]
pub enum HookIssueClass {
    Validation,
    Execution,
    Timeout,
    Internal,
}

#[derive(Debug, PartialEq, Eq)]
pub struct HookIssue {
    pub hook_name: String,
    pub phase: HookPhase,
    pub class: HookIssueClass,
    pub message: String,
}

impl Clone for HookIssue {
    fn clone(&self) -> (r: Self)
        ensures
            r == *self,
    {
        HookIssue {
            hook_name: self.hook_name.clone(),
            phase: self.phase,
            class: self.class,
            message: self.message.clone(),
        }
    }
}

/// Issues collected while running the hooks of one call.
#[derive(Debug, PartialEq, Eq)]
pub struct HookReport {
    pub issues: Vec<HookIssue>,
}

impl HookReport {
    pub fn new() -> (r: HookReport)
        ensures
            r.issues@.len() == 0,
    {
        HookReport { issues: Vec::new() }
    }

    /// Record one issue.
    pub fn push(&mut self, issue: HookIssue)
        ensures
            final(self).issues@ == old(self).issues@.push(issue),
    {
        self.issues.push(issue);
    }

    /// True when no issue was recorded.
    pub fn is_clean(&self) -> (r: bool)
        ensures
            r == (self.issues@.len() == 0),
    {
        self.issues.len() == 0
    }

    pub fn copy(&self) -> (r: HookReport)
        ensures
            r.issues@ == self.issues@,
    {
        let mut issues: Vec<HookIssue> = Vec::new();
        let mut i: usize = 0;
        while i < self.issues.len()
            invariant
                i <= self.issues@.len(),
                issues@ == self.issues@.take(i as int),
            decreases self.issues.len() - i,
        {
            issues.push(self.issues[i].clone());
            proof {
                assert(self.issues@.take(i + 1) == self.issues@.take(i as int).push(self.issues@[i as int]));
            }
            i += 1;
        }
        proof {
            assert(self.issues@.take(self.issues@.len() as int) == self.issues@);
        }
        HookReport { issues }
    }
}

impl Default for HookReport {
    fn default() -> (r: HookReport)
        ensures
            r.issues@.len() == 0,
    {
        HookReport { issues: Vec::new() }
    }
}

/// Why a pre-hook stopped a call.
#[derive(Debug, PartialEq, Eq)]
pub struct BlockReason {
    pub hook_name: String,
    pub phase: HookPhase,
    pub message: String,
}

#[derive(Debug, PartialEq, Eq)]
pub enum HookAttachment {
    AtPath { path: String, placeholder: Option<String> },
    ImageUrl { url: String },
    LocalImage { path: String },
    Skill { name: String, path: String },
}

/// Changes a pre-hook asks for.
#[derive(Debug, PartialEq)]
pub struct HookPatch {
    pub prompt_override: Option<String>,
    pub model_override: Option<String>,
    pub add_attachments: Vec<HookAttachment>,
    pub metadata_delta: JsonValue,
}

#[derive(Debug, PartialEq)]
pub enum HookAction {
    Noop,
    Mutate(HookPatch),
    Block(BlockReason),
}

/// What a hook sees of the call it runs for.
#[derive(Debug, PartialEq)]
pub struct HookContext {
    pub phase: HookPhase,
    pub thread_id: Option<String>,
    pub turn_id: Option<String>,
    pub cwd: Option<String>,
    pub model: Option<String>,
    pub main_status: Option<String>,
    pub correlation_id: String,
    pub ts_ms: i64,
    pub metadata: JsonValue,
    pub tool_name: Option<String>,
    pub tool_input: Option<JsonValue>,
}

} // verus!
