//! Parameters of thread and turn requests, and the checks made on them
//! before a request is sent.
use vstd::prelude::*;
use crate::json::JsonValue;
use crate::errors::RpcError;
use crate::input::InputItem;
use crate::policies::{ApprovalPolicy, Personality, ReasoningEffort, SandboxPolicy, ServiceTier};
use crate::plugin::{BlockReason, HookPhase};
use crate::text::{concat, push_str};

verus! {

/// The method that steers a running turn.
pub const TURN_STEER_METHOD: &'static str = crate::methods::TURN_STEER;

#[derive(Debug, PartialEq)]
pub struct TurnStartParams {
    pub input: Vec<InputItem>,
    pub cwd: Option<String>,
    pub approval_policy: Option<ApprovalPolicy>,
    pub sandbox_policy: Option<SandboxPolicy>,
    pub privileged_escalation_approved: bool,
    pub model: Option<String>,
    pub service_tier: Option<Option<ServiceTier>>,
    pub effort: Option<ReasoningEffort>,
    pub summary: Option<String>,
    pub personality: Option<Personality>,
    pub output_schema: Option<JsonValue>,
}

#[derive(Clone, Debug, PartialEq, Eq)]
pub struct TurnHandle {
    pub turn_id: String,
    pub thread_id: String,
}

#[derive(Debug, PartialEq)]
pub struct ThreadStartParams {
    pub model: Option<String>,
    pub model_provider: Option<String>,
    pub service_tier: Option<Option<ServiceTier>>,
    pub cwd: Option<String>,
    pub approval_policy: Option<ApprovalPolicy>,
    pub sandbox_policy: Option<SandboxPolicy>,
    pub config: Option<Vec<(String, JsonValue)>>,
    pub service_name: Option<String>,
    pub base_instructions: Option<String>,
    pub developer_instructions: Option<String>,
    pub personality: Option<Personality>,
    pub ephemeral: Option<bool>,
    pub privileged_escalation_approved: bool,
}

impl ThreadStartParams {
    /// Parameters with every override unset.
    pub fn new() -> (r: Self)
        ensures
            r.model is None && r.model_provider is None && r.service_tier is None && r.cwd is None
                && r.approval_policy is None && r.sandbox_policy is None && r.config is None
                && r.service_name is None && r.base_instructions is None && r.developer_instructions
                is None && r.personality is None && r.ephemeral is None
                && !r.privileged_escalation_approved,
    {
        ThreadStartParams {
            model: None,
            model_provider: None,
            service_tier: None,
            cwd: None,
            approval_policy: None,
            sandbox_policy: None,
            config: None,
            service_name: None,
            base_instructions: None,
            developer_instructions: None,
            personality: None,
            ephemeral: None,
            privileged_escalation_approved: false,
        }
    }
}

/// A turn needs at least one input item.
pub fn ensure_turn_input_not_empty(input: &Vec<InputItem>) -> (r: Result<(), RpcError>)
    ensures
        input@.len() == 0 <==> r is Err,
        r matches Err(e) ==> e matches RpcError::InvalidRequest(m) && m@ == "turn input must not be empty"@,
{
    if input.len() == 0 {
        return Err(RpcError::InvalidRequest("turn input must not be empty".to_owned()));
    }
    Ok(())
}

/// With pre-tool-use hooks installed, an unset or `Never` approval policy is
/// raised to `Untrusted`, so that the server asks for the approvals the hooks
/// decide on.
pub open spec fn escalated_policy(has_tool_hooks: bool, p: Option<ApprovalPolicy>) -> Option<ApprovalPolicy> {
    if has_tool_hooks && (p is None || p == Some(ApprovalPolicy::Never)) {
        Some(ApprovalPolicy::Untrusted)
    } else {
        p
    }
}

pub fn escalate_approval_if_tool_hooks(has_pre_tool_use_hooks: bool, p: ThreadStartParams) -> (r: ThreadStartParams)
    ensures
        r == (ThreadStartParams {
            approval_policy: escalated_policy(has_pre_tool_use_hooks, p.approval_policy),
            ..p
        }),
{
    let mut p = p;
    if has_pre_tool_use_hooks && (p.approval_policy.is_none() || p.approval_policy == Some(
        ApprovalPolicy::Never,
    )) {
        p.approval_policy = Some(ApprovalPolicy::Untrusted);
    }
    p
}

/// `Debug` name of a hook phase.
pub open spec fn phase_name(p: HookPhase) -> Seq<char> {
    match p {
        HookPhase::PreRun => "PreRun"@,
        HookPhase::PostRun => "PostRun"@,
        HookPhase::PreSessionStart => "PreSessionStart"@,
        HookPhase::PostSessionStart => "PostSessionStart"@,
        HookPhase::PreTurn => "PreTurn"@,
        HookPhase::PostTurn => "PostTurn"@,
        HookPhase::PreToolUse => "PreToolUse"@,
    }
}

pub fn phase_label(p: HookPhase) -> (r: &'static str)
    ensures
        r@ == phase_name(p),
{
    match p {
        HookPhase::PreRun => "PreRun",
        HookPhase::PostRun => "PostRun",
        HookPhase::PreSessionStart => "PreSessionStart",
        HookPhase::PostSessionStart => "PostSessionStart",
        HookPhase::PreTurn => "PreTurn",
        HookPhase::PostTurn => "PostTurn",
        HookPhase::PreToolUse => "PreToolUse",
    }
}

/// The error a session-start caller sees for a hook's block:
/// `blocked by hook '<name>' at <phase>: <message>`.
pub fn block_reason_to_rpc_error(r: BlockReason) -> (e: RpcError)
    ensures
        e matches RpcError::InvalidRequest(m) && m@ == "blocked by hook '"@ + r.hook_name@ + "' at "@
            + phase_name(r.phase) + ": "@ + r.message@,
{
    let mut m = concat("blocked by hook '", r.hook_name.as_str());
    push_str(&mut m, "' at ");
    push_str(&mut m, phase_label(r.phase));
    push_str(&mut m, ": ");
    push_str(&mut m, r.message.as_str());
    RpcError::InvalidRequest(m)
}

/// With pre-tool-use hooks installed the approval policy of a thread is
/// never left unset and never `Never` (the hooks would never be asked):
/// both become `Untrusted`, and any other policy is kept. Without such hooks
/// the policy is kept as it is.
pub proof fn lemma_tool_hooks_never_run_unapproved(has_hooks: bool, p: Option<ApprovalPolicy>)
    ensures
        has_hooks ==> escalated_policy(has_hooks, p) is Some,
        has_hooks ==> escalated_policy(has_hooks, p) != Some(ApprovalPolicy::Never),
        has_hooks && (p is None || p == Some(ApprovalPolicy::Never)) ==> escalated_policy(has_hooks, p) == Some(
            ApprovalPolicy::Untrusted,
        ),
        has_hooks && p is Some && p != Some(ApprovalPolicy::Never) ==> escalated_policy(has_hooks, p) == p,
        !has_hooks ==> escalated_policy(has_hooks, p) == p,
{
}

} // verus!
