//! Reusable run profiles and session defaults, and how they become the
//! parameters of a prompt run or a thread start.
use vstd::prelude::*;
use std::time::Duration;
use crate::json::{JsonValue, json_eq};
use crate::errors::{clone_opt_json, opt_json_eq};
use crate::text::clone_opt_string;
use crate::hooks::{HookRef, RuntimeHookConfig, config_empty};
use crate::input::PromptAttachment;
use crate::policies::{ApprovalPolicy, ReasoningEffort, SandboxPolicy, SandboxPreset, DEFAULT_REASONING_EFFORT};
use crate::prompt::PromptRunParams;
use crate::thread_ops::ThreadStartParams;
use crate::time::{duration_from_secs, secs_duration};

verus! {

/// Reusable defaults for prompt runs.
#[derive(Debug, PartialEq)]
pub struct RunProfile {
    pub model: Option<String>,
    pub effort: ReasoningEffort,
    pub approval_policy: ApprovalPolicy,
    pub sandbox_policy: SandboxPolicy,
    /// Explicit opt-in gate for privileged sandbox usage.
    pub privileged_escalation_approved: bool,
    pub attachments: Vec<PromptAttachment>,
    pub timeout: Duration,
    pub output_schema: Option<JsonValue>,
    pub hooks: RuntimeHookConfig,
}

/// The safe defaults of a profile.
pub open spec fn safe_defaults(
    model: Option<String>,
    effort: ReasoningEffort,
    approval_policy: ApprovalPolicy,
    sandbox_policy: SandboxPolicy,
    privileged: bool,
    attachments: Seq<PromptAttachment>,
    timeout: Duration,
    output_schema: Option<JsonValue>,
    hooks: RuntimeHookConfig,
) -> bool {
    &&& model is None
    &&& effort == DEFAULT_REASONING_EFFORT
    &&& approval_policy == ApprovalPolicy::Never
    &&& sandbox_policy == SandboxPolicy::Preset(SandboxPreset::ReadOnly)
    &&& !privileged
    &&& attachments.len() == 0
    &&& timeout == secs_duration(120)
    &&& output_schema is None
    &&& config_empty(hooks)
}

impl RunProfile {
    /// Medium effort, no approvals asked, read-only sandbox, no escalation,
    /// no attachments, a 120-second timeout, no schema, no hooks.
    pub fn new() -> (r: Self)
        ensures
            safe_defaults(r.model, r.effort, r.approval_policy, r.sandbox_policy,
                r.privileged_escalation_approved, r.attachments@, r.timeout, r.output_schema, r.hooks),
    {
        RunProfile {
            model: None,
            effort: DEFAULT_REASONING_EFFORT,
            approval_policy: ApprovalPolicy::Never,
            sandbox_policy: SandboxPolicy::Preset(SandboxPreset::ReadOnly),
            privileged_escalation_approved: false,
            attachments: Vec::new(),
            timeout: duration_from_secs(120),
            output_schema: None,
            hooks: RuntimeHookConfig::new(),
        }
    }

    pub fn with_model(self, model: String) -> (r: Self)
        ensures
            r == (RunProfile { model: Some(model), ..self }),
    {
        RunProfile { model: Some(model), ..self }
    }

    pub fn with_effort(self, effort: ReasoningEffort) -> (r: Self)
        ensures
            r == (RunProfile { effort, ..self }),
    {
        RunProfile { effort, ..self }
    }

    pub fn with_approval_policy(self, approval_policy: ApprovalPolicy) -> (r: Self)
        ensures
            r == (RunProfile { approval_policy, ..self }),
    {
        RunProfile { approval_policy, ..self }
    }

    pub fn with_sandbox_policy(self, sandbox_policy: SandboxPolicy) -> (r: Self)
        ensures
            r == (RunProfile { sandbox_policy, ..self }),
    {
        RunProfile { sandbox_policy, ..self }
    }

    /// Explicitly approve privileged sandbox escalation.
    pub fn allow_privileged_escalation(self) -> (r: Self)
        ensures
            r == (RunProfile { privileged_escalation_approved: true, ..self }),
    {
        RunProfile { privileged_escalation_approved: true, ..self }
    }

    pub fn with_timeout(self, timeout: Duration) -> (r: Self)
        ensures
            r == (RunProfile { timeout, ..self }),
    {
        RunProfile { timeout, ..self }
    }

    pub fn with_output_schema(self, output_schema: JsonValue) -> (r: Self)
        ensures
            r == (RunProfile { output_schema: Some(output_schema), ..self }),
    {
        RunProfile { output_schema: Some(output_schema), ..self }
    }

    pub fn with_attachment(self, attachment: PromptAttachment) -> (r: Self)
        ensures
            r.attachments@ == self.attachments@.push(attachment),
            r == (RunProfile { attachments: r.attachments, ..self }),
    {
        let mut s = self;
        s.attachments.push(attachment);
        s
    }

    pub fn attach_path(self, path: String) -> (r: Self)
        ensures
            r.attachments@ == self.attachments@.push(PromptAttachment::AtPath { path, placeholder: None }),
            r == (RunProfile { attachments: r.attachments, ..self }),
    {
        self.with_attachment(PromptAttachment::AtPath { path, placeholder: None })
    }

    pub fn attach_path_with_placeholder(self, path: String, placeholder: String) -> (r: Self)
        ensures
            r.attachments@ == self.attachments@.push(
                PromptAttachment::AtPath { path, placeholder: Some(placeholder) },
            ),
            r == (RunProfile { attachments: r.attachments, ..self }),
    {
        self.with_attachment(PromptAttachment::AtPath { path, placeholder: Some(placeholder) })
    }

    pub fn attach_image_url(self, url: String) -> (r: Self)
        ensures
            r.attachments@ == self.attachments@.push(PromptAttachment::ImageUrl { url }),
            r == (RunProfile { attachments: r.attachments, ..self }),
    {
        self.with_attachment(PromptAttachment::ImageUrl { url })
    }

    pub fn attach_local_image(self, path: String) -> (r: Self)
        ensures
            r.attachments@ == self.attachments@.push(PromptAttachment::LocalImage { path }),
            r == (RunProfile { attachments: r.attachments, ..self }),
    {
        self.with_attachment(PromptAttachment::LocalImage { path })
    }

    pub fn attach_skill(self, name: String, path: String) -> (r: Self)
        ensures
            r.attachments@ == self.attachments@.push(PromptAttachment::Skill { name, path }),
            r == (RunProfile { attachments: r.attachments, ..self }),
    {
        self.with_attachment(PromptAttachment::Skill { name, path })
    }

    pub fn with_hooks(self, hooks: RuntimeHookConfig) -> (r: Self)
        ensures
            r == (RunProfile { hooks, ..self }),
    {
        RunProfile { hooks, ..self }
    }

    pub fn with_pre_hook(self, hook: HookRef) -> (r: Self)
        ensures
            r.hooks.pre_hooks@ == self.hooks.pre_hooks@.push(hook),
            r.hooks.post_hooks == self.hooks.post_hooks,
            r.hooks.pre_tool_use_hooks == self.hooks.pre_tool_use_hooks,
            r == (RunProfile { hooks: r.hooks, ..self }),
    {
        let mut s = self;
        s.hooks.pre_hooks.push(hook);
        s
    }

    pub fn with_post_hook(self, hook: HookRef) -> (r: Self)
        ensures
            r.hooks.post_hooks@ == self.hooks.post_hooks@.push(hook),
            r.hooks.pre_hooks == self.hooks.pre_hooks,
            r.hooks.pre_tool_use_hooks == self.hooks.pre_tool_use_hooks,
            r == (RunProfile { hooks: r.hooks, ..self }),
    {
        let mut s = self;
        s.hooks.post_hooks.push(hook);
        s
    }

    /// Register one pre-tool-use hook (it runs through the approval loop).
    pub fn with_pre_tool_use_hook(self, hook: HookRef) -> (r: Self)
        ensures
            r.hooks.pre_tool_use_hooks@ == self.hooks.pre_tool_use_hooks@.push(hook),
            r.hooks.pre_hooks == self.hooks.pre_hooks,
            r.hooks.post_hooks == self.hooks.post_hooks,
            r == (RunProfile { hooks: r.hooks, ..self }),
    {
        let mut s = self;
        s.hooks.pre_tool_use_hooks.push(hook);
        s
    }
}

impl Default for RunProfile {
    fn default() -> (r: Self)
        ensures
            safe_defaults(r.model, r.effort, r.approval_policy, r.sandbox_policy,
                r.privileged_escalation_approved, r.attachments@, r.timeout, r.output_schema, r.hooks),
    {
        RunProfile::new()
    }
}

/// Defaults of a session: a profile bound to a working directory.
#[derive(Debug, PartialEq)]
pub struct SessionConfig {
    pub cwd: String,
    pub model: Option<String>,
    pub effort: ReasoningEffort,
    pub approval_policy: ApprovalPolicy,
    pub sandbox_policy: SandboxPolicy,
    /// Explicit opt-in gate for privileged sandbox usage.
    pub privileged_escalation_approved: bool,
    pub attachments: Vec<PromptAttachment>,
    pub timeout: Duration,
    pub output_schema: Option<JsonValue>,
    pub hooks: RuntimeHookConfig,
}

impl SessionConfig {
    /// A session in `cwd` with the safe defaults of a profile.
    pub fn new(cwd: String) -> (r: Self)
        ensures
            r.cwd == cwd,
            safe_defaults(r.model, r.effort, r.approval_policy, r.sandbox_policy,
                r.privileged_escalation_approved, r.attachments@, r.timeout, r.output_schema, r.hooks),
    {
        SessionConfig::from_profile(cwd, RunProfile::new())
    }

    /// A session in `cwd` with the defaults of `profile`.
    pub fn from_profile(cwd: String, profile: RunProfile) -> (r: Self)
        ensures
            r == (SessionConfig {
                cwd,
                model: profile.model,
                effort: profile.effort,
                approval_policy: profile.approval_policy,
                sandbox_policy: profile.sandbox_policy,
                privileged_escalation_approved: profile.privileged_escalation_approved,
                attachments: profile.attachments,
                timeout: profile.timeout,
                output_schema: profile.output_schema,
                hooks: profile.hooks,
            }),
    {
        SessionConfig {
            cwd,
            model: profile.model,
            effort: profile.effort,
            approval_policy: profile.approval_policy,
            sandbox_policy: profile.sandbox_policy,
            privileged_escalation_approved: profile.privileged_escalation_approved,
            attachments: profile.attachments,
            timeout: profile.timeout,
            output_schema: profile.output_schema,
            hooks: profile.hooks,
        }
    }

    pub fn with_model(self, model: String) -> (r: Self)
        ensures
            r == (SessionConfig { model: Some(model), ..self }),
    {
        SessionConfig { model: Some(model), ..self }
    }

    pub fn with_effort(self, effort: ReasoningEffort) -> (r: Self)
        ensures
            r == (SessionConfig { effort, ..self }),
    {
        SessionConfig { effort, ..self }
    }

    pub fn with_approval_policy(self, approval_policy: ApprovalPolicy) -> (r: Self)
        ensures
            r == (SessionConfig { approval_policy, ..self }),
    {
        SessionConfig { approval_policy, ..self }
    }

    pub fn with_sandbox_policy(self, sandbox_policy: SandboxPolicy) -> (r: Self)
        ensures
            r == (SessionConfig { sandbox_policy, ..self }),
    {
        SessionConfig { sandbox_policy, ..self }
    }

    /// Explicitly approve privileged sandbox escalation.
    pub fn allow_privileged_escalation(self) -> (r: Self)
        ensures
            r == (SessionConfig { privileged_escalation_approved: true, ..self }),
    {
        SessionConfig { privileged_escalation_approved: true, ..self }
    }

    pub fn with_timeout(self, timeout: Duration) -> (r: Self)
        ensures
            r == (SessionConfig { timeout, ..self }),
    {
        SessionConfig { timeout, ..self }
    }

    pub fn with_output_schema(self, output_schema: JsonValue) -> (r: Self)
        ensures
            r == (SessionConfig { output_schema: Some(output_schema), ..self }),
    {
        SessionConfig { output_schema: Some(output_schema), ..self }
    }

    pub fn with_attachment(self, attachment: PromptAttachment) -> (r: Self)
        ensures
            r.attachments@ == self.attachments@.push(attachment),
            r == (SessionConfig { attachments: r.attachments, ..self }),
    {
        let mut s = self;
        s.attachments.push(attachment);
        s
    }

    pub fn attach_path(self, path: String) -> (r: Self)
        ensures
            r.attachments@ == self.attachments@.push(PromptAttachment::AtPath { path, placeholder: None }),
            r == (SessionConfig { attachments: r.attachments, ..self }),
    {
        self.with_attachment(PromptAttachment::AtPath { path, placeholder: None })
    }

    pub fn attach_path_with_placeholder(self, path: String, placeholder: String) -> (r: Self)
        ensures
            r.attachments@ == self.attachments@.push(
                PromptAttachment::AtPath { path, placeholder: Some(placeholder) },
            ),
            r == (SessionConfig { attachments: r.attachments, ..self }),
    {
        self.with_attachment(PromptAttachment::AtPath { path, placeholder: Some(placeholder) })
    }

    pub fn attach_image_url(self, url: String) -> (r: Self)
        ensures
            r.attachments@ == self.attachments@.push(PromptAttachment::ImageUrl { url }),
            r == (SessionConfig { attachments: r.attachments, ..self }),
    {
        self.with_attachment(PromptAttachment::ImageUrl { url })
    }

    pub fn attach_local_image(self, path: String) -> (r: Self)
        ensures
            r.attachments@ == self.attachments@.push(PromptAttachment::LocalImage { path }),
            r == (SessionConfig { attachments: r.attachments, ..self }),
    {
        self.with_attachment(PromptAttachment::LocalImage { path })
    }

    pub fn attach_skill(self, name: String, path: String) -> (r: Self)
        ensures
            r.attachments@ == self.attachments@.push(PromptAttachment::Skill { name, path }),
            r == (SessionConfig { attachments: r.attachments, ..self }),
    {
        self.with_attachment(PromptAttachment::Skill { name, path })
    }

    pub fn with_hooks(self, hooks: RuntimeHookConfig) -> (r: Self)
        ensures
            r == (SessionConfig { hooks, ..self }),
    {
        SessionConfig { hooks, ..self }
    }

    pub fn with_pre_hook(self, hook: HookRef) -> (r: Self)
        ensures
            r.hooks.pre_hooks@ == self.hooks.pre_hooks@.push(hook),
            r.hooks.post_hooks == self.hooks.post_hooks,
            r.hooks.pre_tool_use_hooks == self.hooks.pre_tool_use_hooks,
            r == (SessionConfig { hooks: r.hooks, ..self }),
    {
        let mut s = self;
        s.hooks.pre_hooks.push(hook);
        s
    }

    pub fn with_post_hook(self, hook: HookRef) -> (r: Self)
        ensures
            r.hooks.post_hooks@ == self.hooks.post_hooks@.push(hook),
            r.hooks.pre_hooks == self.hooks.pre_hooks,
            r.hooks.pre_tool_use_hooks == self.hooks.pre_tool_use_hooks,
            r == (SessionConfig { hooks: r.hooks, ..self }),
    {
        let mut s = self;
        s.hooks.post_hooks.push(hook);
        s
    }

    /// Register one pre-tool-use hook (it runs through the approval loop).
    pub fn with_pre_tool_use_hook(self, hook: HookRef) -> (r: Self)
        ensures
            r.hooks.pre_tool_use_hooks@ == self.hooks.pre_tool_use_hooks@.push(hook),
            r.hooks.pre_hooks == self.hooks.pre_hooks,
            r.hooks.post_hooks == self.hooks.post_hooks,
            r == (SessionConfig { hooks: r.hooks, ..self }),
    {
        let mut s = self;
        s.hooks.pre_tool_use_hooks.push(hook);
        s
    }
}

/// A prompt run built from profile defaults: the prompt in `cwd` with the
/// profile's model, effort, policies, attachments, timeout and schema.
pub fn prompt_params_from_profile(cwd: String, prompt: String, profile: RunProfile) -> (r: (PromptRunParams, RuntimeHookConfig))
    ensures
        r.0 == (PromptRunParams {
            cwd,
            prompt,
            model: profile.model,
            effort: Some(profile.effort),
            approval_policy: profile.approval_policy,
            sandbox_policy: profile.sandbox_policy,
            privileged_escalation_approved: profile.privileged_escalation_approved,
            attachments: profile.attachments,
            timeout: profile.timeout,
            output_schema: profile.output_schema,
        }),
        r.1 == profile.hooks,
{
    (
        PromptRunParams {
            cwd,
            prompt,
            model: profile.model,
            effort: Some(profile.effort),
            approval_policy: profile.approval_policy,
            sandbox_policy: profile.sandbox_policy,
            privileged_escalation_approved: profile.privileged_escalation_approved,
            attachments: profile.attachments,
            timeout: profile.timeout,
            output_schema: profile.output_schema,
        },
        profile.hooks,
    )
}

/// The prompt run of a session: `prompt` in the session's directory with the
/// session's model, effort, policies, attachments, timeout and schema.
pub fn session_prompt_params(config: &SessionConfig, prompt: String) -> (r: PromptRunParams)
    ensures
        r.cwd == config.cwd,
        r.prompt == prompt,
        r.model == config.model,
        r.effort == Some(config.effort),
        r.approval_policy == config.approval_policy,
        sandbox_policy_eq(r.sandbox_policy, config.sandbox_policy),
        r.privileged_escalation_approved == config.privileged_escalation_approved,
        r.attachments@ == config.attachments@,
        r.timeout == config.timeout,
        opt_json_eq(config.output_schema, r.output_schema),
{
    let attachments = config.attachments.clone();
    proof {
        assert(attachments@ =~= config.attachments@);
    }
    PromptRunParams {
        cwd: config.cwd.clone(),
        prompt,
        model: clone_opt_string(&config.model),
        effort: Some(config.effort),
        approval_policy: config.approval_policy,
        sandbox_policy: clone_sandbox_policy(&config.sandbox_policy),
        privileged_escalation_approved: config.privileged_escalation_approved,
        attachments,
        timeout: config.timeout,
        output_schema: clone_opt_json(&config.output_schema),
    }
}

impl SessionConfig {
    /// The session's defaults as a run profile.
    pub fn profile(&self) -> (r: RunProfile)
        ensures
            r.model == self.model,
            r.effort == self.effort,
            r.approval_policy == self.approval_policy,
            sandbox_policy_eq(r.sandbox_policy, self.sandbox_policy),
            r.privileged_escalation_approved == self.privileged_escalation_approved,
            r.attachments@ == self.attachments@,
            r.timeout == self.timeout,
            opt_json_eq(self.output_schema, r.output_schema),
            r.hooks.pre_hooks@ == self.hooks.pre_hooks@,
            r.hooks.post_hooks@ == self.hooks.post_hooks@,
            r.hooks.pre_tool_use_hooks@ == self.hooks.pre_tool_use_hooks@,
    {
        let attachments = self.attachments.clone();
        proof {
            assert(attachments@ =~= self.attachments@);
        }
        RunProfile {
            model: clone_opt_string(&self.model),
            effort: self.effort,
            approval_policy: self.approval_policy,
            sandbox_policy: clone_sandbox_policy(&self.sandbox_policy),
            privileged_escalation_approved: self.privileged_escalation_approved,
            attachments,
            timeout: self.timeout,
            output_schema: clone_opt_json(&self.output_schema),
            hooks: self.hooks.copy(),
        }
    }
}

/// The thread-start overrides a session's defaults call for.
pub fn session_thread_start_params(config: &SessionConfig) -> (r: ThreadStartParams)
    ensures
        r.model == config.model,
        r.cwd == Some(config.cwd),
        r.approval_policy == Some(config.approval_policy),
        r.sandbox_policy matches Some(p) && sandbox_policy_eq(p, config.sandbox_policy),
        r.privileged_escalation_approved == config.privileged_escalation_approved,
        r.model_provider is None && r.service_tier is None && r.config is None && r.service_name is None
            && r.base_instructions is None && r.developer_instructions is None && r.personality is None
            && r.ephemeral is None,
{
    let mut p = ThreadStartParams::new();
    p.model = crate::text::clone_opt_string(&config.model);
    p.cwd = Some(config.cwd.clone());
    p.approval_policy = Some(config.approval_policy);
    p.sandbox_policy = Some(clone_sandbox_policy(&config.sandbox_policy));
    p.privileged_escalation_approved = config.privileged_escalation_approved;
    p
}

/// Same policy; a raw wire value compared as JSON.
pub open spec fn sandbox_policy_eq(a: SandboxPolicy, b: SandboxPolicy) -> bool {
    match (a, b) {
        (SandboxPolicy::Raw(x), SandboxPolicy::Raw(y)) => json_eq(x, y),
        (
            SandboxPolicy::Preset(SandboxPreset::WorkspaceWrite { writable_roots: r1, network_access: n1 }),
            SandboxPolicy::Preset(SandboxPreset::WorkspaceWrite { writable_roots: r2, network_access: n2 }),
        ) => r1@ == r2@ && n1 == n2,
        _ => a == b,
    }
}

fn clone_roots(v: &Vec<String>) -> (r: Vec<String>)
    ensures
        r@ == v@,
{
    let mut out: Vec<String> = Vec::new();
    let mut i: usize = 0;
    while i < v.len()
        invariant
            i <= v@.len(),
            out@ == v@.take(i as int),
        decreases v.len() - i,
    {
        out.push(v[i].clone());
        proof {
            assert(v@.take(i + 1) == v@.take(i as int).push(v@[i as int]));
        }
        i += 1;
    }
    proof {
        assert(v@.take(v@.len() as int) == v@);
    }
    out
}

pub fn clone_sandbox_policy(p: &SandboxPolicy) -> (r: SandboxPolicy)
    ensures
        sandbox_policy_eq(r, *p),
{
    match p {
        SandboxPolicy::Preset(SandboxPreset::ReadOnly) => SandboxPolicy::Preset(SandboxPreset::ReadOnly),
        SandboxPolicy::Preset(SandboxPreset::WorkspaceWrite { writable_roots, network_access }) => SandboxPolicy::Preset(
            SandboxPreset::WorkspaceWrite { writable_roots: clone_roots(writable_roots), network_access: *network_access },
        ),
        SandboxPolicy::Preset(SandboxPreset::DangerFullAccess) => SandboxPolicy::Preset(SandboxPreset::DangerFullAccess),
        SandboxPolicy::Preset(SandboxPreset::ExternalSandbox { network_access }) => SandboxPolicy::Preset(
            SandboxPreset::ExternalSandbox { network_access: *network_access },
        ),
        SandboxPolicy::Raw(v) => {
            let c = v.deep_clone();
            proof {
                crate::json::lemma_json_eq_symm(*v, c);
            }
            SandboxPolicy::Raw(c)
        },
    }
}

} // verus!
