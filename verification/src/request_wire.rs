//! Wire forms of the thread and turn requests: camel-case members, present
//! only for the parameters that are set.
use vstd::prelude::*;
use crate::json::{JsonValue, spec_get, spec_as_text, json_eq};
use crate::policies::{
    ApprovalPolicy, Personality, ReasoningEffort, SandboxPolicy, ServiceTier, approval_wire, effort_wire,
    preset_wire, sandbox_policy_to_wire_value,
};
use crate::input::{InputItem, input_wire, input_item_to_wire};
use crate::thread_ops::{ThreadStartParams, TurnStartParams};
use crate::prompt::PromptRunParams;
use crate::profile::{clone_sandbox_policy, sandbox_policy_eq};
use crate::input::{build_prompt_inputs, prompt_inputs, byte_len, at_path_layout};
use crate::text::clone_opt_string;

verus! {

pub open spec fn tier_wire(t: ServiceTier) -> Seq<char> {
    match t {
        ServiceTier::Fast => "fast"@,
        ServiceTier::Flex => "flex"@,
    }
}

pub open spec fn personality_wire(p: Personality) -> Seq<char> {
    match p {
        Personality::NoPersonality => "none"@,
        Personality::Friendly => "friendly"@,
        Personality::Pragmatic => "pragmatic"@,
    }
}

/// A member holding an optional string: absent when unset.
pub open spec fn text_member(m: Option<JsonValue>, o: Option<String>) -> bool {
    match o {
        Some(s) => spec_as_text(m) == Some(s@),
        None => m is None,
    }
}

/// A member holding an optional word: absent when unset.
pub open spec fn word_member(m: Option<JsonValue>, o: Option<Seq<char>>) -> bool {
    match o {
        Some(w) => spec_as_text(m) == Some(w),
        None => m is None,
    }
}

/// The service tier member: absent when unset, `null` when cleared.
pub open spec fn tier_member(m: Option<JsonValue>, o: Option<Option<ServiceTier>>) -> bool {
    match o {
        None => m is None,
        Some(None) => m == Some(JsonValue::Null),
        Some(Some(t)) => spec_as_text(m) == Some(tier_wire(t)),
    }
}

/// The sandbox policy member: a preset's wire form or the raw value.
pub open spec fn sandbox_member(m: Option<JsonValue>, o: Option<SandboxPolicy>) -> bool {
    match o {
        None => m is None,
        Some(SandboxPolicy::Preset(p)) => m matches Some(w) && preset_wire(p, w),
        Some(SandboxPolicy::Raw(v)) => m matches Some(w) && json_eq(v, w),
    }
}

/// The config member: an object with the entries in order.
pub open spec fn config_member(m: Option<JsonValue>, o: Option<Vec<(String, JsonValue)>>) -> bool {
    match o {
        None => m is None,
        Some(c) => m matches Some(JsonValue::Object(ms)) && ms@.len() == c@.len() && forall|i: int|
            0 <= i < c@.len() ==> (#[trigger] ms@[i]).0@ == c@[i].0@ && json_eq(c@[i].1, ms@[i].1),
    }
}

pub open spec fn opt_approval(o: Option<ApprovalPolicy>) -> Option<Seq<char>> {
    match o {
        Some(a) => Some(approval_wire(a)),
        None => None,
    }
}

pub open spec fn opt_personality(o: Option<Personality>) -> Option<Seq<char>> {
    match o {
        Some(p) => Some(personality_wire(p)),
        None => None,
    }
}

pub open spec fn opt_effort(o: Option<ReasoningEffort>) -> Option<Seq<char>> {
    match o {
        Some(e) => Some(effort_wire(e)),
        None => None,
    }
}

pub open spec fn opt_bool(o: Option<bool>) -> Option<JsonValue> {
    match o {
        Some(b) => Some(JsonValue::Bool(b)),
        None => None,
    }
}

/// The members a thread carries when it is resumed: every parameter but the
/// service name and `ephemeral`.
pub open spec fn thread_overrides_wire(p: ThreadStartParams, v: JsonValue) -> bool {
    &&& v is Object
    &&& text_member(spec_get(v, "model"@), p.model)
    &&& text_member(spec_get(v, "modelProvider"@), p.model_provider)
    &&& tier_member(spec_get(v, "serviceTier"@), p.service_tier)
    &&& text_member(spec_get(v, "cwd"@), p.cwd)
    &&& word_member(spec_get(v, "approvalPolicy"@), opt_approval(p.approval_policy))
    &&& sandbox_member(spec_get(v, "sandboxPolicy"@), p.sandbox_policy)
    &&& config_member(spec_get(v, "config"@), p.config)
    &&& text_member(spec_get(v, "baseInstructions"@), p.base_instructions)
    &&& text_member(spec_get(v, "developerInstructions"@), p.developer_instructions)
    &&& word_member(spec_get(v, "personality"@), opt_personality(p.personality))
    &&& spec_get(v, "privilegedEscalationApproved"@) == Some(JsonValue::Bool(p.privileged_escalation_approved))
    &&& spec_get(v, "serviceName"@) is None
    &&& spec_get(v, "ephemeral"@) is None
}

/// The `thread/start` parameters: the overrides, the service name and
/// `ephemeral`.
pub open spec fn thread_start_wire(p: ThreadStartParams, v: JsonValue) -> bool {
    &&& v is Object
    &&& text_member(spec_get(v, "model"@), p.model)
    &&& text_member(spec_get(v, "modelProvider"@), p.model_provider)
    &&& tier_member(spec_get(v, "serviceTier"@), p.service_tier)
    &&& text_member(spec_get(v, "cwd"@), p.cwd)
    &&& word_member(spec_get(v, "approvalPolicy"@), opt_approval(p.approval_policy))
    &&& sandbox_member(spec_get(v, "sandboxPolicy"@), p.sandbox_policy)
    &&& config_member(spec_get(v, "config"@), p.config)
    &&& text_member(spec_get(v, "baseInstructions"@), p.base_instructions)
    &&& text_member(spec_get(v, "developerInstructions"@), p.developer_instructions)
    &&& word_member(spec_get(v, "personality"@), opt_personality(p.personality))
    &&& spec_get(v, "privilegedEscalationApproved"@) == Some(JsonValue::Bool(p.privileged_escalation_approved))
    &&& text_member(spec_get(v, "serviceName"@), p.service_name)
    &&& spec_get(v, "ephemeral"@) == opt_bool(p.ephemeral)
}

/// The `input` member: the wire form of each item, in order.
pub open spec fn input_member(m: Option<JsonValue>, input: Seq<InputItem>) -> bool {
    m matches Some(JsonValue::Array(items)) && items@.len() == input.len() && forall|i: int|
        0 <= i < input.len() ==> input_wire(input[i], #[trigger] items@[i])
}

/// The `turn/start` parameters for thread `thread_id`.
pub open spec fn turn_start_wire(thread_id: Seq<char>, p: TurnStartParams, v: JsonValue) -> bool {
    &&& v is Object
    &&& spec_as_text(spec_get(v, "threadId"@)) == Some(thread_id)
    &&& input_member(spec_get(v, "input"@), p.input@)
    &&& text_member(spec_get(v, "cwd"@), p.cwd)
    &&& word_member(spec_get(v, "approvalPolicy"@), opt_approval(p.approval_policy))
    &&& sandbox_member(spec_get(v, "sandboxPolicy"@), p.sandbox_policy)
    &&& spec_get(v, "privilegedEscalationApproved"@) == Some(JsonValue::Bool(p.privileged_escalation_approved))
    &&& text_member(spec_get(v, "model"@), p.model)
    &&& tier_member(spec_get(v, "serviceTier"@), p.service_tier)
    &&& word_member(spec_get(v, "effort"@), opt_effort(p.effort))
    &&& text_member(spec_get(v, "summary"@), p.summary)
    &&& word_member(spec_get(v, "personality"@), opt_personality(p.personality))
    &&& match p.output_schema {
        Some(s) => spec_get(v, "outputSchema"@) matches Some(w) && json_eq(s, w),
        None => spec_get(v, "outputSchema"@) is None,
    }
}

/// `v` with `key` set to `value` when there is one.
fn put(v: JsonValue, key: &str, value: Option<JsonValue>) -> (r: JsonValue)
    requires
        v is Object,
        value is None ==> spec_get(v, key@) is None,
    ensures
        r is Object,
        spec_get(r, key@) == value,
        forall|k: Seq<char>| k != key@ ==> spec_get(r, k) == spec_get(v, k),
{
    match value {
        Some(x) => v.with(key, x),
        None => v,
    }
}

fn text_of(o: &Option<String>) -> (r: Option<JsonValue>)
    ensures
        text_member(r, *o),
{
    match o {
        Some(s) => Some(JsonValue::Text(s.clone())),
        None => None,
    }
}

fn word_of(o: Option<&'static str>) -> (r: Option<JsonValue>)
    ensures
        match o {
            Some(w) => spec_as_text(r) == Some(w@),
            None => r is None,
        },
{
    match o {
        Some(w) => Some(JsonValue::text(w)),
        None => None,
    }
}

fn tier_of(o: Option<Option<ServiceTier>>) -> (r: Option<JsonValue>)
    ensures
        tier_member(r, o),
{
    match o {
        None => None,
        Some(None) => Some(JsonValue::Null),
        Some(Some(t)) => Some(JsonValue::text(t.as_wire())),
    }
}

fn sandbox_of(o: &Option<SandboxPolicy>) -> (r: Option<JsonValue>)
    ensures
        sandbox_member(r, *o),
{
    match o {
        Some(sp) => Some(sandbox_policy_to_wire_value(sp)),
        None => None,
    }
}

fn config_of(o: &Option<Vec<(String, JsonValue)>>) -> (r: Option<JsonValue>)
    ensures
        config_member(r, *o),
{
    match o {
        None => None,
        Some(c) => {
            let mut members: Vec<(String, JsonValue)> = Vec::new();
            let mut i: usize = 0;
            while i < c.len()
                invariant
                    i <= c@.len(),
                    members@.len() == i,
                    forall|j: int| 0 <= j < i ==> (#[trigger] members@[j]).0@ == c@[j].0@ && json_eq(c@[j].1, members@[j].1),
                decreases c.len() - i,
            {
                members.push((c[i].0.clone(), c[i].1.deep_clone()));
                i += 1;
            }
            Some(JsonValue::Object(members))
        },
    }
}

fn approval_of(o: Option<ApprovalPolicy>) -> (r: Option<JsonValue>)
    ensures
        word_member(r, opt_approval(o)),
{
    match o {
        Some(a) => word_of(Some(a.as_wire())),
        None => None,
    }
}

fn personality_of(o: Option<Personality>) -> (r: Option<JsonValue>)
    ensures
        word_member(r, opt_personality(o)),
{
    match o {
        Some(p) => word_of(Some(p.as_wire())),
        None => None,
    }
}

fn effort_of(o: Option<ReasoningEffort>) -> (r: Option<JsonValue>)
    ensures
        word_member(r, opt_effort(o)),
{
    match o {
        Some(e) => word_of(Some(e.as_wire())),
        None => None,
    }
}

proof fn lemma_keys_distinct()
    ensures
        "model"@ != "modelProvider"@, "model"@ != "serviceTier"@, "model"@ != "cwd"@,
        "model"@ != "approvalPolicy"@, "model"@ != "sandboxPolicy"@, "model"@ != "config"@,
        "model"@ != "baseInstructions"@, "model"@ != "developerInstructions"@, "model"@ != "personality"@,
        "model"@ != "privilegedEscalationApproved"@, "model"@ != "serviceName"@, "model"@ != "ephemeral"@,
        "model"@ != "effort"@, "model"@ != "summary"@, "model"@ != "outputSchema"@,
        "modelProvider"@ != "serviceTier"@, "modelProvider"@ != "cwd"@, "modelProvider"@ != "approvalPolicy"@,
        "modelProvider"@ != "sandboxPolicy"@, "modelProvider"@ != "config"@,
        "modelProvider"@ != "baseInstructions"@, "modelProvider"@ != "developerInstructions"@,
        "modelProvider"@ != "personality"@, "modelProvider"@ != "privilegedEscalationApproved"@,
        "modelProvider"@ != "serviceName"@, "modelProvider"@ != "ephemeral"@,
        "serviceTier"@ != "cwd"@, "serviceTier"@ != "approvalPolicy"@, "serviceTier"@ != "sandboxPolicy"@,
        "serviceTier"@ != "config"@, "serviceTier"@ != "baseInstructions"@,
        "serviceTier"@ != "developerInstructions"@, "serviceTier"@ != "personality"@,
        "serviceTier"@ != "privilegedEscalationApproved"@, "serviceTier"@ != "serviceName"@,
        "serviceTier"@ != "ephemeral"@, "serviceTier"@ != "effort"@, "serviceTier"@ != "summary"@,
        "serviceTier"@ != "outputSchema"@,
        "cwd"@ != "approvalPolicy"@, "cwd"@ != "sandboxPolicy"@, "cwd"@ != "config"@,
        "cwd"@ != "baseInstructions"@, "cwd"@ != "developerInstructions"@, "cwd"@ != "personality"@,
        "cwd"@ != "privilegedEscalationApproved"@, "cwd"@ != "serviceName"@, "cwd"@ != "ephemeral"@,
        "cwd"@ != "model"@, "cwd"@ != "effort"@, "cwd"@ != "summary"@, "cwd"@ != "outputSchema"@,
        "approvalPolicy"@ != "sandboxPolicy"@, "approvalPolicy"@ != "config"@,
        "approvalPolicy"@ != "baseInstructions"@, "approvalPolicy"@ != "developerInstructions"@,
        "approvalPolicy"@ != "personality"@, "approvalPolicy"@ != "privilegedEscalationApproved"@,
        "approvalPolicy"@ != "serviceName"@, "approvalPolicy"@ != "ephemeral"@,
        "approvalPolicy"@ != "model"@, "approvalPolicy"@ != "serviceTier"@, "approvalPolicy"@ != "effort"@,
        "approvalPolicy"@ != "summary"@, "approvalPolicy"@ != "outputSchema"@,
        "sandboxPolicy"@ != "config"@, "sandboxPolicy"@ != "baseInstructions"@,
        "sandboxPolicy"@ != "developerInstructions"@, "sandboxPolicy"@ != "personality"@,
        "sandboxPolicy"@ != "privilegedEscalationApproved"@, "sandboxPolicy"@ != "serviceName"@,
        "sandboxPolicy"@ != "ephemeral"@, "sandboxPolicy"@ != "model"@, "sandboxPolicy"@ != "serviceTier"@,
        "sandboxPolicy"@ != "effort"@, "sandboxPolicy"@ != "summary"@, "sandboxPolicy"@ != "outputSchema"@,
        "config"@ != "baseInstructions"@, "config"@ != "developerInstructions"@, "config"@ != "personality"@,
        "config"@ != "privilegedEscalationApproved"@, "config"@ != "serviceName"@, "config"@ != "ephemeral"@,
        "baseInstructions"@ != "developerInstructions"@, "baseInstructions"@ != "personality"@,
        "baseInstructions"@ != "privilegedEscalationApproved"@, "baseInstructions"@ != "serviceName"@,
        "baseInstructions"@ != "ephemeral"@,
        "developerInstructions"@ != "personality"@, "developerInstructions"@ != "privilegedEscalationApproved"@,
        "developerInstructions"@ != "serviceName"@, "developerInstructions"@ != "ephemeral"@,
        "personality"@ != "privilegedEscalationApproved"@, "personality"@ != "serviceName"@,
        "personality"@ != "ephemeral"@, "personality"@ != "outputSchema"@,
        "privilegedEscalationApproved"@ != "serviceName"@, "privilegedEscalationApproved"@ != "ephemeral"@,
        "privilegedEscalationApproved"@ != "model"@, "privilegedEscalationApproved"@ != "serviceTier"@,
        "privilegedEscalationApproved"@ != "effort"@, "privilegedEscalationApproved"@ != "summary"@,
        "privilegedEscalationApproved"@ != "personality"@, "privilegedEscalationApproved"@ != "outputSchema"@,
        "serviceName"@ != "ephemeral"@,
        "threadId"@ != "input"@, "threadId"@ != "cwd"@, "threadId"@ != "approvalPolicy"@,
        "threadId"@ != "sandboxPolicy"@, "threadId"@ != "privilegedEscalationApproved"@,
        "threadId"@ != "model"@, "threadId"@ != "serviceTier"@, "threadId"@ != "effort"@,
        "threadId"@ != "summary"@, "threadId"@ != "personality"@, "threadId"@ != "outputSchema"@,
        "input"@ != "cwd"@, "input"@ != "approvalPolicy"@, "input"@ != "sandboxPolicy"@,
        "input"@ != "privilegedEscalationApproved"@, "input"@ != "model"@, "input"@ != "serviceTier"@,
        "input"@ != "effort"@, "input"@ != "summary"@, "input"@ != "personality"@, "input"@ != "outputSchema"@,
        "effort"@ != "summary"@, "effort"@ != "personality"@, "effort"@ != "outputSchema"@,
        "summary"@ != "personality"@, "summary"@ != "outputSchema"@,
{
    reveal_strlit("model");
    reveal_strlit("modelProvider");
    reveal_strlit("serviceTier");
    reveal_strlit("cwd");
    reveal_strlit("approvalPolicy");
    reveal_strlit("sandboxPolicy");
    reveal_strlit("config");
    reveal_strlit("baseInstructions");
    reveal_strlit("developerInstructions");
    reveal_strlit("personality");
    reveal_strlit("privilegedEscalationApproved");
    reveal_strlit("serviceName");
    reveal_strlit("ephemeral");
    reveal_strlit("threadId");
    reveal_strlit("input");
    reveal_strlit("effort");
    reveal_strlit("summary");
    reveal_strlit("outputSchema");
    assert("model"@.len() == 5);
    assert("modelProvider"@.len() == 13);
    assert("serviceTier"@.len() == 11);
    assert("cwd"@.len() == 3);
    assert("approvalPolicy"@.len() == 14);
    assert("sandboxPolicy"@.len() == 13);
    assert("config"@.len() == 6);
    assert("baseInstructions"@.len() == 16);
    assert("developerInstructions"@.len() == 21);
    assert("personality"@.len() == 11);
    assert("privilegedEscalationApproved"@.len() == 28);
    assert("serviceName"@.len() == 11);
    assert("ephemeral"@.len() == 9);
    assert("threadId"@.len() == 8);
    assert("input"@.len() == 5);
    assert("effort"@.len() == 6);
    assert("summary"@.len() == 7);
    assert("outputSchema"@.len() == 12);
    assert("model"@[0] != "input"@[0]);
    assert("config"@[0] != "effort"@[0]);
    assert("serviceTier"@[0] != "personality"@[0]);
    assert("serviceTier"@[7] != "serviceName"@[7]);
    assert("serviceName"@[0] != "personality"@[0]);
    assert("modelProvider"@[0] != "sandboxPolicy"@[0]);
}

/// The members a resumed thread takes over.
pub fn thread_overrides_to_wire(p: &ThreadStartParams) -> (r: JsonValue)
    ensures
        thread_overrides_wire(*p, r),
{
    proof {
        lemma_keys_distinct();
    }
    let v = JsonValue::object();
    let v = put(v, "model", text_of(&p.model));
    let v = put(v, "modelProvider", text_of(&p.model_provider));
    let v = put(v, "serviceTier", tier_of(p.service_tier));
    let v = put(v, "cwd", text_of(&p.cwd));
    let v = put(v, "approvalPolicy", approval_of(p.approval_policy));
    let v = put(v, "sandboxPolicy", sandbox_of(&p.sandbox_policy));
    let v = put(v, "config", config_of(&p.config));
    let v = put(v, "baseInstructions", text_of(&p.base_instructions));
    let v = put(v, "developerInstructions", text_of(&p.developer_instructions));
    let v = put(v, "personality", personality_of(p.personality));
    put(v, "privilegedEscalationApproved", Some(JsonValue::Bool(p.privileged_escalation_approved)))
}

/// The `thread/start` parameters.
pub fn thread_start_params_to_wire(p: &ThreadStartParams) -> (r: JsonValue)
    ensures
        thread_start_wire(*p, r),
{
    proof {
        lemma_keys_distinct();
    }
    let v = thread_overrides_to_wire(p);
    let ephemeral = match p.ephemeral {
        Some(b) => Some(JsonValue::Bool(b)),
        None => None,
    };
    let v = put(v, "serviceName", text_of(&p.service_name));
    put(v, "ephemeral", ephemeral)
}

fn input_array(input: &Vec<InputItem>) -> (r: JsonValue)
    ensures
        input_member(Some(r), input@),
{
    let mut items: Vec<JsonValue> = Vec::new();
    let mut i: usize = 0;
    while i < input.len()
        invariant
            i <= input@.len(),
            items@.len() == i,
            forall|j: int| 0 <= j < i ==> input_wire(input@[j], #[trigger] items@[j]),
        decreases input.len() - i,
    {
        items.push(input_item_to_wire(&input[i]));
        i += 1;
    }
    JsonValue::Array(items)
}

/// The `turn/start` parameters for thread `thread_id`.
pub fn turn_start_params_to_wire(thread_id: &str, p: &TurnStartParams) -> (r: JsonValue)
    ensures
        turn_start_wire(thread_id@, *p, r),
{
    proof {
        lemma_keys_distinct();
    }
    let schema = match &p.output_schema {
        Some(s) => Some(s.deep_clone()),
        None => None,
    };
    let v = JsonValue::object();
    let v = put(v, "threadId", Some(JsonValue::text(thread_id)));
    let v = put(v, "input", Some(input_array(&p.input)));
    let v = put(v, "cwd", text_of(&p.cwd));
    let v = put(v, "approvalPolicy", approval_of(p.approval_policy));
    let v = put(v, "sandboxPolicy", sandbox_of(&p.sandbox_policy));
    let v = put(v, "privilegedEscalationApproved", Some(JsonValue::Bool(p.privileged_escalation_approved)));
    let v = put(v, "model", text_of(&p.model));
    let v = put(v, "serviceTier", tier_of(p.service_tier));
    let v = put(v, "effort", effort_of(p.effort));
    let v = put(v, "summary", text_of(&p.summary));
    let v = put(v, "personality", personality_of(p.personality));
    put(v, "outputSchema", schema)
}

/// The thread a prompt run opens: its model, working directory, approval
/// policy, sandbox and escalation consent; nothing else is set.
pub fn thread_start_params_from_prompt(p: &PromptRunParams) -> (r: ThreadStartParams)
    ensures
        r.model == p.model,
        r.cwd == Some(p.cwd),
        r.approval_policy == Some(p.approval_policy),
        r.sandbox_policy matches Some(sp) && sandbox_policy_eq(sp, p.sandbox_policy),
        r.privileged_escalation_approved == p.privileged_escalation_approved,
        r.model_provider is None && r.service_tier is None && r.config is None && r.service_name is None
            && r.base_instructions is None && r.developer_instructions is None && r.personality is None
            && r.ephemeral is None,
{
    ThreadStartParams {
        model: clone_opt_string(&p.model),
        model_provider: None,
        service_tier: None,
        cwd: Some(p.cwd.clone()),
        approval_policy: Some(p.approval_policy),
        sandbox_policy: Some(clone_sandbox_policy(&p.sandbox_policy)),
        config: None,
        service_name: None,
        base_instructions: None,
        developer_instructions: None,
        personality: None,
        ephemeral: None,
        privileged_escalation_approved: p.privileged_escalation_approved,
    }
}

/// The turn a prompt run starts with reasoning effort `effort`: the prompt
/// and its attachments as input items, and the run's working directory,
/// policies, model and output schema.
pub fn turn_start_params_from_prompt(p: &PromptRunParams, effort: ReasoningEffort) -> (r: TurnStartParams)
    requires
        byte_len(at_path_layout(p.prompt@, p.attachments@).0) <= usize::MAX,
    ensures
        prompt_inputs(p.prompt@, p.attachments@, r.input@),
        r.cwd == Some(p.cwd),
        r.approval_policy == Some(p.approval_policy),
        r.sandbox_policy matches Some(sp) && sandbox_policy_eq(sp, p.sandbox_policy),
        r.privileged_escalation_approved == p.privileged_escalation_approved,
        r.model == p.model,
        r.effort == Some(effort),
        match p.output_schema {
            Some(s) => r.output_schema matches Some(x) && json_eq(s, x),
            None => r.output_schema is None,
        },
        r.service_tier is None && r.summary is None && r.personality is None,
{
    let output_schema = match &p.output_schema {
        Some(s) => Some(s.deep_clone()),
        None => None,
    };
    TurnStartParams {
        input: build_prompt_inputs(p.prompt.as_str(), p.attachments.as_slice()),
        cwd: Some(p.cwd.clone()),
        approval_policy: Some(p.approval_policy),
        sandbox_policy: Some(clone_sandbox_policy(&p.sandbox_policy)),
        privileged_escalation_approved: p.privileged_escalation_approved,
        model: clone_opt_string(&p.model),
        service_tier: None,
        effort: Some(effort),
        summary: None,
        personality: None,
        output_schema,
    }
}

} // verus!
