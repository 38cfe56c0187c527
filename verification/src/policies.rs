//! Turn and thread policies: their wire names, parsing, and the summary of a
//! sandbox policy that the security checks read.
use vstd::prelude::*;
use crate::json::{JsonValue, spec_get, spec_as_text, json_eq};
use crate::text::{trim, trim_str, str_eq, concat, is_ws};

verus! {

#[derive(Clone, Copy, Debug, PartialEq, Eq, Structural)]
pub enum ServiceTier {
    Fast,
    Flex,
}

impl ServiceTier {
    pub fn as_wire(self) -> (r: &'static str)
        ensures
            r@ == (match self {
                ServiceTier::Fast => "fast"@,
                ServiceTier::Flex => "flex"@,
            }),
    {
        match self {
            ServiceTier::Fast => "fast",
            ServiceTier::Flex => "flex",
        }
    }
}

#[derive(Clone, Copy, Debug, PartialEq, Eq, Structural)]
pub enum Personality {
    NoPersonality,
    Friendly,
    Pragmatic,
}

impl Personality {
    pub fn as_wire(self) -> (r: &'static str)
        ensures
            r@ == (match self {
                Personality::NoPersonality => "none"@,
                Personality::Friendly => "friendly"@,
                Personality::Pragmatic => "pragmatic"@,
            }),
    {
        match self {
            Personality::NoPersonality => "none",
            Personality::Friendly => "friendly",
            Personality::Pragmatic => "pragmatic",
        }
    }
}

#[derive(Clone, Copy, Debug, PartialEq, Eq, Structural)]
pub enum ApprovalPolicy {
    Untrusted,
    OnFailure,
    OnRequest,
    Never,
}

pub open spec fn approval_wire(p: ApprovalPolicy) -> Seq<char> {
    match p {
        ApprovalPolicy::Untrusted => "untrusted"@,
        ApprovalPolicy::OnFailure => "on-failure"@,
        ApprovalPolicy::OnRequest => "on-request"@,
        ApprovalPolicy::Never => "never"@,
    }
}

/// The policy whose wire name is `s`.
pub open spec fn approval_of_wire(s: Seq<char>) -> Option<ApprovalPolicy> {
    if s == "untrusted"@ {
        Some(ApprovalPolicy::Untrusted)
    } else if s == "on-failure"@ {
        Some(ApprovalPolicy::OnFailure)
    } else if s == "on-request"@ {
        Some(ApprovalPolicy::OnRequest)
    } else if s == "never"@ {
        Some(ApprovalPolicy::Never)
    } else {
        None
    }
}

impl ApprovalPolicy {
    pub fn as_wire(self) -> (r: &'static str)
        ensures
            r@ == approval_wire(self),
    {
        match self {
            ApprovalPolicy::Untrusted => "untrusted",
            ApprovalPolicy::OnFailure => "on-failure",
            ApprovalPolicy::OnRequest => "on-request",
            ApprovalPolicy::Never => "never",
        }
    }

    /// Parse a wire name; anything else is refused with its text.
    pub fn parse(value: &str) -> (r: Result<ApprovalPolicy, String>)
        ensures
            match approval_of_wire(value@) {
                Some(p) => r == Ok::<ApprovalPolicy, String>(p),
                None => r matches Err(e) && e@ == "unknown approval policy: "@ + value@,
            },
    {
        if str_eq(value, "untrusted") {
            Ok(ApprovalPolicy::Untrusted)
        } else if str_eq(value, "on-failure") {
            Ok(ApprovalPolicy::OnFailure)
        } else if str_eq(value, "on-request") {
            Ok(ApprovalPolicy::OnRequest)
        } else if str_eq(value, "never") {
            Ok(ApprovalPolicy::Never)
        } else {
            Err(concat("unknown approval policy: ", value))
        }
    }
}

/// Every policy's wire name parses back to it.
pub proof fn lemma_approval_wire_roundtrip(p: ApprovalPolicy)
    ensures
        approval_of_wire(approval_wire(p)) == Some(p),
{
    reveal_strlit("untrusted");
    reveal_strlit("on-failure");
    reveal_strlit("on-request");
    reveal_strlit("never");
    assert("untrusted"@.len() == 9 && "on-failure"@.len() == 10 && "on-request"@.len() == 10
        && "never"@.len() == 5);
    assert("on-failure"@[3] == 'f' && "on-request"@[3] == 'r');
}

impl std::str::FromStr for ApprovalPolicy {
    type Err = String;

    fn from_str(value: &str) -> (r: Result<ApprovalPolicy, String>)
        ensures
            match approval_of_wire(value@) {
                Some(p) => r == Ok::<ApprovalPolicy, String>(p),
                None => r matches Err(e) && e@ == "unknown approval policy: "@ + value@,
            },
    {
        ApprovalPolicy::parse(value)
    }
}

#[derive(Clone, Copy, Debug, PartialEq, Eq, Structural)]
pub enum ReasoningEffort {
    Low,
    Medium,
    High,
    XHigh,
}

pub const DEFAULT_REASONING_EFFORT: ReasoningEffort = ReasoningEffort::Medium;

pub open spec fn effort_wire(e: ReasoningEffort) -> Seq<char> {
    match e {
        ReasoningEffort::Low => "low"@,
        ReasoningEffort::Medium => "medium"@,
        ReasoningEffort::High => "high"@,
        ReasoningEffort::XHigh => "xhigh"@,
    }
}

pub open spec fn effort_of_wire(s: Seq<char>) -> Option<ReasoningEffort> {
    if s == "low"@ {
        Some(ReasoningEffort::Low)
    } else if s == "medium"@ {
        Some(ReasoningEffort::Medium)
    } else if s == "high"@ {
        Some(ReasoningEffort::High)
    } else if s == "xhigh"@ {
        Some(ReasoningEffort::XHigh)
    } else {
        None
    }
}

impl ReasoningEffort {
    pub fn as_wire(self) -> (r: &'static str)
        ensures
            r@ == effort_wire(self),
    {
        match self {
            ReasoningEffort::Low => "low",
            ReasoningEffort::Medium => "medium",
            ReasoningEffort::High => "high",
            ReasoningEffort::XHigh => "xhigh",
        }
    }

    pub fn parse(value: &str) -> (r: Result<ReasoningEffort, String>)
        ensures
            match effort_of_wire(value@) {
                Some(e) => r == Ok::<ReasoningEffort, String>(e),
                None => r matches Err(m) && m@ == "unknown reasoning effort: "@ + value@,
            },
    {
        if str_eq(value, "low") {
            Ok(ReasoningEffort::Low)
        } else if str_eq(value, "medium") {
            Ok(ReasoningEffort::Medium)
        } else if str_eq(value, "high") {
            Ok(ReasoningEffort::High)
        } else if str_eq(value, "xhigh") {
            Ok(ReasoningEffort::XHigh)
        } else {
            Err(concat("unknown reasoning effort: ", value))
        }
    }
}

/// Every effort's wire name parses back to it.
pub proof fn lemma_effort_wire_roundtrip(e: ReasoningEffort)
    ensures
        effort_of_wire(effort_wire(e)) == Some(e),
{
    reveal_strlit("low");
    reveal_strlit("medium");
    reveal_strlit("high");
    reveal_strlit("xhigh");
    assert("low"@.len() == 3 && "medium"@.len() == 6 && "high"@.len() == 4 && "xhigh"@.len() == 5);
}

impl std::str::FromStr for ReasoningEffort {
    type Err = String;

    fn from_str(value: &str) -> (r: Result<ReasoningEffort, String>)
        ensures
            match effort_of_wire(value@) {
                Some(e) => r == Ok::<ReasoningEffort, String>(e),
                None => r matches Err(m) && m@ == "unknown reasoning effort: "@ + value@,
            },
    {
        ReasoningEffort::parse(value)
    }
}

#[derive(Clone, Copy, Debug, PartialEq, Eq, Structural)]
pub enum ExternalNetworkAccess {
    Restricted,
    Enabled,
}

impl ExternalNetworkAccess {
    pub fn as_wire(self) -> (r: &'static str)
        ensures
            r@ == (match self {
                ExternalNetworkAccess::Restricted => "restricted"@,
                ExternalNetworkAccess::Enabled => "enabled"@,
            }),
    {
        match self {
            ExternalNetworkAccess::Restricted => "restricted",
            ExternalNetworkAccess::Enabled => "enabled",
        }
    }
}

#[derive(Debug, PartialEq, Eq)]
pub enum SandboxPreset {
    ReadOnly,
    WorkspaceWrite { writable_roots: Vec<String>, network_access: bool },
    DangerFullAccess,
    ExternalSandbox { network_access: ExternalNetworkAccess },
}

pub open spec fn preset_type_wire(p: SandboxPreset) -> Seq<char> {
    match p {
        SandboxPreset::ReadOnly => "readOnly"@,
        SandboxPreset::WorkspaceWrite { .. } => "workspaceWrite"@,
        SandboxPreset::DangerFullAccess => "dangerFullAccess"@,
        SandboxPreset::ExternalSandbox { .. } => "externalSandbox"@,
    }
}

impl SandboxPreset {
    pub fn as_type_wire(&self) -> (r: &'static str)
        ensures
            r@ == preset_type_wire(*self),
    {
        match self {
            SandboxPreset::ReadOnly => "readOnly",
            SandboxPreset::WorkspaceWrite { .. } => "workspaceWrite",
            SandboxPreset::DangerFullAccess => "dangerFullAccess",
            SandboxPreset::ExternalSandbox { .. } => "externalSandbox",
        }
    }
}

/// A sandbox policy: one of the presets, or a wire value passed through.
#[derive(Debug, PartialEq)]
pub enum SandboxPolicy {
    Preset(SandboxPreset),
    Raw(JsonValue),
}

#[derive(Clone, Copy, Debug, PartialEq, Eq, Structural)]
pub enum SandboxPolicyKind {
    ReadOnly,
    WorkspaceWrite,
    DangerFullAccess,
    ExternalSandbox,
    Unknown,
}

/// What the security checks need to know of a sandbox policy.
#[derive(Clone, Copy, Debug, PartialEq, Eq, Structural)]
pub struct SandboxPolicySummary {
    pub kind: SandboxPolicyKind,
    pub has_non_empty_writable_roots: bool,
}

impl SandboxPolicySummary {
    /// Anything but a read-only sandbox is privileged (an unknown kind too).
    pub fn is_privileged(self) -> (r: bool)
        ensures
            r == (self.kind != SandboxPolicyKind::ReadOnly),
    {
        self.kind != SandboxPolicyKind::ReadOnly
    }

    pub fn has_non_empty_writable_roots(self) -> (r: bool)
        ensures
            r == self.has_non_empty_writable_roots,
    {
        self.has_non_empty_writable_roots
    }
}

#[derive(Clone, Copy, Debug, PartialEq, Eq, Structural)]
pub enum SandboxPolicyParseViolation {
    NotObject,
    MissingType,
}

pub open spec fn violation_text(v: SandboxPolicyParseViolation, field_path: Seq<char>) -> Seq<char> {
    match v {
        SandboxPolicyParseViolation::NotObject => field_path + " must be an object when provided"@,
        SandboxPolicyParseViolation::MissingType => field_path + ".type must be a non-empty string"@,
    }
}

impl SandboxPolicyParseViolation {
    pub fn message(self, field_path: &str) -> (r: String)
        ensures
            r@ == violation_text(self, field_path@),
    {
        match self {
            SandboxPolicyParseViolation::NotObject => concat(field_path, " must be an object when provided"),
            SandboxPolicyParseViolation::MissingType => concat(field_path, ".type must be a non-empty string"),
        }
    }
}

#[derive(Debug, PartialEq, Eq)]
pub struct SandboxPolicyParseError {
    pub field_path: String,
    pub violation: SandboxPolicyParseViolation,
}

impl SandboxPolicyParseError {
    pub fn message(&self) -> (r: String)
        ensures
            r@ == violation_text(self.violation, self.field_path@),
    {
        self.violation.message(self.field_path.as_str())
    }
}

/// Some root is not blank.
pub open spec fn any_non_blank(roots: Seq<String>) -> bool {
    exists|i: int| 0 <= i < roots.len() && trim(#[trigger] roots[i]@).len() > 0
}

pub open spec fn preset_summary(p: SandboxPreset) -> SandboxPolicySummary {
    match p {
        SandboxPreset::ReadOnly => SandboxPolicySummary {
            kind: SandboxPolicyKind::ReadOnly,
            has_non_empty_writable_roots: false,
        },
        SandboxPreset::WorkspaceWrite { writable_roots, .. } => SandboxPolicySummary {
            kind: SandboxPolicyKind::WorkspaceWrite,
            has_non_empty_writable_roots: any_non_blank(writable_roots@),
        },
        SandboxPreset::DangerFullAccess => SandboxPolicySummary {
            kind: SandboxPolicyKind::DangerFullAccess,
            has_non_empty_writable_roots: false,
        },
        SandboxPreset::ExternalSandbox { .. } => SandboxPolicySummary {
            kind: SandboxPolicyKind::ExternalSandbox,
            has_non_empty_writable_roots: false,
        },
    }
}

fn any_non_blank_exec(roots: &Vec<String>) -> (r: bool)
    ensures
        r == any_non_blank(roots@),
{
    let mut i: usize = 0;
    while i < roots.len()
        invariant
            i <= roots@.len(),
            forall|k: int| 0 <= k < i ==> trim(#[trigger] roots@[k]@).len() == 0,
        decreases roots.len() - i,
    {
        let t = trim_str(roots[i].as_str());
        if !t.as_str().is_empty() {
            return true;
        }
        i += 1;
    }
    false
}

pub fn summarize_sandbox_preset(preset: &SandboxPreset) -> (r: SandboxPolicySummary)
    ensures
        r == preset_summary(*preset),
{
    match preset {
        SandboxPreset::ReadOnly => SandboxPolicySummary {
            kind: SandboxPolicyKind::ReadOnly,
            has_non_empty_writable_roots: false,
        },
        SandboxPreset::WorkspaceWrite { writable_roots, .. } => SandboxPolicySummary {
            kind: SandboxPolicyKind::WorkspaceWrite,
            has_non_empty_writable_roots: any_non_blank_exec(writable_roots),
        },
        SandboxPreset::DangerFullAccess => SandboxPolicySummary {
            kind: SandboxPolicyKind::DangerFullAccess,
            has_non_empty_writable_roots: false,
        },
        SandboxPreset::ExternalSandbox { .. } => SandboxPolicySummary {
            kind: SandboxPolicyKind::ExternalSandbox,
            has_non_empty_writable_roots: false,
        },
    }
}

pub open spec fn kind_of_wire(t: Seq<char>) -> SandboxPolicyKind {
    if t == "readOnly"@ {
        SandboxPolicyKind::ReadOnly
    } else if t == "workspaceWrite"@ {
        SandboxPolicyKind::WorkspaceWrite
    } else if t == "dangerFullAccess"@ {
        SandboxPolicyKind::DangerFullAccess
    } else if t == "externalSandbox"@ {
        SandboxPolicyKind::ExternalSandbox
    } else {
        SandboxPolicyKind::Unknown
    }
}

pub fn sandbox_policy_kind_from_wire(policy_type: &str) -> (r: SandboxPolicyKind)
    ensures
        r == kind_of_wire(policy_type@),
{
    if str_eq(policy_type, "readOnly") {
        SandboxPolicyKind::ReadOnly
    } else if str_eq(policy_type, "workspaceWrite") {
        SandboxPolicyKind::WorkspaceWrite
    } else if str_eq(policy_type, "dangerFullAccess") {
        SandboxPolicyKind::DangerFullAccess
    } else if str_eq(policy_type, "externalSandbox") {
        SandboxPolicyKind::ExternalSandbox
    } else {
        SandboxPolicyKind::Unknown
    }
}

/// `writableRoots` of a wire policy holds a string that is not blank.
pub open spec fn wire_roots_non_empty(v: JsonValue) -> bool {
    match spec_get(v, "writableRoots"@) {
        Some(JsonValue::Array(items)) => exists|i: int|
            0 <= i < items@.len() && (#[trigger] items@[i] matches JsonValue::Text(s) && trim(s@).len() > 0),
        _ => false,
    }
}

pub fn writable_roots_non_empty(policy: &JsonValue) -> (r: bool)
    ensures
        r == wire_roots_non_empty(*policy),
{
    let items = match policy.get("writableRoots") {
        Some(JsonValue::Array(items)) => items,
        _ => return false,
    };
    let mut i: usize = 0;
    while i < items.len()
        invariant
            i <= items@.len(),
            spec_get(*policy, "writableRoots"@) == Some(JsonValue::Array(*items)),
            forall|k: int| 0 <= k < i ==> !(#[trigger] items@[k] matches JsonValue::Text(s) && trim(s@).len() > 0),
        decreases items.len() - i,
    {
        match &items[i] {
            JsonValue::Text(s) => {
                let t = trim_str(s.as_str());
                if !t.as_str().is_empty() {
                    assert(items@[i as int] matches JsonValue::Text(s2) && trim(s2@).len() > 0);
                    return true;
                }
            },
            _ => {},
        }
        i += 1;
    }
    false
}

/// Trimmed `type` of a wire policy, when it is a string that is not blank.
pub open spec fn wire_policy_type(v: JsonValue) -> Option<Seq<char>> {
    match spec_as_text(spec_get(v, "type"@)) {
        Some(t) => if trim(t).len() > 0 {
            Some(trim(t))
        } else {
            None
        },
        None => None,
    }
}

/// Summary of a wire policy, or the violation that refuses it.
pub open spec fn wire_summary(v: JsonValue) -> Result<SandboxPolicySummary, SandboxPolicyParseViolation> {
    if !(v is Object) {
        Err(SandboxPolicyParseViolation::NotObject)
    } else {
        match wire_policy_type(v) {
            None => Err(SandboxPolicyParseViolation::MissingType),
            Some(t) => Ok(
                SandboxPolicySummary {
                    kind: kind_of_wire(t),
                    has_non_empty_writable_roots: wire_roots_non_empty(v),
                },
            ),
        }
    }
}

pub fn parse_sandbox_policy_type(policy: &JsonValue, field_path: &str) -> (r: Result<String, SandboxPolicyParseError>)
    ensures
        match wire_policy_type(*policy) {
            Some(t) => r matches Ok(s) && s@ == t,
            None => r matches Err(e) && e.field_path@ == field_path@ && e.violation
                == SandboxPolicyParseViolation::MissingType,
        },
{
    let missing = SandboxPolicyParseError {
        field_path: field_path.to_owned(),
        violation: SandboxPolicyParseViolation::MissingType,
    };
    match policy.get("type") {
        Some(JsonValue::Text(t)) => {
            let trimmed = trim_str(t.as_str());
            if trimmed.as_str().is_empty() {
                Err(missing)
            } else {
                Ok(trimmed)
            }
        },
        _ => Err(missing),
    }
}

pub fn summarize_sandbox_policy_wire_value_checked(value: &JsonValue, field_path: &str) -> (r: Result<SandboxPolicySummary, SandboxPolicyParseError>)
    ensures
        match wire_summary(*value) {
            Ok(s) => r == Ok::<SandboxPolicySummary, SandboxPolicyParseError>(s),
            Err(v) => r matches Err(e) && e.field_path@ == field_path@ && e.violation == v,
        },
{
    if !value.is_object() {
        return Err(
            SandboxPolicyParseError {
                field_path: field_path.to_owned(),
                violation: SandboxPolicyParseViolation::NotObject,
            },
        );
    }
    let policy_type = match parse_sandbox_policy_type(value, field_path) {
        Ok(t) => t,
        Err(e) => return Err(e),
    };
    Ok(
        SandboxPolicySummary {
            kind: sandbox_policy_kind_from_wire(policy_type.as_str()),
            has_non_empty_writable_roots: writable_roots_non_empty(value),
        },
    )
}

pub fn summarize_sandbox_policy_wire_value(value: &JsonValue, field_path: &str) -> (r: Result<SandboxPolicySummary, String>)
    ensures
        match wire_summary(*value) {
            Ok(s) => r == Ok::<SandboxPolicySummary, String>(s),
            Err(v) => r matches Err(m) && m@ == violation_text(v, field_path@),
        },
{
    match summarize_sandbox_policy_wire_value_checked(value, field_path) {
        Ok(s) => Ok(s),
        Err(e) => Err(e.message()),
    }
}

/// Summary of a policy: a preset's own summary, or a wire value's.
pub open spec fn policy_summary(p: SandboxPolicy, field_path: Seq<char>, r: Result<SandboxPolicySummary, String>) -> bool {
    match p {
        SandboxPolicy::Preset(preset) => r == Ok::<SandboxPolicySummary, String>(preset_summary(preset)),
        SandboxPolicy::Raw(v) => match wire_summary(v) {
            Ok(s) => r == Ok::<SandboxPolicySummary, String>(s),
            Err(viol) => r matches Err(m) && m@ == violation_text(viol, field_path),
        },
    }
}

pub fn summarize_sandbox_policy(policy: &SandboxPolicy) -> (r: Result<SandboxPolicySummary, String>)
    ensures
        policy_summary(*policy, "sandboxPolicy"@, r),
{
    match policy {
        SandboxPolicy::Preset(preset) => Ok(summarize_sandbox_preset(preset)),
        SandboxPolicy::Raw(value) => summarize_sandbox_policy_wire_value(value, "sandboxPolicy"),
    }
}

/// `v` is a JSON array of the strings `roots`, in order.
pub open spec fn text_array(v: JsonValue, roots: Seq<String>) -> bool {
    v matches JsonValue::Array(items) && items@.len() == roots.len() && forall|i: int|
        0 <= i < roots.len() ==> (#[trigger] items@[i] matches JsonValue::Text(s) && s@ == roots[i]@)
}

/// Wire form of a preset: `type`, and the preset's own fields.
pub open spec fn preset_wire(p: SandboxPreset, v: JsonValue) -> bool {
    &&& v is Object
    &&& spec_as_text(spec_get(v, "type"@)) == Some(preset_type_wire(p))
    &&& match p {
        SandboxPreset::WorkspaceWrite { writable_roots, network_access } => spec_get(v, "writableRoots"@) matches Some(a)
            && text_array(a, writable_roots@) && spec_get(v, "networkAccess"@) == Some(
            JsonValue::Bool(network_access),
        ),
        SandboxPreset::ExternalSandbox { network_access } => spec_get(v, "writableRoots"@) is None && spec_as_text(
            spec_get(v, "networkAccess"@),
        ) == Some(
            match network_access {
                ExternalNetworkAccess::Restricted => "restricted"@,
                ExternalNetworkAccess::Enabled => "enabled"@,
            },
        ),
        _ => spec_get(v, "writableRoots"@) is None && spec_get(v, "networkAccess"@) is None,
    }
}

fn text_array_of(roots: &Vec<String>) -> (r: JsonValue)
    ensures
        text_array(r, roots@),
{
    let mut items: Vec<JsonValue> = Vec::new();
    let mut i: usize = 0;
    while i < roots.len()
        invariant
            i <= roots@.len(),
            items@.len() == i,
            forall|k: int| 0 <= k < i ==> (#[trigger] items@[k] matches JsonValue::Text(s) && s@ == roots@[k]@),
        decreases roots.len() - i,
    {
        items.push(JsonValue::Text(roots[i].clone()));
        i += 1;
    }
    JsonValue::Array(items)
}

pub fn sandbox_preset_to_wire_value(preset: &SandboxPreset) -> (r: JsonValue)
    ensures
        preset_wire(*preset, r),
{
    proof {
        reveal_strlit("type");
        reveal_strlit("writableRoots");
        reveal_strlit("networkAccess");
        assert("type"@.len() == 4 && "writableRoots"@.len() == 13 && "networkAccess"@.len() == 13);
        assert("writableRoots"@[0] == 'w' && "networkAccess"@[0] == 'n');
    }
    let base = JsonValue::object().with("type", JsonValue::text(preset.as_type_wire()));
    match preset {
        SandboxPreset::ReadOnly | SandboxPreset::DangerFullAccess => base,
        SandboxPreset::WorkspaceWrite { writable_roots, network_access } => base.with(
            "writableRoots",
            text_array_of(writable_roots),
        ).with("networkAccess", JsonValue::Bool(*network_access)),
        SandboxPreset::ExternalSandbox { network_access } => base.with(
            "networkAccess",
            JsonValue::text(network_access.as_wire()),
        ),
    }
}

proof fn lemma_trim_plain(s: Seq<char>)
    requires
        s.len() > 0,
        !is_ws(s[0]),
        !is_ws(s.last()),
    ensures
        trim(s) == s,
{
}

/// A preset and its wire form summarize alike: given as a preset or as the
/// wire value that preset is sent as, a sandbox policy has the same kind and
/// the same answer to whether it names a writable root that is not blank.
pub proof fn lemma_preset_wire_summary(p: SandboxPreset, v: JsonValue)
    requires
        preset_wire(p, v),
    ensures
        wire_summary(v) == Ok::<SandboxPolicySummary, SandboxPolicyParseViolation>(preset_summary(p)),
{
    reveal_strlit("readOnly");
    reveal_strlit("workspaceWrite");
    reveal_strlit("dangerFullAccess");
    reveal_strlit("externalSandbox");
    let t = preset_type_wire(p);
    lemma_trim_plain(t);
    assert(wire_policy_type(v) == Some(t));
    assert(kind_of_wire(t) == preset_summary(p).kind);
    match p {
        SandboxPreset::WorkspaceWrite { writable_roots, network_access } => {
            let roots = writable_roots@;
            let a = spec_get(v, "writableRoots"@)->0;
            let items = a->Array_0;
            assert(text_array(a, roots));
            if any_non_blank(roots) {
                let i = choose|i: int| 0 <= i < roots.len() && trim(#[trigger] roots[i]@).len() > 0;
                assert(items@[i] matches JsonValue::Text(s) && trim(s@).len() > 0);
            }
            if wire_roots_non_empty(v) {
                let i = choose|i: int|
                    0 <= i < items@.len() && (#[trigger] items@[i] matches JsonValue::Text(s) && trim(s@).len() > 0);
                assert(trim(roots[i]@).len() > 0);
            }
            assert(wire_roots_non_empty(v) == any_non_blank(roots));
        },
        _ => {
            assert(!wire_roots_non_empty(v));
        },
    }
}

/// Wire form of a policy: a preset's wire form, or the raw value.
pub fn sandbox_policy_to_wire_value(policy: &SandboxPolicy) -> (r: JsonValue)
    ensures
        match *policy {
            SandboxPolicy::Preset(p) => preset_wire(p, r),
            SandboxPolicy::Raw(v) => json_eq(v, r),
        },
{
    match policy {
        SandboxPolicy::Preset(preset) => sandbox_preset_to_wire_value(preset),
        SandboxPolicy::Raw(value) => value.deep_clone(),
    }
}

} // verus!
