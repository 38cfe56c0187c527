//! What pre-hooks may change of a prompt run or a session start, and the
//! context a hook receives.
use vstd::prelude::*;
use crate::json::{JsonValue, spec_get};
use crate::json::insert_member;
use crate::plugin::{HookAction, HookAttachment, HookContext, HookIssue, HookIssueClass, HookPatch, HookPhase, HookReport};
use crate::input::PromptAttachment;
use crate::prompt::{PromptRunError, PromptRunParams, PromptRunResult};
use crate::thread_ops::ThreadStartParams;
use crate::text::clone_opt_string;
use crate::thread_views::{ThreadItemView, ThreadItemPayloadView, ThreadTurnView};
use crate::text::{trim, trim_str, push_char, push_str};

verus! {

/// Hook state carried through one prompt run or session start.
pub struct HookExecutionState {
    pub correlation_id: String,
    pub report: HookReport,
    pub metadata: JsonValue,
}

impl HookExecutionState {
    pub fn new(correlation_id: String) -> (r: Self)
        ensures
            r.correlation_id == correlation_id,
            r.report.issues@.len() == 0,
            r.metadata matches JsonValue::Object(m) && m@.len() == 0,
    {
        HookExecutionState {
            correlation_id,
            report: HookReport::new(),
            metadata: JsonValue::Object(Vec::new()),
        }
    }
}

/// The outcome of one pre-hook that did not block.
pub struct PreHookDecision {
    pub hook_name: String,
    pub action: HookAction,
}

/// What a prompt run's pre-hooks may change.
pub struct PromptMutationState {
    pub prompt: String,
    pub model: Option<String>,
    pub attachments: Vec<PromptAttachment>,
    pub metadata: JsonValue,
}

/// What a session start's pre-hooks may change.
pub struct SessionMutationState {
    pub model: Option<String>,
    pub metadata: JsonValue,
}

impl PromptMutationState {
    /// What pre-hooks start from: the run's prompt, model and attachments,
    /// with `metadata`.
    pub fn from_params(p: &PromptRunParams, metadata: JsonValue) -> (r: Self)
        ensures
            r.prompt == p.prompt,
            r.model == p.model,
            r.attachments@ == p.attachments@,
            r.metadata == metadata,
    {
        let attachments = p.attachments.clone();
        proof {
            assert(attachments@ =~= p.attachments@);
        }
        PromptMutationState { prompt: p.prompt.clone(), model: clone_opt_string(&p.model), attachments, metadata }
    }
}

impl SessionMutationState {
    /// What pre-hooks start from: the thread's model, with `metadata`.
    pub fn from_thread_start(p: &ThreadStartParams, metadata: JsonValue) -> (r: Self)
        ensures
            r.model == p.model,
            r.metadata == metadata,
    {
        SessionMutationState { model: clone_opt_string(&p.model), metadata }
    }
}

/// The call a hook context describes.
#[derive(Clone, Copy)]
pub struct HookContextInput<'a> {
    pub phase: HookPhase,
    pub cwd: Option<&'a str>,
    pub model: Option<&'a str>,
    pub thread_id: Option<&'a str>,
    pub turn_id: Option<&'a str>,
    pub main_status: Option<&'a str>,
}

pub open spec fn opt_str_view(s: Option<&str>) -> Option<Seq<char>> {
    match s {
        Some(x) => Some(x@),
        None => None,
    }
}

pub open spec fn opt_string_view(s: Option<String>) -> Option<Seq<char>> {
    match s {
        Some(x) => Some(x@),
        None => None,
    }
}

fn owned(s: Option<&str>) -> (r: Option<String>)
    ensures
        opt_string_view(r) == opt_str_view(s),
{
    match s {
        Some(x) => Some(x.to_owned()),
        None => None,
    }
}

/// Context of a hook call made at `ts_ms` (Unix milliseconds).
pub fn build_hook_context(
    correlation_id: &str,
    metadata: &JsonValue,
    input: HookContextInput,
    ts_ms: i64,
) -> (r: HookContext)
    ensures
        r.phase == input.phase,
        opt_string_view(r.thread_id) == opt_str_view(input.thread_id),
        opt_string_view(r.turn_id) == opt_str_view(input.turn_id),
        opt_string_view(r.cwd) == opt_str_view(input.cwd),
        opt_string_view(r.model) == opt_str_view(input.model),
        opt_string_view(r.main_status) == opt_str_view(input.main_status),
        r.correlation_id@ == correlation_id@,
        r.ts_ms == ts_ms,
        crate::json::json_eq(*metadata, r.metadata),
        r.tool_name is None,
        r.tool_input is None,
{
    HookContext {
        phase: input.phase,
        thread_id: owned(input.thread_id),
        turn_id: owned(input.turn_id),
        cwd: owned(input.cwd),
        model: owned(input.model),
        main_status: owned(input.main_status),
        correlation_id: correlation_id.to_owned(),
        ts_ms,
        metadata: metadata.deep_clone(),
        tool_name: None,
        tool_input: None,
    }
}

pub open spec fn prompt_attachment_of(h: HookAttachment) -> PromptAttachment {
    match h {
        HookAttachment::AtPath { path, placeholder } => PromptAttachment::AtPath { path, placeholder },
        HookAttachment::ImageUrl { url } => PromptAttachment::ImageUrl { url },
        HookAttachment::LocalImage { path } => PromptAttachment::LocalImage { path },
        HookAttachment::Skill { name, path } => PromptAttachment::Skill { name, path },
    }
}

pub fn hook_attachment_to_prompt_attachment(value: HookAttachment) -> (r: PromptAttachment)
    ensures
        r == prompt_attachment_of(value),
{
    match value {
        HookAttachment::AtPath { path, placeholder } => PromptAttachment::AtPath { path, placeholder },
        HookAttachment::ImageUrl { url } => PromptAttachment::ImageUrl { url },
        HookAttachment::LocalImage { path } => PromptAttachment::LocalImage { path },
        HookAttachment::Skill { name, path } => PromptAttachment::Skill { name, path },
    }
}

/// `i` is a validation issue of hook `name` in `phase` with message `msg`.
pub open spec fn validation_issue(i: HookIssue, name: Seq<char>, phase: HookPhase, msg: Seq<char>) -> bool {
    i.hook_name@ == name && i.phase == phase && i.class == HookIssueClass::Validation && i.message@
        == msg
}

/// `issues` are validation issues of hooks and messages `expected`, in order.
pub open spec fn issues_match(issues: Seq<HookIssue>, phase: HookPhase, expected: Seq<(Seq<char>, Seq<char>)>) -> bool {
    issues.len() == expected.len() && forall|i: int|
        0 <= i < issues.len() ==> validation_issue(
            #[trigger] issues[i],
            expected[i].0,
            phase,
            expected[i].1,
        )
}

pub fn push_validation_issue(report: &mut HookReport, hook_name: &str, phase: HookPhase, message: &str)
    ensures
        final(report).issues@.len() == old(report).issues@.len() + 1,
        final(report).issues@.drop_last() == old(report).issues@,
        validation_issue(final(report).issues@.last(), hook_name@, phase, message@),
{
    report.push(
        HookIssue {
            hook_name: hook_name.to_owned(),
            phase,
            class: HookIssueClass::Validation,
            message: message.to_owned(),
        },
    );
    proof {
        assert(final(report).issues@.drop_last() == old(report).issues@);
    }
}

/// Value of key `k` after the members `entries` were inserted in order over
/// `fallback` (the last member of a key wins).
pub open spec fn entries_lookup(entries: Seq<(String, JsonValue)>, k: Seq<char>, fallback: Option<JsonValue>) -> Option<JsonValue>
    decreases entries.len(),
{
    if entries.len() == 0 {
        fallback
    } else if entries.last().0@ == k {
        Some(entries.last().1)
    } else {
        entries_lookup(entries.drop_last(), k, fallback)
    }
}

/// Value of key `k` of metadata `m` after a delta: an object delta is merged
/// in, anything else leaves `m` as it is.
pub open spec fn delta_lookup(m: JsonValue, delta: JsonValue, k: Seq<char>) -> Option<JsonValue> {
    match delta {
        JsonValue::Object(entries) => entries_lookup(entries@, k, spec_get(m, k)),
        _ => spec_get(m, k),
    }
}

pub open spec fn metadata_delta_message() -> Seq<char> {
    "metadata_delta must be null or object"@
}

/// Merge a hook's metadata delta: `null` keeps the metadata, an object is
/// merged into it (member by member, the delta's value winning), anything
/// else is refused with a validation issue.
pub fn merge_metadata_delta(
    metadata: &mut JsonValue,
    hook_name: &str,
    phase: HookPhase,
    delta: JsonValue,
    report: &mut HookReport,
)
    ensures
        delta is Object ==> (*final(metadata)) is Object,
        !(delta is Object) ==> *final(metadata) == *old(metadata),
        forall|k: Seq<char>| spec_get(*final(metadata), k) == delta_lookup(*old(metadata), delta, k),
        delta is Object || delta is Null ==> final(report).issues@ == old(report).issues@,
        !(delta is Object || delta is Null) ==> final(report).issues@.drop_last() == old(report).issues@
            && final(report).issues@.len() == old(report).issues@.len() + 1 && validation_issue(
            final(report).issues@.last(),
            hook_name@,
            phase,
            metadata_delta_message(),
        ),
{
    match delta {
        JsonValue::Null => {},
        JsonValue::Object(entries) => {
            let ghost all = entries@;
            let ghost old_meta = *metadata;
            let mut target = JsonValue::Null;
            std::mem::swap(&mut target, metadata);
            let mut members = match target {
                JsonValue::Object(m) => m,
                _ => Vec::new(),
            };
            proof {
                assert forall|k: Seq<char>| spec_get(JsonValue::Object(members), k) == spec_get(old_meta, k) by {
                    if !(old_meta is Object) {
                        assert(members@.len() == 0);
                    }
                }
            }
            let mut rest = entries;
            let mut i: usize = 0;
            assert(all.len() == rest.len());
            while rest.len() > 0
                invariant
                    i <= all.len(),
                    all.len() <= usize::MAX,
                    rest@ == all.skip(i as int),
                    forall|k: Seq<char>|
                        spec_get(JsonValue::Object(members), k) == entries_lookup(
                            all.take(i as int),
                            k,
                            spec_get(old_meta, k),
                        ),
                decreases rest.len(),
            {
                let (key, value) = rest.remove(0);
                let ghost kv = key@;
                proof {
                    assert(all[i as int] == (key, value));
                }
                insert_member(&mut members, key, value);
                proof {
                    let t = all.take(i + 1);
                    assert(t.drop_last() == all.take(i as int));
                    assert(t.last() == all[i as int]);
                    assert(rest@ == all.skip(i + 1));
                }
                i += 1;
            }
            proof {
                assert(all.skip(i as int).len() == 0);
                assert(all.take(i as int) == all);
            }
            *metadata = JsonValue::Object(members);
        },
        _ => {
            push_validation_issue(report, hook_name, phase, "metadata_delta must be null or object");
        },
    }
}

/// Whether an attachment a hook adds needs its path to exist.
pub open spec fn needs_path(h: HookAttachment) -> bool {
    !(h is ImageUrl)
}

/// Attachments kept of those a hook adds: those whose path exists (a URL
/// always stays).
pub open spec fn kept_attachments(atts: Seq<HookAttachment>, exists: Seq<bool>) -> Seq<PromptAttachment>
    decreases atts.len(),
{
    if atts.len() == 0 {
        seq![]
    } else {
        let prev = kept_attachments(atts.drop_last(), exists.take(atts.len() - 1));
        if !needs_path(atts.last()) || exists[atts.len() - 1] {
            prev.push(prompt_attachment_of(atts.last()))
        } else {
            prev
        }
    }
}

pub open spec fn attachment_message() -> Seq<char> {
    "hook attachment path not found; mutation ignored"@
}

/// Issue messages for the attachments that were dropped.
pub open spec fn dropped_messages(name: Seq<char>, atts: Seq<HookAttachment>, exists: Seq<bool>) -> Seq<(Seq<char>, Seq<char>)>
    decreases atts.len(),
{
    if atts.len() == 0 {
        seq![]
    } else {
        let prev = dropped_messages(name, atts.drop_last(), exists.take(atts.len() - 1));
        if !needs_path(atts.last()) || exists[atts.len() - 1] {
            prev
        } else {
            prev.push((name, attachment_message()))
        }
    }
}

pub open spec fn delta_messages(name: Seq<char>, delta: JsonValue) -> Seq<(Seq<char>, Seq<char>)> {
    if delta is Object || delta is Null {
        seq![]
    } else {
        seq![(name, metadata_delta_message())]
    }
}

/// Apply one hook's patch to a prompt run. `path_exists[i]` tells whether the
/// path of the `i`-th added attachment exists (looked up relative to the run's
/// working directory by the caller).
pub fn apply_prompt_patch(
    state: &mut PromptMutationState,
    hook_name: &str,
    phase: HookPhase,
    patch: HookPatch,
    path_exists: &Vec<bool>,
    report: &mut HookReport,
)
    requires
        path_exists@.len() == patch.add_attachments@.len(),
    ensures
        final(state).prompt == (match patch.prompt_override {
            Some(p) => p,
            None => old(state).prompt,
        }),
        final(state).model == (match patch.model_override {
            Some(m) => Some(m),
            None => old(state).model,
        }),
        final(state).attachments@ == old(state).attachments@ + kept_attachments(
            patch.add_attachments@,
            path_exists@,
        ),
        forall|k: Seq<char>|
            spec_get(final(state).metadata, k) == delta_lookup(old(state).metadata, patch.metadata_delta, k),
        final(report).issues@.len() >= old(report).issues@.len(),
        final(report).issues@.take(old(report).issues@.len() as int) == old(report).issues@,
        issues_match(
            final(report).issues@.skip(old(report).issues@.len() as int),
            phase,
            dropped_messages(hook_name@, patch.add_attachments@, path_exists@) + delta_messages(
                hook_name@,
                patch.metadata_delta,
            ),
        ),
{
    let HookPatch { prompt_override, model_override, add_attachments, metadata_delta } = patch;
    match prompt_override {
        Some(p) => {
            state.prompt = p;
        },
        None => {},
    }
    match model_override {
        Some(m) => {
            state.model = Some(m);
        },
        None => {},
    }
    let ghost all = add_attachments@;
    let ghost prompt_now = state.prompt;
    let ghost model_now = state.model;
    let ghost meta_now = state.metadata;
    let ghost start_atts = state.attachments@;
    let ghost start_issues = report.issues@;
    let mut rest = add_attachments;
    let mut i: usize = 0;
    assert(all.len() == rest.len());
    while rest.len() > 0
        invariant
            i <= all.len(),
            all.len() <= usize::MAX,
            all.len() == path_exists@.len(),
            rest@ == all.skip(i as int),
            state.attachments@ == start_atts + kept_attachments(all.take(i as int), path_exists@.take(i as int)),
            state.prompt == prompt_now,
            state.model == model_now,
            state.metadata == meta_now,
            report.issues@.len() >= start_issues.len(),
            report.issues@.take(start_issues.len() as int) == start_issues,
            issues_match(
                report.issues@.skip(start_issues.len() as int),
                phase,
                dropped_messages(hook_name@, all.take(i as int), path_exists@.take(i as int)),
            ),
        decreases rest.len(),
    {
        let attachment = rest.remove(0);
        proof {
            assert(all[i as int] == attachment);
            let t = all.take(i + 1);
            let e = path_exists@.take(i + 1);
            assert(t.drop_last() == all.take(i as int));
            assert(e.take(i as int) == path_exists@.take(i as int));
            assert(t.last() == all[i as int]);
            assert(e[i as int] == path_exists@[i as int]);
            assert(rest@ == all.skip(i + 1));
        }
        let needs = match &attachment {
            HookAttachment::ImageUrl { .. } => false,
            _ => true,
        };
        let ghost before_issues = report.issues@;
        if !needs || path_exists[i] {
            state.attachments.push(hook_attachment_to_prompt_attachment(attachment));
        } else {
            push_validation_issue(report, hook_name, phase, "hook attachment path not found; mutation ignored");
            proof {
                lemma_push_split(before_issues, report.issues@, start_issues.len() as int);
            }
        }
        i += 1;
    }
    proof {
        assert(all.take(i as int) == all);
        assert(path_exists@.take(i as int) == path_exists@);
    }
    let ghost mid_issues = report.issues@;
    merge_metadata_delta(&mut state.metadata, hook_name, phase, metadata_delta, report);
    proof {
        let s = start_issues.len() as int;
        let d = dropped_messages(hook_name@, all, path_exists@);
        if !(metadata_delta is Object || metadata_delta is Null) {
            lemma_push_split(mid_issues, report.issues@, s);
        }
        assert(d + delta_messages(hook_name@, metadata_delta) == (if metadata_delta is Object
            || metadata_delta is Null {
            d
        } else {
            d.push((hook_name@, metadata_delta_message()))
        }));
    }
}

pub open spec fn session_messages(name: Seq<char>, patch: HookPatch) -> Seq<(Seq<char>, Seq<char>)> {
    (if patch.prompt_override is Some {
        seq![(name, "prompt_override is not allowed in PreSessionStart"@)]
    } else {
        seq![]
    }) + (if patch.add_attachments@.len() > 0 {
        seq![(name, "add_attachments is not allowed in PreSessionStart"@)]
    } else {
        seq![]
    }) + delta_messages(name, patch.metadata_delta)
}

/// Apply one hook's patch to a session start: only the model and the
/// metadata may change; a prompt or attachments are refused with an issue.
pub fn apply_session_patch(
    state: &mut SessionMutationState,
    hook_name: &str,
    phase: HookPhase,
    patch: HookPatch,
    report: &mut HookReport,
)
    ensures
        final(state).model == (match patch.model_override {
            Some(m) => Some(m),
            None => old(state).model,
        }),
        forall|k: Seq<char>|
            spec_get(final(state).metadata, k) == delta_lookup(old(state).metadata, patch.metadata_delta, k),
        final(report).issues@.len() >= old(report).issues@.len(),
        final(report).issues@.take(old(report).issues@.len() as int) == old(report).issues@,
        issues_match(
            final(report).issues@.skip(old(report).issues@.len() as int),
            phase,
            session_messages(hook_name@, patch),
        ),
{
    let ghost p = patch;
    let ghost s0 = report.issues@;
    let ghost s = s0.len() as int;
    if patch.prompt_override.is_some() {
        push_validation_issue(report, hook_name, phase, "prompt_override is not allowed in PreSessionStart");
    }
    let ghost s1 = report.issues@;
    if patch.add_attachments.len() > 0 {
        push_validation_issue(report, hook_name, phase, "add_attachments is not allowed in PreSessionStart");
    }
    let ghost s2 = report.issues@;
    let HookPatch { prompt_override: _, model_override, add_attachments: _, metadata_delta } = patch;
    match model_override {
        Some(m) => {
            state.model = Some(m);
        },
        None => {},
    }
    merge_metadata_delta(&mut state.metadata, hook_name, phase, metadata_delta, report);
    proof {
        let s3 = report.issues@;
        let a = if p.prompt_override is Some {
            seq![(hook_name@, "prompt_override is not allowed in PreSessionStart"@)]
        } else {
            seq![]
        };
        let b = if p.add_attachments@.len() > 0 {
            seq![(hook_name@, "add_attachments is not allowed in PreSessionStart"@)]
        } else {
            seq![]
        };
        let c = delta_messages(hook_name@, p.metadata_delta);
        assert(s1.take(s) == s0);
        assert(s2.take(s) == s0);
        assert(s3.take(s) == s0);
        assert(s1.skip(s).len() == a.len());
        assert(s2.skip(s).len() == a.len() + b.len());
        assert(s3.skip(s).len() == a.len() + b.len() + c.len());
        assert forall|i: int| 0 <= i < s3.skip(s).len() implies validation_issue(
            #[trigger] s3.skip(s)[i],
            (a + b + c)[i].0,
            phase,
            (a + b + c)[i].1,
        ) by {
            if i < a.len() {
                assert(s3.skip(s)[i] == s1[s + i]);
            } else if i < a.len() + b.len() {
                assert(s3.skip(s)[i] == s2[s + i]);
            }
        }
    }
}

pub open spec fn patch_of(d: PreHookDecision) -> Option<HookPatch> {
    match d.action {
        HookAction::Mutate(p) => Some(p),
        _ => None,
    }
}

/// Prompt after the patches of `ds` (the last override wins).
pub open spec fn prompt_fold(p0: String, ds: Seq<PreHookDecision>) -> String
    decreases ds.len(),
{
    if ds.len() == 0 {
        p0
    } else {
        let prev = prompt_fold(p0, ds.drop_last());
        match patch_of(ds.last()) {
            Some(p) => match p.prompt_override {
                Some(x) => x,
                None => prev,
            },
            None => prev,
        }
    }
}

/// Model after the patches of `ds` (the last override wins).
pub open spec fn model_fold(m0: Option<String>, ds: Seq<PreHookDecision>) -> Option<String>
    decreases ds.len(),
{
    if ds.len() == 0 {
        m0
    } else {
        let prev = model_fold(m0, ds.drop_last());
        match patch_of(ds.last()) {
            Some(p) => match p.model_override {
                Some(x) => Some(x),
                None => prev,
            },
            None => prev,
        }
    }
}

/// Attachments after the patches of `ds`.
pub open spec fn attachments_fold(a0: Seq<PromptAttachment>, ds: Seq<PreHookDecision>, ex: Seq<Vec<bool>>) -> Seq<PromptAttachment>
    decreases ds.len(),
{
    if ds.len() == 0 {
        a0
    } else {
        let prev = attachments_fold(a0, ds.drop_last(), ex.drop_last());
        match patch_of(ds.last()) {
            Some(p) => prev + kept_attachments(p.add_attachments@, ex.last()@),
            None => prev,
        }
    }
}

/// Metadata member `k` after the patches of `ds`.
pub open spec fn metadata_fold(m0: JsonValue, ds: Seq<PreHookDecision>, k: Seq<char>) -> Option<JsonValue>
    decreases ds.len(),
{
    if ds.len() == 0 {
        spec_get(m0, k)
    } else {
        let prev = metadata_fold(m0, ds.drop_last(), k);
        match patch_of(ds.last()) {
            Some(p) => match p.metadata_delta {
                JsonValue::Object(entries) => entries_lookup(entries@, k, prev),
                _ => prev,
            },
            None => prev,
        }
    }
}

/// Validation issues raised by the patches of `ds`, in order.
pub open spec fn prompt_issues_fold(ds: Seq<PreHookDecision>, ex: Seq<Vec<bool>>) -> Seq<(Seq<char>, Seq<char>)>
    decreases ds.len(),
{
    if ds.len() == 0 {
        seq![]
    } else {
        let prev = prompt_issues_fold(ds.drop_last(), ex.drop_last());
        match patch_of(ds.last()) {
            Some(p) => prev + dropped_messages(ds.last().hook_name@, p.add_attachments@, ex.last()@)
                + delta_messages(ds.last().hook_name@, p.metadata_delta),
            None => prev,
        }
    }
}

/// `path_exists[i]` answers, for the patch of decision `i`, which added
/// attachment paths exist.
pub open spec fn exists_shape(ds: Seq<PreHookDecision>, ex: Seq<Vec<bool>>) -> bool {
    ds.len() == ex.len() && forall|i: int|
        0 <= i < ds.len() ==> (#[trigger] patch_of(ds[i]) matches Some(p) ==> ex[i]@.len()
            == p.add_attachments@.len())
}

proof fn lemma_issues_extend(
    base: Seq<HookIssue>,
    before: Seq<HookIssue>,
    after: Seq<HookIssue>,
    phase: HookPhase,
    done: Seq<(Seq<char>, Seq<char>)>,
    more: Seq<(Seq<char>, Seq<char>)>,
)
    requires
        before.len() >= base.len(),
        before.take(base.len() as int) == base,
        issues_match(before.skip(base.len() as int), phase, done),
        after.len() >= before.len(),
        after.take(before.len() as int) == before,
        issues_match(after.skip(before.len() as int), phase, more),
    ensures
        after.take(base.len() as int) == base,
        issues_match(after.skip(base.len() as int), phase, done + more),
{
    let b = base.len() as int;
    let m = before.len() as int;
    assert(after.take(b) =~= before.take(b));
    assert forall|i: int| 0 <= i < after.skip(b).len() implies validation_issue(
        #[trigger] after.skip(b)[i],
        (done + more)[i].0,
        phase,
        (done + more)[i].1,
    ) by {
        if i < m - b {
            assert(after.skip(b)[i] == before.skip(b)[i]);
        } else {
            assert(after.skip(b)[i] == after.skip(m)[i - (m - b)]);
        }
    }
}

/// Apply the patches of the pre-hook decisions of one phase to a prompt run,
/// in order; a block or a no-op changes nothing.
pub fn apply_pre_hook_actions_to_prompt(
    state: &mut PromptMutationState,
    phase: HookPhase,
    decisions: Vec<PreHookDecision>,
    path_exists: Vec<Vec<bool>>,
    report: &mut HookReport,
)
    requires
        exists_shape(decisions@, path_exists@),
    ensures
        final(state).prompt == prompt_fold(old(state).prompt, decisions@),
        final(state).model == model_fold(old(state).model, decisions@),
        final(state).attachments@ == attachments_fold(old(state).attachments@, decisions@, path_exists@),
        forall|k: Seq<char>|
            spec_get(final(state).metadata, k) == metadata_fold(old(state).metadata, decisions@, k),
        final(report).issues@.len() >= old(report).issues@.len(),
        final(report).issues@.take(old(report).issues@.len() as int) == old(report).issues@,
        issues_match(
            final(report).issues@.skip(old(report).issues@.len() as int),
            phase,
            prompt_issues_fold(decisions@, path_exists@),
        ),
{
    let ghost ds = decisions@;
    let ghost ex = path_exists@;
    let ghost p0 = state.prompt;
    let ghost m0 = state.model;
    let ghost a0 = state.attachments@;
    let ghost meta0 = state.metadata;
    let ghost r0 = report.issues@;
    let mut rest = decisions;
    let mut rest_ex = path_exists;
    let mut i: usize = 0;
    assert(ds.len() == rest.len());
    proof {
        assert(ds.take(0) == Seq::<PreHookDecision>::empty());
        assert(ex.take(0) == Seq::<Vec<bool>>::empty());
        assert(r0.skip(r0.len() as int) == Seq::<HookIssue>::empty());
    }
    while rest.len() > 0
        invariant
            i <= ds.len(),
            ds.len() <= usize::MAX,
            exists_shape(ds, ex),
            rest@ == ds.skip(i as int),
            rest_ex@ == ex.skip(i as int),
            state.prompt == prompt_fold(p0, ds.take(i as int)),
            state.model == model_fold(m0, ds.take(i as int)),
            state.attachments@ == attachments_fold(a0, ds.take(i as int), ex.take(i as int)),
            forall|k: Seq<char>| spec_get(state.metadata, k) == metadata_fold(meta0, ds.take(i as int), k),
            report.issues@.len() >= r0.len(),
            report.issues@.take(r0.len() as int) == r0,
            issues_match(
                report.issues@.skip(r0.len() as int),
                phase,
                prompt_issues_fold(ds.take(i as int), ex.take(i as int)),
            ),
        decreases rest.len(),
    {
        let decision = rest.remove(0);
        let exists = rest_ex.remove(0);
        proof {
            assert(ds[i as int] == decision);
            assert(ex[i as int] == exists);
            let t = ds.take(i + 1);
            let e = ex.take(i + 1);
            assert(t.drop_last() == ds.take(i as int));
            assert(e.drop_last() == ex.take(i as int));
            assert(t.last() == decision);
            assert(e.last() == exists);
            assert(rest@ == ds.skip(i + 1));
            assert(rest_ex@ == ex.skip(i + 1));
            assert(patch_of(ds[i as int]) matches Some(p) ==> ex[i as int]@.len() == p.add_attachments@.len());
        }
        let ghost before_meta = state.metadata;
        let ghost before_issues = report.issues@;
        let PreHookDecision { hook_name, action } = decision;
        match action {
            HookAction::Mutate(patch) => {
                apply_prompt_patch(state, hook_name.as_str(), phase, patch, &exists, report);
                proof {
                    lemma_issues_extend(
                        r0,
                        before_issues,
                        report.issues@,
                        phase,
                        prompt_issues_fold(ds.take(i as int), ex.take(i as int)),
                        dropped_messages(hook_name@, patch.add_attachments@, exists@) + delta_messages(
                            hook_name@,
                            patch.metadata_delta,
                        ),
                    );
                    assert(prompt_issues_fold(ds.take(i as int), ex.take(i as int)) + (dropped_messages(hook_name@, patch.add_attachments@, exists@) + delta_messages(
                            hook_name@,
                            patch.metadata_delta,
                        )) == prompt_issues_fold(ds.take(i + 1), ex.take(i + 1)));
                    assert forall|k: Seq<char>| spec_get(state.metadata, k) == metadata_fold(meta0, ds.take(i + 1), k) by {
                        assert(spec_get(before_meta, k) == metadata_fold(meta0, ds.take(i as int), k));
                    }
                }
            },
            _ => {},
        }
        i += 1;
    }
    proof {
        assert(ds.take(i as int) == ds);
        assert(ex.take(i as int) == ex);
    }
}

/// Validation issues raised by the patches of `ds` at a session start.
pub open spec fn session_issues_fold(ds: Seq<PreHookDecision>) -> Seq<(Seq<char>, Seq<char>)>
    decreases ds.len(),
{
    if ds.len() == 0 {
        seq![]
    } else {
        let prev = session_issues_fold(ds.drop_last());
        match patch_of(ds.last()) {
            Some(p) => prev + session_messages(ds.last().hook_name@, p),
            None => prev,
        }
    }
}

/// Apply the patches of the pre-hook decisions of a session start, in order.
pub fn apply_pre_hook_actions_to_session(
    state: &mut SessionMutationState,
    phase: HookPhase,
    decisions: Vec<PreHookDecision>,
    report: &mut HookReport,
)
    ensures
        final(state).model == model_fold(old(state).model, decisions@),
        forall|k: Seq<char>|
            spec_get(final(state).metadata, k) == metadata_fold(old(state).metadata, decisions@, k),
        final(report).issues@.len() >= old(report).issues@.len(),
        final(report).issues@.take(old(report).issues@.len() as int) == old(report).issues@,
        issues_match(
            final(report).issues@.skip(old(report).issues@.len() as int),
            phase,
            session_issues_fold(decisions@),
        ),
{
    let ghost ds = decisions@;
    let ghost m0 = state.model;
    let ghost meta0 = state.metadata;
    let ghost r0 = report.issues@;
    let mut rest = decisions;
    let mut i: usize = 0;
    assert(ds.len() == rest.len());
    proof {
        assert(ds.take(0) == Seq::<PreHookDecision>::empty());
        assert(r0.skip(r0.len() as int) == Seq::<HookIssue>::empty());
    }
    while rest.len() > 0
        invariant
            i <= ds.len(),
            ds.len() <= usize::MAX,
            rest@ == ds.skip(i as int),
            state.model == model_fold(m0, ds.take(i as int)),
            forall|k: Seq<char>| spec_get(state.metadata, k) == metadata_fold(meta0, ds.take(i as int), k),
            report.issues@.len() >= r0.len(),
            report.issues@.take(r0.len() as int) == r0,
            issues_match(report.issues@.skip(r0.len() as int), phase, session_issues_fold(ds.take(i as int))),
        decreases rest.len(),
    {
        let decision = rest.remove(0);
        proof {
            assert(ds[i as int] == decision);
            let t = ds.take(i + 1);
            assert(t.drop_last() == ds.take(i as int));
            assert(t.last() == decision);
            assert(rest@ == ds.skip(i + 1));
        }
        let ghost before_meta = state.metadata;
        let ghost before_issues = report.issues@;
        let PreHookDecision { hook_name, action } = decision;
        match action {
            HookAction::Mutate(patch) => {
                let ghost p = patch;
                apply_session_patch(state, hook_name.as_str(), phase, patch, report);
                proof {
                    lemma_issues_extend(
                        r0,
                        before_issues,
                        report.issues@,
                        phase,
                        session_issues_fold(ds.take(i as int)),
                        session_messages(hook_name@, p),
                    );
                    assert forall|k: Seq<char>| spec_get(state.metadata, k) == metadata_fold(meta0, ds.take(i + 1), k) by {
                        assert(spec_get(before_meta, k) == metadata_fold(meta0, ds.take(i as int), k));
                    }
                }
            },
            _ => {},
        }
        i += 1;
    }
    proof {
        assert(ds.take(i as int) == ds);
    }
}

proof fn lemma_push_split<T>(a: Seq<T>, b: Seq<T>, s: int)
    requires
        b.drop_last() == a,
        b.len() == a.len() + 1,
        0 <= s <= a.len(),
    ensures
        b.skip(s) == a.skip(s).push(b.last()),
        b.take(s) == a.take(s),
{
    assert(b.skip(s) =~= a.skip(s).push(b.last()));
    assert(b.take(s) =~= a.take(s));
}

/// `"ok"` when the call succeeded, `"error"` otherwise.
pub fn result_status(result: &Result<PromptRunResult, PromptRunError>) -> (r: &'static str)
    ensures
        r@ == (if result is Ok { "ok"@ } else { "error"@ }),
{
    if result.is_ok() {
        "ok"
    } else {
        "error"
    }
}

/// Texts of the agent messages of `items` that are not blank, in order.
pub open spec fn agent_texts(items: Seq<ThreadItemView>) -> Seq<Seq<char>>
    decreases items.len(),
{
    if items.len() == 0 {
        seq![]
    } else {
        let prev = agent_texts(items.drop_last());
        match items.last().payload {
            ThreadItemPayloadView::AgentMessage(d) => if trim(d.text@).len() > 0 {
                prev.push(d.text@)
            } else {
                prev
            },
            _ => prev,
        }
    }
}

/// Texts joined with line breaks.
pub open spec fn join_lines(parts: Seq<Seq<char>>) -> Seq<char>
    decreases parts.len(),
{
    if parts.len() == 0 {
        seq![]
    } else if parts.len() == 1 {
        parts[0]
    } else {
        join_lines(parts.drop_last()) + seq!['\n'] + parts.last()
    }
}

/// Assistant text of a turn read from the thread: its non-blank agent
/// messages joined by line breaks; `None` when there is none.
pub fn extract_assistant_text_from_turn(turn: &ThreadTurnView) -> (r: Option<String>)
    ensures
        agent_texts(turn.items@).len() == 0 ==> r is None,
        agent_texts(turn.items@).len() > 0 ==> (r matches Some(t) && t@ == join_lines(agent_texts(turn.items@))),
{
    let mut joined = String::new();
    let mut count: usize = 0;
    let mut i: usize = 0;
    while i < turn.items.len()
        invariant
            i <= turn.items@.len(),
            count == agent_texts(turn.items@.take(i as int)).len(),
            count <= i,
            joined@ == join_lines(agent_texts(turn.items@.take(i as int))),
        decreases turn.items.len() - i,
    {
        proof {
            assert(turn.items@.take(i + 1).drop_last() == turn.items@.take(i as int));
            assert(turn.items@.take(i + 1).last() == turn.items@[i as int]);
        }
        match &turn.items[i].payload {
            ThreadItemPayloadView::AgentMessage(data) => {
                let t = trim_str(data.text.as_str());
                if !t.as_str().is_empty() {
                    if count > 0 {
                        push_char(&mut joined, '\n');
                    }
                    push_str(&mut joined, data.text.as_str());
                    proof {
                        let prev = agent_texts(turn.items@.take(i as int));
                        let next = prev.push(data.text@);
                        assert(next.drop_last() == prev);
                        if count == 0 {
                            assert(joined@ == data.text@);
                        } else {
                            assert(joined@ == join_lines(prev) + seq!['\n'] + data.text@);
                        }
                    }
                    count += 1;
                }
            },
            _ => {},
        }
        i += 1;
    }
    proof {
        assert(turn.items@.take(turn.items@.len() as int) == turn.items@);
    }
    if count == 0 {
        None
    } else {
        Some(joined)
    }
}

/// Total length of the parts.
pub open spec fn total_len(parts: Seq<Seq<char>>) -> nat
    decreases parts.len(),
{
    if parts.len() == 0 {
        0
    } else {
        total_len(parts.drop_last()) + parts.last().len()
    }
}

/// Where part `i` starts once the parts before it and one separator after
/// each of them are laid out.
pub open spec fn part_start(parts: Seq<Seq<char>>, i: int) -> int {
    total_len(parts.take(i)) + i
}

/// Joining parts with line breaks keeps every part, whole and in order, and
/// puts exactly one line break between two neighbours: the result is as
/// long as the parts together plus one character per gap, part `i` stands at
/// `part_start(parts, i)`, and a line break follows every part but the last.
pub proof fn lemma_join_lines_keeps_every_part(parts: Seq<Seq<char>>)
    requires
        parts.len() > 0,
    ensures
        join_lines(parts).len() == total_len(parts) + parts.len() - 1,
        forall|i: int|
            0 <= i < parts.len() ==> #[trigger] join_lines(parts).subrange(
                part_start(parts, i),
                part_start(parts, i) + parts[i].len(),
            ) == parts[i],
        forall|i: int|
            0 <= i < parts.len() - 1 ==> #[trigger] join_lines(parts)[part_start(parts, i) + parts[i].len()] == '\n',
    decreases parts.len(),
{
    let j = join_lines(parts);
    if parts.len() == 1 {
        assert(parts.take(0) =~= Seq::<Seq<char>>::empty());
        assert(total_len(parts.drop_last()) == 0);
        assert forall|i: int| 0 <= i < parts.len() implies #[trigger] j.subrange(
            part_start(parts, i),
            part_start(parts, i) + parts[i].len(),
        ) == parts[i] by {
            assert(part_start(parts, i) == 0);
            assert(j.subrange(0, parts[0].len() as int) =~= parts[0]);
        }
    } else {
        let d = parts.drop_last();
        let last = parts.last();
        lemma_join_lines_keeps_every_part(d);
        let jd = join_lines(d);
        assert(j == jd + seq!['\n'] + last);
        assert forall|i: int| 0 <= i <= d.len() implies #[trigger] parts.take(i) == d.take(i) by {
            assert(parts.take(i) =~= d.take(i));
        }
        assert(parts.take(d.len() as int) == d);
        assert forall|i: int| 0 <= i < parts.len() implies #[trigger] j.subrange(
            part_start(parts, i),
            part_start(parts, i) + parts[i].len(),
        ) == parts[i] by {
            if i < d.len() {
                assert(parts.take(i) == d.take(i));
                assert(part_start(parts, i) == part_start(d, i));
                assert(parts[i] == d[i]);
                lemma_part_end_within(d, i);
                assert(j.subrange(part_start(d, i), part_start(d, i) + d[i].len()) =~= jd.subrange(
                    part_start(d, i),
                    part_start(d, i) + d[i].len(),
                ));
            } else {
                assert(i == d.len());
                assert(part_start(parts, i) == total_len(d) + d.len());
                assert(j.subrange((jd.len() + 1) as int, (jd.len() + 1 + last.len()) as int) =~= last);
            }
        }
        assert forall|i: int| 0 <= i < parts.len() - 1 implies #[trigger] j[part_start(parts, i) + parts[i].len()]
            == '\n' by {
            assert(parts.take(i) == d.take(i));
            assert(parts[i] == d[i]);
            if i < d.len() - 1 {
                lemma_part_end_within(d, i);
                assert(j[part_start(d, i) + d[i].len()] == jd[part_start(d, i) + d[i].len()]);
            } else {
                lemma_part_end_within(d, i);
                assert(part_start(d, i) + d[i].len() == jd.len());
            }
        }
    }
}

/// A part ends within the joined text, at its end when it is the last one.
proof fn lemma_part_end_within(parts: Seq<Seq<char>>, i: int)
    requires
        parts.len() > 0,
        0 <= i < parts.len(),
        join_lines(parts).len() == total_len(parts) + parts.len() - 1,
    ensures
        part_start(parts, i) + parts[i].len() <= join_lines(parts).len(),
        i == parts.len() - 1 ==> part_start(parts, i) + parts[i].len() == join_lines(parts).len(),
    decreases parts.len() - i,
{
    lemma_total_len_take(parts, i);
    assert(parts.take(i + 1).drop_last() =~= parts.take(i));
    assert(parts.take(i + 1).last() == parts[i]);
    assert(total_len(parts.take(i + 1)) == total_len(parts.take(i)) + parts[i].len());
    lemma_total_len_take(parts, i + 1);
    if i + 1 == parts.len() {
        assert(parts.take(i + 1) =~= parts);
    }
}

/// A prefix of the parts is no longer than all of them.
proof fn lemma_total_len_take(parts: Seq<Seq<char>>, k: int)
    requires
        0 <= k <= parts.len(),
    ensures
        total_len(parts.take(k)) <= total_len(parts),
    decreases parts.len() - k,
{
    if k < parts.len() {
        lemma_total_len_take(parts, k + 1);
        assert(parts.take(k + 1).drop_last() =~= parts.take(k));
    } else {
        assert(parts.take(k) =~= parts);
    }
}

/// The texts gathered from a turn are exactly its agent messages that are
/// not blank: each such message is among them, and each of them is the text
/// of such a message; they are never more than the items.
pub proof fn lemma_agent_texts_are_the_nonblank_messages(items: Seq<ThreadItemView>)
    ensures
        agent_texts(items).len() <= items.len(),
        forall|i: int|
            #![trigger items[i]]
            0 <= i < items.len() ==> (items[i].payload matches ThreadItemPayloadView::AgentMessage(d) ==> (trim(
                d.text@,
            ).len() > 0 ==> agent_texts(items).contains(d.text@))),
        forall|t: Seq<char>|
            agent_texts(items).contains(t) ==> exists|i: int|
                #![trigger items[i]]
                0 <= i < items.len() && (items[i].payload matches ThreadItemPayloadView::AgentMessage(d) && d.text@
                    == t && trim(t).len() > 0),
    decreases items.len(),
{
    if items.len() > 0 {
        let d = items.drop_last();
        lemma_agent_texts_are_the_nonblank_messages(d);
        let prev = agent_texts(d);
        let cur = agent_texts(items);
        assert forall|i: int|
            #![trigger items[i]]
            0 <= i < items.len() implies (items[i].payload matches ThreadItemPayloadView::AgentMessage(m) ==> (trim(
                m.text@,
            ).len() > 0 ==> cur.contains(m.text@))) by {
            if let ThreadItemPayloadView::AgentMessage(m) = items[i].payload {
                if trim(m.text@).len() > 0 {
                    if i < d.len() {
                        assert(items[i] == d[i]);
                        assert(prev.contains(m.text@));
                        let k = choose|k: int| 0 <= k < prev.len() && prev[k] == m.text@;
                        if cur != prev {
                            assert(cur[k] == prev[k]);
                        }
                        assert(cur[k] == m.text@);
                    } else {
                        assert(cur[cur.len() - 1] == m.text@);
                    }
                }
            }
        }
        assert forall|t: Seq<char>| cur.contains(t) implies exists|i: int|
            #![trigger items[i]]
            0 <= i < items.len() && (items[i].payload matches ThreadItemPayloadView::AgentMessage(m) && m.text@ == t
                && trim(t).len() > 0) by {
            let k = choose|k: int| 0 <= k < cur.len() && cur[k] == t;
            if k < prev.len() && (cur == prev || cur[k] == prev[k]) {
                assert(prev.contains(t));
                let i = choose|i: int|
                    #![trigger d[i]]
                    0 <= i < d.len() && (d[i].payload matches ThreadItemPayloadView::AgentMessage(m) && m.text@ == t
                        && trim(t).len() > 0);
                assert(items[i] == d[i]);
            } else {
                let i = items.len() - 1;
                assert(items[i] == items.last());
            }
        }
    }
}

} // verus!
