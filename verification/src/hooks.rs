//! Hook configuration and the hook kernel: which hooks run for a call, in
//! which order, with duplicates (by hook name) ignored.
//!
//! A hook is referred to by its name and by a handle that the embedding
//! application resolves to the hook implementation.
use vstd::prelude::*;
use crate::plugin::{HookIssue, HookPhase, HookReport, HookAction, BlockReason};
use crate::flow::PreHookDecision;
use crate::text::{trim, trim_str, chars_of, trim_bounds};

verus! {

/// One registered hook: its name and the handle of its implementation.
#[derive(Debug, PartialEq, Eq)]
pub struct HookRef {
    pub name: String,
    pub handle: u64,
}

impl Clone for HookRef {
    fn clone(&self) -> (r: Self)
        ensures
            r == *self,
    {
        HookRef { name: self.name.clone(), handle: self.handle }
    }
}

#[derive(Debug)]
pub struct RuntimeHookConfig {
    pub pre_hooks: Vec<HookRef>,
    pub post_hooks: Vec<HookRef>,
    /// Hooks for the PreToolUse phase, run through the approval loop.
    pub pre_tool_use_hooks: Vec<HookRef>,
}

/// Some hook of `s` is named `n`.
pub open spec fn name_in(s: Seq<HookRef>, n: Seq<char>) -> bool {
    exists|i: int| 0 <= i < s.len() && (#[trigger] s[i]).name@ == n
}

/// `acc` followed by the hooks of `incoming` whose name is not yet present,
/// in order (the first hook of a name wins).
pub open spec fn dedup_append(acc: Seq<HookRef>, incoming: Seq<HookRef>) -> Seq<HookRef>
    decreases incoming.len(),
{
    if incoming.len() == 0 {
        acc
    } else {
        let prev = dedup_append(acc, incoming.drop_last());
        if name_in(prev, incoming.last().name@) {
            prev
        } else {
            prev.push(incoming.last())
        }
    }
}

/// No two hooks share a name.
pub open spec fn unique_names(s: Seq<HookRef>) -> bool {
    forall|i: int, j: int| 0 <= i < s.len() && 0 <= j < s.len() && i != j ==> s[i].name@ != s[j].name@
}

pub fn copy_hooks(v: &Vec<HookRef>) -> (r: Vec<HookRef>)
    ensures
        r@ == v@,
{
    let mut out: Vec<HookRef> = Vec::new();
    let mut i: usize = 0;
    while i < v.len()
        invariant
            i <= v@.len(),
            out@ == v@.take(i as int),
        decreases v.len() - i,
    {
        out.push(v[i].clone());
        proof {
            assert(v@.take(i + 1) == v@.take(i as int).push(v@[i as int]));
        }
        i += 1;
    }
    proof {
        assert(v@.take(v@.len() as int) == v@);
    }
    out
}

fn has_name(s: &Vec<HookRef>, name: &String) -> (r: bool)
    ensures
        r == name_in(s@, name@),
{
    let mut i: usize = 0;
    while i < s.len()
        invariant
            i <= s@.len(),
            forall|j: int| 0 <= j < i ==> (#[trigger] s@[j]).name@ != name@,
        decreases s.len() - i,
    {
        if s[i].name == *name {
            return true;
        }
        i += 1;
    }
    false
}

/// Append to `target` the hooks of `incoming` whose names are not yet present.
pub fn append_dedup(target: &mut Vec<HookRef>, incoming: &Vec<HookRef>)
    ensures
        final(target)@ == dedup_append(old(target)@, incoming@),
{
    let ghost base = target@;
    let mut i: usize = 0;
    while i < incoming.len()
        invariant
            i <= incoming@.len(),
            target@ == dedup_append(base, incoming@.take(i as int)),
        decreases incoming.len() - i,
    {
        proof {
            assert(incoming@.take(i + 1).drop_last() == incoming@.take(i as int));
        }
        let h = &incoming[i];
        if !has_name(target, &h.name) {
            target.push(h.clone());
        }
        i += 1;
    }
    proof {
        assert(incoming@.take(incoming@.len() as int) == incoming@);
    }
}

/// Hooks of `preferred` then those of `fallback`, each name once, preferred first.
pub fn merge_preferred_hooks(preferred: &Vec<HookRef>, fallback: &Vec<HookRef>) -> (r: Vec<HookRef>)
    ensures
        r@ == dedup_append(dedup_append(Seq::empty(), preferred@), fallback@),
{
    let mut merged: Vec<HookRef> = Vec::new();
    append_dedup(&mut merged, preferred);
    append_dedup(&mut merged, fallback);
    merged
}

/// `base` unchanged, followed by the overlay hooks whose names are new.
pub fn merge_owned_with_overlay(base: Vec<HookRef>, overlay: Option<&Vec<HookRef>>) -> (r: Vec<HookRef>)
    ensures
        r@ == match overlay {
            Some(o) => dedup_append(base@, o@),
            None => base@,
        },
{
    let mut base = base;
    match overlay {
        Some(o) => {
            append_dedup(&mut base, o);
            base
        },
        None => base,
    }
}

/// A merge keeps the hooks already present, in order, ahead of those it adds.
pub proof fn lemma_dedup_prefix(acc: Seq<HookRef>, incoming: Seq<HookRef>)
    ensures
        dedup_append(acc, incoming).len() >= acc.len(),
        dedup_append(acc, incoming).subrange(0, acc.len() as int) == acc,
    decreases incoming.len(),
{
    if incoming.len() > 0 {
        lemma_dedup_prefix(acc, incoming.drop_last());
        let prev = dedup_append(acc, incoming.drop_last());
        if !name_in(prev, incoming.last().name@) {
            assert(prev.push(incoming.last()).subrange(0, acc.len() as int) == prev.subrange(0, acc.len() as int));
        }
    } else {
        assert(acc.subrange(0, acc.len() as int) == acc);
    }
}

/// The hooks kept by a merge carry distinct names, when the starting list does.
pub proof fn lemma_dedup_unique(acc: Seq<HookRef>, incoming: Seq<HookRef>)
    requires
        unique_names(acc),
    ensures
        unique_names(dedup_append(acc, incoming)),
    decreases incoming.len(),
{
    if incoming.len() > 0 {
        lemma_dedup_unique(acc, incoming.drop_last());
        let prev = dedup_append(acc, incoming.drop_last());
        let h = incoming.last();
        if !name_in(prev, h.name@) {
            let next = prev.push(h);
            assert forall|i: int, j: int| 0 <= i < next.len() && 0 <= j < next.len() && i != j implies next[i].name@ != next[j].name@ by {
                if i == prev.len() {
                    assert(next[j] == prev[j]);
                } else if j == prev.len() {
                    assert(next[i] == prev[i]);
                } else {
                    assert(next[i] == prev[i] && next[j] == prev[j]);
                }
            }
        }
    }
}

/// Every name of the incoming hooks is present after the merge, and no other name appears.
pub proof fn lemma_dedup_names(acc: Seq<HookRef>, incoming: Seq<HookRef>, n: Seq<char>)
    ensures
        name_in(dedup_append(acc, incoming), n) <==> (name_in(acc, n) || name_in(incoming, n)),
    decreases incoming.len(),
{
    if incoming.len() > 0 {
        let init = incoming.drop_last();
        lemma_dedup_names(acc, init, n);
        let prev = dedup_append(acc, init);
        let h = incoming.last();
        let next = dedup_append(acc, incoming);
        if name_in(incoming, n) {
            let k = choose|k: int| 0 <= k < incoming.len() && (#[trigger] incoming[k]).name@ == n;
            if k < incoming.len() - 1 {
                assert(init[k] == incoming[k]);
                assert(name_in(init, n));
            }
        }
        if name_in(init, n) {
            let k = choose|k: int| 0 <= k < init.len() && (#[trigger] init[k]).name@ == n;
            assert(incoming[k] == init[k]);
        }
        if name_in(next, n) && !name_in(prev, n) {
            assert(h.name@ == n) by {
                let k = choose|k: int| 0 <= k < next.len() && (#[trigger] next[k]).name@ == n;
                if k < prev.len() {
                    assert(next[k] == prev[k]);
                }
            }
            assert(incoming[incoming.len() - 1].name@ == n);
        }
        if name_in(prev, n) {
            let k = choose|k: int| 0 <= k < prev.len() && (#[trigger] prev[k]).name@ == n;
            if !name_in(prev, h.name@) {
                assert(next[k] == prev[k]);
            }
        }
        if h.name@ == n && !name_in(prev, n) {
            assert(next[prev.len() as int] == h);
        }
    }
}

/// Merging the same hooks twice keeps the result of merging them once.
pub proof fn lemma_dedup_idempotent(acc: Seq<HookRef>, incoming: Seq<HookRef>)
    ensures
        dedup_append(dedup_append(acc, incoming), incoming) == dedup_append(acc, incoming),
{
    let once = dedup_append(acc, incoming);
    lemma_dedup_all_present(once, incoming, incoming.len() as int, acc);
    assert(incoming.take(incoming.len() as int) == incoming);
}

proof fn lemma_dedup_all_present(once: Seq<HookRef>, incoming: Seq<HookRef>, k: int, acc: Seq<HookRef>)
    requires
        once == dedup_append(acc, incoming),
        0 <= k <= incoming.len(),
    ensures
        dedup_append(once, incoming.take(k)) == once,
    decreases k,
{
    if k > 0 {
        lemma_dedup_all_present(once, incoming, k - 1, acc);
        let pre = incoming.take(k);
        assert(pre.drop_last() == incoming.take(k - 1));
        lemma_dedup_names(acc, incoming, incoming[k - 1].name@);
        assert(name_in(incoming, incoming[k - 1].name@));
        assert(pre.last() == incoming[k - 1]);
    } else {
        assert(incoming.take(0).len() == 0);
    }
}

/// Across a merge, the hook kept for a name is the first of that name in
/// `acc` followed by `incoming`.
pub open spec fn first_of_name(s: Seq<HookRef>, n: Seq<char>) -> int
    decreases s.len(),
{
    if s.len() == 0 {
        -1
    } else if s[0].name@ == n {
        0
    } else {
        let r = first_of_name(s.drop_first(), n);
        if r < 0 {
            -1
        } else {
            r + 1
        }
    }
}

impl RuntimeHookConfig {
    /// No hooks.
    pub fn new() -> (r: Self)
        ensures
            r.pre_hooks@.len() == 0,
            r.post_hooks@.len() == 0,
            r.pre_tool_use_hooks@.len() == 0,
    {
        RuntimeHookConfig { pre_hooks: Vec::new(), post_hooks: Vec::new(), pre_tool_use_hooks: Vec::new() }
    }

    /// Register one pre hook.
    pub fn with_pre_hook(self, hook: HookRef) -> (r: Self)
        ensures
            r.pre_hooks@ == self.pre_hooks@.push(hook),
            r.post_hooks@ == self.post_hooks@,
            r.pre_tool_use_hooks@ == self.pre_tool_use_hooks@,
    {
        let mut s = self;
        s.pre_hooks.push(hook);
        s
    }

    /// Register one post hook.
    pub fn with_post_hook(self, hook: HookRef) -> (r: Self)
        ensures
            r.pre_hooks@ == self.pre_hooks@,
            r.post_hooks@ == self.post_hooks@.push(hook),
            r.pre_tool_use_hooks@ == self.pre_tool_use_hooks@,
    {
        let mut s = self;
        s.post_hooks.push(hook);
        s
    }

    /// Register one pre-tool-use hook.
    pub fn with_pre_tool_use_hook(self, hook: HookRef) -> (r: Self)
        ensures
            r.pre_hooks@ == self.pre_hooks@,
            r.post_hooks@ == self.post_hooks@,
            r.pre_tool_use_hooks@ == self.pre_tool_use_hooks@.push(hook),
    {
        let mut s = self;
        s.pre_tool_use_hooks.push(hook);
        s
    }

    /// At least one pre-tool-use hook is registered.
    pub fn has_pre_tool_use_hooks(&self) -> (r: bool)
        ensures
            r == (self.pre_tool_use_hooks@.len() > 0),
    {
        self.pre_tool_use_hooks.len() > 0
    }

    /// True when at least one hook of any kind is configured.
    pub fn is_empty(&self) -> (r: bool)
        ensures
            r == (self.pre_hooks@.len() > 0 || self.post_hooks@.len() > 0 || self.pre_tool_use_hooks@.len() > 0),
    {
        self.pre_hooks.len() > 0 || self.post_hooks.len() > 0 || self.pre_tool_use_hooks.len() > 0
    }

    /// No hook of any kind is configured.
    fn has_no_hooks(&self) -> (r: bool)
        ensures
            r == (self.pre_hooks@.len() == 0 && self.post_hooks@.len() == 0
                && self.pre_tool_use_hooks@.len() == 0),
    {
        self.pre_hooks.len() == 0 && self.post_hooks.len() == 0 && self.pre_tool_use_hooks.len() == 0
    }

    pub fn copy(&self) -> (r: Self)
        ensures
            r.pre_hooks@ == self.pre_hooks@,
            r.post_hooks@ == self.post_hooks@,
            r.pre_tool_use_hooks@ == self.pre_tool_use_hooks@,
    {
        RuntimeHookConfig {
            pre_hooks: copy_hooks(&self.pre_hooks),
            post_hooks: copy_hooks(&self.post_hooks),
            pre_tool_use_hooks: copy_hooks(&self.pre_tool_use_hooks),
        }
    }
}

impl Default for RuntimeHookConfig {
    fn default() -> (r: Self)
        ensures
            r.pre_hooks@.len() == 0,
            r.post_hooks@.len() == 0,
            r.pre_tool_use_hooks@.len() == 0,
    {
        RuntimeHookConfig::new()
    }
}

impl Clone for RuntimeHookConfig {
    fn clone(&self) -> (r: Self)
        ensures
            r.pre_hooks@ == self.pre_hooks@,
            r.post_hooks@ == self.post_hooks@,
            r.pre_tool_use_hooks@ == self.pre_tool_use_hooks@,
    {
        self.copy()
    }
}

pub open spec fn config_empty(c: RuntimeHookConfig) -> bool {
    c.pre_hooks@.len() == 0 && c.post_hooks@.len() == 0 && c.pre_tool_use_hooks@.len() == 0
}

/// Hooks of the merge of `defaults` with `overlay`: overlay hooks first, so a
/// name present in both keeps the overlay's hook.
pub open spec fn merged_hooks(defaults: Seq<HookRef>, overlay: Seq<HookRef>) -> Seq<HookRef> {
    dedup_append(dedup_append(Seq::empty(), overlay), defaults)
}

/// Merge default hooks with overlay hooks; either side alone when the other is empty.
pub fn merge_hook_configs(defaults: &RuntimeHookConfig, overlay: &RuntimeHookConfig) -> (r: RuntimeHookConfig)
    ensures
        config_empty(*defaults) ==> r.pre_hooks@ == overlay.pre_hooks@ && r.post_hooks@
            == overlay.post_hooks@ && r.pre_tool_use_hooks@ == overlay.pre_tool_use_hooks@,
        !config_empty(*defaults) && config_empty(*overlay) ==> r.pre_hooks@ == defaults.pre_hooks@
            && r.post_hooks@ == defaults.post_hooks@ && r.pre_tool_use_hooks@
            == defaults.pre_tool_use_hooks@,
        !config_empty(*defaults) && !config_empty(*overlay) ==> r.pre_hooks@ == merged_hooks(
            defaults.pre_hooks@,
            overlay.pre_hooks@,
        ) && r.post_hooks@ == merged_hooks(defaults.post_hooks@, overlay.post_hooks@)
            && r.pre_tool_use_hooks@ == merged_hooks(
            defaults.pre_tool_use_hooks@,
            overlay.pre_tool_use_hooks@,
        ),
{
    if defaults.has_no_hooks() {
        return overlay.copy();
    }
    if overlay.has_no_hooks() {
        return defaults.copy();
    }
    RuntimeHookConfig {
        pre_hooks: merge_preferred_hooks(&overlay.pre_hooks, &defaults.pre_hooks),
        post_hooks: merge_preferred_hooks(&overlay.post_hooks, &defaults.post_hooks),
        pre_tool_use_hooks: merge_preferred_hooks(&overlay.pre_tool_use_hooks, &defaults.pre_tool_use_hooks),
    }
}

/// The hook name lists of two configurations are equal.
pub fn hook_configs_equal(a: &RuntimeHookConfig, b: &RuntimeHookConfig) -> (r: bool)
    ensures
        r == (same_names(a.pre_hooks@, b.pre_hooks@) && same_names(a.post_hooks@, b.post_hooks@)
            && same_names(a.pre_tool_use_hooks@, b.pre_tool_use_hooks@)),
{
    names_equal(&a.pre_hooks, &b.pre_hooks) && names_equal(&a.post_hooks, &b.post_hooks)
        && names_equal(&a.pre_tool_use_hooks, &b.pre_tool_use_hooks)
}

/// Two configurations are equal when their hook name lists are.
impl PartialEq for RuntimeHookConfig {
    fn eq(&self, other: &Self) -> (r: bool) {
        hook_configs_equal(self, other)
    }
}

impl vstd::std_specs::cmp::PartialEqSpecImpl for RuntimeHookConfig {
    open spec fn obeys_eq_spec() -> bool {
        true
    }

    open spec fn eq_spec(&self, other: &Self) -> bool {
        same_names(self.pre_hooks@, other.pre_hooks@) && same_names(self.post_hooks@, other.post_hooks@)
            && same_names(self.pre_tool_use_hooks@, other.pre_tool_use_hooks@)
    }
}

/// Same hook names in the same order.
pub open spec fn same_names(a: Seq<HookRef>, b: Seq<HookRef>) -> bool {
    a.len() == b.len() && forall|i: int| 0 <= i < a.len() ==> (#[trigger] a[i]).name@ == b[i].name@
}

fn names_equal(a: &Vec<HookRef>, b: &Vec<HookRef>) -> (r: bool)
    ensures
        r == same_names(a@, b@),
{
    if a.len() != b.len() {
        return false;
    }
    let mut i: usize = 0;
    while i < a.len()
        invariant
            a@.len() == b@.len(),
            i <= a@.len(),
            forall|j: int| 0 <= j < i ==> (#[trigger] a@[j]).name@ == b@[j].name@,
        decreases a.len() - i,
    {
        if a[i].name != b[i].name {
            return false;
        }
        i += 1;
    }
    true
}

/// An issue attributed to a hook and phase: an issue without a (non-blank)
/// hook name takes the fallback name; the phase is always the current one.
pub fn normalize_issue(issue: HookIssue, fallback_name: &str, phase: HookPhase) -> (r: HookIssue)
    ensures
        r.hook_name@ == (if trim(issue.hook_name@).len() == 0 {
            fallback_name@
        } else {
            issue.hook_name@
        }),
        r.phase == phase,
        r.class == issue.class,
        r.message == issue.message,
{
    let mut issue = issue;
    let trimmed = trim_str(issue.hook_name.as_str());
    if trimmed.as_str().is_empty() {
        issue.hook_name = fallback_name.to_owned();
    }
    issue.phase = phase;
    issue
}

/// `r` is `issue` attributed to hook `fallback_name` in `phase` (see
/// `normalize_issue`).
pub open spec fn normalized(issue: HookIssue, fallback_name: Seq<char>, phase: HookPhase, r: HookIssue) -> bool {
    &&& r.hook_name@ == (if trim(issue.hook_name@).len() == 0 { fallback_name } else { issue.hook_name@ })
    &&& r.phase == phase
    &&& r.class == issue.class
    &&& r.message == issue.message
}

/// Take the answer of one pre-hook of a run: a block ends the run with its
/// reason; another action is recorded as that hook's decision; a failure is
/// recorded as an issue and the run goes on.
pub fn record_pre_hook_outcome(
    decisions: &mut Vec<PreHookDecision>,
    report: &mut HookReport,
    hook_name: &str,
    phase: HookPhase,
    outcome: Result<HookAction, HookIssue>,
) -> (r: Option<BlockReason>)
    ensures
        match outcome {
            Ok(HookAction::Block(reason)) => r == Some(reason) && final(decisions)@ == old(decisions)@
                && final(report).issues@ == old(report).issues@,
            Ok(action) => r is None && final(report).issues@ == old(report).issues@
                && final(decisions)@.len() == old(decisions)@.len() + 1
                && final(decisions)@.drop_last() == old(decisions)@
                && final(decisions)@.last().hook_name@ == hook_name@
                && final(decisions)@.last().action == action,
            Err(issue) => r is None && final(decisions)@ == old(decisions)@
                && final(report).issues@.len() == old(report).issues@.len() + 1
                && final(report).issues@.drop_last() == old(report).issues@
                && normalized(issue, hook_name@, phase, final(report).issues@.last()),
        },
{
    match outcome {
        Ok(HookAction::Block(reason)) => Some(reason),
        Ok(action) => {
            decisions.push(PreHookDecision { hook_name: hook_name.to_owned(), action });
            proof {
                assert(final(decisions)@.drop_last() == old(decisions)@);
            }
            None
        },
        Err(issue) => {
            report.push(normalize_issue(issue, hook_name, phase));
            proof {
                assert(final(report).issues@.drop_last() == old(report).issues@);
            }
            None
        },
    }
}

/// Take the outcome of one post-hook (or one pre-tool-use hook that did not
/// block): a failure is recorded as an issue.
pub fn record_hook_issue(report: &mut HookReport, hook_name: &str, phase: HookPhase, outcome: Result<(), HookIssue>)
    ensures
        match outcome {
            Ok(()) => final(report).issues@ == old(report).issues@,
            Err(issue) => final(report).issues@.len() == old(report).issues@.len() + 1
                && final(report).issues@.drop_last() == old(report).issues@
                && normalized(issue, hook_name@, phase, final(report).issues@.last()),
        },
{
    match outcome {
        Ok(()) => {},
        Err(issue) => {
            report.push(normalize_issue(issue, hook_name, phase));
            proof {
                assert(final(report).issues@.drop_last() == old(report).issues@);
            }
        },
    }
}

/// Thread-scoped pre-tool-use hooks: one entry per thread id.
pub open spec fn unique_threads(m: Seq<(String, Vec<HookRef>)>) -> bool {
    forall|i: int, j: int| 0 <= i < m.len() && 0 <= j < m.len() && i != j ==> m[i].0@ != m[j].0@
}

/// Hooks registered for a thread.
pub open spec fn scoped_for(m: Seq<(String, Vec<HookRef>)>, thread_id: Seq<char>) -> Option<Seq<HookRef>> {
    if exists|i: int| 0 <= i < m.len() && (#[trigger] m[i]).0@ == thread_id {
        let i = choose|i: int| 0 <= i < m.len() && (#[trigger] m[i]).0@ == thread_id;
        Some(m[i].1@)
    } else {
        None
    }
}

/// Runtime hook state: global hooks, thread-scoped pre-tool-use hooks and the
/// report of the last hook-enabled call.
pub struct HookKernel {
    pre_hooks: Vec<HookRef>,
    post_hooks: Vec<HookRef>,
    pre_tool_use_hooks: Vec<HookRef>,
    thread_scoped_pre_tool_use_hooks: Vec<(String, Vec<HookRef>)>,
    latest_report: HookReport,
}

impl HookKernel {
    /// Each thread has at most one entry of scoped hooks.
    #[verifier::type_invariant]
    pub closed spec fn wf(&self) -> bool {
        unique_threads(self.thread_scoped_pre_tool_use_hooks@)
    }

    pub closed spec fn pre(&self) -> Seq<HookRef> {
        self.pre_hooks@
    }

    pub closed spec fn post(&self) -> Seq<HookRef> {
        self.post_hooks@
    }

    pub closed spec fn pre_tool_use(&self) -> Seq<HookRef> {
        self.pre_tool_use_hooks@
    }

    pub closed spec fn scoped(&self, thread_id: Seq<char>) -> Option<Seq<HookRef>> {
        scoped_for(self.thread_scoped_pre_tool_use_hooks@, thread_id)
    }

    pub closed spec fn any_scoped(&self) -> bool {
        exists|i: int|
            0 <= i < self.thread_scoped_pre_tool_use_hooks@.len()
                && (#[trigger] self.thread_scoped_pre_tool_use_hooks@[i]).1@.len() > 0
    }

    pub closed spec fn report(&self) -> Seq<HookIssue> {
        self.latest_report.issues@
    }

    /// Kernel holding the hooks of `config`, no thread-scoped hooks, an empty report.
    pub fn new(config: RuntimeHookConfig) -> (r: Self)
        ensures
            r.pre() == config.pre_hooks@,
            r.post() == config.post_hooks@,
            r.pre_tool_use() == config.pre_tool_use_hooks@,
            forall|t: Seq<char>| r.scoped(t) is None,
            !r.any_scoped(),
            r.report().len() == 0,
    {
        HookKernel {
            pre_hooks: config.pre_hooks,
            post_hooks: config.post_hooks,
            pre_tool_use_hooks: config.pre_tool_use_hooks,
            thread_scoped_pre_tool_use_hooks: Vec::new(),
            latest_report: HookReport::new(),
        }
    }

    /// Some global hook is registered.
    pub fn is_enabled(&self) -> (r: bool)
        ensures
            r == (self.pre().len() > 0 || self.post().len() > 0 || self.pre_tool_use().len() > 0),
    {
        self.pre_hooks.len() > 0 || self.post_hooks.len() > 0 || self.pre_tool_use_hooks.len() > 0
    }

    /// Some pre-tool-use hook is registered, globally or for a thread.
    pub fn has_pre_tool_use_hooks(&self) -> (r: bool)
        ensures
            r == (self.pre_tool_use().len() > 0 || self.any_scoped()),
    {
        if self.pre_tool_use_hooks.len() > 0 {
            return true;
        }
        let mut i: usize = 0;
        while i < self.thread_scoped_pre_tool_use_hooks.len()
            invariant
                i <= self.thread_scoped_pre_tool_use_hooks@.len(),
                forall|j: int| 0 <= j < i ==> (#[trigger] self.thread_scoped_pre_tool_use_hooks@[j]).1@.len() == 0,
            decreases self.thread_scoped_pre_tool_use_hooks.len() - i,
        {
            if self.thread_scoped_pre_tool_use_hooks[i].1.len() > 0 {
                return true;
            }
            i += 1;
        }
        false
    }

    fn find_thread(&self, thread_id: &str) -> (r: Option<usize>)
        ensures
            match r {
                Some(i) => i < self.thread_scoped_pre_tool_use_hooks@.len()
                    && self.thread_scoped_pre_tool_use_hooks@[i as int].0@ == thread_id@,
                None => forall|j: int|
                    0 <= j < self.thread_scoped_pre_tool_use_hooks@.len()
                        ==> (#[trigger] self.thread_scoped_pre_tool_use_hooks@[j]).0@ != thread_id@,
            },
    {
        let key = thread_id.to_owned();
        let mut i: usize = 0;
        while i < self.thread_scoped_pre_tool_use_hooks.len()
            invariant
                i <= self.thread_scoped_pre_tool_use_hooks@.len(),
                key@ == thread_id@,
                forall|j: int| 0 <= j < i ==> (#[trigger] self.thread_scoped_pre_tool_use_hooks@[j]).0@ != thread_id@,
            decreases self.thread_scoped_pre_tool_use_hooks.len() - i,
        {
            if self.thread_scoped_pre_tool_use_hooks[i].0 == key {
                return Some(i);
            }
            i += 1;
        }
        None
    }

    /// Add pre-tool-use hooks for one thread (names already registered for it are ignored).
    pub fn register_thread_scoped_pre_tool_use_hooks(&mut self, thread_id: &str, hooks: &Vec<HookRef>)
        ensures
            final(self).pre() == old(self).pre(),
            final(self).post() == old(self).post(),
            final(self).pre_tool_use() == old(self).pre_tool_use(),
            final(self).report() == old(self).report(),
            hooks@.len() == 0 ==> forall|t: Seq<char>| final(self).scoped(t) == old(self).scoped(t),
            hooks@.len() > 0 ==> final(self).scoped(thread_id@) == Some(
                dedup_append(
                    match old(self).scoped(thread_id@) {
                        Some(s) => s,
                        None => Seq::empty(),
                    },
                    hooks@,
                ),
            ),
            hooks@.len() > 0 ==> forall|t: Seq<char>| t != thread_id@ ==> final(self).scoped(t) == old(self).scoped(t),
    {
        proof {
            use_type_invariant(&*self);
        }
        if hooks.len() == 0 {
            return;
        }
        let ghost old_map = self.thread_scoped_pre_tool_use_hooks@;
        let found = self.find_thread(thread_id);
        let mut table: Vec<(String, Vec<HookRef>)> = Vec::new();
        std::mem::swap(&mut table, &mut self.thread_scoped_pre_tool_use_hooks);
        match found {
            Some(i) => {
                let mut entry = copy_hooks(&table[i].1);
                append_dedup(&mut entry, hooks);
                let key = table[i].0.clone();
                table.set(i, (key, entry));
                proof {
                    let m = table@;
                    assert forall|a: int, b: int| 0 <= a < m.len() && 0 <= b < m.len() && a != b implies m[a].0@ != m[b].0@ by {
                        if a != i && b != i {
                            assert(m[a] == old_map[a] && m[b] == old_map[b]);
                        } else if a == i {
                            assert(m[b] == old_map[b]);
                        } else {
                            assert(m[a] == old_map[a]);
                        }
                    }
                    assert(m[i as int].0@ == thread_id@);
                    assert forall|t: Seq<char>| t != thread_id@ implies scoped_for(m, t) == scoped_for(old_map, t) by {
                        if exists|j: int| 0 <= j < m.len() && (#[trigger] m[j]).0@ == t {
                            let j = choose|j: int| 0 <= j < m.len() && (#[trigger] m[j]).0@ == t;
                            assert(j != i);
                            assert(old_map[j] == m[j]);
                            let k = choose|k: int| 0 <= k < old_map.len() && (#[trigger] old_map[k]).0@ == t;
                            assert(k == j);
                        } else {
                            assert forall|j: int| 0 <= j < old_map.len() implies (#[trigger] old_map[j]).0@ != t by {
                                if j != i {
                                    assert(old_map[j] == m[j]);
                                }
                            }
                        }
                    }
                    let k = choose|k: int| 0 <= k < m.len() && (#[trigger] m[k]).0@ == thread_id@;
                    assert(k == i);
                    let k2 = choose|k: int| 0 <= k < old_map.len() && (#[trigger] old_map[k]).0@ == thread_id@;
                    assert(k2 == i);
                }
            },
            None => {
                let mut entry: Vec<HookRef> = Vec::new();
                append_dedup(&mut entry, hooks);
                table.push((thread_id.to_owned(), entry));
                proof {
                    let m = table@;
                    let n = old_map.len() as int;
                    assert forall|a: int, b: int| 0 <= a < m.len() && 0 <= b < m.len() && a != b implies m[a].0@ != m[b].0@ by {
                        if a != n && b != n {
                            assert(m[a] == old_map[a] && m[b] == old_map[b]);
                        } else if a == n {
                            assert(m[b] == old_map[b]);
                        } else {
                            assert(m[a] == old_map[a]);
                        }
                    }
                    assert(m[n].0@ == thread_id@);
                    let k = choose|k: int| 0 <= k < m.len() && (#[trigger] m[k]).0@ == thread_id@;
                    assert(k == n);
                    assert forall|t: Seq<char>| t != thread_id@ implies scoped_for(m, t) == scoped_for(old_map, t) by {
                        if exists|j: int| 0 <= j < m.len() && (#[trigger] m[j]).0@ == t {
                            let j = choose|j: int| 0 <= j < m.len() && (#[trigger] m[j]).0@ == t;
                            assert(j != n);
                            assert(old_map[j] == m[j]);
                            let k = choose|k: int| 0 <= k < old_map.len() && (#[trigger] old_map[k]).0@ == t;
                            assert(m[k] == old_map[k]);
                            assert(k == j);
                        } else {
                            assert forall|j: int| 0 <= j < old_map.len() implies (#[trigger] old_map[j]).0@ != t by {
                                assert(old_map[j] == m[j]);
                            }
                        }
                    }
                }
            },
        }
        self.thread_scoped_pre_tool_use_hooks = table;
    }

    /// Drop the thread-scoped hooks of one thread.
    pub fn clear_thread_scoped_pre_tool_use_hooks(&mut self, thread_id: &str)
        ensures
            final(self).pre() == old(self).pre(),
            final(self).post() == old(self).post(),
            final(self).pre_tool_use() == old(self).pre_tool_use(),
            final(self).report() == old(self).report(),
            final(self).scoped(thread_id@) is None,
            forall|t: Seq<char>| t != thread_id@ ==> final(self).scoped(t) == old(self).scoped(t),
    {
        proof {
            use_type_invariant(&*self);
        }
        let ghost old_map = self.thread_scoped_pre_tool_use_hooks@;
        match self.find_thread(thread_id) {
            Some(i) => {
                let mut table: Vec<(String, Vec<HookRef>)> = Vec::new();
                std::mem::swap(&mut table, &mut self.thread_scoped_pre_tool_use_hooks);
                table.remove(i);
                proof {
                    let m = table@;
                    assert(m == old_map.remove(i as int));
                    assert forall|a: int| 0 <= a < m.len() implies #[trigger] m[a] == (if a < i { old_map[a] } else { old_map[a + 1] }) by {}
                    assert forall|a: int, b: int| 0 <= a < m.len() && 0 <= b < m.len() && a != b implies m[a].0@ != m[b].0@ by {
                        let oa = if a < i { a } else { a + 1 };
                        let ob = if b < i { b } else { b + 1 };
                        assert(m[a] == old_map[oa] && m[b] == old_map[ob]);
                    }
                    assert forall|j: int| 0 <= j < m.len() implies (#[trigger] m[j]).0@ != thread_id@ by {
                        let oj = if j < i { j } else { j + 1 };
                        assert(m[j] == old_map[oj]);
                    }
                    assert forall|t: Seq<char>| t != thread_id@ implies scoped_for(m, t) == scoped_for(old_map, t) by {
                        if exists|j: int| 0 <= j < m.len() && (#[trigger] m[j]).0@ == t {
                            let j = choose|j: int| 0 <= j < m.len() && (#[trigger] m[j]).0@ == t;
                            let oj = if j < i { j } else { j + 1 };
                            assert(m[j] == old_map[oj]);
                            let k = choose|k: int| 0 <= k < old_map.len() && (#[trigger] old_map[k]).0@ == t;
                            assert(k == oj);
                        } else {
                            assert forall|j: int| 0 <= j < old_map.len() implies (#[trigger] old_map[j]).0@ != t by {
                                if j < i {
                                    assert(m[j] == old_map[j]);
                                } else if j > i {
                                    assert(m[j - 1] == old_map[j]);
                                }
                            }
                        }
                    }
                }
                self.thread_scoped_pre_tool_use_hooks = table;
            },
            None => {},
        }
    }

    /// Register additional global hooks; names already registered are ignored.
    pub fn register(&mut self, config: &RuntimeHookConfig)
        ensures
            final(self).pre() == dedup_append(old(self).pre(), config.pre_hooks@),
            final(self).post() == dedup_append(old(self).post(), config.post_hooks@),
            final(self).pre_tool_use() == dedup_append(old(self).pre_tool_use(), config.pre_tool_use_hooks@),
            forall|t: Seq<char>| final(self).scoped(t) == old(self).scoped(t),
            final(self).report() == old(self).report(),
    {
        proof {
            use_type_invariant(&*self);
        }
        if config.has_no_hooks() {
            return;
        }
        let mut pre: Vec<HookRef> = Vec::new();
        std::mem::swap(&mut pre, &mut self.pre_hooks);
        append_dedup(&mut pre, &config.pre_hooks);
        self.pre_hooks = pre;
        let mut post: Vec<HookRef> = Vec::new();
        std::mem::swap(&mut post, &mut self.post_hooks);
        append_dedup(&mut post, &config.post_hooks);
        self.post_hooks = post;
        let mut tool: Vec<HookRef> = Vec::new();
        std::mem::swap(&mut tool, &mut self.pre_tool_use_hooks);
        append_dedup(&mut tool, &config.pre_tool_use_hooks);
        self.pre_tool_use_hooks = tool;
    }

    /// Report of the last completed hook-enabled call.
    pub fn report_snapshot(&self) -> (r: HookReport)
        ensures
            r.issues@ == self.report(),
    {
        self.latest_report.copy()
    }

    pub fn set_latest_report(&mut self, report: HookReport)
        ensures
            final(self).report() == report.issues@,
            final(self).pre() == old(self).pre(),
            final(self).post() == old(self).post(),
            final(self).pre_tool_use() == old(self).pre_tool_use(),
            forall|t: Seq<char>| final(self).scoped(t) == old(self).scoped(t),
    {
        proof {
            use_type_invariant(&*self);
        }
        self.latest_report = report;
    }

    /// Thread-scoped pre-tool-use hooks of one thread.
    pub fn thread_scoped_pre_tool_use_hooks_for(&self, thread_id: &str) -> (r: Option<Vec<HookRef>>)
        ensures
            match r {
                Some(v) => self.scoped(thread_id@) == Some(v@),
                None => self.scoped(thread_id@) is None,
            },
    {
        proof {
            use_type_invariant(self);
        }
        match self.find_thread(thread_id) {
            Some(i) => {
                proof {
                    let m = self.thread_scoped_pre_tool_use_hooks@;
                    let k = choose|k: int| 0 <= k < m.len() && (#[trigger] m[k]).0@ == thread_id@;
                    assert(k == i);
                }
                Some(copy_hooks(&self.thread_scoped_pre_tool_use_hooks[i].1))
            },
            None => None,
        }
    }

    /// Pre hooks of one call: global hooks, then the scoped ones with new names.
    pub fn pre_hooks_with(&self, scoped: Option<&RuntimeHookConfig>) -> (r: Vec<HookRef>)
        ensures
            r@ == match scoped {
                Some(c) => dedup_append(self.pre(), c.pre_hooks@),
                None => self.pre(),
            },
    {
        let base = copy_hooks(&self.pre_hooks);
        match scoped {
            Some(c) => merge_owned_with_overlay(base, Some(&c.pre_hooks)),
            None => base,
        }
    }

    /// Post hooks of one call: global hooks, then the scoped ones with new names.
    pub fn post_hooks_with(&self, scoped: Option<&RuntimeHookConfig>) -> (r: Vec<HookRef>)
        ensures
            r@ == match scoped {
                Some(c) => dedup_append(self.post(), c.post_hooks@),
                None => self.post(),
            },
    {
        let base = copy_hooks(&self.post_hooks);
        match scoped {
            Some(c) => merge_owned_with_overlay(base, Some(&c.post_hooks)),
            None => base,
        }
    }

    /// Pre-tool-use hooks of one approval request: global hooks, then those
    /// registered for the request's thread with new names.
    pub fn pre_tool_use_hooks_for(&self, thread_id: Option<&str>) -> (r: Vec<HookRef>)
        ensures
            r@ == match thread_id {
                Some(t) => match self.scoped(t@) {
                    Some(s) => dedup_append(self.pre_tool_use(), s),
                    None => self.pre_tool_use(),
                },
                None => self.pre_tool_use(),
            },
    {
        proof {
            use_type_invariant(self);
        }
        let hooks = copy_hooks(&self.pre_tool_use_hooks);
        match thread_id {
            Some(t) => {
                let scoped = self.thread_scoped_pre_tool_use_hooks_for(t);
                match scoped {
                    Some(s) => merge_owned_with_overlay(hooks, Some(&s)),
                    None => hooks,
                }
            },
            None => hooks,
        }
    }
}

} // verus!
