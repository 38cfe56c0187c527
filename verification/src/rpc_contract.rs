//! Contract checks on JSON-RPC traffic: method names must not be blank,
//! known methods are checked against the protocol's validators, and a
//! violation is reported with a summary of the payload that names its keys
//! but never its values.
use vstd::prelude::*;
use vstd::utf8::encode_utf8;
use crate::json::JsonValue;
use crate::errors::RpcError;
use crate::text::{trim, trim_str, concat, push_str, push_char, u64_to_decimal, decimal};

verus! {

/// Validation mode for JSON-RPC data integrity checks.
#[derive(Clone, Copy, Debug, PartialEq, Eq, Structural)]
pub enum RpcValidationMode {
    /// Skip all contract checks.
    Disabled,
    /// Validate only methods known to the current app-server contract.
    KnownMethods,
}

impl Default for RpcValidationMode {
    fn default() -> (r: Self)
        ensures
            r == RpcValidationMode::KnownMethods,
    {
        RpcValidationMode::KnownMethods
    }
}

/// Lexicographic order of character sequences (by code point).
pub open spec fn text_le(a: Seq<char>, b: Seq<char>) -> bool
    decreases a.len(),
{
    if a.len() == 0 {
        true
    } else if b.len() == 0 {
        false
    } else if a[0] != b[0] {
        a[0] < b[0]
    } else {
        text_le(a.drop_first(), b.drop_first())
    }
}

proof fn lemma_text_le_total(a: Seq<char>, b: Seq<char>)
    ensures
        text_le(a, b) || text_le(b, a),
    decreases a.len(),
{
    if a.len() > 0 && b.len() > 0 {
        if a[0] == b[0] {
            lemma_text_le_total(a.drop_first(), b.drop_first());
        }
    }
}

proof fn lemma_text_le_trans(a: Seq<char>, b: Seq<char>, c: Seq<char>)
    requires
        text_le(a, b),
        text_le(b, c),
    ensures
        text_le(a, c),
    decreases a.len(),
{
    if a.len() > 0 && b.len() > 0 && c.len() > 0 && a[0] == b[0] && b[0] == c[0] {
        lemma_text_le_trans(a.drop_first(), b.drop_first(), c.drop_first());
    }
}

proof fn lemma_text_le_antisymmetric(a: Seq<char>, b: Seq<char>)
    requires
        text_le(a, b),
        text_le(b, a),
    ensures
        a == b,
    decreases a.len(),
{
    if a.len() > 0 && b.len() > 0 {
        lemma_text_le_antisymmetric(a.drop_first(), b.drop_first());
        assert(a =~= seq![a[0]] + a.drop_first());
        assert(b =~= seq![b[0]] + b.drop_first());
    } else {
        assert(a =~= b);
    }
}

proof fn lemma_text_le_reflexive(a: Seq<char>)
    ensures
        text_le(a, a),
    decreases a.len(),
{
    if a.len() > 0 {
        lemma_text_le_reflexive(a.drop_first());
    }
}

/// The lexicographic order as a relation.
pub open spec fn text_order() -> spec_fn(Seq<char>, Seq<char>) -> bool {
    |a: Seq<char>, b: Seq<char>| text_le(a, b)
}

proof fn lemma_text_order_total()
    ensures
        vstd::relations::total_ordering(text_order()),
{
    assert forall|a: Seq<char>| #[trigger] text_order()(a, a) by {
        lemma_text_le_reflexive(a);
    }
    assert forall|a: Seq<char>, b: Seq<char>| #[trigger] text_order()(a, b) && #[trigger] text_order()(b, a) implies a == b by {
        lemma_text_le_antisymmetric(a, b);
    }
    assert forall|a: Seq<char>, b: Seq<char>, c: Seq<char>|
        #[trigger] text_order()(a, b) && #[trigger] text_order()(b, c) implies #[trigger] text_order()(a, c) by {
        lemma_text_le_trans(a, b, c);
    }
    assert forall|a: Seq<char>, b: Seq<char>| #[trigger] text_order()(a, b) || #[trigger] text_order()(b, a) by {
        lemma_text_le_total(a, b);
    }
}

/// Keys in ascending order.
pub open spec fn sorted_texts(s: Seq<String>) -> bool {
    forall|i: int, j: int| 0 <= i < j < s.len() ==> text_le(#[trigger] s[i]@, #[trigger] s[j]@)
}

fn text_le_exec(a: &str, b: &str) -> (r: bool)
    ensures
        r == text_le(a@, b@),
{
    let x = crate::text::chars_of(a);
    let y = crate::text::chars_of(b);
    let mut i: usize = 0;
    proof {
        assert(x@.skip(0) == x@);
        assert(y@.skip(0) == y@);
    }
    while i < x.len() && i < y.len() && x[i] == y[i]
        invariant
            x@ == a@,
            y@ == b@,
            i <= x@.len(),
            i <= y@.len(),
            text_le(a@, b@) == text_le(x@.skip(i as int), y@.skip(i as int)),
        decreases x.len() - i,
    {
        proof {
            assert(x@.skip(i as int).drop_first() == x@.skip(i + 1));
            assert(y@.skip(i as int).drop_first() == y@.skip(i + 1));
        }
        i += 1;
    }
    proof {
        if i < x@.len() {
            assert(x@.skip(i as int)[0] == x@[i as int]);
        }
        if i < y@.len() {
            assert(y@.skip(i as int)[0] == y@[i as int]);
        }
    }
    if i == x.len() {
        true
    } else if i == y.len() {
        false
    } else {
        x[i] < y[i]
    }
}

/// The keys sorted in ascending order.
pub fn sort_texts(keys: Vec<String>) -> (r: Vec<String>)
    ensures
        sorted_texts(r@),
        views(r@).to_multiset() == views(keys@).to_multiset(),
{
    broadcast use vstd::seq_lib::group_to_multiset_ensures;

    let ghost all = keys@;
    let mut out: Vec<String> = Vec::new();
    let mut rest = keys;
    let mut i: usize = 0;
    assert(all.len() == rest.len());
    proof {
        assert(all.take(0) == Seq::<String>::empty());
        assert(views(all.take(0)) =~= Seq::<Seq<char>>::empty());
        assert(views(out@) =~= Seq::<Seq<char>>::empty());
    }
    while rest.len() > 0
        invariant
            i <= all.len(),
            all.len() <= usize::MAX,
            rest@ == all.skip(i as int),
            sorted_texts(out@),
            views(out@).to_multiset() == views(all.take(i as int)).to_multiset(),
        decreases rest.len(),
    {
        let k = rest.remove(0);
        proof {
            assert(all[i as int] == k);
            assert(all.take(i + 1) == all.take(i as int).push(k));
            assert(rest@ == all.skip(i + 1));
        }
        let mut p: usize = 0;
        while p < out.len() && text_le_exec(out[p].as_str(), k.as_str())
            invariant
                p <= out@.len(),
                forall|q: int| 0 <= q < p ==> text_le(#[trigger] out@[q]@, k@),
            decreases out.len() - p,
        {
            p += 1;
        }
        let ghost before = out@;
        out.insert(p, k);
        proof {
            assert(out@ == before.insert(p as int, k));
            assert forall|a: int, b: int| 0 <= a < b < out@.len() implies text_le(#[trigger] out@[a]@, #[trigger] out@[b]@) by {
                if b < p {
                    assert(out@[a] == before[a] && out@[b] == before[b]);
                } else if b == p {
                    assert(out@[a] == before[a]);
                } else if a == p {
                    assert(out@[b] == before[b - 1]);
                    if p < before.len() {
                        assert(!text_le(before[p as int]@, k@));
                        lemma_text_le_total(before[p as int]@, k@);
                        if b - 1 > p {
                            lemma_text_le_trans(k@, before[p as int]@, before[b - 1]@);
                        }
                    }
                } else if a < p {
                    assert(out@[a] == before[a] && out@[b] == before[b - 1]);
                } else {
                    assert(out@[a] == before[a - 1] && out@[b] == before[b - 1]);
                }
            }
            assert(views(out@) =~= views(before).insert(p as int, k@));
            vstd::seq_lib::to_multiset_insert(views(before), p as int, k@);
            assert(views(all.take(i + 1)) =~= views(all.take(i as int)).push(k@));
            vstd::seq_lib::to_multiset_build(views(all.take(i as int)), k@);
        }
        i += 1;
    }
    proof {
        assert(all.take(i as int) == all);
    }
    out
}

/// Length in bytes of a string with characters `s` (`str::len`).
pub open spec fn utf8_len(s: Seq<char>) -> nat {
    (encode_utf8(s).len() as usize) as nat
}

/// Texts joined with commas.
pub open spec fn join_commas(parts: Seq<Seq<char>>) -> Seq<char>
    decreases parts.len(),
{
    if parts.len() == 0 {
        seq![]
    } else if parts.len() == 1 {
        parts[0]
    } else {
        join_commas(parts.drop_last()) + seq![','] + parts.last()
    }
}

pub open spec fn views(s: Seq<String>) -> Seq<Seq<char>> {
    s.map_values(|x: String| x@)
}

/// Summary of a payload that shows its shape but none of its values: the
/// first six keys of an object in ascending order (`,...` when there are
/// more), the length of an array or string, or the kind of a scalar.
pub open spec fn summary_with_keys(payload: JsonValue, sorted: Seq<Seq<char>>) -> Seq<char> {
    match payload {
        JsonValue::Object(members) => "object(keys=["@ + join_commas(sorted.take(if sorted.len() > 6 { 6 } else { sorted.len() as int })) + (if members@.len() > 6 {
            ",..."@
        } else {
            Seq::<char>::empty()
        }) + "])"@,
        JsonValue::Array(items) => "array(len="@ + decimal(items@.len()) + ")"@,
        JsonValue::Text(t) => "string(len="@ + decimal(utf8_len(t@)) + ")"@,
        JsonValue::Number(_) => "number"@,
        JsonValue::Bool(_) => "bool"@,
        JsonValue::Null => "null"@,
    }
}

/// The keys of an object's members, in order.
pub open spec fn member_keys(members: Seq<(String, JsonValue)>) -> Seq<String> {
    members.map_values(|m: (String, JsonValue)| m.0)
}

/// `text` summarizes `payload` (keys sorted; see `summary_with_keys`).
pub open spec fn summary_of(payload: JsonValue, text: Seq<char>) -> bool {
    match payload {
        JsonValue::Object(members) => exists|sorted: Seq<Seq<char>>|
            vstd::relations::sorted_by(sorted, text_order()) && sorted.to_multiset() == views(
                member_keys(members@),
            ).to_multiset() && text == summary_with_keys(payload, sorted),
        _ => text == summary_with_keys(payload, seq![]),
    }
}

/// Two payloads of the same shape: objects with the same keys (in any
/// order), arrays of one length, strings of one byte length, or scalars of
/// one kind.
pub open spec fn same_shape(a: JsonValue, b: JsonValue) -> bool {
    match (a, b) {
        (JsonValue::Object(x), JsonValue::Object(y)) => views(member_keys(x@)).to_multiset() == views(
            member_keys(y@),
        ).to_multiset(),
        (JsonValue::Array(x), JsonValue::Array(y)) => x@.len() == y@.len(),
        (JsonValue::Text(x), JsonValue::Text(y)) => utf8_len(x@) == utf8_len(y@),
        (JsonValue::Number(_), JsonValue::Number(_)) => true,
        (JsonValue::Bool(_), JsonValue::Bool(_)) => true,
        (JsonValue::Null, JsonValue::Null) => true,
        _ => false,
    }
}

/// A payload's summary depends on its shape alone: whatever values two
/// payloads of the same shape hold, their summaries are equal, so no value
/// can reach a message built from a summary.
pub proof fn lemma_summary_ignores_values(a: JsonValue, b: JsonValue, ta: Seq<char>, tb: Seq<char>)
    requires
        same_shape(a, b),
        summary_of(a, ta),
        summary_of(b, tb),
    ensures
        ta == tb,
{
    broadcast use vstd::seq_lib::group_to_multiset_ensures;

    match (a, b) {
        (JsonValue::Object(x), JsonValue::Object(y)) => {
            let sa = choose|sorted: Seq<Seq<char>>|
                vstd::relations::sorted_by(sorted, text_order()) && sorted.to_multiset() == views(
                    member_keys(x@),
                ).to_multiset() && ta == summary_with_keys(a, sorted);
            let sb = choose|sorted: Seq<Seq<char>>|
                vstd::relations::sorted_by(sorted, text_order()) && sorted.to_multiset() == views(
                    member_keys(y@),
                ).to_multiset() && tb == summary_with_keys(b, sorted);
            lemma_text_order_total();
            vstd::seq_lib::lemma_sorted_unique(sa, sb, text_order());
            vstd::seq_lib::to_multiset_len(views(member_keys(x@)));
            vstd::seq_lib::to_multiset_len(views(member_keys(y@)));
            assert(views(member_keys(x@)).len() == views(member_keys(y@)).len());
            assert(x@.len() == y@.len());
        },
        _ => {},
    }
}

pub fn payload_summary(payload: &JsonValue) -> (r: String)
    ensures
        summary_of(*payload, r@),
{
    match payload {
        JsonValue::Object(members) => {
            let mut keys: Vec<String> = Vec::new();
            let mut i: usize = 0;
            while i < members.len()
                invariant
                    i <= members@.len(),
                    keys@ == member_keys(members@.take(i as int)),
                decreases members.len() - i,
            {
                keys.push(members[i].0.clone());
                proof {
                    assert(member_keys(members@.take(i + 1)) == member_keys(members@.take(i as int)).push(members@[i as int].0));
                }
                i += 1;
            }
            proof {
                assert(members@.take(members@.len() as int) == members@);
            }
            let sorted = sort_texts(keys);
            let shown: usize = if sorted.len() > 6 { 6 } else { sorted.len() };
            let mut s = "object(keys=[".to_owned();
            let ghost head = s@;
            let mut j: usize = 0;
            while j < shown
                invariant
                    j <= shown <= sorted@.len(),
                    s@ == head + join_commas(views(sorted@).take(j as int)),
                decreases shown - j,
            {
                if j > 0 {
                    push_char(&mut s, ',');
                }
                push_str(&mut s, sorted[j].as_str());
                proof {
                    let a = views(sorted@).take(j as int);
                    let b = views(sorted@).take(j + 1);
                    assert(b == a.push(sorted@[j as int]@));
                    assert(b.drop_last() == a);
                    if j == 0 {
                        assert(a.len() == 0);
                        assert(join_commas(b) == sorted@[j as int]@);
                    }
                }
                j += 1;
            }
            if members.len() > 6 {
                push_str(&mut s, ",...");
            } else {
                proof {
                    assert(s@ == s@ + Seq::<char>::empty());
                }
            }
            push_str(&mut s, "])");
            proof {
                let w = views(sorted@);
                assert(vstd::relations::sorted_by(w, text_order())) by {
                    assert forall|a: int, b: int| 0 <= a < b < w.len() implies #[trigger] text_order()(w[a], w[b]) by {
                        assert(text_le(sorted@[a]@, sorted@[b]@));
                    }
                }
                assert(s@ == summary_with_keys(*payload, w));
            }
            s
        },
        JsonValue::Array(items) => {
            let mut s = concat("array(len=", u64_to_decimal(items.len() as u64).as_str());
            push_str(&mut s, ")");
            s
        },
        JsonValue::Text(t) => {
            let n = t.as_str().len();
            let mut s = concat("string(len=", u64_to_decimal(n as u64).as_str());
            push_str(&mut s, ")");
            s
        },
        JsonValue::Number(_) => "number".to_owned(),
        JsonValue::Bool(_) => "bool".to_owned(),
        JsonValue::Null => "null".to_owned(),
    }
}

/// Which side of the exchange broke the contract.
#[derive(Clone, Copy, Debug, PartialEq, Eq, Structural)]
pub enum RpcContractSurface {
    Request,
    Response,
}

#[derive(Debug, PartialEq, Eq)]
pub enum RpcContractViolation {
    EmptyMethod,
    Custom(String),
}

pub open spec fn violation_reason(v: RpcContractViolation) -> Seq<char> {
    match v {
        RpcContractViolation::EmptyMethod => "json-rpc method must not be empty"@,
        RpcContractViolation::Custom(r) => r@,
    }
}

impl RpcContractViolation {
    pub fn reason(&self) -> (r: String)
        ensures
            r@ == violation_reason(*self),
    {
        match self {
            RpcContractViolation::EmptyMethod => "json-rpc method must not be empty".to_owned(),
            RpcContractViolation::Custom(r) => r.clone(),
        }
    }
}

/// `invalid json-rpc <side> for <method>: <reason>; payload=<summary>`.
pub open spec fn violation_message(method: Seq<char>, surface: RpcContractSurface, reason: Seq<char>, payload: JsonValue, m: Seq<char>) -> bool {
    let side: Seq<char> = match surface {
        RpcContractSurface::Request => "request"@,
        RpcContractSurface::Response => "response"@,
    };
    let head = "invalid json-rpc "@ + side + " for "@ + method + ": "@ + reason + "; payload="@;
    m.len() >= head.len() && m.take(head.len() as int) == head && summary_of(payload, m.skip(head.len() as int))
}

pub fn project_contract_violation(
    method: &str,
    surface: RpcContractSurface,
    violation: &RpcContractViolation,
    payload: &JsonValue,
) -> (r: RpcError)
    ensures
        r matches RpcError::InvalidRequest(m) && violation_message(method@, surface, violation_reason(*violation), *payload, m@),
{
    let side = match surface {
        RpcContractSurface::Request => "request",
        RpcContractSurface::Response => "response",
    };
    let mut m = concat("invalid json-rpc ", side);
    push_str(&mut m, " for ");
    push_str(&mut m, method);
    push_str(&mut m, ": ");
    let reason = violation.reason();
    push_str(&mut m, reason.as_str());
    push_str(&mut m, "; payload=");
    let ghost head = m@;
    let summary = payload_summary(payload);
    push_str(&mut m, summary.as_str());
    proof {
        assert(m@.take(head.len() as int) == head);
        assert(m@.skip(head.len() as int) == summary@);
    }
    RpcError::InvalidRequest(m)
}

/// A method name must not be blank.
pub fn validate_method_name(method: &str) -> (r: Result<(), RpcError>)
    ensures
        trim(method@).len() > 0 ==> r is Ok,
        trim(method@).len() == 0 ==> (r matches Err(RpcError::InvalidRequest(m)) && violation_message(
            method@,
            RpcContractSurface::Request,
            "json-rpc method must not be empty"@,
            JsonValue::Null,
            m@,
        )),
{
    let t = trim_str(method);
    if t.as_str().is_empty() {
        return Err(
            project_contract_violation(
                method,
                RpcContractSurface::Request,
                &RpcContractViolation::EmptyMethod,
                &JsonValue::Null,
            ),
        );
    }
    Ok(())
}

/// Outcome of a contract check. `known_check` is the outcome of the
/// protocol's validator for `method` (`None` when the method is unknown to
/// the protocol inventory).
pub open spec fn contract_outcome(
    method: Seq<char>,
    payload: JsonValue,
    mode: RpcValidationMode,
    known_check: Option<Result<(), String>>,
    surface: RpcContractSurface,
    r: Result<(), RpcError>,
) -> bool {
    if trim(method).len() == 0 {
        r matches Err(RpcError::InvalidRequest(m)) && violation_message(
            method,
            RpcContractSurface::Request,
            "json-rpc method must not be empty"@,
            JsonValue::Null,
            m@,
        )
    } else if mode == RpcValidationMode::Disabled {
        r is Ok
    } else {
        match known_check {
            None => r is Ok,
            Some(Ok(())) => r is Ok,
            Some(Err(reason)) => r matches Err(RpcError::InvalidRequest(m)) && violation_message(
                method,
                surface,
                reason@,
                payload,
                m@,
            ),
        }
    }
}

fn validate_with(
    method: &str,
    payload: &JsonValue,
    mode: RpcValidationMode,
    known_check: Option<Result<(), String>>,
    surface: RpcContractSurface,
) -> (r: Result<(), RpcError>)
    ensures
        contract_outcome(method@, *payload, mode, known_check, surface, r),
{
    match validate_method_name(method) {
        Ok(()) => {},
        Err(e) => return Err(e),
    }
    if mode == RpcValidationMode::Disabled {
        return Ok(());
    }
    match known_check {
        None => Ok(()),
        Some(Ok(())) => Ok(()),
        Some(Err(reason)) => Err(
            project_contract_violation(method, surface, &RpcContractViolation::Custom(reason), payload),
        ),
    }
}

/// Check an outgoing request's parameters.
pub fn validate_rpc_request(
    method: &str,
    params: &JsonValue,
    mode: RpcValidationMode,
    known_check: Option<Result<(), String>>,
) -> (r: Result<(), RpcError>)
    ensures
        contract_outcome(method@, *params, mode, known_check, RpcContractSurface::Request, r),
{
    validate_with(method, params, mode, known_check, RpcContractSurface::Request)
}

/// Check an incoming response's result.
pub fn validate_rpc_response(
    method: &str,
    result: &JsonValue,
    mode: RpcValidationMode,
    known_check: Option<Result<(), String>>,
) -> (r: Result<(), RpcError>)
    ensures
        contract_outcome(method@, *result, mode, known_check, RpcContractSurface::Response, r),
{
    validate_with(method, result, mode, known_check, RpcContractSurface::Response)
}

} // verus!
