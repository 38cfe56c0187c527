//! Canonical identifier extraction from JSON-RPC payloads.
//! An identifier is a non-empty JSON string without surrounding whitespace.
use vstd::prelude::*;
use crate::json::{JsonValue, spec_get, opt_get, spec_as_text};
use crate::text::{trim, chars_of, trim_bounds};

verus! {

/// First present option.
pub open spec fn or_else<T>(a: Option<T>, b: Option<T>) -> Option<T> {
    if a is Some {
        a
    } else {
        b
    }
}

/// A canonical id: a non-empty string equal to its own trim.
pub open spec fn canonical_id(v: Option<JsonValue>) -> Option<Seq<char>> {
    match spec_as_text(v) {
        Some(s) => if s.len() > 0 && trim(s) == s {
            Some(s)
        } else {
            None
        },
        None => None,
    }
}

/// Id of an RPC result: `{<object_key>:{id}}`, else `{<camel_key>}`.
pub open spec fn result_id(v: JsonValue, object_key: Seq<char>, camel_key: Seq<char>) -> Option<
    Seq<char>,
> {
    or_else(
        canonical_id(opt_get(spec_get(v, object_key), "id"@)),
        canonical_id(spec_get(v, camel_key)),
    )
}

/// Id carried by an event or server-request payload root: `<camel_key>`,
/// `<object_key>.id`, `params.<camel_key>` or `params.<object_key>.id`, in that order.
pub open spec fn field_id(root: JsonValue, camel_key: Seq<char>, object_key: Seq<char>) -> Option<
    Seq<char>,
> {
    or_else(
        canonical_id(spec_get(root, camel_key)),
        or_else(
            canonical_id(opt_get(spec_get(root, object_key), "id"@)),
            or_else(
                canonical_id(opt_get(spec_get(root, "params"@), camel_key)),
                canonical_id(opt_get(opt_get(spec_get(root, "params"@), object_key), "id"@)),
            ),
        ),
    )
}

pub open spec fn opt_view(s: Option<String>) -> Option<Seq<char>> {
    match s {
        Some(x) => Some(x@),
        None => None,
    }
}

/// Whether a string is a canonical id.
pub fn is_canonical(s: &String) -> (r: bool)
    ensures
        r == (s@.len() > 0 && trim(s@) == s@),
{
    let v = chars_of(s.as_str());
    let (a, b) = trim_bounds(&v);
    if v.len() == 0 {
        return false;
    }
    proof {
        if a == 0 && b == v@.len() {
            assert(v@.subrange(0, v@.len() as int) == v@);
        } else {
            assert(v@.subrange(a as int, b as int).len() < v@.len());
        }
    }
    a == 0 && b == v.len()
}

/// Canonical non-empty id of a JSON string value.
pub fn parse_canonical_id(value: Option<&JsonValue>) -> (r: Option<String>)
    ensures
        opt_view(r) == canonical_id(
            match value {
                Some(v) => Some(*v),
                None => None,
            },
        ),
{
    match value {
        Some(JsonValue::Text(s)) => if is_canonical(s) {
            Some(s.clone())
        } else {
            None
        },
        _ => None,
    }
}

pub open spec fn opt_ref(v: Option<&JsonValue>) -> Option<JsonValue> {
    match v {
        Some(x) => Some(*x),
        None => None,
    }
}

/// Member lookup on an optional value.
pub fn get_in<'a>(v: Option<&'a JsonValue>, key: &str) -> (r: Option<&'a JsonValue>)
    ensures
        opt_ref(r) == opt_get(opt_ref(v), key@),
{
    match v {
        Some(x) => x.get(key),
        None => None,
    }
}

fn parse_result_id(value: &JsonValue, object_key: &str, camel_key: &str) -> (r: Option<String>)
    ensures
        opt_view(r) == result_id(*value, object_key@, camel_key@),
{
    let nested = parse_canonical_id(get_in(value.get(object_key), "id"));
    if nested.is_some() {
        return nested;
    }
    parse_canonical_id(value.get(camel_key))
}

/// `threadId` of an RPC result: `{thread:{id}}` or `{threadId}`.
pub fn parse_result_thread_id(value: &JsonValue) -> (r: Option<String>)
    ensures
        opt_view(r) == result_id(*value, "thread"@, "threadId"@),
{
    parse_result_id(value, "thread", "threadId")
}

/// `turnId` of an RPC result: `{turn:{id}}` or `{turnId}`.
pub fn parse_result_turn_id(value: &JsonValue) -> (r: Option<String>)
    ensures
        opt_view(r) == result_id(*value, "turn"@, "turnId"@),
{
    parse_result_id(value, "turn", "turnId")
}

fn extract_id_field(root: &JsonValue, camel_key: &str, object_key: &str) -> (r: Option<String>)
    ensures
        opt_view(r) == field_id(*root, camel_key@, object_key@),
{
    let direct = parse_canonical_id(root.get(camel_key));
    if direct.is_some() {
        return direct;
    }
    let nested = parse_canonical_id(get_in(root.get(object_key), "id"));
    if nested.is_some() {
        return nested;
    }
    let params = root.get("params");
    let params_direct = parse_canonical_id(get_in(params, camel_key));
    if params_direct.is_some() {
        return params_direct;
    }
    parse_canonical_id(get_in(get_in(params, object_key), "id"))
}

/// `threadId` of an event or server-request root.
pub fn extract_thread_id(root: &JsonValue) -> (r: Option<String>)
    ensures
        opt_view(r) == field_id(*root, "threadId"@, "thread"@),
{
    extract_id_field(root, "threadId", "thread")
}

/// `turnId` of an event or server-request root.
pub fn extract_turn_id(root: &JsonValue) -> (r: Option<String>)
    ensures
        opt_view(r) == field_id(*root, "turnId"@, "turn"@),
{
    extract_id_field(root, "turnId", "turn")
}

/// `itemId` of an event or server-request root.
pub fn extract_item_id(root: &JsonValue) -> (r: Option<String>)
    ensures
        opt_view(r) == field_id(*root, "itemId"@, "item"@),
{
    extract_id_field(root, "itemId", "item")
}

} // verus!
