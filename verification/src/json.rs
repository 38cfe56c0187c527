//! A plain JSON document model used by every decoder and encoder of the
//! runtime. Numbers keep the three shapes a JSON number can take on the wire:
//! non-negative integers, negative integers and floating-point values (kept
//! as their IEEE-754 bit pattern, which this library never interprets).
use vstd::prelude::*;

verus! {

#[derive(Clone, Copy, Debug, PartialEq, Eq, Structural)]
pub enum JsonNumber {
    PosInt(u64),
    NegInt(i64),
    FloatBits(u64),
}

#[derive(Debug, PartialEq)]
pub enum JsonValue {
    Null,
    Bool(bool),
    Number(JsonNumber),
    Text(String),
    Array(Vec<JsonValue>),
    Object(Vec<(String, JsonValue)>),
}

/// Semantic equality of two documents: strings compared by content.
pub open spec fn json_eq(a: JsonValue, b: JsonValue) -> bool
    decreases a,
{
    match a {
        JsonValue::Null => b is Null,
        JsonValue::Bool(x) => b is Bool && b->Bool_0 == x,
        JsonValue::Number(n) => b is Number && b->Number_0 == n,
        JsonValue::Text(s) => b is Text && b->Text_0@ == s@,
        JsonValue::Array(items) => b is Array && b->Array_0@.len() == items@.len() && forall|i: int|
            0 <= i < items@.len() ==> json_eq(#[trigger] items@[i], b->Array_0@[i]),
        JsonValue::Object(m) => b is Object && b->Object_0@.len() == m@.len() && forall|i: int|
            0 <= i < m@.len() ==> (#[trigger] m@[i]).0@ == b->Object_0@[i].0@ && json_eq(
                m@[i].1,
                b->Object_0@[i].1,
            ),
    }
}

/// Index of the first member whose key is `key`, or -1.
pub open spec fn member_index(members: Seq<(String, JsonValue)>, key: Seq<char>) -> int
    decreases members.len(),
{
    if members.len() == 0 {
        -1
    } else if members[0].0@ == key {
        0
    } else {
        let r = member_index(members.drop_first(), key);
        if r < 0 {
            -1
        } else {
            r + 1
        }
    }
}

/// Object member lookup (`value.get(key)` of a JSON object); `None` for non-objects.
pub open spec fn spec_get(v: JsonValue, key: Seq<char>) -> Option<JsonValue> {
    match v {
        JsonValue::Object(members) => {
            let i = member_index(members@, key);
            if i < 0 {
                None
            } else {
                Some(members@[i].1)
            }
        },
        _ => None,
    }
}

/// Lookup of `key` inside an optional document.
pub open spec fn opt_get(v: Option<JsonValue>, key: Seq<char>) -> Option<JsonValue> {
    match v {
        Some(x) => spec_get(x, key),
        None => None,
    }
}

/// String content of a JSON string.
pub open spec fn spec_as_text(v: Option<JsonValue>) -> Option<Seq<char>> {
    match v {
        Some(JsonValue::Text(s)) => Some(s@),
        _ => None,
    }
}

/// `as_i64` of a JSON number: integers that fit in `i64`.
pub open spec fn spec_as_i64(v: Option<JsonValue>) -> Option<i64> {
    match v {
        Some(JsonValue::Number(JsonNumber::PosInt(u))) => if u <= i64::MAX {
            Some(u as i64)
        } else {
            None
        },
        Some(JsonValue::Number(JsonNumber::NegInt(i))) => Some(i),
        _ => None,
    }
}

/// `as_u64` of a JSON number: integers that are not negative.
pub open spec fn spec_as_u64(v: Option<JsonValue>) -> Option<u64> {
    match v {
        Some(JsonValue::Number(JsonNumber::PosInt(u))) => Some(u),
        Some(JsonValue::Number(JsonNumber::NegInt(i))) => if i >= 0 {
            Some(i as u64)
        } else {
            None
        },
        _ => None,
    }
}

/// The lookup finds the first member that carries the key.
pub proof fn lemma_member_index_first(members: Seq<(String, JsonValue)>, key: Seq<char>, i: int)
    requires
        0 <= i < members.len(),
        members[i].0@ == key,
        forall|j: int| 0 <= j < i ==> members[j].0@ != key,
    ensures
        member_index(members, key) == i,
    decreases i,
{
    if i > 0 {
        lemma_member_index_first(members.drop_first(), key, i - 1);
    }
}

/// Without a member of the key, the lookup finds nothing.
pub proof fn lemma_member_index_absent(members: Seq<(String, JsonValue)>, key: Seq<char>)
    requires
        forall|j: int| 0 <= j < members.len() ==> members[j].0@ != key,
    ensures
        member_index(members, key) == -1,
    decreases members.len(),
{
    if members.len() > 0 {
        lemma_member_index_absent(members.drop_first(), key);
    }
}

/// A found index is in range and carries the key; no earlier member does.
pub proof fn lemma_member_index_range(members: Seq<(String, JsonValue)>, key: Seq<char>)
    ensures
        -1 <= member_index(members, key) < members.len(),
        member_index(members, key) >= 0 ==> members[member_index(members, key)].0@ == key,
        forall|j: int|
            0 <= j < members.len() && (member_index(members, key) < 0 || j < member_index(
                members,
                key,
            )) ==> members[j].0@ != key,
    decreases members.len(),
{
    if members.len() > 0 {
        lemma_member_index_range(members.drop_first(), key);
        assert forall|j: int|
            0 <= j < members.len() && (member_index(members, key) < 0 || j < member_index(
                members,
                key,
            )) implies members[j].0@ != key by {
            if j > 0 {
                assert(members[j] == members.drop_first()[j - 1]);
            }
        }
    }
}

proof fn lemma_array_item_decreases(v: JsonValue, items: Vec<JsonValue>, i: int)
    requires
        v == JsonValue::Array(items),
        0 <= i < items@.len(),
    ensures
        decreases_to!(v => items@[i]),
{
    assert(decreases_to!(v => v->Array_0));
    assert(decreases_to!(items => items@));
    assert(decreases_to!(items@ => items@[i]));
}

proof fn lemma_member_value_decreases(v: JsonValue, members: Vec<(String, JsonValue)>, i: int)
    requires
        v == JsonValue::Object(members),
        0 <= i < members@.len(),
    ensures
        decreases_to!(v => members@[i].1),
{
    assert(decreases_to!(v => v->Object_0));
    assert(decreases_to!(members => members@));
    assert(decreases_to!(members@ => members@[i]));
    assert(decreases_to!(members@[i] => members@[i].1));
}

/// Semantic equality is symmetric.
pub proof fn lemma_json_eq_symm(a: JsonValue, b: JsonValue)
    requires
        json_eq(a, b),
    ensures
        json_eq(b, a),
    decreases a,
{
    match a {
        JsonValue::Array(items) => {
            let bi = b->Array_0;
            assert forall|i: int| 0 <= i < bi@.len() implies json_eq(#[trigger] bi@[i], items@[i]) by {
                lemma_array_item_decreases(a, items, i);
                lemma_json_eq_symm(items@[i], bi@[i]);
            }
        },
        JsonValue::Object(m) => {
            let bm = b->Object_0;
            assert forall|i: int| 0 <= i < bm@.len() implies (#[trigger] bm@[i]).0@ == m@[i].0@ && json_eq(
                bm@[i].1,
                m@[i].1,
            ) by {
                lemma_member_value_decreases(a, m, i);
                lemma_json_eq_symm(m@[i].1, bm@[i].1);
            }
        },
        _ => {},
    }
}

/// Semantic equality is transitive.
pub proof fn lemma_json_eq_trans(a: JsonValue, b: JsonValue, c: JsonValue)
    requires
        json_eq(a, b),
        json_eq(b, c),
    ensures
        json_eq(a, c),
    decreases a,
{
    match a {
        JsonValue::Array(items) => {
            let bi = b->Array_0;
            let ci = c->Array_0;
            assert forall|i: int| 0 <= i < items@.len() implies json_eq(#[trigger] items@[i], ci@[i]) by {
                lemma_array_item_decreases(a, items, i);
                assert(json_eq(items@[i], bi@[i]));
                assert(json_eq(bi@[i], ci@[i]));
                lemma_json_eq_trans(items@[i], bi@[i], ci@[i]);
            }
        },
        JsonValue::Object(m) => {
            let bm = b->Object_0;
            let cm = c->Object_0;
            assert forall|i: int| 0 <= i < m@.len() implies (#[trigger] m@[i]).0@ == cm@[i].0@ && json_eq(
                m@[i].1,
                cm@[i].1,
            ) by {
                lemma_member_value_decreases(a, m, i);
                assert(m@[i].0@ == bm@[i].0@ && json_eq(m@[i].1, bm@[i].1));
                assert(bm@[i].0@ == cm@[i].0@ && json_eq(bm@[i].1, cm@[i].1));
                lemma_json_eq_trans(m@[i].1, bm@[i].1, cm@[i].1);
            }
        },
        _ => {},
    }
}

/// Every document is semantically equal to itself.
pub proof fn lemma_json_eq_refl(a: JsonValue)
    ensures
        json_eq(a, a),
    decreases a,
{
    match a {
        JsonValue::Array(items) => {
            assert forall|i: int| 0 <= i < items@.len() implies json_eq(
                #[trigger] items@[i],
                items@[i],
            ) by {
                lemma_array_item_decreases(a, items, i);
                lemma_json_eq_refl(items@[i]);
            }
        },
        JsonValue::Object(m) => {
            assert forall|i: int| 0 <= i < m@.len() implies (#[trigger] m@[i]).0@ == m@[i].0@
                && json_eq(m@[i].1, m@[i].1) by {
                lemma_member_value_decreases(a, m, i);
                lemma_json_eq_refl(m@[i].1);
            }
        },
        _ => {},
    }
}

pub fn copy_number(n: &JsonNumber) -> (r: JsonNumber)
    ensures
        r == *n,
{
    match n {
        JsonNumber::PosInt(x) => JsonNumber::PosInt(*x),
        JsonNumber::NegInt(x) => JsonNumber::NegInt(*x),
        JsonNumber::FloatBits(x) => JsonNumber::FloatBits(*x),
    }
}

impl JsonValue {
    /// A JSON string.
    pub fn text(s: &str) -> (r: JsonValue)
        ensures
            r is Text,
            r->Text_0@ == s@,
    {
        JsonValue::Text(s.to_owned())
    }

    /// A JSON integer (non-negative values use the unsigned shape, as on the wire).
    pub fn integer(n: i64) -> (r: JsonValue)
        ensures
            spec_as_i64(Some(r)) == Some(n),
            r == (if n >= 0 {
                JsonValue::Number(JsonNumber::PosInt(n as u64))
            } else {
                JsonValue::Number(JsonNumber::NegInt(n))
            }),
    {
        if n >= 0 {
            JsonValue::Number(JsonNumber::PosInt(n as u64))
        } else {
            JsonValue::Number(JsonNumber::NegInt(n))
        }
    }

    /// A non-negative JSON integer.
    pub fn uint(n: u64) -> (r: JsonValue)
        ensures
            r == JsonValue::Number(JsonNumber::PosInt(n)),
    {
        JsonValue::Number(JsonNumber::PosInt(n))
    }

    /// An empty JSON object.
    pub fn object() -> (r: JsonValue)
        ensures
            r is Object,
            r->Object_0@.len() == 0,
    {
        JsonValue::Object(Vec::new())
    }

    /// An object extended with `key`: replaces an existing member of that key, appends otherwise.
    pub fn with(self, key: &str, value: JsonValue) -> (r: JsonValue)
        ensures
            self is Object ==> r is Object && spec_get(r, key@) == Some(value) && forall|k: Seq<char>|
                k != key@ ==> spec_get(r, k) == spec_get(self, k),
            !(self is Object) ==> r == self,
    {
        match self {
            JsonValue::Object(mut members) => {
                insert_member(&mut members, key.to_owned(), value);
                JsonValue::Object(members)
            },
            other => other,
        }
    }

    /// Object member lookup.
    pub fn get(&self, key: &str) -> (r: Option<&JsonValue>)
        ensures
            match r {
                Some(x) => spec_get(*self, key@) == Some(*x),
                None => spec_get(*self, key@) is None,
            },
    {
        match self {
            JsonValue::Object(members) => {
                let k = key.to_owned();
                let mut i: usize = 0;
                while i < members.len()
                    invariant
                        0 <= i <= members@.len(),
                        k@ == key@,
                        *self == JsonValue::Object(*members),
                        forall|j: int| 0 <= j < i ==> members@[j].0@ != key@,
                    decreases members.len() - i,
                {
                    if members[i].0 == k {
                        proof {
                            lemma_member_index_first(members@, key@, i as int);
                        }
                        return Some(&members[i].1);
                    }
                    i += 1;
                }
                proof {
                    lemma_member_index_absent(members@, key@);
                }
                None
            },
            _ => None,
        }
    }

    pub fn as_str(&self) -> (r: Option<&String>)
        ensures
            match r {
                Some(s) => spec_as_text(Some(*self)) == Some(s@),
                None => spec_as_text(Some(*self)) is None,
            },
    {
        match self {
            JsonValue::Text(s) => Some(s),
            _ => None,
        }
    }

    pub fn as_i64(&self) -> (r: Option<i64>)
        ensures
            r == spec_as_i64(Some(*self)),
    {
        match self {
            JsonValue::Number(JsonNumber::PosInt(u)) => if *u <= i64::MAX as u64 {
                Some(*u as i64)
            } else {
                None
            },
            JsonValue::Number(JsonNumber::NegInt(i)) => Some(*i),
            _ => None,
        }
    }

    pub fn as_u64(&self) -> (r: Option<u64>)
        ensures
            r == spec_as_u64(Some(*self)),
    {
        match self {
            JsonValue::Number(JsonNumber::PosInt(u)) => Some(*u),
            JsonValue::Number(JsonNumber::NegInt(i)) => if *i >= 0 {
                Some(*i as u64)
            } else {
                None
            },
            _ => None,
        }
    }

    pub fn as_array(&self) -> (r: Option<&Vec<JsonValue>>)
        ensures
            match r {
                Some(items) => *self == JsonValue::Array(*items),
                None => !(*self is Array),
            },
    {
        match self {
            JsonValue::Array(items) => Some(items),
            _ => None,
        }
    }

    pub fn is_object(&self) -> (r: bool)
        ensures
            r == (*self is Object),
    {
        match self {
            JsonValue::Object(_) => true,
            _ => false,
        }
    }

    pub fn is_null(&self) -> (r: bool)
        ensures
            r == (*self is Null),
    {
        match self {
            JsonValue::Null => true,
            _ => false,
        }
    }

    /// Copy of the document, equal to it member by member.
    pub fn deep_clone(&self) -> (r: JsonValue)
        ensures
            json_eq(*self, r),
        decreases self,
    {
        match self {
            JsonValue::Null => JsonValue::Null,
            JsonValue::Bool(b) => JsonValue::Bool(*b),
            JsonValue::Number(n) => JsonValue::Number(copy_number(n)),
            JsonValue::Text(s) => JsonValue::Text(s.clone()),
            JsonValue::Array(items) => {
                let mut out: Vec<JsonValue> = Vec::new();
                let mut i: usize = 0;
                while i < items.len()
                    invariant
                        i <= items@.len(),
                        *self == JsonValue::Array(*items),
                        out@.len() == i,
                        forall|j: int| 0 <= j < i ==> json_eq(#[trigger] items@[j], out@[j]),
                    decreases items.len() - i,
                {
                    proof {
                        lemma_array_item_decreases(*self, *items, i as int);
                    }
                    let c = items[i].deep_clone();
                    out.push(c);
                    i += 1;
                }
                JsonValue::Array(out)
            },
            JsonValue::Object(members) => {
                let mut out: Vec<(String, JsonValue)> = Vec::new();
                let mut i: usize = 0;
                while i < members.len()
                    invariant
                        i <= members@.len(),
                        *self == JsonValue::Object(*members),
                        out@.len() == i,
                        forall|j: int|
                            0 <= j < i ==> (#[trigger] members@[j]).0@ == out@[j].0@ && json_eq(
                                members@[j].1,
                                out@[j].1,
                            ),
                    decreases members.len() - i,
                {
                    proof {
                        lemma_member_value_decreases(*self, *members, i as int);
                    }
                    let c = members[i].1.deep_clone();
                    let k = members[i].0.clone();
                    out.push((k, c));
                    i += 1;
                }
                JsonValue::Object(out)
            },
        }
    }
}

impl Clone for JsonValue {
    fn clone(&self) -> (r: Self)
        ensures
            json_eq(*self, r),
    {
        self.deep_clone()
    }
}

/// Object insertion with replace semantics: an existing member of the same key
/// takes the new value in place; otherwise the member is appended.
pub fn insert_member(members: &mut Vec<(String, JsonValue)>, key: String, value: JsonValue)
    ensures
        spec_get(JsonValue::Object(*final(members)), key@) == Some(value),
        forall|k: Seq<char>|
            k != key@ ==> spec_get(JsonValue::Object(*final(members)), k) == spec_get(
                JsonValue::Object(*old(members)),
                k,
            ),
{
    let ghost old_members = members@;
    let ghost old_vec = *members;
    let mut i: usize = 0;
    while i < members.len()
        invariant
            0 <= i <= members@.len(),
            members@ == old_members,
            *members == old_vec,
            old_vec == *old(members),
            forall|j: int| 0 <= j < i ==> members@[j].0@ != key@,
        decreases members.len() - i,
    {
        if members[i].0 == key {
            proof {
                lemma_member_index_first(members@, key@, i as int);
            }
            let ghost before = members@;
            members.set(i, (key, value));
            proof {
                let after = members@;
                assert forall|j: int| 0 <= j < i implies after[j].0@ != key@ by {
                    assert(after[j] == before[j]);
                }
                lemma_member_index_first(after, key@, i as int);
                assert forall|k: Seq<char>| k != key@ implies member_index(after, k) == member_index(
                    before,
                    k,
                ) && (member_index(after, k) >= 0 ==> after[member_index(after, k)] == before[member_index(before, k)]) by {
                    lemma_member_index_range(before, k);
                    lemma_member_index_range(after, k);
                    let bi = member_index(before, k);
                    if bi >= 0 {
                        assert(bi != i);
                        assert forall|j: int| 0 <= j < bi implies after[j].0@ != k by {
                            if j != i {
                                assert(after[j] == before[j]);
                            }
                        }
                        lemma_member_index_first(after, k, bi);
                    } else {
                        assert forall|j: int| 0 <= j < after.len() implies after[j].0@ != k by {
                            if j != i {
                                assert(after[j] == before[j]);
                            }
                        }
                        lemma_member_index_absent(after, k);
                    }
                }
                assert forall|k: Seq<char>| k != key@ implies spec_get(JsonValue::Object(*members), k)
                    == spec_get(JsonValue::Object(old_vec), k) by {
                    lemma_member_index_range(before, k);
                }
            }
            return ;
        }
        i += 1;
    }
    let ghost before = members@;
    members.push((key, value));
    proof {
        let after = members@;
        assert forall|j: int| 0 <= j < before.len() implies after[j].0@ != key@ by {
            assert(after[j] == before[j]);
        }
        lemma_member_index_first(after, key@, before.len() as int);
        assert forall|k: Seq<char>| k != key@ implies member_index(after, k) == member_index(
            before,
            k,
        ) && (member_index(after, k) >= 0 ==> after[member_index(after, k)] == before[member_index(before, k)]) by {
            lemma_member_index_range(before, k);
            let bi = member_index(before, k);
            if bi >= 0 {
                assert forall|j: int| 0 <= j < bi implies after[j].0@ != k by {
                    assert(after[j] == before[j]);
                }
                lemma_member_index_first(after, k, bi);
            } else {
                assert forall|j: int| 0 <= j < after.len() implies after[j].0@ != k by {
                    if j < before.len() {
                        assert(after[j] == before[j]);
                    }
                }
                lemma_member_index_absent(after, k);
            }
        }
        assert forall|k: Seq<char>| k != key@ implies spec_get(JsonValue::Object(*members), k)
            == spec_get(JsonValue::Object(old_vec), k) by {
            lemma_member_index_range(before, k);
        }
    }
}

} // verus!
