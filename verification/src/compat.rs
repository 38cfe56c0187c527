//! Compatibility guard: the server's `initialize` user agent is parsed as
//! `<product>/<major>.<minor>.<patch>...` and a Codex product must be at least
//! the configured version.
use vstd::prelude::*;
use crate::errors::RuntimeError;
use crate::text::{
    chars_of, trim, trim_bounds, string_from_range, parse_unsigned, parse_unsigned_chars, decimal,
    u64_to_decimal, push_char, push_str, starts_with,
};

verus! {

#[derive(Clone, Copy, Debug, PartialEq, Eq, PartialOrd, Ord, Hash, Structural)]
pub struct SemVerTriplet {
    pub major: u32,
    pub minor: u32,
    pub patch: u32,
}

/// Lexicographic order of versions (major, then minor, then patch).
pub open spec fn version_lt(a: SemVerTriplet, b: SemVerTriplet) -> bool {
    a.major < b.major || (a.major == b.major && (a.minor < b.minor || (a.minor == b.minor && a.patch
        < b.patch)))
}

impl SemVerTriplet {
    pub fn new(major: u32, minor: u32, patch: u32) -> (r: Self)
        ensures
            r == (SemVerTriplet { major, minor, patch }),
    {
        SemVerTriplet { major, minor, patch }
    }

    /// `self < other` in version order.
    pub fn is_older_than(&self, other: &SemVerTriplet) -> (r: bool)
        ensures
            r == version_lt(*self, *other),
    {
        self.major < other.major || (self.major == other.major && (self.minor < other.minor || (
        self.minor == other.minor && self.patch < other.patch)))
    }

    /// `major.minor.patch`.
    pub fn to_text(&self) -> (r: String)
        ensures
            r@ == decimal(self.major as nat) + seq!['.'] + decimal(self.minor as nat) + seq!['.']
                + decimal(self.patch as nat),
    {
        let mut s = u64_to_decimal(self.major as u64);
        push_char(&mut s, '.');
        let minor = u64_to_decimal(self.minor as u64);
        push_str(&mut s, minor.as_str());
        push_char(&mut s, '.');
        let patch = u64_to_decimal(self.patch as u64);
        push_str(&mut s, patch.as_str());
        s
    }
}

#[derive(Clone, Copy, Debug, PartialEq, Eq, Structural)]
pub struct CompatibilityGuard {
    pub require_initialize_user_agent: bool,
    pub min_codex_version: Option<SemVerTriplet>,
}

impl Default for CompatibilityGuard {
    /// A user agent is required and Codex must be at least 0.104.0.
    fn default() -> (r: Self)
        ensures
            r.require_initialize_user_agent,
            r.min_codex_version == Some(SemVerTriplet { major: 0, minor: 104, patch: 0 }),
    {
        CompatibilityGuard {
            require_initialize_user_agent: true,
            min_codex_version: Some(SemVerTriplet { major: 0, minor: 104, patch: 0 }),
        }
    }
}

#[derive(Debug, PartialEq, Eq)]
pub enum ClientError {
    CurrentDir(String),
    MissingInitializeUserAgent,
    InvalidInitializeUserAgent(String),
    IncompatibleCodexVersion { detected: String, required: String, user_agent: String },
    CompatibilityValidationWithShutdown { compatibility: Box<ClientError>, shutdown: RuntimeError },
    Runtime(RuntimeError),
}

/// Index of the first `c` in `s`, or -1.
pub open spec fn index_of(s: Seq<char>, c: char) -> int
    decreases s.len(),
{
    if s.len() == 0 {
        -1
    } else if s[0] == c {
        0
    } else {
        let r = index_of(s.drop_first(), c);
        if r < 0 {
            -1
        } else {
            r + 1
        }
    }
}

pub open spec fn is_version_char(c: char) -> bool {
    ('0' <= c && c <= '9') || c == '.'
}

/// Longest prefix of digits and dots.
pub open spec fn version_prefix(s: Seq<char>) -> Seq<char>
    decreases s.len(),
{
    if s.len() > 0 && is_version_char(s[0]) {
        seq![s[0]] + version_prefix(s.drop_first())
    } else {
        seq![]
    }
}

/// Text before the first dot (all of `s` without one).
pub open spec fn before_dot(s: Seq<char>) -> Seq<char> {
    let i = index_of(s, '.');
    if i < 0 {
        s
    } else {
        s.take(i)
    }
}

/// Text after the first dot, when there is one.
pub open spec fn after_dot(s: Seq<char>) -> Option<Seq<char>> {
    let i = index_of(s, '.');
    if i < 0 {
        None
    } else {
        Some(s.skip(i + 1))
    }
}

/// The first three dot-separated fields of `v`, when there are three.
pub open spec fn three_fields(v: Seq<char>) -> Option<(Seq<char>, Seq<char>, Seq<char>)> {
    match after_dot(v) {
        None => None,
        Some(r1) => match after_dot(r1) {
            None => None,
            Some(r2) => Some((before_dot(v), before_dot(r1), before_dot(r2))),
        },
    }
}

/// Product and version of a user agent `<product>/<version>...`: the product
/// is the trimmed text before the first `/` and must not be empty; the
/// version is read from the digits and dots after it, as three `u32` fields.
pub open spec fn parsed_user_agent(s: Seq<char>) -> Option<(Seq<char>, SemVerTriplet)> {
    let slash = index_of(s, '/');
    if slash < 0 {
        None
    } else {
        let product = trim(s.take(slash));
        if product.len() == 0 {
            None
        } else {
            match three_fields(version_prefix(s.skip(slash + 1))) {
                None => None,
                Some(f) => match (
                    parse_unsigned(f.0, u32::MAX as nat),
                    parse_unsigned(f.1, u32::MAX as nat),
                    parse_unsigned(f.2, u32::MAX as nat),
                ) {
                    (Some(a), Some(b), Some(c)) => Some(
                        (product, SemVerTriplet { major: a as u32, minor: b as u32, patch: c as u32 }),
                    ),
                    _ => None,
                },
            }
        }
    }
}

proof fn lemma_index_of_props(s: Seq<char>, c: char)
    ensures
        -1 <= index_of(s, c) < s.len(),
        index_of(s, c) >= 0 ==> s[index_of(s, c)] == c,
        forall|j: int| 0 <= j < s.len() && (index_of(s, c) < 0 || j < index_of(s, c)) ==> s[j] != c,
    decreases s.len(),
{
    if s.len() > 0 {
        lemma_index_of_props(s.drop_first(), c);
        assert forall|j: int| 0 <= j < s.len() && (index_of(s, c) < 0 || j < index_of(s, c)) implies s[j] != c by {
            if j > 0 {
                assert(s[j] == s.drop_first()[j - 1]);
            }
        }
    }
}

proof fn lemma_index_of_found(s: Seq<char>, c: char, i: int)
    requires
        0 <= i < s.len(),
        s[i] == c,
        forall|j: int| 0 <= j < i ==> s[j] != c,
    ensures
        index_of(s, c) == i,
    decreases s.len(),
{
    if i > 0 {
        assert forall|j: int| 0 <= j < i - 1 implies s.drop_first()[j] != c by {
            assert(s.drop_first()[j] == s[j + 1]);
        }
        lemma_index_of_found(s.drop_first(), c, i - 1);
    }
}

proof fn lemma_index_of_absent(s: Seq<char>, c: char)
    requires
        forall|j: int| 0 <= j < s.len() ==> s[j] != c,
    ensures
        index_of(s, c) == -1,
    decreases s.len(),
{
    if s.len() > 0 {
        assert forall|j: int| 0 <= j < s.len() - 1 implies s.drop_first()[j] != c by {
            assert(s.drop_first()[j] == s[j + 1]);
        }
        lemma_index_of_absent(s.drop_first(), c);
    }
}

/// Index of the first `c` in `v[from..to]`, relative to `from`.
fn find_char(v: &Vec<char>, from: usize, to: usize, c: char) -> (r: Option<usize>)
    requires
        from <= to <= v@.len(),
    ensures
        match r {
            Some(i) => from <= i < to && index_of(v@.subrange(from as int, to as int), c) == i - from,
            None => index_of(v@.subrange(from as int, to as int), c) == -1,
        },
{
    let mut i: usize = from;
    while i < to
        invariant
            from <= i <= to <= v@.len(),
            forall|j: int| from <= j < i ==> v@[j] != c,
        decreases to - i,
    {
        if v[i] == c {
            proof {
                let s = v@.subrange(from as int, to as int);
                assert forall|j: int| 0 <= j < i - from implies s[j] != c by {
                    assert(s[j] == v@[from + j]);
                }
                lemma_index_of_found(s, c, i - from);
            }
            return Some(i);
        }
        i += 1;
    }
    proof {
        let s = v@.subrange(from as int, to as int);
        assert forall|j: int| 0 <= j < s.len() implies s[j] != c by {
            assert(s[j] == v@[from + j]);
        }
        lemma_index_of_absent(s, c);
    }
    None
}

fn sub_vec(v: &Vec<char>, from: usize, to: usize) -> (r: Vec<char>)
    requires
        from <= to <= v@.len(),
    ensures
        r@ == v@.subrange(from as int, to as int),
{
    let mut r: Vec<char> = Vec::new();
    let mut i: usize = from;
    while i < to
        invariant
            from <= i <= to <= v@.len(),
            r@ == v@.subrange(from as int, i as int),
        decreases to - i,
    {
        r.push(v[i]);
        proof {
            assert(v@.subrange(from as int, i + 1) == v@.subrange(from as int, i as int).push(v@[i as int]));
        }
        i += 1;
    }
    r
}

proof fn lemma_version_prefix_take(s: Seq<char>, n: int)
    requires
        0 <= n <= s.len(),
        forall|j: int| 0 <= j < n ==> is_version_char(#[trigger] s[j]),
        n == s.len() || !is_version_char(s[n]),
    ensures
        version_prefix(s) == s.take(n),
    decreases n,
{
    if n > 0 {
        assert forall|j: int| 0 <= j < n - 1 implies is_version_char(#[trigger] s.drop_first()[j]) by {
            assert(s.drop_first()[j] == s[j + 1]);
        }
        if n < s.len() {
            assert(s.drop_first()[n - 1] == s[n]);
        }
        lemma_version_prefix_take(s.drop_first(), n - 1);
        assert(seq![s[0]] + s.drop_first().take(n - 1) == s.take(n));
    } else {
        assert(s.take(0) == Seq::<char>::empty());
    }
}

/// The dot-separated field of `v` starting at `from` (up to the next dot or
/// the end), and where the next field starts.
fn field_at(v: &Vec<char>, from: usize) -> (r: (Vec<char>, Option<usize>))
    requires
        from <= v@.len(),
    ensures
        r.0@ == before_dot(v@.skip(from as int)),
        match r.1 {
            Some(n) => from < n <= v@.len() && after_dot(v@.skip(from as int)) == Some(v@.skip(n as int)),
            None => after_dot(v@.skip(from as int)) is None,
        },
{
    let len = v.len();
    let found = find_char(v, from, len, '.');
    proof {
        assert(v@.subrange(from as int, len as int) == v@.skip(from as int));
    }
    match found {
        Some(i) => {
            let f = sub_vec(v, from, i);
            proof {
                assert(v@.skip(from as int).take(i - from) == v@.subrange(from as int, i as int));
                assert(v@.skip(from as int).skip(i - from + 1) == v@.skip(i + 1));
            }
            (f, Some(i + 1))
        },
        None => {
            let f = sub_vec(v, from, len);
            (f, None)
        },
    }
}

pub fn parse_initialize_user_agent(value: &str) -> (r: Option<(String, SemVerTriplet)>)
    ensures
        match parsed_user_agent(value@) {
            None => r is None,
            Some(p) => r matches Some(q) && q.0@ == p.0 && q.1 == p.1,
        },
{
    let chars = chars_of(value);
    let len = chars.len();
    let slash = match find_char(&chars, 0, len, '/') {
        Some(i) => i,
        None => {
            proof {
                assert(chars@.subrange(0, len as int) == value@);
            }
            return None;
        },
    };
    proof {
        assert(chars@.subrange(0, len as int) == value@);
    }
    let head = sub_vec(&chars, 0, slash);
    let (a, b) = trim_bounds(&head);
    let product = string_from_range(&head, a, b);
    proof {
        assert(head@ == value@.take(slash as int));
    }
    if a == b {
        return None;
    }
    let mut end: usize = slash + 1;
    while end < len && (('0' <= chars[end] && chars[end] <= '9') || chars[end] == '.')
        invariant
            slash + 1 <= end <= len,
            len == chars@.len(),
            forall|j: int| slash + 1 <= j < end ==> is_version_char(#[trigger] chars@[j]),
        decreases len - end,
    {
        end += 1;
    }
    let version = sub_vec(&chars, slash + 1, end);
    proof {
        let rest = value@.skip(slash + 1);
        assert forall|j: int| 0 <= j < (end - slash - 1) implies is_version_char(#[trigger] rest[j]) by {
            assert(rest[j] == chars@[slash + 1 + j]);
        }
        if end < len {
            assert(rest[end - slash - 1] == chars@[end as int]);
        }
        lemma_version_prefix_take(rest, end - slash - 1);
        assert(rest.take(end - slash - 1) == chars@.subrange(slash + 1, end as int));
    }
    let (f1, n1) = field_at(&version, 0);
    proof {
        assert(version@.skip(0) == version@);
    }
    let n1 = match n1 {
        Some(n) => n,
        None => return None,
    };
    let (f2, n2) = field_at(&version, n1);
    let n2 = match n2 {
        Some(n) => n,
        None => return None,
    };
    let (f3, _) = field_at(&version, n2);
    let major = match parse_unsigned_chars(&f1, u32::MAX as u64) {
        Some(x) => x,
        None => return None,
    };
    let minor = match parse_unsigned_chars(&f2, u32::MAX as u64) {
        Some(x) => x,
        None => return None,
    };
    let patch = match parse_unsigned_chars(&f3, u32::MAX as u64) {
        Some(x) => x,
        None => return None,
    };
    Some((product, SemVerTriplet { major: major as u32, minor: minor as u32, patch: patch as u32 }))
}

/// What the guard decides for a server user agent (`None` when the server
/// sent none).
pub open spec fn compatibility(guard: CompatibilityGuard, ua: Option<Seq<char>>, r: Result<(), ClientError>) -> bool {
    if !guard.require_initialize_user_agent && guard.min_codex_version is None {
        r is Ok
    } else {
        match ua {
            None => if guard.require_initialize_user_agent {
                r == Err::<(), ClientError>(ClientError::MissingInitializeUserAgent)
            } else {
                r is Ok
            },
            Some(s) => match parsed_user_agent(s) {
                None => r matches Err(ClientError::InvalidInitializeUserAgent(x)) && x@ == s,
                Some(p) => {
                    let codex = p.0.len() >= 6 && p.0.take(6) == "Codex "@;
                    match guard.min_codex_version {
                        Some(min) => if codex && version_lt(p.1, min) {
                            r matches Err(ClientError::IncompatibleCodexVersion { detected, required, user_agent })
                                && detected@ == decimal(p.1.major as nat) + seq!['.'] + decimal(p.1.minor as nat)
                                + seq!['.'] + decimal(p.1.patch as nat) && required@ == decimal(
                                min.major as nat,
                            ) + seq!['.'] + decimal(min.minor as nat) + seq!['.'] + decimal(
                                min.patch as nat,
                            ) && user_agent@ == s
                        } else {
                            r is Ok
                        },
                        None => r is Ok,
                    }
                },
            },
        }
    }
}

/// Check the server's user agent against the guard.
pub fn validate_runtime_compatibility(user_agent: Option<String>, guard: &CompatibilityGuard) -> (r: Result<(), ClientError>)
    ensures
        compatibility(*guard, crate::flow::opt_string_view(user_agent), r),
{
    if !guard.require_initialize_user_agent && guard.min_codex_version.is_none() {
        return Ok(());
    }
    let user_agent = match user_agent {
        Some(u) => u,
        None => {
            if guard.require_initialize_user_agent {
                return Err(ClientError::MissingInitializeUserAgent);
            }
            return Ok(());
        },
    };
    let (product, version) = match parse_initialize_user_agent(user_agent.as_str()) {
        Some(p) => p,
        None => return Err(ClientError::InvalidInitializeUserAgent(user_agent)),
    };
    let is_codex_product = starts_with(product.as_str(), "Codex ");
    proof {
        reveal_strlit("Codex ");
        assert("Codex "@.len() == 6);
    }
    if is_codex_product {
        match guard.min_codex_version {
            Some(min_required) => {
                if version.is_older_than(&min_required) {
                    return Err(
                        ClientError::IncompatibleCodexVersion {
                            detected: version.to_text(),
                            required: min_required.to_text(),
                            user_agent,
                        },
                    );
                }
            },
            None => {},
        }
    }
    Ok(())
}

/// Version order is a strict total order.
pub proof fn lemma_version_order(a: SemVerTriplet, b: SemVerTriplet, c: SemVerTriplet)
    ensures
        !version_lt(a, a),
        version_lt(a, b) && version_lt(b, c) ==> version_lt(a, c),
        a != b ==> version_lt(a, b) || version_lt(b, a),
        version_lt(a, b) ==> !version_lt(b, a),
{
}

/// A guard with a lower minimum version accepts every server that the same
/// guard with a higher minimum accepts.
pub proof fn lemma_lower_minimum_accepts_more(
    require_user_agent: bool,
    low: SemVerTriplet,
    high: SemVerTriplet,
    ua: Option<Seq<char>>,
    r_low: Result<(), ClientError>,
)
    requires
        !version_lt(high, low),
        compatibility(
            CompatibilityGuard { require_initialize_user_agent: require_user_agent, min_codex_version: Some(high) },
            ua,
            Ok(()),
        ),
        compatibility(
            CompatibilityGuard { require_initialize_user_agent: require_user_agent, min_codex_version: Some(low) },
            ua,
            r_low,
        ),
    ensures
        r_low is Ok,
{
}

} // verus!
