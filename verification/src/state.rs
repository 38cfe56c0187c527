//! The part of the runtime state that tracks the connection and the server
//! requests awaiting an answer. Transitions build a new state and leave the
//! current one as it is.
use vstd::prelude::*;
use crate::approvals::PendingServerRequest;

verus! {

#[derive(Clone, Copy, Debug, PartialEq, Eq, Structural)]
pub enum ConnectionState {
    Starting,
    Handshaking,
    Running { generation: u64 },
    Restarting { generation: u64 },
    ShuttingDown,
    Dead,
}

/// Connection state and pending server requests, keyed by their RPC key
/// (each key at most once).
pub struct RuntimeState {
    pub connection: ConnectionState,
    pub pending_server_requests: Vec<(String, PendingServerRequest)>,
}

/// Keys of a pending table are distinct.
pub open spec fn keys_unique(m: Seq<(String, PendingServerRequest)>) -> bool {
    forall|i: int, j: int| 0 <= i < j < m.len() ==> m[i].0@ != m[j].0@
}

/// Whether key `k` is pending.
pub open spec fn has_key(m: Seq<(String, PendingServerRequest)>, k: Seq<char>) -> bool {
    exists|i: int| 0 <= i < m.len() && (#[trigger] m[i]).0@ == k
}

/// The request pending under `k`.
pub open spec fn lookup(m: Seq<(String, PendingServerRequest)>, k: Seq<char>) -> Option<PendingServerRequest>
    decreases m.len(),
{
    if m.len() == 0 {
        None
    } else if m.last().0@ == k {
        Some(m.last().1)
    } else {
        lookup(m.drop_last(), k)
    }
}

/// `after` is `before` with `req` pending under `key`.
pub open spec fn pending_inserted(
    before: Seq<(String, PendingServerRequest)>,
    after: Seq<(String, PendingServerRequest)>,
    key: Seq<char>,
    req: PendingServerRequest,
) -> bool {
    &&& keys_unique(after)
    &&& lookup(after, key) == Some(req)
    &&& forall|k: Seq<char>| k != key ==> #[trigger] lookup(after, k) == lookup(before, k)
}

/// `after` is `before` with nothing pending under `key`.
pub open spec fn pending_removed(
    before: Seq<(String, PendingServerRequest)>,
    after: Seq<(String, PendingServerRequest)>,
    key: Seq<char>,
) -> bool {
    &&& keys_unique(after)
    &&& lookup(after, key) is None
    &&& forall|k: Seq<char>| k != key ==> #[trigger] lookup(after, k) == lookup(before, k)
}

/// A key is pending exactly when a request is found under it.
pub proof fn lemma_lookup_has_key(m: Seq<(String, PendingServerRequest)>, k: Seq<char>)
    ensures
        lookup(m, k) is Some <==> has_key(m, k),
    decreases m.len(),
{
    if m.len() > 0 {
        lemma_lookup_has_key(m.drop_last(), k);
        if has_key(m, k) && m.last().0@ != k {
            let i = choose|i: int| 0 <= i < m.len() && (#[trigger] m[i]).0@ == k;
            assert(m.drop_last()[i].0@ == k);
        }
        if has_key(m.drop_last(), k) {
            let i = choose|i: int| 0 <= i < m.drop_last().len() && (#[trigger] m.drop_last()[i]).0@ == k;
            assert(m[i].0@ == k);
        }
    }
}

proof fn lemma_lookup_remove(m: Seq<(String, PendingServerRequest)>, i: int, k: Seq<char>)
    requires
        keys_unique(m),
        0 <= i < m.len(),
    ensures
        k == m[i].0@ ==> lookup(m.remove(i), k) is None,
        k != m[i].0@ ==> lookup(m.remove(i), k) == lookup(m, k),
    decreases m.len(),
{
    let r = m.remove(i);
    if i == m.len() - 1 {
        assert(r =~= m.drop_last());
        if k == m[i].0@ {
            lemma_lookup_has_key(r, k);
            if has_key(r, k) {
                let j = choose|j: int| 0 <= j < r.len() && (#[trigger] r[j]).0@ == k;
                assert(m[j].0@ == k);
            }
        }
    } else {
        assert(r.last() == m.last());
        assert(r.drop_last() =~= m.drop_last().remove(i));
        lemma_lookup_remove(m.drop_last(), i, k);
        if k == m[i].0@ {
            assert(m.last().0@ != k);
        }
    }
}

/// Reading a key after recording a request under it gives that request;
/// removing the key afterwards hides it and leaves every other key as it
/// was before the request was recorded.
pub proof fn lemma_insert_then_remove(
    s0: Seq<(String, PendingServerRequest)>,
    s1: Seq<(String, PendingServerRequest)>,
    s2: Seq<(String, PendingServerRequest)>,
    key: Seq<char>,
    req: PendingServerRequest,
)
    requires
        pending_inserted(s0, s1, key, req),
        pending_removed(s1, s2, key),
    ensures
        lookup(s1, key) == Some(req),
        lookup(s2, key) is None,
        forall|k: Seq<char>| k != key ==> #[trigger] lookup(s2, k) == lookup(s0, k),
{
    assert forall|k: Seq<char>| k != key implies #[trigger] lookup(s2, k) == lookup(s0, k) by {
        assert(lookup(s2, k) == lookup(s1, k));
    }
}

impl RuntimeState {
    /// A starting connection with nothing pending.
    pub fn new() -> (r: Self)
        ensures
            r.connection == ConnectionState::Starting,
            r.pending_server_requests@.len() == 0,
    {
        RuntimeState { connection: ConnectionState::Starting, pending_server_requests: Vec::new() }
    }

    /// The connection moved to `connection`.
    pub fn set_connection(&mut self, connection: ConnectionState)
        ensures
            final(self).connection == connection,
            final(self).pending_server_requests == old(self).pending_server_requests,
    {
        self.connection = connection;
    }

    /// Record a pending request under `key`, replacing one with the same key.
    pub fn insert_pending(&mut self, key: String, request: PendingServerRequest)
        requires
            keys_unique(old(self).pending_server_requests@),
        ensures
            final(self).connection == old(self).connection,
            pending_inserted(old(self).pending_server_requests@, final(self).pending_server_requests@, key@, request),
    {
        let ghost kv = key@;
        let ghost req = request;
        self.remove_pending(key.as_str());
        let ghost before = self.pending_server_requests@;
        self.pending_server_requests.push((key, request));
        proof {
            let after = self.pending_server_requests@;
            assert(after.drop_last() =~= before);
            assert(after.last().0@ == kv && after.last().1 == req);
            assert(lookup(after, kv) == Some(req));
            assert forall|k: Seq<char>| k != kv implies #[trigger] lookup(after, k) == lookup(
                old(self).pending_server_requests@,
                k,
            ) by {
                assert(lookup(after, k) == lookup(before, k));
            }
            assert forall|a: int, b: int| 0 <= a < b < after.len() implies after[a].0@ != after[b].0@ by {
                if b == after.len() - 1 {
                    assert(before[a] == after[a]);
                    if before[a].0@ == kv {
                        assert(has_key(before, kv));
                        lemma_lookup_has_key(before, kv);
                    }
                } else {
                    assert(before[a] == after[a] && before[b] == after[b]);
                }
            }
        }
    }

    /// Drop the pending request under `key`, if any.
    pub fn remove_pending(&mut self, key: &str)
        requires
            keys_unique(old(self).pending_server_requests@),
        ensures
            final(self).connection == old(self).connection,
            pending_removed(old(self).pending_server_requests@, final(self).pending_server_requests@, key@),
    {
        let mut i: usize = 0;
        while i < self.pending_server_requests.len()
            invariant
                i <= self.pending_server_requests@.len(),
                self.pending_server_requests@ == old(self).pending_server_requests@,
                self.connection == old(self).connection,
                keys_unique(self.pending_server_requests@),
                forall|j: int| 0 <= j < i ==> self.pending_server_requests@[j].0@ != key@,
            decreases self.pending_server_requests.len() - i,
        {
            if crate::text::str_eq(self.pending_server_requests[i].0.as_str(), key) {
                let ghost before = self.pending_server_requests@;
                self.pending_server_requests.remove(i);
                proof {
                    let after = self.pending_server_requests@;
                    assert(after == before.remove(i as int));
                    assert forall|a: int, b: int| 0 <= a < b < after.len() implies after[a].0@ != after[b].0@ by {
                        let a0 = if a < i { a } else { a + 1 };
                        let b0 = if b < i { b } else { b + 1 };
                        assert(after[a] == before[a0]);
                        assert(after[b] == before[b0]);
                    }
                    lemma_lookup_remove(before, i as int, key@);
                    assert forall|k: Seq<char>| k != key@ implies #[trigger] lookup(after, k) == lookup(before, k) by {
                        lemma_lookup_remove(before, i as int, k);
                    }
                }
                return;
            }
            i += 1;
        }
        proof {
            let m = self.pending_server_requests@;
            lemma_lookup_has_key(m, key@);
            if has_key(m, key@) {
                let j = choose|j: int| 0 <= j < m.len() && (#[trigger] m[j]).0@ == key@;
                assert(m[j].0@ != key@);
            }
        }
    }

    /// Reading the request pending under `key`.
    pub fn pending(&self, key: &str) -> (r: Option<&PendingServerRequest>)
        ensures
            match r {
                Some(p) => lookup(self.pending_server_requests@, key@) == Some(*p),
                None => lookup(self.pending_server_requests@, key@) is None,
            },
    {
        let mut i: usize = self.pending_server_requests.len();
        proof {
            assert(self.pending_server_requests@.take(i as int) =~= self.pending_server_requests@);
        }
        while i > 0
            invariant
                i <= self.pending_server_requests@.len(),
                lookup(self.pending_server_requests@, key@) == lookup(self.pending_server_requests@.take(i as int), key@),
            decreases i,
        {
            let ghost t = self.pending_server_requests@.take(i as int);
            proof {
                assert(t.drop_last() =~= self.pending_server_requests@.take(i as int - 1));
                assert(t.last() == self.pending_server_requests@[i as int - 1]);
            }
            if crate::text::str_eq(self.pending_server_requests[i - 1].0.as_str(), key) {
                return Some(&self.pending_server_requests[i - 1].1);
            }
            i -= 1;
        }
        None
    }

    /// Nothing is pending any more.
    pub fn clear_pending(&mut self)
        ensures
            final(self).connection == old(self).connection,
            final(self).pending_server_requests@.len() == 0,
    {
        self.pending_server_requests = Vec::new();
    }
}

impl Default for RuntimeState {
    fn default() -> (r: Self)
        ensures
            r.connection == ConnectionState::Starting,
            r.pending_server_requests@.len() == 0,
    {
        RuntimeState::new()
    }
}

} // verus!
