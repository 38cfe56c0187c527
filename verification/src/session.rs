//! Local state of a session handle: whether it is closed, and the single
//! close that archives its thread (later closes return the stored outcome).
use vstd::prelude::*;
use crate::errors::{RpcError, rpc_error_eq};
use crate::prompt::PromptRunError;

verus! {

/// Calls on a closed session are refused with `session is closed`.
pub fn ensure_session_open(closed: bool) -> (r: Result<(), RpcError>)
    ensures
        !closed ==> r is Ok,
        closed ==> (r matches Err(RpcError::InvalidRequest(m)) && m@ == "session is closed"@),
{
    if closed {
        return Err(RpcError::InvalidRequest("session is closed".to_owned()));
    }
    Ok(())
}

/// What a call to close does.
#[derive(Debug, PartialEq)]
pub enum SessionCloseState {
    /// An earlier close finished: return its outcome.
    ReturnCached(Result<(), RpcError>),
    /// First close: archive the thread.
    StartClosing,
}

pub open spec fn outcome_eq(a: Result<(), RpcError>, b: Result<(), RpcError>) -> bool {
    match (a, b) {
        (Ok(()), Ok(())) => true,
        (Err(x), Err(y)) => rpc_error_eq(x, y),
        _ => false,
    }
}

pub fn clone_outcome(r: &Result<(), RpcError>) -> (c: Result<(), RpcError>)
    ensures
        outcome_eq(*r, c),
{
    match r {
        Ok(()) => Ok(()),
        Err(e) => Err(e.clone()),
    }
}

pub fn next_close_state(cached: Option<&Result<(), RpcError>>) -> (r: SessionCloseState)
    ensures
        match cached {
            Some(c) => r matches SessionCloseState::ReturnCached(x) && outcome_eq(*c, x),
            None => r == SessionCloseState::StartClosing,
        },
{
    match cached {
        Some(result) => SessionCloseState::ReturnCached(clone_outcome(result)),
        None => SessionCloseState::StartClosing,
    }
}

/// `s1` and `r` are what `begin_close` makes of `s0`.
pub open spec fn began_close(s0: SessionState, s1: SessionState, r: SessionCloseState) -> bool {
    match s0.close_result {
        Some(c) => r matches SessionCloseState::ReturnCached(x) && outcome_eq(c, x) && s1 == s0,
        None => r == SessionCloseState::StartClosing && s1.closed && s1.close_result is None,
    }
}

/// `s1` is `s0` with the close outcome `result` stored.
pub open spec fn stored_close(s0: SessionState, s1: SessionState, result: Result<(), RpcError>) -> bool {
    &&& s1.closed == s0.closed
    &&& s1.close_result matches Some(c) && outcome_eq(result, c)
}

/// Closed flag and the outcome of the close that archived the thread.
pub struct SessionState {
    pub closed: bool,
    pub close_result: Option<Result<(), RpcError>>,
}

impl SessionState {
    pub fn new() -> (r: Self)
        ensures
            !r.closed,
            r.close_result is None,
    {
        SessionState { closed: false, close_result: None }
    }

    pub fn is_closed(&self) -> (r: bool)
        ensures
            r == self.closed,
    {
        self.closed
    }

    pub fn ensure_open_for_prompt(&self) -> (r: Result<(), PromptRunError>)
        ensures
            !self.closed ==> r is Ok,
            self.closed ==> (r matches Err(PromptRunError::Rpc(RpcError::InvalidRequest(m)))
                && m@ == "session is closed"@),
    {
        match ensure_session_open(self.closed) {
            Ok(()) => Ok(()),
            Err(e) => Err(PromptRunError::Rpc(e)),
        }
    }

    pub fn ensure_open_for_rpc(&self) -> (r: Result<(), RpcError>)
        ensures
            !self.closed ==> r is Ok,
            self.closed ==> (r matches Err(RpcError::InvalidRequest(m)) && m@ == "session is closed"@),
    {
        ensure_session_open(self.closed)
    }

    pub fn mark_closed(&mut self)
        ensures
            final(self).closed,
            final(self).close_result == old(self).close_result,
    {
        self.closed = true;
    }

    /// Start a close: the first one marks the session closed and must archive
    /// the thread; a later one gets the stored outcome and changes nothing.
    pub fn begin_close(&mut self) -> (r: SessionCloseState)
        ensures
            began_close(*old(self), *final(self), r),
    {
        let state = next_close_state(self.close_result.as_ref());
        match state {
            SessionCloseState::StartClosing => {
                self.mark_closed();
            },
            _ => {},
        }
        state
    }

    /// Store the outcome of the archive call and return it.
    pub fn store_result(&mut self, result: Result<(), RpcError>) -> (r: Result<(), RpcError>)
        ensures
            stored_close(*old(self), *final(self), result),
            outcome_eq(result, r),
    {
        let stored = clone_outcome(&result);
        self.close_result = Some(stored);
        proof {
            lemma_outcome_eq_refl(result);
        }
        result
    }
}

proof fn lemma_outcome_eq_refl(a: Result<(), RpcError>)
    ensures
        outcome_eq(a, a),
{
    match a {
        Err(RpcError::ServerError(o)) => crate::errors::lemma_opt_json_eq_refl(o.data),
        _ => {},
    }
}

/// Closing twice archives once: the first close of a fresh session starts
/// the archive; once its outcome is stored, a second close returns that same
/// outcome and starts nothing.
pub proof fn lemma_close_is_single_flight(
    s0: SessionState,
    s1: SessionState,
    first: SessionCloseState,
    outcome: Result<(), RpcError>,
    s2: SessionState,
    s3: SessionState,
    second: SessionCloseState,
)
    requires
        s0.close_result is None,
        began_close(s0, s1, first),
        stored_close(s1, s2, outcome),
        began_close(s2, s3, second),
    ensures
        first == SessionCloseState::StartClosing,
        s3.closed,
        s3 == s2,
        second matches SessionCloseState::ReturnCached(x) && outcome_eq(outcome, x),
{
    let c = s2.close_result->0;
    let x = second->ReturnCached_0;
    lemma_outcome_eq_transitive(outcome, c, x);
}

proof fn lemma_outcome_eq_transitive(a: Result<(), RpcError>, b: Result<(), RpcError>, c: Result<(), RpcError>)
    requires
        outcome_eq(a, b),
        outcome_eq(b, c),
    ensures
        outcome_eq(a, c),
{
    match (a, b, c) {
        (Err(RpcError::ServerError(x)), Err(RpcError::ServerError(y)), Err(RpcError::ServerError(z))) => {
            crate::errors::lemma_opt_json_eq_transitive(x.data, y.data, z.data);
        },
        _ => {},
    }
}

} // verus!
