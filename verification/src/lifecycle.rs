//! Teardown of a connection generation: which phase a failure is reported
//! in, and how several teardown failures combine into one error.
use vstd::prelude::*;
use crate::errors::{RuntimeError, runtime_error_text};
use crate::text::{concat, push_str};

verus! {

#[derive(Clone, Copy, Debug, PartialEq, Eq, Structural)]
pub enum TeardownContext {
    Detach,
    Shutdown,
}

impl TeardownContext {
    pub fn dispatcher_join_phase(self) -> (r: &'static str)
        ensures
            r@ == (match self {
                TeardownContext::Detach => "detach"@,
                TeardownContext::Shutdown => "shutdown"@,
            }),
    {
        match self {
            TeardownContext::Detach => "detach",
            TeardownContext::Shutdown => "shutdown",
        }
    }
}

/// Record a teardown failure: the first is kept as it is, later ones are
/// appended to its text (`<first>; <next>`).
pub fn record_teardown_error(slot: &mut Option<RuntimeError>, err: RuntimeError)
    ensures
        match *old(slot) {
            None => *final(slot) == Some(err),
            Some(existing) => *final(slot) matches Some(RuntimeError::Internal(m)) && m@
                == runtime_error_text(existing) + "; "@ + runtime_error_text(err),
        },
{
    match slot.take() {
        Some(existing) => {
            let mut m = existing.message();
            push_str(&mut m, "; ");
            let next = err.message();
            push_str(&mut m, next.as_str());
            *slot = Some(RuntimeError::Internal(m));
        },
        None => {
            *slot = Some(err);
        },
    }
}

/// Error of a failed generation start: `<phase>: <err>`, with
/// `; detach failed: <detach_err>` when cleaning up failed too.
pub fn spawn_failure_error(phase: &str, err: &RuntimeError, detach_err: Option<&RuntimeError>) -> (r: RuntimeError)
    ensures
        r matches RuntimeError::Internal(m) && m@ == phase@ + ": "@ + runtime_error_text(*err) + (match detach_err {
            Some(d) => "; detach failed: "@ + runtime_error_text(*d),
            None => Seq::<char>::empty(),
        }),
{
    let mut m = concat(phase, ": ");
    let e = err.message();
    push_str(&mut m, e.as_str());
    match detach_err {
        Some(d) => {
            push_str(&mut m, "; detach failed: ");
            let dm = d.message();
            push_str(&mut m, dm.as_str());
        },
        None => {
            proof {
                assert(m@ == m@ + Seq::<char>::empty());
            }
        },
    }
    RuntimeError::Internal(m)
}

} // verus!
