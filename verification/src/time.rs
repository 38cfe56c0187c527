//! Durations as the runtime builds and inspects them.
use vstd::prelude::*;
use std::time::Duration;

verus! {

/// The duration of `ms` milliseconds, as `Duration::from_millis` builds it.
pub uninterp spec fn millis_duration(ms: u64) -> Duration;

/// The duration of `secs` seconds, as `Duration::from_secs` builds it.
pub uninterp spec fn secs_duration(secs: u64) -> Duration;

/// Whether a duration spans no time (`Duration::is_zero`).
pub uninterp spec fn zero_duration(d: Duration) -> bool;

/// `Duration::from_millis`; the duration is zero exactly for 0 ms.
#[verifier::external_body]
pub(crate) fn duration_from_millis(ms: u64) -> (r: Duration)
    ensures
        r == millis_duration(ms),
        zero_duration(r) == (ms == 0),
{
    Duration::from_millis(ms)
}

/// `Duration::from_secs`; the duration is zero exactly for 0 s.
#[verifier::external_body]
pub(crate) fn duration_from_secs(secs: u64) -> (r: Duration)
    ensures
        r == secs_duration(secs),
        zero_duration(r) == (secs == 0),
{
    Duration::from_secs(secs)
}

/// `Duration::is_zero`.
#[verifier::external_body]
pub(crate) fn duration_is_zero(d: &Duration) -> (r: bool)
    ensures
        r == zero_duration(*d),
{
    d.is_zero()
}

} // verus!
