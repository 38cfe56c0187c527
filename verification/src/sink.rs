//! Flushing policy of the JSONL event sink.
use vstd::prelude::*;
use crate::io_policy::should_flush_after_n_events;

verus! {

/// Durability/throughput tradeoff: flush after every event, or after every
/// `events` writes (at least one).
#[derive(Clone, Copy, Debug, PartialEq, Eq, Structural)]
pub enum JsonlFlushPolicy {
    EveryEvent,
    EveryNEvents { events: u64 },
}

impl Default for JsonlFlushPolicy {
    /// Flush after every 64 events.
    fn default() -> (r: Self)
        ensures
            r == (JsonlFlushPolicy::EveryNEvents { events: 64 }),
    {
        JsonlFlushPolicy::EveryNEvents { events: 64 }
    }
}

pub open spec fn flush_due(policy: JsonlFlushPolicy, pending_writes: u64) -> bool {
    match policy {
        JsonlFlushPolicy::EveryEvent => true,
        JsonlFlushPolicy::EveryNEvents { events } => pending_writes >= (if events == 0 { 1 } else { events }),
    }
}

pub fn should_flush(policy: JsonlFlushPolicy, pending_writes: u64) -> (r: bool)
    ensures
        r == flush_due(policy, pending_writes),
{
    match policy {
        JsonlFlushPolicy::EveryEvent => true,
        JsonlFlushPolicy::EveryNEvents { events } => should_flush_after_n_events(pending_writes, events),
    }
}

/// Writes counted by the sink since its last flush.
#[derive(Clone, Copy, Debug, PartialEq, Eq, Structural)]
pub struct SinkWriteState {
    pub pending_writes: u64,
    pub flush_policy: JsonlFlushPolicy,
}

impl SinkWriteState {
    pub fn new(flush_policy: JsonlFlushPolicy) -> (r: Self)
        ensures
            r.pending_writes == 0,
            r.flush_policy == flush_policy,
    {
        SinkWriteState { pending_writes: 0, flush_policy }
    }

    /// Count one written line; returns whether the file is to be flushed now,
    /// in which case the count starts again from zero.
    pub fn record_write(&mut self) -> (flush: bool)
        ensures
            final(self).flush_policy == old(self).flush_policy,
            flush == flush_due(
                old(self).flush_policy,
                (if old(self).pending_writes == u64::MAX { u64::MAX } else { (old(self).pending_writes + 1) as u64 }),
            ),
            flush ==> final(self).pending_writes == 0,
            !flush ==> final(self).pending_writes == (if old(self).pending_writes == u64::MAX {
                u64::MAX
            } else {
                (old(self).pending_writes + 1) as u64
            }),
    {
        self.pending_writes = if self.pending_writes == u64::MAX { u64::MAX } else { self.pending_writes + 1 };
        let flush = should_flush(self.flush_policy, self.pending_writes);
        if flush {
            self.pending_writes = 0;
        }
        flush
    }
}

/// Under a policy of `n` events, no more than `n - 1` writes stay unflushed.
pub proof fn lemma_unflushed_bounded(policy: JsonlFlushPolicy, before: SinkWriteState, after: SinkWriteState, flushed: bool)
    requires
        before.flush_policy == policy,
        policy matches JsonlFlushPolicy::EveryNEvents { events } && before.pending_writes < (if events == 0 { 1 } else { events }),
        after.flush_policy == policy,
        flushed == flush_due(policy, (before.pending_writes + 1) as u64),
        flushed ==> after.pending_writes == 0,
        !flushed ==> after.pending_writes == before.pending_writes + 1,
    ensures
        policy matches JsonlFlushPolicy::EveryNEvents { events } && after.pending_writes < (if events == 0 { 1 } else { events }),
{
}

} // verus!
