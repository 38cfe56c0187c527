//! Runtime counters for snapshots and long-run regression checks, with the
//! sink latency histogram and its 95th-percentile estimate.
use vstd::prelude::*;

verus! {

/// Number of latency buckets.
pub const SINK_LATENCY_BUCKET_COUNT: usize = 8;

/// Inclusive upper bound, in microseconds, of latency bucket `i`.
pub open spec fn bucket_upper(i: int) -> u64 {
    if i == 0 {
        100
    } else if i == 1 {
        250
    } else if i == 2 {
        500
    } else if i == 3 {
        1_000
    } else if i == 4 {
        2_500
    } else if i == 5 {
        5_000
    } else if i == 6 {
        10_000
    } else {
        u64::MAX
    }
}

/// Upper bound of bucket `i` (`i < 8`).
pub fn sink_latency_bucket_upper(i: usize) -> (r: u64)
    requires
        i < SINK_LATENCY_BUCKET_COUNT,
    ensures
        r == bucket_upper(i as int),
{
    if i == 0 {
        100
    } else if i == 1 {
        250
    } else if i == 2 {
        500
    } else if i == 3 {
        1_000
    } else if i == 4 {
        2_500
    } else if i == 5 {
        5_000
    } else if i == 6 {
        10_000
    } else {
        u64::MAX
    }
}

/// Bucket of a latency: the first bucket whose upper bound is at least the latency.
pub fn sink_latency_bucket_index(latency_micros: u64) -> (r: usize)
    ensures
        r < SINK_LATENCY_BUCKET_COUNT,
        latency_micros <= bucket_upper(r as int),
        forall|j: int| 0 <= j < r ==> bucket_upper(j) < latency_micros,
{
    let mut i: usize = 0;
    while i < SINK_LATENCY_BUCKET_COUNT
        invariant
            i <= SINK_LATENCY_BUCKET_COUNT,
            forall|j: int| 0 <= j < i ==> bucket_upper(j) < latency_micros,
        decreases SINK_LATENCY_BUCKET_COUNT - i,
    {
        if latency_micros <= sink_latency_bucket_upper(i) {
            return i;
        }
        i += 1;
    }
    assert(bucket_upper(7) < latency_micros);
    SINK_LATENCY_BUCKET_COUNT - 1
}

/// Counter decrement that stays at zero.
pub fn saturating_dec(v: &mut u64)
    ensures
        *final(v) == (if *old(v) == 0 {
            0
        } else {
            (*old(v) - 1) as u64
        }),
    no_unwind
{
    if *v > 0 {
        *v = *v - 1;
    }
}

/// Raise a running maximum to `candidate` when it is larger.
pub fn max_update(v: &mut u64, candidate: u64)
    ensures
        *final(v) == (if candidate > *old(v) {
            candidate
        } else {
            *old(v)
        }),
    no_unwind
{
    if candidate > *v {
        *v = candidate;
    }
}

/// `x + 1` modulo 2^64 (the wrap of an atomic increment).
pub open spec fn inc(x: u64) -> u64 {
    if x == u64::MAX {
        0
    } else {
        (x + 1) as u64
    }
}

pub fn wrapping_inc(x: u64) -> (r: u64)
    ensures
        r == inc(x),
{
    if x == u64::MAX {
        0
    } else {
        x + 1
    }
}

/// Sum of the first `n` bucket counts.
pub open spec fn bucket_sum(b: Seq<u64>, n: int) -> int
    decreases n,
{
    if n <= 0 {
        0
    } else {
        bucket_sum(b, n - 1) + b[n - 1]
    }
}

/// Running total with saturation at `u64::MAX`.
pub open spec fn capped(x: int) -> int {
    if x > u64::MAX {
        u64::MAX as int
    } else {
        x
    }
}

/// `ceil(min(total * 95, u64::MAX) / 100)`: writes that must lie at or below the p95 bound.
pub open spec fn p95_threshold(total: u64) -> int {
    let scaled = capped(total * 95);
    (scaled + 99) / 100
}

/// 95th-percentile estimate: the upper bound of the first bucket whose
/// cumulative count (saturating) reaches the threshold; 0 without writes.
pub open spec fn p95_of(b: Seq<u64>, total: u64) -> u64 {
    if total == 0 {
        0
    } else {
        p95_from(b, total, 0)
    }
}

pub open spec fn p95_from(b: Seq<u64>, total: u64, i: int) -> u64
    decreases 8 - i,
{
    if i >= 8 {
        u64::MAX
    } else if capped(bucket_sum(b, i + 1)) >= p95_threshold(total) {
        bucket_upper(i)
    } else {
        p95_from(b, total, i + 1)
    }
}

/// Integer counters of one snapshot.
#[derive(Clone, Copy, Debug, PartialEq, Eq)]
pub struct RuntimeMetricsCounts {
    pub uptime_millis: u64,
    pub ingress_total: u64,
    pub pending_rpc_count: u64,
    pub pending_server_request_count: u64,
    pub detached_task_init_failed_count: u64,
    pub event_sink_queue_depth: u64,
    pub event_sink_queue_dropped: u64,
    pub broadcast_send_failed: u64,
    pub sink_write_count: u64,
    pub sink_write_error_count: u64,
    pub sink_latency_total_micros: u64,
    pub sink_latency_p95_micros: u64,
    pub sink_latency_max_micros: u64,
}

/// Runtime counters; every update is O(1).
pub struct RuntimeMetrics {
    start_unix_millis: i64,
    ingress_total: u64,
    pending_rpc_count: u64,
    pending_server_request_count: u64,
    detached_task_init_failed_count: u64,
    event_sink_queue_depth: u64,
    event_sink_queue_dropped: u64,
    broadcast_send_failed: u64,
    sink_write_count: u64,
    sink_write_error_count: u64,
    sink_latency_total_micros: u64,
    sink_latency_max_micros: u64,
    sink_latency_buckets: Vec<u64>,
}

impl RuntimeMetrics {
    /// The histogram has one count per latency bucket.
    #[verifier::type_invariant]
    pub closed spec fn wf(&self) -> bool {
        self.sink_latency_buckets@.len() == SINK_LATENCY_BUCKET_COUNT
    }

    pub closed spec fn start(&self) -> i64 {
        self.start_unix_millis
    }

    pub closed spec fn ingress(&self) -> u64 {
        self.ingress_total
    }

    pub closed spec fn pending_rpc(&self) -> u64 {
        self.pending_rpc_count
    }

    pub closed spec fn pending_server_requests(&self) -> u64 {
        self.pending_server_request_count
    }

    pub closed spec fn detached_failures(&self) -> u64 {
        self.detached_task_init_failed_count
    }

    pub closed spec fn queue_depth(&self) -> u64 {
        self.event_sink_queue_depth
    }

    pub closed spec fn queue_dropped(&self) -> u64 {
        self.event_sink_queue_dropped
    }

    pub closed spec fn broadcast_failed(&self) -> u64 {
        self.broadcast_send_failed
    }

    pub closed spec fn writes(&self) -> u64 {
        self.sink_write_count
    }

    pub closed spec fn write_errors(&self) -> u64 {
        self.sink_write_error_count
    }

    pub closed spec fn latency_total(&self) -> u64 {
        self.sink_latency_total_micros
    }

    pub closed spec fn latency_max(&self) -> u64 {
        self.sink_latency_max_micros
    }

    pub closed spec fn buckets(&self) -> Seq<u64> {
        self.sink_latency_buckets@
    }

    /// All counters except the one named by `which` are unchanged.
    pub open spec fn same_except(&self, other: &Self, which: int) -> bool {
        &&& self.start() == other.start()
        &&& (which != 0 ==> self.ingress() == other.ingress())
        &&& (which != 1 ==> self.pending_rpc() == other.pending_rpc())
        &&& (which != 2 ==> self.pending_server_requests() == other.pending_server_requests())
        &&& (which != 3 ==> self.detached_failures() == other.detached_failures())
        &&& (which != 4 ==> self.queue_depth() == other.queue_depth())
        &&& (which != 5 ==> self.queue_dropped() == other.queue_dropped())
        &&& (which != 6 ==> self.broadcast_failed() == other.broadcast_failed())
        &&& (which != 7 ==> {
            &&& self.writes() == other.writes()
            &&& self.write_errors() == other.write_errors()
            &&& self.latency_total() == other.latency_total()
            &&& self.latency_max() == other.latency_max()
            &&& self.buckets() == other.buckets()
        })
    }

    /// Zeroed counters started at `start_unix_millis`.
    pub fn new(start_unix_millis: i64) -> (r: Self)
        ensures
            r.start() == start_unix_millis,
            r.ingress() == 0,
            r.pending_rpc() == 0,
            r.pending_server_requests() == 0,
            r.detached_failures() == 0,
            r.queue_depth() == 0,
            r.queue_dropped() == 0,
            r.broadcast_failed() == 0,
            r.writes() == 0,
            r.write_errors() == 0,
            r.latency_total() == 0,
            r.latency_max() == 0,
            r.buckets() == Seq::new(8, |i: int| 0u64),
    {
        let mut buckets: Vec<u64> = Vec::new();
        let mut i: usize = 0;
        while i < SINK_LATENCY_BUCKET_COUNT
            invariant
                i <= SINK_LATENCY_BUCKET_COUNT,
                buckets@ == Seq::new(i as nat, |j: int| 0u64),
            decreases SINK_LATENCY_BUCKET_COUNT - i,
        {
            buckets.push(0);
            i += 1;
            proof {
                assert(buckets@ =~= Seq::new(i as nat, |j: int| 0u64));
            }
        }
        RuntimeMetrics {
            start_unix_millis,
            ingress_total: 0,
            pending_rpc_count: 0,
            pending_server_request_count: 0,
            detached_task_init_failed_count: 0,
            event_sink_queue_depth: 0,
            event_sink_queue_dropped: 0,
            broadcast_send_failed: 0,
            sink_write_count: 0,
            sink_write_error_count: 0,
            sink_latency_total_micros: 0,
            sink_latency_max_micros: 0,
            sink_latency_buckets: buckets,
        }
    }

    /// One inbound message.
    pub fn record_ingress(&mut self)
        ensures
            final(self).same_except(old(self), 0),
            final(self).ingress() == inc(old(self).ingress()),
    {
        proof {
            use_type_invariant(&*self);
        }
        self.ingress_total = wrapping_inc(self.ingress_total);
    }

    pub fn inc_pending_rpc(&mut self)
        ensures
            final(self).same_except(old(self), 1),
            final(self).pending_rpc() == inc(old(self).pending_rpc()),
    {
        proof {
            use_type_invariant(&*self);
        }
        self.pending_rpc_count = wrapping_inc(self.pending_rpc_count);
    }

    /// Decrement that stops at zero.
    pub fn dec_pending_rpc(&mut self)
        ensures
            final(self).same_except(old(self), 1),
            final(self).pending_rpc() == (if old(self).pending_rpc() == 0 {
                0
            } else {
                (old(self).pending_rpc() - 1) as u64
            }),
    {
        proof {
            use_type_invariant(&*self);
        }
        saturating_dec(&mut self.pending_rpc_count);
    }

    pub fn set_pending_rpc_count(&mut self, count: u64)
        ensures
            final(self).same_except(old(self), 1),
            final(self).pending_rpc() == count,
    {
        proof {
            use_type_invariant(&*self);
        }
        self.pending_rpc_count = count;
    }

    pub fn inc_pending_server_request(&mut self)
        ensures
            final(self).same_except(old(self), 2),
            final(self).pending_server_requests() == inc(old(self).pending_server_requests()),
    {
        proof {
            use_type_invariant(&*self);
        }
        self.pending_server_request_count = wrapping_inc(self.pending_server_request_count);
    }

    /// Decrement that stops at zero.
    pub fn dec_pending_server_request(&mut self)
        ensures
            final(self).same_except(old(self), 2),
            final(self).pending_server_requests() == (if old(self).pending_server_requests() == 0 {
                0
            } else {
                (old(self).pending_server_requests() - 1) as u64
            }),
    {
        proof {
            use_type_invariant(&*self);
        }
        saturating_dec(&mut self.pending_server_request_count);
    }

    pub fn set_pending_server_request_count(&mut self, count: u64)
        ensures
            final(self).same_except(old(self), 2),
            final(self).pending_server_requests() == count,
    {
        proof {
            use_type_invariant(&*self);
        }
        self.pending_server_request_count = count;
    }

    pub fn record_detached_task_init_failed(&mut self)
        ensures
            final(self).same_except(old(self), 3),
            final(self).detached_failures() == inc(old(self).detached_failures()),
    {
        proof {
            use_type_invariant(&*self);
        }
        self.detached_task_init_failed_count = wrapping_inc(self.detached_task_init_failed_count);
    }

    pub fn inc_event_sink_queue_depth(&mut self)
        ensures
            final(self).same_except(old(self), 4),
            final(self).queue_depth() == inc(old(self).queue_depth()),
    {
        proof {
            use_type_invariant(&*self);
        }
        self.event_sink_queue_depth = wrapping_inc(self.event_sink_queue_depth);
    }

    /// Decrement that stops at zero.
    pub fn dec_event_sink_queue_depth(&mut self)
        ensures
            final(self).same_except(old(self), 4),
            final(self).queue_depth() == (if old(self).queue_depth() == 0 {
                0
            } else {
                (old(self).queue_depth() - 1) as u64
            }),
    {
        proof {
            use_type_invariant(&*self);
        }
        saturating_dec(&mut self.event_sink_queue_depth);
    }

    pub fn record_event_sink_drop(&mut self)
        ensures
            final(self).same_except(old(self), 5),
            final(self).queue_dropped() == inc(old(self).queue_dropped()),
    {
        proof {
            use_type_invariant(&*self);
        }
        self.event_sink_queue_dropped = wrapping_inc(self.event_sink_queue_dropped);
    }

    pub fn record_broadcast_send_failed(&mut self)
        ensures
            final(self).same_except(old(self), 6),
            final(self).broadcast_failed() == inc(old(self).broadcast_failed()),
    {
        proof {
            use_type_invariant(&*self);
        }
        self.broadcast_send_failed = wrapping_inc(self.broadcast_send_failed);
    }

    /// One sink write attempt with its latency: counts, error count, latency
    /// total, running maximum and the latency's histogram bucket.
    pub fn record_sink_write(&mut self, latency_micros: u64, is_error: bool)
        ensures
            final(self).same_except(old(self), 7),
            final(self).writes() == inc(old(self).writes()),
            final(self).write_errors() == (if is_error {
                inc(old(self).write_errors())
            } else {
                old(self).write_errors()
            }),
            final(self).latency_total() == old(self).latency_total().wrapping_add(latency_micros),
            final(self).latency_max() == (if latency_micros > old(self).latency_max() {
                latency_micros
            } else {
                old(self).latency_max()
            }),
            exists|k: int|
                0 <= k < 8 && latency_micros <= bucket_upper(k) && (forall|j: int|
                    0 <= j < k ==> bucket_upper(j) < latency_micros) && final(self).buckets()
                    == old(self).buckets().update(k, inc(old(self).buckets()[k])),
    {
        proof {
            use_type_invariant(&*self);
        }
        self.sink_write_count = wrapping_inc(self.sink_write_count);
        if is_error {
            self.sink_write_error_count = wrapping_inc(self.sink_write_error_count);
        }
        self.sink_latency_total_micros = self.sink_latency_total_micros.wrapping_add(latency_micros);
        max_update(&mut self.sink_latency_max_micros, latency_micros);
        let k = sink_latency_bucket_index(latency_micros);
        let cur = self.sink_latency_buckets[k];
        let mut buckets = self.sink_latency_buckets.clone();
        proof {
            assert(buckets@ =~= self.sink_latency_buckets@);
        }
        buckets.set(k, wrapping_inc(cur));
        self.sink_latency_buckets = buckets;
        assert(self.sink_latency_buckets@ == old(self).sink_latency_buckets@.update(k as int, inc(cur)));
    }

    /// 95th-percentile sink latency estimate from the histogram.
    pub fn sink_latency_p95_micros(&self) -> (r: u64)
        ensures
            r == p95_of(self.buckets(), self.writes()),
    {
        proof {
            use_type_invariant(self);
        }
        let total = self.sink_write_count;
        if total == 0 {
            return 0;
        }
        let scaled: u64 = if total > u64::MAX / 95 {
            u64::MAX
        } else {
            total * 95
        };
        let threshold: u64 = scaled / 100 + if scaled % 100 == 0 {
            0
        } else {
            1
        };
        assert(threshold == p95_threshold(total)) by (nonlinear_arith)
            requires
                scaled == capped(total * 95),
                threshold == scaled / 100 + if scaled % 100 == 0 {
                    0int
                } else {
                    1int
                },
        ;
        let mut cumulative: u64 = 0;
        let mut i: usize = 0;
        while i < SINK_LATENCY_BUCKET_COUNT
            invariant
                self.wf(),
                total == self.writes(),
                total > 0,
                threshold == p95_threshold(total),
                i <= SINK_LATENCY_BUCKET_COUNT,
                cumulative as int == capped(bucket_sum(self.buckets(), i as int)),
                p95_from(self.buckets(), total, i as int) == p95_from(self.buckets(), total, 0),
            decreases SINK_LATENCY_BUCKET_COUNT - i,
        {
            cumulative = cumulative.saturating_add(self.sink_latency_buckets[i]);
            if cumulative >= threshold {
                return sink_latency_bucket_upper(i);
            }
            i += 1;
        }
        u64::MAX
    }

    /// Integer counters at `now_unix_millis` (uptime is 0 when the clock is not past the start).
    pub fn snapshot_counts(&self, now_unix_millis: i64) -> (r: RuntimeMetricsCounts)
        ensures
            r.uptime_millis == (if now_unix_millis <= self.start() {
                0
            } else {
                (now_unix_millis - self.start()) as u64
            }),
            r.ingress_total == self.ingress(),
            r.pending_rpc_count == self.pending_rpc(),
            r.pending_server_request_count == self.pending_server_requests(),
            r.detached_task_init_failed_count == self.detached_failures(),
            r.event_sink_queue_depth == self.queue_depth(),
            r.event_sink_queue_dropped == self.queue_dropped(),
            r.broadcast_send_failed == self.broadcast_failed(),
            r.sink_write_count == self.writes(),
            r.sink_write_error_count == self.write_errors(),
            r.sink_latency_total_micros == self.latency_total(),
            r.sink_latency_p95_micros == p95_of(self.buckets(), self.writes()),
            r.sink_latency_max_micros == self.latency_max(),
    {
        let uptime_millis: u64 = if now_unix_millis <= self.start_unix_millis {
            0
        } else {
            (now_unix_millis as i128 - self.start_unix_millis as i128) as u64
        };
        RuntimeMetricsCounts {
            uptime_millis,
            ingress_total: self.ingress_total,
            pending_rpc_count: self.pending_rpc_count,
            pending_server_request_count: self.pending_server_request_count,
            detached_task_init_failed_count: self.detached_task_init_failed_count,
            event_sink_queue_depth: self.event_sink_queue_depth,
            event_sink_queue_dropped: self.event_sink_queue_dropped,
            broadcast_send_failed: self.broadcast_send_failed,
            sink_write_count: self.sink_write_count,
            sink_write_error_count: self.sink_write_error_count,
            sink_latency_total_micros: self.sink_latency_total_micros,
            sink_latency_p95_micros: self.sink_latency_p95_micros(),
            sink_latency_max_micros: self.sink_latency_max_micros,
        }
    }
}

} // verus!
