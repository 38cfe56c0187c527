use codexus::metrics::{max_update, saturating_dec, sink_latency_bucket_index, sink_latency_bucket_upper, RuntimeMetrics};

#[test]
fn snapshot_computes_p95_from_histogram() {
    let mut metrics = RuntimeMetrics::new(0);
    for _ in 0..95 {
        metrics.record_sink_write(80, false);
    }
    for _ in 0..5 {
        metrics.record_sink_write(8_000, false);
    }

    let snapshot = metrics.snapshot_counts(2_000);
    assert_eq!(snapshot.sink_write_count, 100);
    assert_eq!(snapshot.sink_latency_p95_micros, 100);
    assert_eq!(snapshot.sink_latency_max_micros, 8_000);
    assert_eq!(snapshot.sink_latency_total_micros, 95 * 80 + 5 * 8_000);
    assert_eq!(snapshot.uptime_millis, 2_000);
}

#[test]
fn pending_counters_do_not_underflow() {
    let mut metrics = RuntimeMetrics::new(0);
    metrics.dec_pending_rpc();
    metrics.dec_pending_server_request();
    let snapshot = metrics.snapshot_counts(1_000);
    assert_eq!(snapshot.pending_rpc_count, 0);
    assert_eq!(snapshot.pending_server_request_count, 0);
}

#[test]
fn snapshot_tracks_detached_task_init_failures() {
    let mut metrics = RuntimeMetrics::new(0);
    metrics.record_detached_task_init_failed();
    metrics.record_detached_task_init_failed();

    let snapshot = metrics.snapshot_counts(1_000);
    assert_eq!(snapshot.detached_task_init_failed_count, 2);
}

#[test]
fn snapshot_before_start_has_zero_uptime_and_counts_errors() {
    let mut metrics = RuntimeMetrics::new(5_000);
    metrics.record_sink_write(10, true);
    metrics.inc_pending_rpc();
    metrics.inc_pending_rpc();
    metrics.dec_pending_rpc();
    let snapshot = metrics.snapshot_counts(1_000);
    assert_eq!(snapshot.uptime_millis, 0);
    assert_eq!(snapshot.sink_write_error_count, 1);
    assert_eq!(snapshot.pending_rpc_count, 1);
}

#[test]
fn latency_buckets_are_monotone_and_cover_values() {
    assert_eq!(sink_latency_bucket_index(0), 0);
    let i = sink_latency_bucket_index(80);
    assert!(80 <= sink_latency_bucket_upper(i));
    assert_eq!(sink_latency_bucket_upper(i), 100);
    let mut v = 3u64;
    saturating_dec(&mut v);
    assert_eq!(v, 2);
    let mut z = 0u64;
    saturating_dec(&mut z);
    assert_eq!(z, 0);
    max_update(&mut v, 9);
    assert_eq!(v, 9);
    max_update(&mut v, 4);
    assert_eq!(v, 9);
}
