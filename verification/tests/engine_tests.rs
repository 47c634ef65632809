use network_monitor_lib::latency::{Jitter, LatencyRun, INTER_PROBE_DELAY_MS, PROBE_COUNT, PROBE_PAYLOAD_BYTES};
use network_monitor_lib::sorting::{reduce_maximum, reduce_upper_median};
use network_monitor_lib::speed::{
    calculate_speed_bps, download_plan, upload_plan, FullTestResult, StageSpec, ThroughputRun,
    TransferKind, TransferOutcome,
};

fn outcome(success: bool, bytes: u64, micros: u64) -> TransferOutcome {
    TransferOutcome { success, bytes_transferred: bytes, elapsed_micros: micros }
}

/// Drives a throughput run over its whole plan, answering every request with
/// the outcome that `f` builds from the requested size and the running
/// transfer count.
fn drive_throughput(run: &mut ThroughputRun, f: impl Fn(u64, usize) -> TransferOutcome) {
    let mut i: usize = 0;
    while let Some(size) = run.next_request() {
        let o = f(size, i);
        run.record(o);
        i += 1;
    }
}

#[test]
fn test_skip_on_non_windows() {
    assert!(true);
}

#[test]
fn speed_formula_is_bytes_times_eight_over_seconds() {
    // 125_000 bytes in one second is exactly one megabit per second.
    assert_eq!(calculate_speed_bps(125_000, 1_000_000), 1_000_000);
    // 375_000 bytes in three seconds: still one megabit per second.
    assert_eq!(calculate_speed_bps(375_000, 3_000_000), 1_000_000);
    // 101_000 bytes in 808 milliseconds: one megabit per second.
    assert_eq!(calculate_speed_bps(101_000, 808_000), 1_000_000);
}

#[test]
fn speed_of_zero_elapsed_time_is_zero() {
    assert_eq!(calculate_speed_bps(125_000, 0), 0);
    assert_eq!(calculate_speed_bps(0, 0), 0);
}

#[test]
fn download_reduction_picks_maximum_not_median() {
    let plan = vec![StageSpec { payload_size_bytes: 375_000, repetition_count: 3 }];
    let mut run = ThroughputRun::new(TransferKind::Download, plan);
    // Speeds 1.0, 5.0, 3.0 Mbit/s in arrival order.
    run.record(outcome(true, 375_000, 3_000_000));
    run.record(outcome(true, 375_000, 600_000));
    run.record(outcome(true, 375_000, 1_000_000));
    assert_eq!(run.finish(), Some(5_000_000));
}

#[test]
fn upload_reduction_picks_true_median_for_odd_count() {
    let plan = vec![StageSpec { payload_size_bytes: 105_000, repetition_count: 3 }];
    let mut run = ThroughputRun::new(TransferKind::Upload, plan);
    // Speeds 1.0, 3.0, 5.0 Mbit/s.
    run.record(outcome(true, 0, 840_000));
    run.record(outcome(true, 0, 280_000));
    run.record(outcome(true, 0, 168_000));
    assert_eq!(run.finish(), Some(3_000_000));
}

#[test]
fn upload_reduction_picks_upper_middle_for_even_count() {
    let plan = vec![StageSpec { payload_size_bytes: 105_000, repetition_count: 4 }];
    let mut run = ThroughputRun::new(TransferKind::Upload, plan);
    // Speeds 1.0, 3.0, 5.0, 7.0 Mbit/s; index 2 of the ascending order.
    run.record(outcome(true, 0, 840_000));
    run.record(outcome(true, 0, 280_000));
    run.record(outcome(true, 0, 168_000));
    run.record(outcome(true, 0, 120_000));
    assert_eq!(run.finish(), Some(5_000_000));
}

#[test]
fn latency_and_jitter_from_magnitude_sorted_rtts() {
    let mut run = LatencyRun::new();
    // Successful round trips arrive out of order: 12, 10, 20, 15 ms.
    run.record(true, 12);
    run.record(true, 10);
    run.record(true, 20);
    run.record(true, 15);
    // The remaining probes all fail.
    for _ in 4..PROBE_COUNT {
        run.record(false, 0);
    }
    let (latency, jitter) = run.finish().expect("four samples were collected");
    // Sorted: [10, 12, 15, 20]; median index 4 / 2 = 2.
    assert_eq!(latency, 15);
    // Adjacent differences 2, 3, 5: mean is 10/3.
    assert_eq!(jitter, Jitter { sum_ms: 10, intervals: 3 });
}

#[test]
fn single_rtt_sample_means_zero_jitter() {
    let mut run = LatencyRun::new();
    run.record(true, 42);
    for _ in 1..PROBE_COUNT {
        run.record(false, 0);
    }
    let (latency, jitter) = run.finish().expect("one sample was collected");
    assert_eq!(latency, 42);
    assert_eq!(jitter, Jitter { sum_ms: 0, intervals: 1 });
    assert_eq!(jitter.sum_ms as f64 / jitter.intervals as f64, 0.0);
}

#[test]
fn empty_sample_sets_yield_absent_fields() {
    let mut download = ThroughputRun::download_run();
    drive_throughput(&mut download, |_, _| outcome(false, 0, 0));
    assert_eq!(download.finish(), None);

    let mut upload = ThroughputRun::upload_run();
    drive_throughput(&mut upload, |_, _| outcome(false, 0, 0));
    assert_eq!(upload.finish(), None);

    let mut latency = LatencyRun::new();
    while latency.next_probe().is_some() {
        latency.record(false, 0);
    }
    assert_eq!(latency.finish(), None);
}

#[test]
fn short_download_never_contributes_a_sample() {
    let plan = vec![StageSpec { payload_size_bytes: 375_000, repetition_count: 3 }];
    let mut run = ThroughputRun::new(TransferKind::Download, plan);
    // A successful response that delivered fewer bytes than requested, one
    // that delivered more, and an outright failure: none may count.
    run.record(outcome(true, 374_999, 1_000_000));
    run.record(outcome(true, 375_001, 1_000_000));
    run.record(outcome(false, 375_000, 1_000_000));
    assert!(run.samples.is_empty());
    assert_eq!(run.finish(), None);
}

#[test]
fn exact_download_contributes_a_sample() {
    let plan = vec![StageSpec { payload_size_bytes: 375_000, repetition_count: 2 }];
    let mut run = ThroughputRun::new(TransferKind::Download, plan);
    run.record(outcome(true, 375_000, 1_000_000));
    run.record(outcome(false, 0, 0));
    assert_eq!(run.samples, vec![3_000_000]);
    assert_eq!(run.finish(), Some(3_000_000));
}

#[test]
fn reserved_fields_are_absent_in_every_report() {
    let empty = FullTestResult::assemble(None, None, None);
    assert!(empty.packet_loss_percent.is_none());
    assert!(empty.error.is_none());

    let full = FullTestResult::assemble(
        Some(5_000_000),
        Some(3_000_000),
        Some((15, Jitter { sum_ms: 10, intervals: 3 })),
    );
    assert!(full.packet_loss_percent.is_none());
    assert!(full.error.is_none());
    assert_eq!(full.download_bps, Some(5_000_000));
    assert_eq!(full.upload_bps, Some(3_000_000));
    assert_eq!(full.latency_ms, Some(15));
    assert_eq!(full.jitter, Some(Jitter { sum_ms: 10, intervals: 3 }));
}

#[test]
fn full_invocation_against_always_succeeding_endpoint() {
    // Every transfer succeeds instantly (1 microsecond) and delivers exactly
    // what was asked: all four measurable fields must be present.
    let mut download = ThroughputRun::download_run();
    drive_throughput(&mut download, |size, _| outcome(true, size, 1));
    let mut upload = ThroughputRun::upload_run();
    drive_throughput(&mut upload, |size, _| outcome(true, size, 1));
    let mut latency = LatencyRun::new();
    while latency.next_probe().is_some() {
        latency.record(true, 1);
    }
    let report = FullTestResult::assemble(download.finish(), upload.finish(), latency.finish());
    assert!(report.download_bps.is_some());
    assert!(report.upload_bps.is_some());
    assert!(report.latency_ms.is_some());
    assert!(report.jitter.is_some());
    assert!(report.packet_loss_percent.is_none());
    assert!(report.error.is_none());
}

#[test]
fn full_invocation_against_always_failing_endpoint() {
    let mut download = ThroughputRun::download_run();
    drive_throughput(&mut download, |_, _| outcome(false, 0, 0));
    let mut upload = ThroughputRun::upload_run();
    drive_throughput(&mut upload, |_, _| outcome(false, 0, 0));
    let mut latency = LatencyRun::new();
    while latency.next_probe().is_some() {
        latency.record(false, 0);
    }
    let report = FullTestResult::assemble(download.finish(), upload.finish(), latency.finish());
    assert!(report.download_bps.is_none());
    assert!(report.upload_bps.is_none());
    assert!(report.latency_ms.is_none());
    assert!(report.jitter.is_none());
    assert!(report.packet_loss_percent.is_none());
    assert!(report.error.is_none());
}

#[test]
fn plans_hold_the_fixed_stage_progressions() {
    let d = download_plan();
    let sizes: Vec<(u64, u64)> =
        d.iter().map(|s| (s.payload_size_bytes, s.repetition_count)).collect();
    assert_eq!(
        sizes,
        vec![
            (101_000, 10),
            (1_001_000, 8),
            (10_001_000, 6),
            (25_001_000, 4),
            (100_001_000, 1),
        ]
    );
    let u = upload_plan();
    let sizes: Vec<(u64, u64)> =
        u.iter().map(|s| (s.payload_size_bytes, s.repetition_count)).collect();
    assert_eq!(sizes, vec![(101_000, 10), (1_001_000, 8), (10_001_000, 6)]);
    // Each measurer issues one transfer per repetition, smallest size first.
    let mut run = ThroughputRun::download_run();
    assert_eq!(run.next_request(), Some(101_000));
    for _ in 0..10 {
        run.record(outcome(false, 0, 0));
    }
    assert_eq!(run.next_request(), Some(1_001_000));
}

#[test]
fn probe_pacing_constants() {
    assert_eq!(PROBE_COUNT, 20);
    assert_eq!(PROBE_PAYLOAD_BYTES, 1000);
    assert_eq!(INTER_PROBE_DELAY_MS, 50);
}

#[test]
fn reductions_on_bare_sample_vectors() {
    assert_eq!(reduce_maximum(vec![3, 1, 2]), Some(3));
    assert_eq!(reduce_upper_median(vec![3, 1, 2]), Some(2));
    assert_eq!(reduce_maximum(vec![]), None);
    assert_eq!(reduce_upper_median(vec![]), None);
    assert_eq!(reduce_upper_median(vec![7]), Some(7));
}
