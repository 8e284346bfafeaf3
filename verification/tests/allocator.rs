use std::time::Duration;

use export_worker::allocator::{
    periodic_trim_interval, plan_trim, reclaimed, trim, AllocatorTrimResult, TrimIntervalTooShort,
    TrimPlan, TrimReason, TrimTask,
};
use export_worker::metrics::{Label, Metric, MetricUpdate};
use export_worker::time::nanos;

fn label(name: &'static str, value: &'static str) -> Label {
    Label { name, value }
}

fn total(reason: &'static str, result: &'static str) -> MetricUpdate {
    MetricUpdate::Count {
        metric: Metric::AllocatorMallocTrimTotal,
        by: 1,
        labels: vec![label("reason", reason), label("result", result)],
    }
}

fn seconds(reason: &'static str, span: Duration) -> MetricUpdate {
    MetricUpdate::Seconds {
        metric: Metric::AllocatorMallocTrimSeconds,
        span,
        labels: vec![label("reason", reason)],
    }
}

fn export_total(result: &'static str) -> MetricUpdate {
    MetricUpdate::Count {
        metric: Metric::SnapshotExportMallocTrimTotal,
        by: 1,
        labels: vec![label("result", result)],
    }
}

fn export_seconds(span: Duration) -> MetricUpdate {
    MetricUpdate::Seconds {
        metric: Metric::SnapshotExportMallocTrimSeconds,
        span,
        labels: vec![],
    }
}

fn export_bytes(amount: usize) -> MetricUpdate {
    MetricUpdate::Bytes {
        metric: Metric::SnapshotExportMallocTrimReclaimedBytes,
        amount,
        labels: vec![],
    }
}

#[test]
fn zero_disables_periodic_trims() {
    assert_eq!(periodic_trim_interval(0), Ok(None));
}

#[test]
fn short_intervals_are_refused() {
    assert_eq!(periodic_trim_interval(1), Err(TrimIntervalTooShort));
    assert_eq!(periodic_trim_interval(59), Err(TrimIntervalTooShort));
    assert_eq!(
        periodic_trim_interval(30).unwrap_err().message(),
        "ALLOCATOR_MALLOC_TRIM_INTERVAL_SECS must be zero or at least 60",
    );
}

#[test]
fn long_intervals_are_taken_as_they_are() {
    assert_eq!(periodic_trim_interval(60), Ok(Some(Duration::from_millis(60_000))));
    assert_eq!(periodic_trim_interval(90), Ok(Some(Duration::new(90, 0))));
    assert_eq!(periodic_trim_interval(u64::MAX), Ok(Some(Duration::new(u64::MAX, 0))));
}

#[test]
fn reasons_have_labels() {
    assert_eq!(TrimReason::Export.label(), "export");
    assert_eq!(TrimReason::Periodic.label(), "periodic");
}

#[test]
fn plans_follow_the_switch_and_the_platform() {
    assert_eq!(plan_trim(false, false), TrimPlan::Skip);
    assert_eq!(plan_trim(false, true), TrimPlan::Skip);
    assert_eq!(plan_trim(true, false), TrimPlan::WarnUnavailable);
    assert_eq!(plan_trim(true, true), TrimPlan::Run);
}

#[test]
fn reclaimed_is_the_difference_of_both_readings() {
    assert_eq!(reclaimed(Some(5000), Some(3500)), Some(1500));
    assert_eq!(reclaimed(Some(3500), Some(5000)), Some(0));
    assert_eq!(reclaimed(Some(usize::MAX), Some(0)), Some(usize::MAX));
    assert_eq!(reclaimed(None, Some(1)), None);
    assert_eq!(reclaimed(Some(1), None), None);
    assert_eq!(reclaimed(None, None), None);
}

#[test]
fn finished_trim_for_an_export_tells_both_sets_of_metrics() {
    let duration = Duration::from_millis(250);
    let updates = trim(
        TrimReason::Export,
        TrimTask::Finished(AllocatorTrimResult {
            duration,
            released: true,
            rss_before_bytes: Some(100),
            rss_after_bytes: Some(40),
        }),
    );
    assert_eq!(
        updates,
        vec![
            seconds("export", duration),
            export_total("released"),
            export_seconds(duration),
            export_bytes(60),
            total("export", "released"),
        ],
    );
}

#[test]
fn finished_periodic_trim_tells_only_the_allocators_metrics() {
    let duration = Duration::from_secs(2);
    let updates = trim(
        TrimReason::Periodic,
        TrimTask::Finished(AllocatorTrimResult {
            duration,
            released: false,
            rss_before_bytes: None,
            rss_after_bytes: Some(40),
        }),
    );
    assert_eq!(updates, vec![seconds("periodic", duration), total("periodic", "no_release")]);
}

#[test]
fn overlapping_trims_are_only_counted() {
    assert_eq!(
        trim(TrimReason::Export, TrimTask::Overlapped),
        vec![total("export", "overlap_skipped")],
    );
    assert_eq!(
        trim(TrimReason::Periodic, TrimTask::Overlapped),
        vec![total("periodic", "overlap_skipped")],
    );
}

#[test]
fn unfinished_trims_are_counted_as_join_errors() {
    assert_eq!(
        trim(TrimReason::Export, TrimTask::JoinFailed),
        vec![export_total("join_error"), total("export", "join_error")],
    );
    assert_eq!(
        trim(TrimReason::Periodic, TrimTask::JoinFailed),
        vec![total("periodic", "join_error")],
    );
}

#[test]
fn unknown_memory_is_not_recorded() {
    let duration = Duration::from_millis(7);
    let result = AllocatorTrimResult {
        duration,
        released: false,
        rss_before_bytes: Some(9),
        rss_after_bytes: None,
    };
    assert_eq!(result.reclaimed_bytes(), None);
    assert_eq!(
        trim(TrimReason::Export, TrimTask::Finished(result)),
        vec![
            seconds("export", duration),
            export_total("no_release"),
            export_seconds(duration),
            total("export", "no_release"),
        ],
    );
}

#[test]
fn reclaimed_bytes_of_a_trim_are_the_difference() {
    let result = AllocatorTrimResult {
        duration: Duration::from_millis(7),
        released: true,
        rss_before_bytes: Some(9),
        rss_after_bytes: Some(4),
    };
    assert_eq!(result.reclaimed_bytes(), Some(5));
}

#[test]
fn accepted_intervals_keep_order() {
    let mut latest = 0;
    for seconds in [60, 61, 3600, u64::MAX] {
        let span = periodic_trim_interval(seconds).unwrap().unwrap();
        assert!(nanos(span) >= 60_000_000_000);
        assert!(nanos(span) > latest);
        latest = nanos(span);
    }
}

#[test]
fn spans_have_a_length_in_nanoseconds() {
    assert_eq!(nanos(Duration::ZERO), 0);
    assert_eq!(nanos(Duration::new(2, 3)), 2_000_000_003);
    assert_eq!(nanos(Duration::from_millis(1500)), 1_500_000_000);
    assert_eq!(nanos(Duration::MAX), Duration::MAX.as_nanos());
}
