use std::time::Duration;

use export_worker::allocator::{trim, AllocatorTrimResult, TrimReason, TrimTask};
use export_worker::exports::fault::Failure;
use export_worker::exports::metrics::{
    log_export_failed, log_malloc_trim, log_malloc_trim_join_error,
};
use export_worker::metrics::{Label, Metric, MetricKind, MetricUpdate};

fn names(labels: &[Label]) -> Vec<&'static str> {
    labels.iter().map(|label| label.name).collect()
}

fn assert_registered(update: &MetricUpdate) {
    let (kind, metric, labels) = match update {
        MetricUpdate::Count { metric, labels, .. } => (MetricKind::Counter, *metric, labels),
        MetricUpdate::Seconds { metric, labels, .. } => {
            (MetricKind::SecondsHistogram, *metric, labels)
        },
        MetricUpdate::Bytes { metric, labels, .. } => (MetricKind::BytesHistogram, *metric, labels),
    };
    assert_eq!(metric.kind(), kind);
    assert_eq!(metric.label_names(), names(labels));
}

#[test]
fn failed_exports_are_counted_by_status() {
    let failure = Failure {
        canceled: false,
        short_msg: "InternalServerError".to_owned(),
        status: "server_error",
    };
    let update = log_export_failed(&failure);
    assert_eq!(
        update,
        MetricUpdate::Count {
            metric: Metric::SnapshotExportFailedTotal,
            by: 1,
            labels: vec![Label { name: "status", value: "server_error" }],
        },
    );
    assert_registered(&update);
}

#[test]
fn malloc_trims_are_counted_and_measured() {
    let duration = Duration::from_millis(1500);
    let updates = log_malloc_trim(duration, false, Some(0));
    assert_eq!(
        updates,
        vec![
            MetricUpdate::Count {
                metric: Metric::SnapshotExportMallocTrimTotal,
                by: 1,
                labels: vec![Label { name: "result", value: "no_release" }],
            },
            MetricUpdate::Seconds {
                metric: Metric::SnapshotExportMallocTrimSeconds,
                span: duration,
                labels: vec![],
            },
            MetricUpdate::Bytes {
                metric: Metric::SnapshotExportMallocTrimReclaimedBytes,
                amount: 0,
                labels: vec![],
            },
        ],
    );
    assert_eq!(log_malloc_trim(duration, true, None).len(), 2);
}

#[test]
fn join_errors_are_counted() {
    assert_eq!(
        log_malloc_trim_join_error(),
        MetricUpdate::Count {
            metric: Metric::SnapshotExportMallocTrimTotal,
            by: 1,
            labels: vec![Label::new("result", "join_error")],
        },
    );
}

#[test]
fn updates_fit_their_registrations() {
    for update in log_malloc_trim(Duration::from_secs(1), true, Some(12)) {
        assert_registered(&update);
    }
    assert_registered(&log_malloc_trim_join_error());
    for reason in [TrimReason::Export, TrimReason::Periodic] {
        let finished = TrimTask::Finished(AllocatorTrimResult {
            duration: Duration::from_secs(1),
            released: true,
            rss_before_bytes: Some(2),
            rss_after_bytes: Some(1),
        });
        for task in [finished, TrimTask::Overlapped, TrimTask::JoinFailed] {
            let updates = trim(reason, task);
            for update in &updates {
                assert_registered(update);
            }
            let counted = updates
                .iter()
                .filter(|update| {
                    matches!(
                        update,
                        MetricUpdate::Count { metric: Metric::AllocatorMallocTrimTotal, .. },
                    )
                })
                .count();
            assert_eq!(counted, 1);
        }
    }
}

#[test]
fn metrics_are_registered_with_name_help_and_labels() {
    let metric = Metric::AllocatorMallocTrimTotal;
    assert_eq!(metric.name(), "ALLOCATOR_MALLOC_TRIM_TOTAL");
    assert_eq!(metric.help(), "Number of glibc cleanup attempts by reason and result");
    assert_eq!(metric.label_names(), vec!["reason", "result"]);
    assert_eq!(Metric::SnapshotExportFailedTotal.name(), "SNAPSHOT_EXPORT_FAILED_TOTAL");
    assert_eq!(
        Metric::SnapshotExportFailedTotal.help(),
        "Number of snapshot export attempts that failed",
    );
    assert_eq!(Metric::SnapshotExportFailedTotal.label_names(), vec!["status"]);
    assert!(Metric::SnapshotExportMallocTrimSeconds.label_names().is_empty());
}

#[test]
fn trims_add_up() {
    let finished = || {
        TrimTask::Finished(AllocatorTrimResult {
            duration: Duration::from_secs(1),
            released: false,
            rss_before_bytes: None,
            rss_after_bytes: None,
        })
    };
    let trims = vec![
        (TrimReason::Export, finished()),
        (TrimReason::Periodic, finished()),
        (TrimReason::Export, TrimTask::Overlapped),
        (TrimReason::Export, TrimTask::JoinFailed),
        (TrimReason::Periodic, TrimTask::JoinFailed),
    ];
    let mut total = 0;
    let mut seconds = 0;
    let mut of_exports = 0;
    for (reason, task) in trims {
        for update in trim(reason, task) {
            match update {
                MetricUpdate::Count { metric: Metric::AllocatorMallocTrimTotal, by, .. } => {
                    total += by
                },
                MetricUpdate::Count { metric: Metric::SnapshotExportMallocTrimTotal, by, .. } => {
                    of_exports += by
                },
                MetricUpdate::Seconds { metric: Metric::AllocatorMallocTrimSeconds, .. } => {
                    seconds += 1
                },
                _ => {},
            }
        }
    }
    assert_eq!((total, seconds, of_exports), (5, 2, 2));
}
