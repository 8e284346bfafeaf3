//! Metric updates of the export worker.
use std::time::Duration;

use vstd::prelude::*;

use crate::exports::fault::Failure;
use crate::metrics::{count_one, update_views, Label, LabelView, Metric, MetricUpdate, MetricUpdateView};

verus! {

/// The update that describes a failed export attempt.
pub open spec fn export_failed_update(e: Failure) -> MetricUpdateView {
    count_one(Metric::SnapshotExportFailedTotal, "status"@, e.status@)
}

/// Records a failed export attempt.
pub fn log_export_failed(e: &Failure) -> (update: MetricUpdate)
    ensures
        update@ == export_failed_update(*e),
        update matches MetricUpdate::Count { metric, by, labels } && metric
            == Metric::SnapshotExportFailedTotal && by == 1 && labels@.len() == 1
            && labels@[0].name@ == "status"@ && labels@[0].value@ == e.status@,
{
    let update = MetricUpdate::Count {
        metric: Metric::SnapshotExportFailedTotal,
        by: 1,
        labels: vec![Label::new("status", e.status)],
    };
    assert(update@ =~~= export_failed_update(*e));
    update
}

/// The updates that describe one finished `malloc_trim` after an export.
pub open spec fn malloc_trim_updates(
    duration: Duration,
    released: bool,
    reclaimed_bytes: Option<usize>,
) -> Seq<MetricUpdateView> {
    let total = count_one(
        Metric::SnapshotExportMallocTrimTotal,
        "result"@,
        if released { "released"@ } else { "no_release"@ },
    );
    let seconds = MetricUpdateView::Seconds {
        metric: Metric::SnapshotExportMallocTrimSeconds,
        span: duration,
        labels: seq![],
    };
    match reclaimed_bytes {
        Some(bytes) => seq![
            total,
            seconds,
            MetricUpdateView::Bytes {
                metric: Metric::SnapshotExportMallocTrimReclaimedBytes,
                amount: bytes,
                labels: seq![],
            },
        ],
        None => seq![total, seconds],
    }
}

/// The update that describes a `malloc_trim` task that did not finish.
pub open spec fn malloc_trim_join_error_update() -> MetricUpdateView {
    count_one(Metric::SnapshotExportMallocTrimTotal, "result"@, "join_error"@)
}

/// Records a finished `malloc_trim`: its result, its duration and, where the
/// resident memory is known on both sides, the bytes it gave back.
pub fn log_malloc_trim(
    duration: Duration,
    released: bool,
    reclaimed_bytes: Option<usize>,
) -> (updates: Vec<MetricUpdate>)
    ensures
        update_views(updates@) == malloc_trim_updates(duration, released, reclaimed_bytes),
{
    let mut updates: Vec<MetricUpdate> = Vec::new();
    updates.push(
        MetricUpdate::Count {
            metric: Metric::SnapshotExportMallocTrimTotal,
            by: 1,
            labels: vec![Label::new("result", if released { "released" } else { "no_release" })],
        },
    );
    updates.push(
        MetricUpdate::Seconds {
            metric: Metric::SnapshotExportMallocTrimSeconds,
            span: duration,
            labels: vec![],
        },
    );
    if let Some(bytes) = reclaimed_bytes {
        updates.push(
            MetricUpdate::Bytes {
                metric: Metric::SnapshotExportMallocTrimReclaimedBytes,
                amount: bytes,
                labels: vec![],
            },
        );
    }
    let ghost expected = malloc_trim_updates(duration, released, reclaimed_bytes);
    assert(update_views(updates@) =~~= expected);
    updates
}

/// Records a `malloc_trim` task that did not finish.
pub fn log_malloc_trim_join_error() -> (update: MetricUpdate)
    ensures
        update@ == malloc_trim_join_error_update(),
        update matches MetricUpdate::Count { metric, by, labels } && metric
            == Metric::SnapshotExportMallocTrimTotal && by == 1 && labels@.len() == 1
            && labels@[0].name@ == "result"@ && labels@[0].value@ == "join_error"@,
{
    let update = MetricUpdate::Count {
        metric: Metric::SnapshotExportMallocTrimTotal,
        by: 1,
        labels: vec![Label::new("result", "join_error")],
    };
    assert(update@ =~~= malloc_trim_join_error_update());
    update
}

} // verus!
