//! What holds of all metric updates and of all trims.
use std::time::Duration;

use vstd::prelude::*;

use crate::allocator::{
    is_periodic_trim_interval, spec_reclaimed, trim_details, trim_outcome, trim_total, trim_updates,
    AllocatorTrimResult, TrimIntervalTooShort, TrimReason, TrimTask, MIN_PERIODIC_TRIM_SECS,
};
use crate::exports::fault::Failure;
use crate::exports::metrics::{
    export_failed_update, malloc_trim_join_error_update, malloc_trim_updates,
};
use crate::metrics::{
    update_views, LabelView, Metric, MetricKind, MetricUpdate, MetricUpdateView,
};
use crate::time::{duration_nanos, duration_secs, duration_subsec_nanos};

verus! {

/// The count of a failed export attempt fits its metric's registration.
pub proof fn law_failed_export_update_is_registered(e: Failure)
    ensures
        export_failed_update(e).registered(),
{
    let update = export_failed_update(e);
    assert(update.labels().map_values(|label: LabelView| label.name)
        =~= update.metric().spec_label_names());
}

/// The updates of a trim after an export fit their metrics' registrations.
pub proof fn law_malloc_trim_updates_are_registered(
    duration: Duration,
    released: bool,
    reclaimed_bytes: Option<usize>,
    i: int,
)
    requires
        0 <= i < malloc_trim_updates(duration, released, reclaimed_bytes).len(),
    ensures
        malloc_trim_updates(duration, released, reclaimed_bytes)[i].registered(),
        malloc_trim_join_error_update().registered(),
{
    let update = malloc_trim_updates(duration, released, reclaimed_bytes)[i];
    assert(update.labels().map_values(|label: LabelView| label.name)
        =~= update.metric().spec_label_names());
    let error = malloc_trim_join_error_update();
    assert(error.labels().map_values(|label: LabelView| label.name)
        =~= error.metric().spec_label_names());
}

/// Every update of every trim fits its metric's registration.
pub proof fn law_trim_updates_are_registered(reason: TrimReason, task: TrimTask, i: int)
    requires
        0 <= i < trim_updates(reason, task).len(),
    ensures
        trim_updates(reason, task)[i].registered(),
{
    let update = trim_updates(reason, task)[i];
    match task {
        TrimTask::Finished(result) => {
            let reclaimed = result.spec_reclaimed_bytes();
            if reason == TrimReason::Export && 0 < i < trim_details(reason, task).len() {
                law_malloc_trim_updates_are_registered(
                    result.duration,
                    result.released,
                    reclaimed,
                    i - 1,
                );
            } else {
                assert(update.labels().map_values(|label: LabelView| label.name)
                    =~= update.metric().spec_label_names());
            }
        },
        _ => {
            assert(update.labels().map_values(|label: LabelView| label.name)
                =~= update.metric().spec_label_names());
        },
    }
}

/// Every trim, whatever its reason and however it ends, is counted exactly once
/// in the total of trims, after everything else.
pub proof fn law_every_trim_is_counted_once(reason: TrimReason, task: TrimTask, i: int)
    requires
        0 <= i < trim_updates(reason, task).len(),
    ensures
        trim_updates(reason, task)[i].metric() == Metric::AllocatorMallocTrimTotal <==> i
            == trim_updates(reason, task).len() - 1,
        trim_updates(reason, task).last() == trim_total(reason, trim_outcome(task)),
{
}

/// A trim is counted once more in the total of trims after exports if it was
/// made for an export and was not skipped, and not otherwise.
pub proof fn law_trims_for_exports_are_counted_for_exports(
    reason: TrimReason,
    task: TrimTask,
    i: int,
)
    requires
        0 <= i < trim_updates(reason, task).len(),
    ensures
        trim_updates(reason, task)[i].metric() == Metric::SnapshotExportMallocTrimTotal <==> (reason
            == TrimReason::Export && i == (match task {
            TrimTask::Finished(_) => 1int,
            TrimTask::Overlapped => -1int,
            TrimTask::JoinFailed => 0int,
        })),
{
}

/// A periodic trim leaves the metrics of exports alone.
pub proof fn law_periodic_trim_leaves_export_metrics_alone(task: TrimTask, i: int)
    requires
        0 <= i < trim_updates(TrimReason::Periodic, task).len(),
    ensures
        ({
            let metric = trim_updates(TrimReason::Periodic, task)[i].metric();
            metric == Metric::AllocatorMallocTrimTotal || metric
                == Metric::AllocatorMallocTrimSeconds
        }),
{
}

/// What was reclaimed is known exactly when both readings are, never exceeds
/// what there was before, and is nothing when the memory has grown.
pub proof fn law_reclaimed_is_bounded(before: Option<usize>, after: Option<usize>)
    ensures
        spec_reclaimed(before, after) is Some <==> before is Some && after is Some,
        spec_reclaimed(before, after) matches Some(bytes) ==> {
            &&& bytes <= before->0
            &&& after->0 >= before->0 ==> bytes == 0
            &&& after->0 <= before->0 ==> bytes + after->0 == before->0
        },
{
}

/// Accepted settings of the periodic trim keep their order: of two of them the
/// larger has an interval, of at least a minute, and the smaller has none or a
/// shorter one.
pub proof fn law_accepted_intervals_keep_order(
    a: u64,
    b: u64,
    x: Option<Duration>,
    y: Option<Duration>,
)
    requires
        a < b,
        is_periodic_trim_interval(a, Ok(x)),
        is_periodic_trim_interval(b, Ok(y)),
    ensures
        y is Some,
        duration_nanos(y->0) >= MIN_PERIODIC_TRIM_SECS * 1_000_000_000,
        x is None || duration_nanos(x->0) < duration_nanos(y->0),
{
}

/// No accepted interval is shorter than a minute.
pub proof fn law_no_interval_is_short(
    seconds: u64,
    interval: Result<Option<Duration>, TrimIntervalTooShort>,
)
    requires
        is_periodic_trim_interval(seconds, interval),
    ensures
        interval matches Ok(Some(span)) ==> duration_nanos(span) >= MIN_PERIODIC_TRIM_SECS
            * 1_000_000_000,
{
}

/// How many of the updates are of the metric.
pub open spec fn updates_of(metric: Metric, updates: Seq<MetricUpdateView>) -> nat
    decreases updates.len(),
{
    if updates.len() == 0 {
        0
    } else {
        updates_of(metric, updates.drop_last()) + (if updates.last().metric() == metric {
            1nat
        } else {
            0nat
        })
    }
}

/// The updates of two lists are those of one and of the other.
proof fn lemma_updates_add_up(
    metric: Metric,
    first: Seq<MetricUpdateView>,
    second: Seq<MetricUpdateView>,
)
    ensures
        updates_of(metric, first + second) == updates_of(metric, first) + updates_of(
            metric,
            second,
        ),
    decreases second.len(),
{
    if second.len() == 0 {
        assert(first + second =~= first);
    } else {
        assert((first + second).drop_last() =~= first + second.drop_last());
        lemma_updates_add_up(metric, first, second.drop_last());
    }
}

/// If only the update at `at` is of the metric, the metric has one update.
proof fn lemma_single_update(metric: Metric, updates: Seq<MetricUpdateView>, at: int)
    requires
        forall|i: int|
            0 <= i < updates.len() ==> (#[trigger] updates[i].metric() == metric <==> i == at),
    ensures
        updates_of(metric, updates) == (if 0 <= at < updates.len() {
            1nat
        } else {
            0nat
        }),
    decreases updates.len(),
{
    if updates.len() > 0 {
        let rest = updates.drop_last();
        assert forall|i: int| 0 <= i < rest.len() implies (#[trigger] rest[i].metric() == metric
            <==> i == at) by {
            assert(updates[i].metric() == metric <==> i == at);
        }
        lemma_single_update(metric, rest, at);
        assert(updates[updates.len() - 1].metric() == metric <==> updates.len() - 1 == at);
    }
}

/// The updates of a list of trims, one after the other.
pub open spec fn all_trim_updates(trims: Seq<(TrimReason, TrimTask)>) -> Seq<MetricUpdateView>
    decreases trims.len(),
{
    if trims.len() == 0 {
        seq![]
    } else {
        let (reason, task) = trims.last();
        all_trim_updates(trims.drop_last()) + trim_updates(reason, task)
    }
}

/// How many of the trims were made for an export and were not skipped.
pub open spec fn unskipped_export_trims(trims: Seq<(TrimReason, TrimTask)>) -> nat
    decreases trims.len(),
{
    if trims.len() == 0 {
        0
    } else {
        let (reason, task) = trims.last();
        unskipped_export_trims(trims.drop_last()) + (if reason == TrimReason::Export && !(
        task is Overlapped) {
            1nat
        } else {
            0nat
        })
    }
}

/// How many of the trims ran.
pub open spec fn finished_trims(trims: Seq<(TrimReason, TrimTask)>) -> nat
    decreases trims.len(),
{
    if trims.len() == 0 {
        0
    } else {
        finished_trims(trims.drop_last()) + (if trims.last().1 is Finished {
            1nat
        } else {
            0nat
        })
    }
}

/// Over any list of trims, the total of trims grows by their number, the
/// histogram of their durations by the number of those that ran, and the total of
/// trims after exports by the number of those that were made for an export and
/// were not skipped.
pub proof fn law_trims_add_up(trims: Seq<(TrimReason, TrimTask)>)
    ensures
        updates_of(Metric::AllocatorMallocTrimTotal, all_trim_updates(trims)) == trims.len(),
        updates_of(Metric::AllocatorMallocTrimSeconds, all_trim_updates(trims)) == finished_trims(
            trims,
        ),
        updates_of(Metric::SnapshotExportMallocTrimTotal, all_trim_updates(trims))
            == unskipped_export_trims(trims),
    decreases trims.len(),
{
    if trims.len() > 0 {
        let rest = all_trim_updates(trims.drop_last());
        let (reason, task) = trims.last();
        let latest = trim_updates(reason, task);
        law_trims_add_up(trims.drop_last());
        lemma_updates_add_up(Metric::AllocatorMallocTrimTotal, rest, latest);
        lemma_updates_add_up(Metric::AllocatorMallocTrimSeconds, rest, latest);
        lemma_updates_add_up(Metric::SnapshotExportMallocTrimTotal, rest, latest);
        lemma_single_update(Metric::AllocatorMallocTrimTotal, latest, latest.len() - 1);
        lemma_single_update(
            Metric::AllocatorMallocTrimSeconds,
            latest,
            if task is Finished {
                0
            } else {
                -1
            },
        );
        lemma_single_update(
            Metric::SnapshotExportMallocTrimTotal,
            latest,
            if reason == TrimReason::Export {
                match task {
                    TrimTask::Finished(_) => 1int,
                    TrimTask::Overlapped => -1int,
                    TrimTask::JoinFailed => 0int,
                }
            } else {
                -1
            },
        );
    }
}

/// The updates of a list of logged trims, one after the other; `None` is a trim
/// that did not finish.
pub open spec fn all_logged_updates(
    logged: Seq<Option<(Duration, bool, Option<usize>)>>,
) -> Seq<MetricUpdateView>
    decreases logged.len(),
{
    if logged.len() == 0 {
        seq![]
    } else {
        all_logged_updates(logged.drop_last()) + (match logged.last() {
            Some((duration, released, bytes)) => malloc_trim_updates(duration, released, bytes),
            None => seq![malloc_trim_join_error_update()],
        })
    }
}

/// Over any list of logged trims, the total of trims after exports grows by their
/// number.
pub proof fn law_logged_trims_add_up(logged: Seq<Option<(Duration, bool, Option<usize>)>>)
    ensures
        updates_of(Metric::SnapshotExportMallocTrimTotal, all_logged_updates(logged))
            == logged.len(),
    decreases logged.len(),
{
    if logged.len() > 0 {
        let rest = all_logged_updates(logged.drop_last());
        let latest = match logged.last() {
            Some((duration, released, bytes)) => malloc_trim_updates(duration, released, bytes),
            None => seq![malloc_trim_join_error_update()],
        };
        law_logged_trims_add_up(logged.drop_last());
        lemma_updates_add_up(Metric::SnapshotExportMallocTrimTotal, rest, latest);
        lemma_single_update(Metric::SnapshotExportMallocTrimTotal, latest, 0);
    }
}

/// A label as it is shown: its name and its value, and nothing else.
pub open spec fn shows(label: LabelView, name: Seq<char>, value: Seq<char>) -> bool {
    label.name == name && label.value == value
}

/// The update adds one to the counter, under this one label.
pub open spec fn counts_one(
    update: MetricUpdateView,
    metric: Metric,
    name: Seq<char>,
    value: Seq<char>,
) -> bool {
    update matches MetricUpdateView::Count { metric: counted, by, labels } && counted == metric
        && by == 1 && labels.len() == 1 && shows(labels[0], name, value)
}

/// The update records the span in the histogram, without a label.
pub open spec fn records_span(update: MetricUpdateView, metric: Metric, span: Duration) -> bool {
    update matches MetricUpdateView::Seconds { metric: recorded, span: recorded_span, labels }
        && recorded == metric && recorded_span == span && labels.len() == 0
}

/// A failed export is counted once, under its own status and nothing else; so two
/// failures are counted alike exactly if they have the same status, whatever else they
/// differ in.
pub proof fn law_failed_export_is_counted_under_its_status(e: Failure, other: Failure)
    ensures
        counts_one(
            export_failed_update(e),
            Metric::SnapshotExportFailedTotal,
            "status"@,
            e.status@,
        ),
        export_failed_update(e) == export_failed_update(other) <==> e.status@ == other.status@,
{
    let labels = export_failed_update(e).labels();
    let others = export_failed_update(other).labels();
    if e.status@ != other.status@ {
        assert(labels[0].value != others[0].value);
    } else {
        assert(labels =~= others);
    }
}

/// A logged trim is counted once, as having released memory or not; then its duration
/// is recorded; and then the reclaimed bytes, if and only if they are known.
pub proof fn law_logged_trim_is_counted_and_measured(
    duration: Duration,
    released: bool,
    reclaimed_bytes: Option<usize>,
)
    ensures
        ({
            let updates = malloc_trim_updates(duration, released, reclaimed_bytes);
            &&& updates.len() == (if reclaimed_bytes is Some {
                3nat
            } else {
                2nat
            })
            &&& released ==> counts_one(
                updates[0],
                Metric::SnapshotExportMallocTrimTotal,
                "result"@,
                "released"@,
            )
            &&& !released ==> counts_one(
                updates[0],
                Metric::SnapshotExportMallocTrimTotal,
                "result"@,
                "no_release"@,
            )
            &&& records_span(updates[1], Metric::SnapshotExportMallocTrimSeconds, duration)
            &&& reclaimed_bytes matches Some(bytes) ==> (updates[2]
                matches MetricUpdateView::Bytes { metric, amount, labels } && metric
                == Metric::SnapshotExportMallocTrimReclaimedBytes && amount == bytes
                && labels.len() == 0)
        }),
{
}

/// A trim that did not finish is counted once, as an error of the task.
pub proof fn law_unfinished_trim_is_counted_as_a_join_error()
    ensures
        counts_one(
            malloc_trim_join_error_update(),
            Metric::SnapshotExportMallocTrimTotal,
            "result"@,
            "join_error"@,
        ),
{
}

/// The text for a reason.
pub open spec fn reason_text(reason: TrimReason) -> Seq<char> {
    if reason == TrimReason::Export {
        "export"@
    } else {
        "periodic"@
    }
}

/// The update counts one trim under the reason and the result.
pub open spec fn counts_trim(
    update: MetricUpdateView,
    reason: TrimReason,
    result: Seq<char>,
) -> bool {
    update matches MetricUpdateView::Count { metric, by, labels } && metric
        == Metric::AllocatorMallocTrimTotal && by == 1 && labels.len() == 2 && shows(
        labels[0],
        "reason"@,
        reason_text(reason),
    ) && shows(labels[1], "result"@, result)
}

/// However a trim ends, the last thing is its count under its own reason and under its
/// result.
pub proof fn law_trim_is_counted_under_reason_and_result(reason: TrimReason, task: TrimTask)
    ensures
        ({
            let updates = trim_updates(reason, task);
            &&& updates.len() > 0
            &&& task matches TrimTask::Finished(result) ==> (result.released ==> counts_trim(
                updates.last(),
                reason,
                "released"@,
            )) && (!result.released ==> counts_trim(updates.last(), reason, "no_release"@))
            &&& task is Overlapped ==> counts_trim(updates.last(), reason, "overlap_skipped"@)
            &&& task is JoinFailed ==> counts_trim(updates.last(), reason, "join_error"@)
        }),
{
}

/// A trim that ran first records its duration under its reason. One for an export then
/// tells the metrics of exports its result, its duration and, if the resident memory is
/// known on both sides, the difference; a periodic one tells them nothing.
pub proof fn law_finished_trim_is_measured(reason: TrimReason, result: AllocatorTrimResult)
    ensures
        ({
            let updates = trim_updates(reason, TrimTask::Finished(result));
            let known = result.rss_before_bytes is Some && result.rss_after_bytes is Some;
            &&& updates[0] matches MetricUpdateView::Seconds { metric, span, labels } && metric
                == Metric::AllocatorMallocTrimSeconds && span == result.duration && labels.len()
                == 1 && shows(labels[0], "reason"@, reason_text(reason))
            &&& reason == TrimReason::Periodic ==> updates.len() == 2
            &&& reason == TrimReason::Export ==> {
                &&& updates.len() == (if known {
                    5nat
                } else {
                    4nat
                })
                &&& result.released ==> counts_one(
                    updates[1],
                    Metric::SnapshotExportMallocTrimTotal,
                    "result"@,
                    "released"@,
                )
                &&& !result.released ==> counts_one(
                    updates[1],
                    Metric::SnapshotExportMallocTrimTotal,
                    "result"@,
                    "no_release"@,
                )
                &&& records_span(
                    updates[2],
                    Metric::SnapshotExportMallocTrimSeconds,
                    result.duration,
                )
                &&& known ==> (updates[3] matches MetricUpdateView::Bytes {
                    metric,
                    amount,
                    labels,
                } && metric == Metric::SnapshotExportMallocTrimReclaimedBytes && labels.len() == 0
                    && gave_back(
                    result.rss_before_bytes->0,
                    result.rss_after_bytes->0,
                    amount,
                ))
            }
        }),
{
}

/// A trim that did not run records no duration: one that was skipped is only counted,
/// and one that did not finish is also counted for exports, if it was made for one.
pub proof fn law_unfinished_trims_are_only_counted(reason: TrimReason)
    ensures
        trim_updates(reason, TrimTask::Overlapped).len() == 1,
        reason == TrimReason::Periodic ==> trim_updates(reason, TrimTask::JoinFailed).len() == 1,
        reason == TrimReason::Export ==> trim_updates(reason, TrimTask::JoinFailed).len() == 2
            && counts_one(
            trim_updates(reason, TrimTask::JoinFailed)[0],
            Metric::SnapshotExportMallocTrimTotal,
            "result"@,
            "join_error"@,
        ),
{
}

/// Between the two readings so many bytes were given back.
pub open spec fn gave_back(before: usize, after: usize, bytes: usize) -> bool {
    &&& after <= before ==> bytes + after == before
    &&& after >= before ==> bytes == 0
}

/// What a trim reclaimed is the drop from its first reading to its second, and is known
/// exactly if both are.
pub proof fn law_trim_reclaims_the_drop(result: AllocatorTrimResult)
    ensures
        result.spec_reclaimed_bytes() is Some <==> result.rss_before_bytes is Some
            && result.rss_after_bytes is Some,
        result.spec_reclaimed_bytes() matches Some(bytes) ==> gave_back(
            result.rss_before_bytes->0,
            result.rss_after_bytes->0,
            bytes,
        ),
{
}

/// The label of a reason tells it from the other, and is the text for it.
pub proof fn law_reasons_have_their_own_labels(reason: TrimReason)
    ensures
        reason.spec_label() == reason_text(reason),
        TrimReason::Export.spec_label() != TrimReason::Periodic.spec_label(),
{
    reveal_strlit("export");
    reveal_strlit("periodic");
    assert("export"@.len() != "periodic"@.len());
}

/// Every setting of the periodic trim is decided: zero means none, less than a minute
/// is an error, and everything else is an interval of exactly so many seconds.
pub proof fn law_periodic_trim_setting_is_decided(
    seconds: u64,
    interval: Result<Option<Duration>, TrimIntervalTooShort>,
)
    requires
        is_periodic_trim_interval(seconds, interval),
    ensures
        seconds == 0 <==> interval == Ok::<Option<Duration>, TrimIntervalTooShort>(None),
        1 <= seconds < 60 <==> interval is Err,
        seconds >= 60 ==> (interval matches Ok(Some(span)) && duration_secs(span) == seconds
            && duration_subsec_nanos(span) == 0 && duration_nanos(span) == seconds * 1_000_000_000),
{
}

/// What a metric is, and which labels it has.
pub proof fn law_metrics_are_registered_as_what_they_measure()
    ensures
        Metric::SnapshotExportFailedTotal.spec_kind() == MetricKind::Counter,
        Metric::SnapshotExportMallocTrimTotal.spec_kind() == MetricKind::Counter,
        Metric::AllocatorMallocTrimTotal.spec_kind() == MetricKind::Counter,
        Metric::SnapshotExportMallocTrimSeconds.spec_kind() == MetricKind::SecondsHistogram,
        Metric::AllocatorMallocTrimSeconds.spec_kind() == MetricKind::SecondsHistogram,
        Metric::SnapshotExportMallocTrimReclaimedBytes.spec_kind() == MetricKind::BytesHistogram,
        Metric::SnapshotExportFailedTotal.spec_label_names() == seq!["status"@],
        Metric::SnapshotExportMallocTrimTotal.spec_label_names() == seq!["result"@],
        Metric::AllocatorMallocTrimTotal.spec_label_names() == seq!["reason"@, "result"@],
        Metric::AllocatorMallocTrimSeconds.spec_label_names() == seq!["reason"@],
        Metric::SnapshotExportMallocTrimSeconds.spec_label_names().len() == 0,
        Metric::SnapshotExportMallocTrimReclaimedBytes.spec_label_names().len() == 0,
{
}

/// The view of an update shows all of it: its kind, its metric, its value, and its
/// labels one by one.
pub proof fn law_views_show_all_of_an_update(update: MetricUpdate, i: int)
    ensures
        match update {
            MetricUpdate::Count { metric, by, labels } => update@
                matches MetricUpdateView::Count { metric: m, by: b, labels: l } && m == metric && b
                == by && l.len() == labels@.len() && (0 <= i < labels@.len() ==> shows(
                l[i],
                labels@[i].name@,
                labels@[i].value@,
            )),
            MetricUpdate::Seconds { metric, span, labels } => update@
                matches MetricUpdateView::Seconds { metric: m, span: s, labels: l } && m == metric
                && s == span && l.len() == labels@.len() && (0 <= i < labels@.len() ==> shows(
                l[i],
                labels@[i].name@,
                labels@[i].value@,
            )),
            MetricUpdate::Bytes { metric, amount, labels } => update@
                matches MetricUpdateView::Bytes { metric: m, amount: a, labels: l } && m == metric
                && a == amount && l.len() == labels@.len() && (0 <= i < labels@.len() ==> shows(
                l[i],
                labels@[i].name@,
                labels@[i].value@,
            )),
        },
{
}

/// The views of a list of updates are those of its updates, in order.
pub proof fn law_views_show_all_updates(updates: Seq<MetricUpdate>, i: int)
    ensures
        update_views(updates).len() == updates.len(),
        0 <= i < updates.len() ==> update_views(updates)[i] == updates[i]@,
{
}

} // verus!
