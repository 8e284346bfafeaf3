//! Optional glibc page reclamation, shared by exports and the self-hosted timer.
use std::time::Duration;

use vstd::prelude::*;

use crate::exports::metrics::{
    log_malloc_trim, log_malloc_trim_join_error, malloc_trim_join_error_update, malloc_trim_updates,
};
use crate::metrics::{update_views, Label, LabelView, Metric, MetricUpdate, MetricUpdateView};
use crate::time::{duration_from_secs, duration_secs, duration_subsec_nanos};

verus! {

/// The shortest interval, in seconds, between two periodic trims.
pub const MIN_PERIODIC_TRIM_SECS: u64 = 60;

/// Why the allocator is asked to give pages back.
#[derive(Clone, Copy, Debug, PartialEq, Eq, Structural)]
pub enum TrimReason {
    Export,
    Periodic,
}

impl TrimReason {
    pub open spec fn spec_label(self) -> Seq<char> {
        match self {
            TrimReason::Export => "export"@,
            TrimReason::Periodic => "periodic"@,
        }
    }

    /// The value of the `reason` label.
    pub fn label(self) -> (text: &'static str)
        ensures
            text@ == self.spec_label(),
    {
        match self {
            TrimReason::Export => "export",
            TrimReason::Periodic => "periodic",
        }
    }
}

/// The periodic trim interval is neither zero nor long enough.
#[derive(Clone, Copy, Debug, PartialEq, Eq, Structural)]
pub struct TrimIntervalTooShort;

impl TrimIntervalTooShort {
    /// What to tell the operator.
    pub fn message(&self) -> (text: String)
        ensures
            text@ == "ALLOCATOR_MALLOC_TRIM_INTERVAL_SECS must be zero or at least 60"@,
    {
        "ALLOCATOR_MALLOC_TRIM_INTERVAL_SECS must be zero or at least 60".to_owned()
    }
}

/// The setting `seconds` leads to this interval: zero to none, too short a one to
/// an error, and any other to a span of exactly so many seconds.
pub open spec fn is_periodic_trim_interval(
    seconds: u64,
    interval: Result<Option<Duration>, TrimIntervalTooShort>,
) -> bool {
    if seconds == 0 {
        interval == Ok::<Option<Duration>, TrimIntervalTooShort>(None)
    } else if seconds < MIN_PERIODIC_TRIM_SECS {
        interval is Err
    } else {
        interval matches Ok(Some(span)) && span == duration_from_secs(seconds) && duration_secs(
            span,
        ) == seconds && duration_subsec_nanos(span) == 0
    }
}

/// Zero disables periodic cleanup. Reject accidental high-frequency purging.
pub fn periodic_trim_interval(seconds: u64) -> (interval: Result<
    Option<Duration>,
    TrimIntervalTooShort,
>)
    ensures
        is_periodic_trim_interval(seconds, interval),
{
    if seconds == 0 {
        Ok(None)
    } else if seconds < MIN_PERIODIC_TRIM_SECS {
        Err(TrimIntervalTooShort)
    } else {
        Ok(Some(Duration::from_secs(seconds)))
    }
}

/// What a request to trim leads to.
#[derive(Clone, Copy, Debug, PartialEq, Eq, Structural)]
pub enum TrimPlan {
    /// Trimming is switched off.
    Skip,
    /// Trimming is wanted, but this platform has no `malloc_trim`.
    WarnUnavailable,
    /// Trim.
    Run,
}

/// Decides what to do about a wanted or unwanted trim on a platform with or
/// without `malloc_trim`.
pub fn plan_trim(enabled: bool, available: bool) -> (plan: TrimPlan)
    ensures
        plan == TrimPlan::Skip <==> !enabled,
        plan == TrimPlan::WarnUnavailable <==> enabled && !available,
        plan == TrimPlan::Run <==> enabled && available,
{
    if !enabled {
        TrimPlan::Skip
    } else if available {
        TrimPlan::Run
    } else {
        TrimPlan::WarnUnavailable
    }
}

/// The resident memory that went away between two readings, where both exist.
/// Growth counts as nothing reclaimed.
pub open spec fn spec_reclaimed(before: Option<usize>, after: Option<usize>) -> Option<usize> {
    match (before, after) {
        (Some(before), Some(after)) => Some(
            if before >= after {
                (before - after) as usize
            } else {
                0
            },
        ),
        _ => None,
    }
}

/// The resident memory that went away between two readings, where both exist.
pub fn reclaimed(before: Option<usize>, after: Option<usize>) -> (bytes: Option<usize>)
    ensures
        bytes == spec_reclaimed(before, after),
{
    match (before, after) {
        (Some(before), Some(after)) => Some(before.saturating_sub(after)),
        _ => None,
    }
}

/// What one `malloc_trim` did.
#[derive(Clone, Copy, Debug)]
pub struct AllocatorTrimResult {
    pub duration: Duration,
    pub released: bool,
    pub rss_before_bytes: Option<usize>,
    pub rss_after_bytes: Option<usize>,
}

impl AllocatorTrimResult {
    pub open spec fn spec_reclaimed_bytes(self) -> Option<usize> {
        spec_reclaimed(self.rss_before_bytes, self.rss_after_bytes)
    }

    /// The resident memory that the trim gave back, where it is known on both sides.
    pub fn reclaimed_bytes(&self) -> (bytes: Option<usize>)
        ensures
            bytes == self.spec_reclaimed_bytes(),
    {
        reclaimed(self.rss_before_bytes, self.rss_after_bytes)
    }
}

/// How the blocking trim task ended.
#[derive(Debug)]
pub enum TrimTask {
    /// `malloc_trim` ran.
    Finished(AllocatorTrimResult),
    /// Another trim held the lock.
    Overlapped,
    /// The task did not finish.
    JoinFailed,
}

/// The value of the `result` label for a trim that ended so.
pub open spec fn trim_outcome(task: TrimTask) -> Seq<char> {
    match task {
        TrimTask::Finished(result) => if result.released {
            "released"@
        } else {
            "no_release"@
        },
        TrimTask::Overlapped => "overlap_skipped"@,
        TrimTask::JoinFailed => "join_error"@,
    }
}

/// The one increment of the attempts counter that every trim makes.
pub open spec fn trim_total(reason: TrimReason, outcome: Seq<char>) -> MetricUpdateView {
    MetricUpdateView::Count {
        metric: Metric::AllocatorMallocTrimTotal,
        by: 1,
        labels: seq![
            LabelView { name: "reason"@, value: reason.spec_label() },
            LabelView { name: "result"@, value: outcome },
        ],
    }
}

/// The updates that a trim makes before it is counted.
pub open spec fn trim_details(reason: TrimReason, task: TrimTask) -> Seq<MetricUpdateView> {
    match task {
        TrimTask::Finished(result) => seq![
            MetricUpdateView::Seconds {
                metric: Metric::AllocatorMallocTrimSeconds,
                span: result.duration,
                labels: seq![LabelView { name: "reason"@, value: reason.spec_label() }],
            },
        ] + (if reason == TrimReason::Export {
            malloc_trim_updates(result.duration, result.released, result.spec_reclaimed_bytes())
        } else {
            seq![]
        }),
        TrimTask::Overlapped => seq![],
        TrimTask::JoinFailed => if reason == TrimReason::Export {
            seq![malloc_trim_join_error_update()]
        } else {
            seq![]
        },
    }
}

/// All updates that a trim makes, in order.
pub open spec fn trim_updates(reason: TrimReason, task: TrimTask) -> Seq<MetricUpdateView> {
    trim_details(reason, task).push(trim_total(reason, trim_outcome(task)))
}

/// Records a trim that was made for `reason` and ended as `task` says.
pub fn trim(reason: TrimReason, task: TrimTask) -> (updates: Vec<MetricUpdate>)
    ensures
        update_views(updates@) == trim_updates(reason, task),
{
    let mut updates: Vec<MetricUpdate> = Vec::new();
    let outcome: &'static str = match task {
        TrimTask::Finished(result) => {
            updates.push(
                MetricUpdate::Seconds {
                    metric: Metric::AllocatorMallocTrimSeconds,
                    span: result.duration,
                    labels: vec![Label::new("reason", reason.label())],
                },
            );
            assert(update_views(updates@) =~~= seq![trim_details(reason, task)[0]]);
            if let TrimReason::Export = reason {
                let mut of_export = log_malloc_trim(
                    result.duration,
                    result.released,
                    result.reclaimed_bytes(),
                );
                let ghost first = updates@;
                let ghost rest = of_export@;
                updates.append(&mut of_export);
                assert(update_views(first + rest) =~= update_views(first) + update_views(rest));
            }
            if result.released {
                "released"
            } else {
                "no_release"
            }
        },
        TrimTask::Overlapped => "overlap_skipped",
        TrimTask::JoinFailed => {
            if let TrimReason::Export = reason {
                updates.push(log_malloc_trim_join_error());
            }
            "join_error"
        },
    };
    assert(update_views(updates@) =~= trim_details(reason, task));
    let total = MetricUpdate::Count {
        metric: Metric::AllocatorMallocTrimTotal,
        by: 1,
        labels: vec![Label::new("reason", reason.label()), Label::new("result", outcome)],
    };
    assert(total@ =~~= trim_total(reason, trim_outcome(task)));
    let ghost details = updates@;
    updates.push(total);
    assert(update_views(updates@) =~= update_views(details).push(total@));
    updates
}

} // verus!
