//! Metrics: the registered names with their labels, and single updates to them.
use std::time::Duration;

use vstd::prelude::*;

verus! {

/// The metrics that the allocator and the export worker register.
#[derive(Clone, Copy, Debug, PartialEq, Eq, Structural)]
pub enum Metric {
    SnapshotExportFailedTotal,
    SnapshotExportMallocTrimTotal,
    SnapshotExportMallocTrimSeconds,
    SnapshotExportMallocTrimReclaimedBytes,
    AllocatorMallocTrimTotal,
    AllocatorMallocTrimSeconds,
}

/// What a metric measures, which decides the updates it takes.
#[derive(Clone, Copy, Debug, PartialEq, Eq, Structural)]
pub enum MetricKind {
    Counter,
    SecondsHistogram,
    BytesHistogram,
}

impl Metric {
    /// The names of the labels that every update of this metric carries, in order.
    pub open spec fn spec_label_names(self) -> Seq<Seq<char>> {
        match self {
            Metric::SnapshotExportFailedTotal => seq!["status"@],
            Metric::SnapshotExportMallocTrimTotal => seq!["result"@],
            Metric::SnapshotExportMallocTrimSeconds => seq![],
            Metric::SnapshotExportMallocTrimReclaimedBytes => seq![],
            Metric::AllocatorMallocTrimTotal => seq!["reason"@, "result"@],
            Metric::AllocatorMallocTrimSeconds => seq!["reason"@],
        }
    }

    pub open spec fn spec_kind(self) -> MetricKind {
        match self {
            Metric::SnapshotExportFailedTotal => MetricKind::Counter,
            Metric::SnapshotExportMallocTrimTotal => MetricKind::Counter,
            Metric::SnapshotExportMallocTrimSeconds => MetricKind::SecondsHistogram,
            Metric::SnapshotExportMallocTrimReclaimedBytes => MetricKind::BytesHistogram,
            Metric::AllocatorMallocTrimTotal => MetricKind::Counter,
            Metric::AllocatorMallocTrimSeconds => MetricKind::SecondsHistogram,
        }
    }

    /// The name under which the metric is registered.
    pub fn name(self) -> (name: &'static str)
        ensures
            name@ == match self {
                Metric::SnapshotExportFailedTotal => "SNAPSHOT_EXPORT_FAILED_TOTAL"@,
                Metric::SnapshotExportMallocTrimTotal => "SNAPSHOT_EXPORT_MALLOC_TRIM_TOTAL"@,
                Metric::SnapshotExportMallocTrimSeconds => "SNAPSHOT_EXPORT_MALLOC_TRIM_SECONDS"@,
                Metric::SnapshotExportMallocTrimReclaimedBytes =>
                    "SNAPSHOT_EXPORT_MALLOC_TRIM_RECLAIMED_BYTES"@,
                Metric::AllocatorMallocTrimTotal => "ALLOCATOR_MALLOC_TRIM_TOTAL"@,
                Metric::AllocatorMallocTrimSeconds => "ALLOCATOR_MALLOC_TRIM_SECONDS"@,
            },
    {
        match self {
            Metric::SnapshotExportFailedTotal => "SNAPSHOT_EXPORT_FAILED_TOTAL",
            Metric::SnapshotExportMallocTrimTotal => "SNAPSHOT_EXPORT_MALLOC_TRIM_TOTAL",
            Metric::SnapshotExportMallocTrimSeconds => "SNAPSHOT_EXPORT_MALLOC_TRIM_SECONDS",
            Metric::SnapshotExportMallocTrimReclaimedBytes => {
                "SNAPSHOT_EXPORT_MALLOC_TRIM_RECLAIMED_BYTES"
            },
            Metric::AllocatorMallocTrimTotal => "ALLOCATOR_MALLOC_TRIM_TOTAL",
            Metric::AllocatorMallocTrimSeconds => "ALLOCATOR_MALLOC_TRIM_SECONDS",
        }
    }

    /// The kind under which the metric is registered.
    pub fn kind(self) -> (kind: MetricKind)
        ensures
            kind == self.spec_kind(),
    {
        match self {
            Metric::SnapshotExportFailedTotal => MetricKind::Counter,
            Metric::SnapshotExportMallocTrimTotal => MetricKind::Counter,
            Metric::SnapshotExportMallocTrimSeconds => MetricKind::SecondsHistogram,
            Metric::SnapshotExportMallocTrimReclaimedBytes => MetricKind::BytesHistogram,
            Metric::AllocatorMallocTrimTotal => MetricKind::Counter,
            Metric::AllocatorMallocTrimSeconds => MetricKind::SecondsHistogram,
        }
    }

    /// The help text under which the metric is registered.
    pub fn help(self) -> (text: &'static str)
        ensures
            text@ == match self {
                Metric::SnapshotExportFailedTotal =>
                    "Number of snapshot export attempts that failed"@,
                Metric::SnapshotExportMallocTrimTotal =>
                    "Number of post-export glibc malloc_trim attempts"@,
                Metric::SnapshotExportMallocTrimSeconds =>
                    "Time spent running glibc malloc_trim after a snapshot export"@,
                Metric::SnapshotExportMallocTrimReclaimedBytes =>
                    "Process resident memory reclaimed by post-export glibc malloc_trim"@,
                Metric::AllocatorMallocTrimTotal =>
                    "Number of glibc cleanup attempts by reason and result"@,
                Metric::AllocatorMallocTrimSeconds => "Time spent running glibc malloc_trim"@,
            },
    {
        match self {
            Metric::SnapshotExportFailedTotal => "Number of snapshot export attempts that failed",
            Metric::SnapshotExportMallocTrimTotal => {
                "Number of post-export glibc malloc_trim attempts"
            },
            Metric::SnapshotExportMallocTrimSeconds => {
                "Time spent running glibc malloc_trim after a snapshot export"
            },
            Metric::SnapshotExportMallocTrimReclaimedBytes => {
                "Process resident memory reclaimed by post-export glibc malloc_trim"
            },
            Metric::AllocatorMallocTrimTotal => {
                "Number of glibc cleanup attempts by reason and result"
            },
            Metric::AllocatorMallocTrimSeconds => "Time spent running glibc malloc_trim",
        }
    }

    /// The label names under which the metric is registered, in order.
    pub fn label_names(self) -> (names: Vec<&'static str>)
        ensures
            names@.map_values(|name: &'static str| name@) == self.spec_label_names(),
    {
        let names: Vec<&'static str> = match self {
            Metric::SnapshotExportFailedTotal => vec!["status"],
            Metric::SnapshotExportMallocTrimTotal => vec!["result"],
            Metric::SnapshotExportMallocTrimSeconds => vec![],
            Metric::SnapshotExportMallocTrimReclaimedBytes => vec![],
            Metric::AllocatorMallocTrimTotal => vec!["reason", "result"],
            Metric::AllocatorMallocTrimSeconds => vec!["reason"],
        };
        assert(names@.map_values(|name: &'static str| name@) =~= self.spec_label_names());
        names
    }
}

/// One label of an update.
#[derive(Clone, Copy, Debug, PartialEq, Eq)]
pub struct Label {
    pub name: &'static str,
    pub value: &'static str,
}

/// A label as two texts.
#[verifier::ext_equal]
pub struct LabelView {
    pub name: Seq<char>,
    pub value: Seq<char>,
}

impl View for Label {
    type V = LabelView;

    open spec fn view(&self) -> LabelView {
        LabelView { name: self.name@, value: self.value@ }
    }
}

impl Label {
    pub fn new(name: &'static str, value: &'static str) -> (label: Label)
        ensures
            label@ == (LabelView { name: name@, value: value@ }),
            label.name@ == name@,
            label.value@ == value@,
    {
        Label { name, value }
    }
}

/// One update to one metric.
#[derive(Debug, PartialEq, Eq)]
pub enum MetricUpdate {
    /// Add `by` to a counter.
    Count { metric: Metric, by: u64, labels: Vec<Label> },
    /// Record a span of time.
    Seconds { metric: Metric, span: Duration, labels: Vec<Label> },
    /// Record an amount of memory.
    Bytes { metric: Metric, amount: usize, labels: Vec<Label> },
}

/// The labels of an update, as texts.
pub open spec fn label_views(labels: Seq<Label>) -> Seq<LabelView> {
    labels.map_values(|label: Label| label@)
}

/// An update with its labels as texts.
#[verifier::ext_equal]
pub enum MetricUpdateView {
    Count { metric: Metric, by: u64, labels: Seq<LabelView> },
    Seconds { metric: Metric, span: Duration, labels: Seq<LabelView> },
    Bytes { metric: Metric, amount: usize, labels: Seq<LabelView> },
}

impl View for MetricUpdate {
    type V = MetricUpdateView;

    open spec fn view(&self) -> MetricUpdateView {
        match *self {
            MetricUpdate::Count { metric, by, labels } => MetricUpdateView::Count {
                metric,
                by,
                labels: label_views(labels@),
            },
            MetricUpdate::Seconds { metric, span, labels } => MetricUpdateView::Seconds {
                metric,
                span,
                labels: label_views(labels@),
            },
            MetricUpdate::Bytes { metric, amount, labels } => MetricUpdateView::Bytes {
                metric,
                amount,
                labels: label_views(labels@),
            },
        }
    }
}

impl MetricUpdateView {
    pub open spec fn metric(self) -> Metric {
        match self {
            MetricUpdateView::Count { metric, .. } => metric,
            MetricUpdateView::Seconds { metric, .. } => metric,
            MetricUpdateView::Bytes { metric, .. } => metric,
        }
    }

    pub open spec fn labels(self) -> Seq<LabelView> {
        match self {
            MetricUpdateView::Count { labels, .. } => labels,
            MetricUpdateView::Seconds { labels, .. } => labels,
            MetricUpdateView::Bytes { labels, .. } => labels,
        }
    }

    pub open spec fn kind(self) -> MetricKind {
        match self {
            MetricUpdateView::Count { .. } => MetricKind::Counter,
            MetricUpdateView::Seconds { .. } => MetricKind::SecondsHistogram,
            MetricUpdateView::Bytes { .. } => MetricKind::BytesHistogram,
        }
    }

    /// The update fits its metric's registration: it is of the registered kind
    /// and carries exactly the registered labels, in order.
    pub open spec fn registered(self) -> bool {
        &&& self.kind() == self.metric().spec_kind()
        &&& self.labels().map_values(|label: LabelView| label.name)
            == self.metric().spec_label_names()
    }
}

/// The views of a list of updates.
pub open spec fn update_views(updates: Seq<MetricUpdate>) -> Seq<MetricUpdateView> {
    updates.map_values(|update: MetricUpdate| update@)
}

/// An increment of a counter by one, with one label.
pub open spec fn count_one(metric: Metric, name: Seq<char>, value: Seq<char>) -> MetricUpdateView {
    MetricUpdateView::Count { metric, by: 1, labels: seq![LabelView { name, value }] }
}

} // verus!
