//! The export document, as far as the worker reads it.
use vstd::prelude::*;

verus! {

/// Who asked for an export.
#[derive(Clone, Copy, Debug, PartialEq, Eq, Structural)]
pub enum ExportRequestor {
    SnapshotExport,
    CloudBackup,
}

/// The kind of call under which an export's database bandwidth is charged.
#[derive(Clone, Copy, Debug, PartialEq, Eq, Structural)]
pub enum CallType {
    Export,
    CloudBackup,
}

impl ExportRequestor {
    pub open spec fn spec_call_type(self) -> CallType {
        match self {
            ExportRequestor::SnapshotExport => CallType::Export,
            ExportRequestor::CloudBackup => CallType::CloudBackup,
        }
    }

    /// The kind of call under which this requestor is charged.
    pub fn call_type(self) -> (call_type: CallType)
        ensures
            call_type == self.spec_call_type(),
    {
        match self {
            ExportRequestor::SnapshotExport => CallType::Export,
            ExportRequestor::CloudBackup => CallType::CloudBackup,
        }
    }
}

/// The component that file bandwidth is charged to.
#[derive(Clone, Copy, Debug, PartialEq, Eq, Structural)]
pub enum ComponentPath {
    /// The root component.
    Root,
}

/// The tag under which the usage of a requestor is charged.
#[derive(Clone, Copy, Debug, PartialEq, Eq, Structural)]
pub struct UsageTag(pub ExportRequestor);

/// The caller that database bandwidth is charged to.
#[derive(Clone, Copy, Debug, PartialEq, Eq, Structural)]
pub enum UdfIdentifier {
    /// A job of the system, named by the tag.
    SystemJob(UsageTag),
}

/// What an export in progress is to produce, and where an earlier attempt got to.
#[derive(Debug, PartialEq, Eq)]
pub struct Job {
    pub format: String,
    pub requestor: ExportRequestor,
    pub resumption_token: Option<String>,
}

impl Clone for Job {
    fn clone(&self) -> (job: Self)
        ensures
            job == *self,
    {
        Job {
            format: self.format.clone(),
            requestor: self.requestor,
            resumption_token: match &self.resumption_token {
                Some(token) => Some(token.clone()),
                None => None,
            },
        }
    }
}

/// The state of an export.
#[derive(Debug, PartialEq, Eq)]
pub enum Export {
    Requested,
    InProgress { start_ts: u64, job: Job },
    Completed,
    Failed,
    Canceled,
}

/// A stored export.
#[derive(Debug, PartialEq, Eq)]
pub struct ExportDocument {
    pub id: String,
    pub export: Export,
}

} // verus!
