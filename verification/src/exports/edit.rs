//! Transactions on an export document that is being worked on.
use vstd::prelude::*;

use crate::exports::document::Export;
use crate::exports::fault::Fault;

verus! {

/// The name under which a write of the worker is committed.
#[derive(Clone, Copy, Debug, PartialEq, Eq, Structural)]
pub enum WriteSource {
    ExportRequested,
    UpdateProgress,
    SaveResumptionToken,
    MarkFailed,
    MarkComplete,
}

impl WriteSource {
    /// The name in full.
    pub fn name(self) -> (name: &'static str)
        ensures
            name@ == match self {
                WriteSource::ExportRequested => "export_worker_export_requested"@,
                WriteSource::UpdateProgress => "export_worker_update_progress"@,
                WriteSource::SaveResumptionToken => "export_worker_save_resumption_token"@,
                WriteSource::MarkFailed => "export_worker_mark_failed"@,
                WriteSource::MarkComplete => "export_worker_mark_complete"@,
            },
    {
        match self {
            WriteSource::ExportRequested => "export_worker_export_requested",
            WriteSource::UpdateProgress => "export_worker_update_progress",
            WriteSource::SaveResumptionToken => "export_worker_save_resumption_token",
            WriteSource::MarkFailed => "export_worker_mark_failed",
            WriteSource::MarkComplete => "export_worker_mark_complete",
        }
    }
}

/// An intended change of the export document.
#[derive(Debug, PartialEq, Eq)]
pub enum Edit {
    UpdateProgress { message: String },
    SaveResumptionToken { token: String },
    MarkFailed,
    MarkComplete { snapshot_ts: u64, object_key: String, size: u64 },
}

/// The transition to apply to the document that was read, before it is written back.
#[derive(Debug, PartialEq, Eq)]
pub enum Change {
    Progress { message: String },
    ResumptionToken { token: String },
    Failed { start_ts: u64, failed_ts: u64 },
    Completed { snapshot_ts: u64, complete_ts: u64, object_key: String, size: u64 },
}

/// The export is still there and nobody has canceled it.
pub open spec fn still_wanted(read: Option<Export>) -> bool {
    read matches Some(export) && !(export is Canceled)
}

impl Edit {
    pub open spec fn spec_write_source(self) -> WriteSource {
        match self {
            Edit::UpdateProgress { .. } => WriteSource::UpdateProgress,
            Edit::SaveResumptionToken { .. } => WriteSource::SaveResumptionToken,
            Edit::MarkFailed => WriteSource::MarkFailed,
            Edit::MarkComplete { .. } => WriteSource::MarkComplete,
        }
    }

    /// The name under which this edit is committed.
    pub fn write_source(&self) -> (source: WriteSource)
        ensures
            source == self.spec_write_source(),
    {
        match self {
            Edit::UpdateProgress { .. } => WriteSource::UpdateProgress,
            Edit::SaveResumptionToken { .. } => WriteSource::SaveResumptionToken,
            Edit::MarkFailed => WriteSource::MarkFailed,
            Edit::MarkComplete { .. } => WriteSource::MarkComplete,
        }
    }

    /// What this edit makes of the document as a transaction that began at
    /// `begin_ts` reads it: a transition to apply and write back, or the fault
    /// with which the transaction is given up.
    pub open spec fn spec_decide(self, read: Option<Export>, begin_ts: u64) -> Result<Change, Fault> {
        if !still_wanted(read) {
            Err(Fault::ExportCanceled)
        } else {
            match self {
                Edit::UpdateProgress { message } => Ok(Change::Progress { message }),
                Edit::SaveResumptionToken { token } => Ok(Change::ResumptionToken { token }),
                Edit::MarkFailed => match read->0 {
                    Export::InProgress { start_ts, .. } => Ok(
                        Change::Failed { start_ts, failed_ts: begin_ts },
                    ),
                    _ => Err(Fault::FailNotInProgress),
                },
                Edit::MarkComplete { snapshot_ts, object_key, size } => Ok(
                    Change::Completed { snapshot_ts, complete_ts: begin_ts, object_key, size },
                ),
            }
        }
    }

    /// Decides what a transaction that began at `begin_ts` and reads the
    /// document as `read` is to write. The edit is kept, for the transaction may
    /// have to be tried again.
    pub fn decide(&self, read: &Option<Export>, begin_ts: u64) -> (change: Result<Change, Fault>)
        ensures
            change == self.spec_decide(*read, begin_ts),
    {
        match read {
            None => Err(Fault::ExportCanceled),
            Some(Export::Canceled) => Err(Fault::ExportCanceled),
            Some(export) => match self {
                Edit::UpdateProgress { message } => Ok(Change::Progress { message: message.clone() }),
                Edit::SaveResumptionToken { token } => Ok(
                    Change::ResumptionToken { token: token.clone() },
                ),
                Edit::MarkFailed => match export {
                    Export::InProgress { start_ts, .. } => Ok(
                        Change::Failed { start_ts: *start_ts, failed_ts: begin_ts },
                    ),
                    _ => Err(Fault::FailNotInProgress),
                },
                Edit::MarkComplete { snapshot_ts, object_key, size } => Ok(
                    Change::Completed {
                        snapshot_ts: *snapshot_ts,
                        complete_ts: begin_ts,
                        object_key: object_key.clone(),
                        size: *size,
                    },
                ),
            },
        }
    }
}

/// What a look at the document tells whoever is carrying the export out: go on,
/// or stop with a fault.
pub open spec fn spec_monitor_export(read: Option<Export>) -> Result<(), Fault> {
    match read {
        None => Err(Fault::ExportCanceled),
        Some(Export::InProgress { .. }) => Ok(()),
        Some(Export::Canceled) => Err(Fault::ExportCanceled),
        Some(_) => Err(Fault::UnexpectedState),
    }
}

/// Looks for a cancellation while the export is being carried out.
pub fn monitor_export(read: &Option<Export>) -> (verdict: Result<(), Fault>)
    ensures
        verdict == spec_monitor_export(*read),
{
    match read {
        None => Err(Fault::ExportCanceled),
        Some(Export::InProgress { .. }) => Ok(()),
        Some(Export::Canceled) => Err(Fault::ExportCanceled),
        Some(_) => Err(Fault::UnexpectedState),
    }
}

} // verus!
