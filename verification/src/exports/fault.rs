//! Errors: those that the worker raises, and what it reads of any other.
use vstd::prelude::*;
use vstd::string::StringExecFns;

verus! {

/// An error that the worker itself raises.
#[derive(Clone, Copy, Debug, PartialEq, Eq, Structural)]
pub enum Fault {
    /// The export was canceled, or its document is gone.
    ExportCanceled,
    /// One export is requested while another is in progress.
    SeveralExports,
    /// An export to be marked as failed is not in progress.
    FailNotInProgress,
    /// An export to be carried out is not in progress.
    ExportNotInProgress,
    /// An export that is being carried out is found in a state it cannot be in.
    UnexpectedState,
    /// The finished export's object has no attributes.
    MissingObjectAttributes,
}

impl Fault {
    /// The text of the fault, for the export `id` found in a state shown as `shown`.
    pub open spec fn spec_message(self, id: Seq<char>, shown: Seq<char>) -> Seq<char> {
        match self {
            Fault::ExportCanceled => "Export canceled"@,
            Fault::SeveralExports =>
                "Can only have one export requested or in progress at once."@,
            Fault::FailNotInProgress => "Can only fail an in-progress export"@,
            Fault::ExportNotInProgress =>
                "export_and_mark_complete should only be called with an InProgress export"@,
            Fault::UnexpectedState => "Export "@ + id + " is in unexpected state: "@ + shown,
            Fault::MissingObjectAttributes => "error getting export object attributes from S3"@,
        }
    }

    /// The text of the fault, for the export `id` found in a state shown as `shown`.
    pub fn message(&self, id: &str, shown: &str) -> (text: String)
        ensures
            text@ == self.spec_message(id@, shown@),
    {
        match self {
            Fault::ExportCanceled => "Export canceled".to_owned(),
            Fault::SeveralExports => {
                "Can only have one export requested or in progress at once.".to_owned()
            },
            Fault::FailNotInProgress => "Can only fail an in-progress export".to_owned(),
            Fault::ExportNotInProgress => {
                "export_and_mark_complete should only be called with an InProgress export".to_owned()
            },
            Fault::UnexpectedState => {
                let mut text = "Export ".to_owned();
                text.append(id);
                text.append(" is in unexpected state: ");
                text.append(shown);
                text
            },
            Fault::MissingObjectAttributes => {
                "error getting export object attributes from S3".to_owned()
            },
        }
    }
}

/// What the worker reads of an error.
#[derive(Debug, PartialEq, Eq)]
pub struct Failure {
    /// The error is, or wraps, [`Fault::ExportCanceled`].
    pub canceled: bool,
    /// The short message that names the error.
    pub short_msg: String,
    /// The `status` label under which the error is counted.
    pub status: &'static str,
}

} // verus!
