use export_worker::exports::document::{CallType, Export, ExportRequestor, Job};
use export_worker::exports::edit::{monitor_export, Change, Edit, WriteSource};
use export_worker::exports::fault::Fault;

fn in_progress() -> Export {
    Export::InProgress {
        start_ts: 17,
        job: Job {
            format: "zip".to_owned(),
            requestor: ExportRequestor::SnapshotExport,
            resumption_token: None,
        },
    }
}

fn edits() -> Vec<Edit> {
    vec![
        Edit::UpdateProgress { message: "half".to_owned() },
        Edit::SaveResumptionToken { token: "t1".to_owned() },
        Edit::MarkFailed,
        Edit::MarkComplete { snapshot_ts: 5, object_key: "key".to_owned(), size: 99 },
    ]
}

#[test]
fn canceled_or_missing_exports_are_not_written() {
    for edit in edits() {
        assert_eq!(edit.decide(&None, 30), Err(Fault::ExportCanceled));
        assert_eq!(edit.decide(&Some(Export::Canceled), 30), Err(Fault::ExportCanceled));
    }
}

#[test]
fn exports_in_progress_are_edited() {
    let changes: Vec<_> =
        edits().iter().map(|edit| edit.decide(&Some(in_progress()), 30).unwrap()).collect();
    assert_eq!(
        changes,
        vec![
            Change::Progress { message: "half".to_owned() },
            Change::ResumptionToken { token: "t1".to_owned() },
            Change::Failed { start_ts: 17, failed_ts: 30 },
            Change::Completed {
                snapshot_ts: 5,
                complete_ts: 30,
                object_key: "key".to_owned(),
                size: 99,
            },
        ],
    );
}

#[test]
fn only_exports_in_progress_are_marked_as_failed() {
    for export in [Export::Requested, Export::Completed, Export::Failed] {
        assert_eq!(Edit::MarkFailed.decide(&Some(export), 30), Err(Fault::FailNotInProgress));
    }
    assert_eq!(
        Edit::UpdateProgress { message: "x".to_owned() }.decide(&Some(Export::Completed), 30),
        Ok(Change::Progress { message: "x".to_owned() }),
    );
}

#[test]
fn edits_have_write_sources() {
    let names: Vec<_> = edits().iter().map(|edit| edit.write_source().name()).collect();
    assert_eq!(
        names,
        vec![
            "export_worker_update_progress",
            "export_worker_save_resumption_token",
            "export_worker_mark_failed",
            "export_worker_mark_complete",
        ],
    );
    assert_eq!(WriteSource::ExportRequested.name(), "export_worker_export_requested");
}

#[test]
fn monitor_goes_on_only_while_in_progress() {
    assert_eq!(monitor_export(&Some(in_progress())), Ok(()));
    assert_eq!(monitor_export(&None), Err(Fault::ExportCanceled));
    assert_eq!(monitor_export(&Some(Export::Canceled)), Err(Fault::ExportCanceled));
    for export in [Export::Requested, Export::Completed, Export::Failed] {
        assert_eq!(monitor_export(&Some(export)), Err(Fault::UnexpectedState));
    }
}

#[test]
fn requestors_are_charged_by_call_type() {
    assert_eq!(ExportRequestor::SnapshotExport.call_type(), CallType::Export);
    assert_eq!(ExportRequestor::CloudBackup.call_type(), CallType::CloudBackup);
}

#[test]
fn faults_have_messages() {
    assert_eq!(Fault::ExportCanceled.message("e1", "x"), "Export canceled");
    assert_eq!(
        Fault::SeveralExports.message("e1", "x"),
        "Can only have one export requested or in progress at once.",
    );
    assert_eq!(
        Fault::FailNotInProgress.message("e1", "x"),
        "Can only fail an in-progress export",
    );
    assert_eq!(
        Fault::ExportNotInProgress.message("e1", "x"),
        "export_and_mark_complete should only be called with an InProgress export",
    );
    assert_eq!(
        Fault::UnexpectedState.message("e1", "Failed"),
        "Export e1 is in unexpected state: Failed",
    );
    assert_eq!(
        Fault::MissingObjectAttributes.message("e1", "x"),
        "error getting export object attributes from S3",
    );
}
