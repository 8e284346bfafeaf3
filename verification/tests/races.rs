use export_worker::exports::document::{Export, ExportRequestor, Job};
use export_worker::exports::fault::Fault;
use export_worker::exports::race::{MonitorAction, MonitorEvent, Race, RaceEnd, RaceStep};
use export_worker::exports::task::{
    ExportPlan, ExportTask, TaskAction, TaskEvent, UnexpectedEvent,
};

fn plan(token: Option<&str>) -> ExportPlan {
    ExportPlan {
        deployment_name: "happy-animal-1".to_owned(),
        id: "e1".to_owned(),
        snapshot_ts: 40,
        job: Job {
            format: "zip".to_owned(),
            requestor: ExportRequestor::CloudBackup,
            resumption_token: token.map(|token| token.to_owned()),
        },
    }
}

fn anew() -> TaskAction {
    TaskAction::Export {
        deployment_name: "happy-animal-1".to_owned(),
        snapshot_ts: 40,
        format: "zip".to_owned(),
        requestor: ExportRequestor::CloudBackup,
        id: "e1".to_owned(),
    }
}

fn in_progress() -> Option<Export> {
    Some(Export::InProgress { start_ts: 1, job: plan(None).job })
}

#[test]
fn without_a_token_the_export_begins_at_once() {
    let (mut task, action) = ExportTask::start(plan(None));
    assert_eq!(action, anew());
    assert_eq!(task.step(TaskEvent::Resumed(None)), Err(UnexpectedEvent));
    assert_eq!(
        task.step(TaskEvent::Exported("key".to_owned())),
        Ok(TaskAction::Finish { object_key: "key".to_owned() }),
    );
    assert_eq!(task.step(TaskEvent::ExportFailed), Err(UnexpectedEvent));
}

#[test]
fn a_resumed_export_is_not_begun_anew() {
    let (mut task, action) = ExportTask::start(plan(Some("t1")));
    assert_eq!(
        action,
        TaskAction::Resume {
            deployment_name: "happy-animal-1".to_owned(),
            token: "t1".to_owned(),
            id: "e1".to_owned(),
        },
    );
    assert_eq!(
        task.step(TaskEvent::Resumed(Some("key".to_owned()))),
        Ok(TaskAction::Finish { object_key: "key".to_owned() }),
    );
}

#[test]
fn an_unresumable_export_is_begun_anew() {
    let (mut task, _) = ExportTask::start(plan(Some("t1")));
    assert_eq!(task.step(TaskEvent::Resumed(None)), Ok(anew()));
    let (mut task, _) = ExportTask::start(plan(Some("t1")));
    assert_eq!(task.step(TaskEvent::ResumeFailed), Ok(TaskAction::Report));
    assert_eq!(task.step(TaskEvent::Reported), Ok(anew()));
    assert_eq!(task.step(TaskEvent::ExportFailed), Ok(TaskAction::Fail));
}

#[test]
fn a_finished_export_ends_the_watch() {
    let (mut race, task, monitor) = Race::start(plan(None));
    assert_eq!(task, anew());
    assert_eq!(monitor, MonitorAction::Look);
    assert_eq!(
        race.monitor_event(MonitorEvent::Looked(in_progress())),
        Ok(RaceStep::Monitor(MonitorAction::Subscribe)),
    );
    assert_eq!(
        race.monitor_event(MonitorEvent::Invalidated),
        Ok(RaceStep::Monitor(MonitorAction::Look)),
    );
    assert_eq!(
        race.task_event(TaskEvent::Exported("key".to_owned())),
        Ok(RaceStep::Over(RaceEnd::Exported { object_key: "key".to_owned() })),
    );
    assert_eq!(race.monitor_event(MonitorEvent::Looked(None)), Err(UnexpectedEvent));
}

#[test]
fn a_cancellation_ends_the_export() {
    for read in [None, Some(Export::Canceled)] {
        let (mut race, _, _) = Race::start(plan(Some("t1")));
        assert_eq!(
            race.task_event(TaskEvent::ResumeFailed),
            Ok(RaceStep::Task(TaskAction::Report)),
        );
        assert_eq!(
            race.monitor_event(MonitorEvent::Looked(read)),
            Ok(RaceStep::Over(RaceEnd::Raised(Fault::ExportCanceled))),
        );
        assert_eq!(race.task_event(TaskEvent::Reported), Err(UnexpectedEvent));
    }
}

#[test]
fn an_unexpected_state_ends_the_export() {
    let (mut race, _, _) = Race::start(plan(None));
    assert_eq!(
        race.monitor_event(MonitorEvent::Looked(Some(Export::Failed))),
        Ok(RaceStep::Over(RaceEnd::Raised(Fault::UnexpectedState))),
    );
}

#[test]
fn failures_on_either_side_end_the_race() {
    let (mut race, _, _) = Race::start(plan(None));
    assert_eq!(race.monitor_event(MonitorEvent::Invalidated), Err(UnexpectedEvent));
    assert_eq!(
        race.task_event(TaskEvent::ExportFailed),
        Ok(RaceStep::Over(RaceEnd::ExportFailed)),
    );
    let (mut race, _, _) = Race::start(plan(None));
    assert_eq!(
        race.monitor_event(MonitorEvent::Failed),
        Ok(RaceStep::Over(RaceEnd::MonitorFailed)),
    );
}
