use std::time::Duration;

use export_worker::allocator::TrimReason;
use export_worker::exports::document::{
    CallType, ComponentPath, Export, ExportDocument, ExportRequestor, Job, UdfIdentifier, UsageTag,
};
use export_worker::exports::edit::{Edit, WriteSource};
use export_worker::exports::fault::{Failure, Fault};
use export_worker::exports::task::{ExportPlan, UnexpectedEvent};
use export_worker::exports::worker::{
    backoff_bounds, report_context, worker_name, Action, AttemptPhase, Config, Event, ExportWorker,
    Phase, RetryPhase, RunPhase,
};

const TOO_LARGE: &str = "FileStorageExportTooLarge";

fn worker() -> ExportWorker {
    let (worker, action) = ExportWorker::new(Config {
        deployment_name: "happy-animal-1".to_owned(),
        too_large_short_msg: TOO_LARGE.to_owned(),
    });
    assert_eq!(action, Action::Poll);
    worker
}

fn job() -> Job {
    Job {
        format: "zip".to_owned(),
        requestor: ExportRequestor::CloudBackup,
        resumption_token: Some("t1".to_owned()),
    }
}

fn doc() -> ExportDocument {
    ExportDocument {
        id: "e1".to_owned(),
        export: Export::InProgress { start_ts: 7, job: job() },
    }
}

fn requested() -> ExportDocument {
    ExportDocument { id: "e1".to_owned(), export: Export::Requested }
}

fn polled(requested: Option<ExportDocument>, in_progress: Option<ExportDocument>) -> Event {
    Event::Polled { requested, in_progress }
}

fn failure(short_msg: &str) -> Failure {
    Failure { canceled: false, short_msg: short_msg.to_owned(), status: "server_error" }
}

fn cancellation() -> Failure {
    Failure { canceled: true, short_msg: TOO_LARGE.to_owned(), status: "server_error" }
}

/// Feeds each event and expects the action beside it.
fn play(worker: &mut ExportWorker, script: Vec<(Event, Action)>) {
    for (event, action) in script {
        assert_eq!(worker.step(event), Ok(action));
    }
}

fn race() -> Action {
    Action::Race(ExportPlan {
        deployment_name: "happy-animal-1".to_owned(),
        id: "e1".to_owned(),
        snapshot_ts: 40,
        job: job(),
    })
}

fn mark_failed() -> Action {
    Action::Edit { id: "e1".to_owned(), edit: Edit::MarkFailed }
}

/// Events and actions from the snapshot of an attempt to the end of the run.
fn success() -> Vec<(Event, Action)> {
    vec![
        (Event::Timestamp(40), race()),
        (
            Event::Exported { object_key: "key".to_owned() },
            Action::ReadAttributes { object_key: "key".to_owned() },
        ),
        (
            Event::Attributes(Some(1234)),
            Action::Edit {
                id: "e1".to_owned(),
                edit: Edit::MarkComplete {
                    snapshot_ts: 40,
                    object_key: "key".to_owned(),
                    size: 1234,
                },
            },
        ),
        (
            Event::Done,
            Action::ChargeIngress {
                component: ComponentPath::Root,
                tag: UsageTag(ExportRequestor::CloudBackup),
                size: 1234,
            },
        ),
        (
            Event::Done,
            Action::ChargeCall {
                caller: UdfIdentifier::SystemJob(UsageTag(ExportRequestor::CloudBackup)),
                call_type: CallType::CloudBackup,
                success: true,
            },
        ),
        (Event::Done, Action::Trim(TrimReason::Export)),
        (Event::Done, Action::ResetBackoff),
        (Event::Done, Action::Poll),
    ]
}

/// Events and actions from the report of a failed run to the next poll.
fn death() -> Vec<(Event, Action)> {
    vec![
        (Event::Done, Action::FailBackoff),
        (Event::Delay(Duration::from_secs(3)), Action::Wait(Duration::from_secs(3))),
        (Event::Done, Action::Poll),
    ]
}

#[test]
fn backoff_is_between_a_second_and_a_quarter_of_an_hour() {
    assert_eq!(backoff_bounds(), (Duration::from_millis(1000), Duration::new(15 * 60, 0)));
}

#[test]
fn requested_export_is_started_and_completed() {
    let mut worker = worker();
    play(
        &mut worker,
        vec![
            (polled(Some(requested()), None), Action::ReadClock),
            (Event::Timestamp(7), Action::Start { id: "e1".to_owned(), start_ts: 7 }),
            (Event::Started(doc()), Action::Commit(WriteSource::ExportRequested)),
            (Event::Done, Action::TakeSnapshot),
        ],
    );
    play(&mut worker, success());
}

#[test]
fn unfinished_export_is_restarted() {
    let mut worker = worker();
    play(&mut worker, vec![(polled(None, Some(doc())), Action::TakeSnapshot)]);
    play(&mut worker, success());
}

#[test]
fn without_exports_the_worker_waits_for_a_change() {
    let mut worker = worker();
    play(
        &mut worker,
        vec![
            (polled(None, None), Action::Subscribe),
            (Event::Done, Action::ResetBackoff),
            (Event::Done, Action::Poll),
            (polled(None, None), Action::Subscribe),
            (Event::Failed(failure("x")), Action::Report { died: true }),
        ],
    );
    play(&mut worker, death());
}

#[test]
fn two_exports_at_once_are_refused() {
    let mut worker = worker();
    play(
        &mut worker,
        vec![
            (polled(Some(requested()), Some(doc())), Action::Raise(Fault::SeveralExports)),
            (Event::Failed(failure("x")), Action::Report { died: true }),
        ],
    );
    play(&mut worker, death());
}

#[test]
fn failures_before_the_first_attempt_end_the_run() {
    for taken in [0, 2, 3] {
        let mut worker = worker();
        for (event, action) in [
            (polled(Some(requested()), None), Action::ReadClock),
            (Event::Timestamp(7), Action::Start { id: "e1".to_owned(), start_ts: 7 }),
            (Event::Started(doc()), Action::Commit(WriteSource::ExportRequested)),
        ]
        .into_iter()
        .take(taken)
        {
            assert_eq!(worker.step(event), Ok(action));
        }
        // Canceled or not, an error here is one of the run.
        assert_eq!(
            worker.step(Event::Failed(cancellation())),
            Ok(Action::Report { died: true }),
        );
        play(&mut worker, death());
    }
}

#[test]
fn failed_attempt_is_retried_with_the_same_document() {
    let mut worker = worker();
    play(&mut worker, vec![(polled(None, Some(doc())), Action::TakeSnapshot)]);
    for seconds in [2, 4] {
        let delay = Duration::from_secs(seconds);
        play(
            &mut worker,
            vec![
                (Event::Timestamp(40), race()),
                (Event::Failed(failure("x")), Action::LogFailure(failure("x"))),
                (Event::Done, Action::Report { died: false }),
                (Event::Done, Action::FailBackoff),
                (Event::Delay(delay), Action::Wait(delay)),
                (Event::Done, Action::TakeSnapshot),
            ],
        );
    }
    play(&mut worker, success());
}

#[test]
fn every_stage_of_an_attempt_can_fail() {
    for taken in 0..4 {
        let mut worker = worker();
        play(&mut worker, vec![(polled(None, Some(doc())), Action::TakeSnapshot)]);
        for (event, action) in success().into_iter().take(taken) {
            if matches!(action, Action::ChargeIngress { .. }) {
                break;
            }
            assert_eq!(worker.step(event), Ok(action));
        }
        play(
            &mut worker,
            vec![
                (Event::Failed(failure("x")), Action::LogFailure(failure("x"))),
                (Event::Done, Action::Report { died: false }),
            ],
        );
    }
}

#[test]
fn canceled_export_is_let_go_of() {
    for taken in 0..4 {
        let mut worker = worker();
        play(&mut worker, vec![(polled(None, Some(doc())), Action::TakeSnapshot)]);
        for (event, action) in success().into_iter().take(taken) {
            if matches!(action, Action::ChargeIngress { .. }) {
                break;
            }
            assert_eq!(worker.step(event), Ok(action));
        }
        play(
            &mut worker,
            vec![
                (Event::Failed(cancellation()), Action::ResetBackoff),
                (Event::Done, Action::Poll),
            ],
        );
    }
}

#[test]
fn too_large_export_is_marked_as_failed() {
    let answers = vec![
        (Event::Done, Action::ResetBackoff),
        (Event::Failed(cancellation()), Action::ResetBackoff),
        (Event::Failed(failure("x")), Action::Report { died: true }),
        (Event::Failed(failure(TOO_LARGE)), Action::Report { died: true }),
    ];
    for (answer, action) in answers {
        let mut worker = worker();
        play(
            &mut worker,
            vec![
                (polled(None, Some(doc())), Action::TakeSnapshot),
                (Event::Timestamp(40), race()),
                (Event::Failed(failure(TOO_LARGE)), Action::LogFailure(failure(TOO_LARGE))),
                (Event::Done, mark_failed()),
                (answer, action),
            ],
        );
    }
}

#[test]
fn missing_attributes_are_an_error_of_the_attempt() {
    let mut worker = worker();
    play(
        &mut worker,
        vec![
            (polled(None, Some(doc())), Action::TakeSnapshot),
            (Event::Timestamp(40), race()),
            (
                Event::Exported { object_key: "key".to_owned() },
                Action::ReadAttributes { object_key: "key".to_owned() },
            ),
            (Event::Attributes(None), Action::Raise(Fault::MissingObjectAttributes)),
            (Event::Failed(failure("x")), Action::LogFailure(failure("x"))),
        ],
    );
}

#[test]
fn only_exports_in_progress_are_attempted() {
    let mut worker = worker();
    play(
        &mut worker,
        vec![
            (polled(None, Some(requested())), Action::Raise(Fault::ExportNotInProgress)),
            (Event::Failed(failure("x")), Action::LogFailure(failure("x"))),
            (Event::Done, Action::Report { died: false }),
            (Event::Done, Action::FailBackoff),
            (Event::Delay(Duration::ZERO), Action::Wait(Duration::ZERO)),
            (Event::Done, Action::Raise(Fault::ExportNotInProgress)),
        ],
    );
}

#[test]
fn events_that_answer_nothing_change_nothing() {
    let mut worker = worker();
    assert_eq!(worker.step(Event::Done), Err(UnexpectedEvent));
    assert_eq!(worker.step(Event::Timestamp(1)), Err(UnexpectedEvent));
    play(&mut worker, vec![(polled(None, Some(doc())), Action::TakeSnapshot)]);
    assert_eq!(worker.step(polled(None, None)), Err(UnexpectedEvent));
    play(&mut worker, success());
    play(&mut worker, vec![(polled(Some(requested()), None), Action::ReadClock)]);
    assert_eq!(worker.step(Event::Failed(failure("x"))), Err(UnexpectedEvent));
    play(
        &mut worker,
        vec![(Event::Timestamp(7), Action::Start { id: "e1".to_owned(), start_ts: 7 })],
    );
}

#[test]
fn charges_cannot_fail() {
    let mut worker = worker();
    play(&mut worker, vec![(polled(None, Some(doc())), Action::TakeSnapshot)]);
    let mut rest = success();
    let tail = rest.split_off(4);
    play(&mut worker, rest);
    assert_eq!(worker.step(Event::Failed(failure("x"))), Err(UnexpectedEvent));
    play(&mut worker, tail);
}

#[test]
fn reports_say_whether_the_worker_died() {
    assert_eq!(report_context(true), Some("ExportWorker died"));
    assert_eq!(report_context(false), None);
    assert_eq!(worker_name(), "ExportWorker");
}

#[test]
fn the_worker_works_from_finding_an_export_to_the_end_of_the_run() {
    let mut worker = worker();
    assert!(!worker.is_working());
    worker.step(polled(None, None)).unwrap();
    assert!(!worker.is_working());
    worker.step(Event::Done).unwrap();
    worker.step(Event::Done).unwrap();
    worker.step(polled(Some(requested()), Some(doc()))).unwrap();
    assert!(!worker.is_working());
    worker.step(Event::Failed(failure("x"))).unwrap();
    assert!(!worker.is_working());
    play(&mut worker, death());
    for event in [
        polled(Some(requested()), None),
        Event::Timestamp(7),
        Event::Started(doc()),
        Event::Done,
    ] {
        worker.step(event).unwrap();
        assert!(worker.is_working());
    }
    for (event, action) in success() {
        let over = action == Action::ResetBackoff || action == Action::Poll;
        assert_eq!(worker.step(event), Ok(action));
        assert_eq!(worker.is_working(), !over);
    }
    worker.step(polled(None, Some(doc()))).unwrap();
    assert!(worker.is_working());
    worker.step(Event::Failed(cancellation())).unwrap();
    assert!(!worker.is_working());
}

#[test]
fn failures_are_counted_once_each() {
    let mut worker = worker();
    play(&mut worker, vec![(polled(None, Some(doc())), Action::TakeSnapshot)]);
    let mut begun = 1;
    let mut logged = 0;
    let mut backed_off = 0;
    let mut reset = 0;
    let mut events = Vec::new();
    for _ in 0..3 {
        events.push(Event::Failed(failure("x")));
        events.push(Event::Done);
        events.push(Event::Done);
        events.push(Event::Delay(Duration::ZERO));
        events.push(Event::Done);
    }
    events.push(Event::Timestamp(40));
    events.push(Event::Failed(failure(TOO_LARGE)));
    events.push(Event::Done);
    events.push(Event::Done);
    for event in events {
        match worker.step(event).unwrap() {
            Action::TakeSnapshot => begun += 1,
            Action::LogFailure(_) => logged += 1,
            Action::FailBackoff => backed_off += 1,
            Action::ResetBackoff => reset += 1,
            _ => {},
        }
    }
    assert_eq!((begun, logged, backed_off, reset), (4, 4, 3, 1));
}

#[test]
fn stages_of_an_export_can_be_taken_one_by_one() {
    assert_eq!(
        ExportWorker::export(doc(), RetryPhase::Waiting, Event::Done),
        Ok((
            Phase::Attempt { doc: doc(), at: AttemptPhase::TakingSnapshot { job: job() } },
            Action::TakeSnapshot,
        )),
    );
    let config = Config {
        deployment_name: "happy-animal-1".to_owned(),
        too_large_short_msg: TOO_LARGE.to_owned(),
    };
    assert_eq!(
        ExportWorker::export_and_mark_complete(
            &config,
            doc(),
            AttemptPhase::ChargingCall,
            Event::Done,
        ),
        Ok((
            Phase::Retry { doc: doc(), stage: RetryPhase::Trimming },
            Action::Trim(TrimReason::Export),
        )),
    );
}

#[test]
fn a_run_can_be_taken_step_by_step() {
    assert_eq!(
        ExportWorker::run(RunPhase::Polling, polled(None, None)),
        Ok((Phase::Run(RunPhase::Subscribing), Action::Subscribe)),
    );
    assert_eq!(
        ExportWorker::run(RunPhase::Starting, Event::Done),
        Err(Phase::Run(RunPhase::Starting)),
    );
}
