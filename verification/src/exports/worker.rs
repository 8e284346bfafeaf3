//! The export worker: polls for exports, carries them out one at a time, tries
//! again with a backoff, and never stops.
//!
//! The worker asks for one [`Action`] at a time and is told what came of it by
//! an [`Event`]. An action that can fail is answered by [`Event::Failed`] when it
//! does; the error itself stays with the caller, who reports it when asked to.
use std::time::Duration;

use vstd::prelude::*;

use crate::allocator::TrimReason;
use crate::exports::document::{
    CallType, ComponentPath, Export, ExportDocument, ExportRequestor, Job, UdfIdentifier, UsageTag,
};
use crate::exports::edit::{Edit, WriteSource};
use crate::exports::fault::{Failure, Fault};
use crate::exports::task::{ExportPlan, UnexpectedEvent};
use crate::time::{
    duration_from_secs, duration_nanos, duration_secs, duration_subsec_nanos,
};

verus! {

/// The shortest backoff, in seconds.
pub const INITIAL_BACKOFF_SECS: u64 = 1;

/// The longest backoff, in seconds: 15 minutes.
pub const MAX_BACKOFF_SECS: u64 = 900;

/// The shortest and the longest delay of the worker's backoff.
pub fn backoff_bounds() -> (bounds: (Duration, Duration))
    ensures
        bounds == (
            duration_from_secs(INITIAL_BACKOFF_SECS),
            duration_from_secs(MAX_BACKOFF_SECS),
        ),
        duration_nanos(bounds.0) == INITIAL_BACKOFF_SECS * 1_000_000_000,
        duration_nanos(bounds.1) == MAX_BACKOFF_SECS * 1_000_000_000,
        duration_secs(bounds.0) == 1 && duration_subsec_nanos(bounds.0) == 0,
        duration_secs(bounds.1) == 15 * 60 && duration_subsec_nanos(bounds.1) == 0,
{
    (Duration::from_secs(INITIAL_BACKOFF_SECS), Duration::from_secs(MAX_BACKOFF_SECS))
}

/// The name under which the worker is recorded as working.
pub fn worker_name() -> (name: &'static str)
    ensures
        name@ == "ExportWorker"@,
{
    "ExportWorker"
}

/// What is said of an error when it is reported: that the worker died of it, if
/// it did, and nothing otherwise.
pub fn report_context(died: bool) -> (text: Option<&'static str>)
    ensures
        died ==> (text matches Some(text) && text@ == "ExportWorker died"@),
        !died ==> text is None,
{
    if died {
        Some("ExportWorker died")
    } else {
        None
    }
}

/// What the caller is to do next.
#[derive(Debug, PartialEq, Eq)]
pub enum Action {
    /// Begin a transaction and read the latest requested export and the latest
    /// export in progress.
    Poll,
    /// Read the timestamp to be used for reads.
    ReadClock,
    /// In the transaction of the poll, put the export in progress as of
    /// `start_ts` and write it back.
    Start { id: String, start_ts: u64 },
    /// Commit the transaction of the poll.
    Commit(WriteSource),
    /// Wait until what the transaction of the poll has read is invalidated.
    Subscribe,
    /// Make an error of the fault. It is answered by `Failed`.
    Raise(Fault),
    /// Take the latest database snapshot, and its timestamp.
    TakeSnapshot,
    /// Carry the export out while watching its document for a cancellation,
    /// until the first of the two is over.
    Race(ExportPlan),
    /// Read the attributes of the export's object.
    ReadAttributes { object_key: String },
    /// Edit the export document in a transaction.
    Edit { id: String, edit: Edit },
    /// Charge file bandwidth for the upload of the export's object to a
    /// component, under a tag.
    ChargeIngress { component: ComponentPath, tag: UsageTag, size: u64 },
    /// Charge the database bandwidth that the export has accumulated as a call
    /// of `caller`, successful or not.
    ChargeCall { caller: UdfIdentifier, call_type: CallType, success: bool },
    /// Let the shared allocator give pages back to the system for this reason,
    /// if that is switched on.
    Trim(TrimReason),
    /// Count the failed attempt.
    LogFailure(Failure),
    /// Report the latest error, with the context that [`report_context`] gives.
    Report { died: bool },
    /// Tell the backoff of a failure, and obtain the delay.
    FailBackoff,
    Wait(Duration),
    ResetBackoff,
}

/// What came of the last action.
#[derive(Debug, PartialEq, Eq)]
pub enum Event {
    /// Answers `Poll`.
    Polled { requested: Option<ExportDocument>, in_progress: Option<ExportDocument> },
    /// Answers `ReadClock` and `TakeSnapshot`.
    Timestamp(u64),
    /// Answers `Start` with the document as written.
    Started(ExportDocument),
    /// Answers `Race` when the export is the first to be over, and has succeeded.
    Exported { object_key: String },
    /// Answers `ReadAttributes` with the object's size, if it has attributes.
    Attributes(Option<u64>),
    /// Answers `FailBackoff`.
    Delay(Duration),
    /// Answers every action that has nothing to tell.
    Done,
    /// The action has failed.
    Failed(Failure),
}

/// Between two runs.
#[derive(Clone, Copy, Debug, PartialEq, Eq, Structural)]
pub enum LoopPhase {
    Resetting,
    Reporting,
    BackingOff,
    Waiting,
}

/// Looking for an export to carry out.
#[derive(Debug, PartialEq, Eq)]
pub enum RunPhase {
    Polling,
    Raising,
    ReadingClock { id: String },
    Starting,
    Committing { doc: ExportDocument },
    Subscribing,
}

/// Between two attempts at an export, or after the last.
#[derive(Clone, Copy, Debug, PartialEq, Eq, Structural)]
pub enum RetryPhase {
    Trimming,
    Logging { too_large: bool },
    MarkingFailed,
    Reporting,
    BackingOff,
    Waiting,
}

/// In an attempt at an export.
#[derive(Debug, PartialEq, Eq)]
pub enum AttemptPhase {
    Raising,
    TakingSnapshot { job: Job },
    Racing { requestor: ExportRequestor, snapshot_ts: u64 },
    ReadingAttributes { requestor: ExportRequestor, snapshot_ts: u64, object_key: String },
    MarkingComplete { requestor: ExportRequestor, size: u64 },
    ChargingIngress { requestor: ExportRequestor },
    ChargingCall,
}

/// What the worker is waiting for.
#[derive(Debug, PartialEq, Eq)]
pub enum Phase {
    Loop(LoopPhase),
    Run(RunPhase),
    Retry { doc: ExportDocument, stage: RetryPhase },
    Attempt { doc: ExportDocument, at: AttemptPhase },
}

impl Phase {
    /// What the worker remembers of an attempt agrees with the document that is
    /// attempted: the export is in progress, and its job is the document's.
    pub open spec fn wf(self) -> bool {
        match self {
            Phase::Attempt { doc, at } => match at {
                AttemptPhase::Raising => true,
                AttemptPhase::TakingSnapshot { job } => doc.export is InProgress && job
                    == doc.export->job,
                AttemptPhase::Racing { requestor, .. } => doc.export is InProgress && requestor
                    == doc.export->job.requestor,
                AttemptPhase::ReadingAttributes { requestor, .. } => doc.export is InProgress
                    && requestor == doc.export->job.requestor,
                AttemptPhase::MarkingComplete { requestor, .. } => doc.export is InProgress
                    && requestor == doc.export->job.requestor,
                AttemptPhase::ChargingIngress { requestor } => doc.export is InProgress
                    && requestor == doc.export->job.requestor,
                AttemptPhase::ChargingCall => doc.export is InProgress,
            },
            Phase::Retry { doc, stage } => stage is Trimming ==> doc.export is InProgress,
            _ => true,
        }
    }

    /// The worker has found one export, requested or in progress, and the run is
    /// not over.
    pub open spec fn working(self) -> bool {
        match self {
            Phase::Loop(_) => false,
            Phase::Run(at) => match at {
                RunPhase::ReadingClock { .. } => true,
                RunPhase::Starting => true,
                RunPhase::Committing { .. } => true,
                _ => false,
            },
            Phase::Retry { .. } => true,
            Phase::Attempt { .. } => true,
        }
    }

    /// The export that is being carried out.
    pub open spec fn doc(self) -> Option<ExportDocument> {
        match self {
            Phase::Retry { doc, .. } => Some(doc),
            Phase::Attempt { doc, .. } => Some(doc),
            _ => None,
        }
    }
}

/// What a worker is told once.
#[derive(Debug, PartialEq, Eq)]
pub struct Config {
    pub deployment_name: String,
    /// The short message of an export that can never succeed, since its file
    /// storage exceeds the limit.
    pub too_large_short_msg: String,
}

/// A run is over without an error.
pub open spec fn run_succeeds() -> (Phase, Action) {
    (Phase::Loop(LoopPhase::Resetting), Action::ResetBackoff)
}

/// A run is over with an error.
pub open spec fn run_fails() -> (Phase, Action) {
    (Phase::Loop(LoopPhase::Reporting), Action::Report { died: true })
}

/// An attempt at the export begins. Only an export in progress is attempted.
pub open spec fn attempt_begins(doc: ExportDocument) -> (Phase, Action) {
    match doc.export {
        Export::InProgress { job, .. } => (
            Phase::Attempt { doc, at: AttemptPhase::TakingSnapshot { job } },
            Action::TakeSnapshot,
        ),
        _ => (
            Phase::Attempt { doc, at: AttemptPhase::Raising },
            Action::Raise(Fault::ExportNotInProgress),
        ),
    }
}

/// An attempt at the export is over with an error. A canceled export is let go
/// of; any other failure is counted first.
pub open spec fn attempt_fails(config: Config, doc: ExportDocument, failure: Failure) -> (
    Phase,
    Action,
) {
    if failure.canceled {
        run_succeeds()
    } else {
        let too_large = failure.short_msg@ == config.too_large_short_msg@;
        (
            Phase::Retry { doc, stage: RetryPhase::Logging { too_large } },
            Action::LogFailure(failure),
        )
    }
}

/// The endless loop around the runs.
pub open spec fn loop_step(at: LoopPhase, event: Event) -> Option<(Phase, Action)> {
    match (at, event) {
        (LoopPhase::Resetting, Event::Done) => Some((Phase::Run(RunPhase::Polling), Action::Poll)),
        (LoopPhase::Reporting, Event::Done) => Some(
            (Phase::Loop(LoopPhase::BackingOff), Action::FailBackoff),
        ),
        (LoopPhase::BackingOff, Event::Delay(delay)) => Some(
            (Phase::Loop(LoopPhase::Waiting), Action::Wait(delay)),
        ),
        (LoopPhase::Waiting, Event::Done) => Some((Phase::Run(RunPhase::Polling), Action::Poll)),
        _ => None,
    }
}

/// A run, up to the first attempt at an export.
pub open spec fn run_step(at: RunPhase, event: Event) -> Option<(Phase, Action)> {
    match (at, event) {
        (RunPhase::Polling, Event::Polled { requested, in_progress }) => Some(
            match (requested, in_progress) {
                (Some(_), Some(_)) => (
                    Phase::Run(RunPhase::Raising),
                    Action::Raise(Fault::SeveralExports),
                ),
                (Some(doc), None) => (
                    Phase::Run(RunPhase::ReadingClock { id: doc.id }),
                    Action::ReadClock,
                ),
                (None, Some(doc)) => attempt_begins(doc),
                (None, None) => (Phase::Run(RunPhase::Subscribing), Action::Subscribe),
            },
        ),
        (RunPhase::ReadingClock { id }, Event::Timestamp(start_ts)) => Some(
            (Phase::Run(RunPhase::Starting), Action::Start { id, start_ts }),
        ),
        (RunPhase::Starting, Event::Started(doc)) => Some(
            (
                Phase::Run(RunPhase::Committing { doc }),
                Action::Commit(WriteSource::ExportRequested),
            ),
        ),
        (RunPhase::Committing { doc }, Event::Done) => Some(attempt_begins(doc)),
        (RunPhase::Subscribing, Event::Done) => Some(run_succeeds()),
        (RunPhase::ReadingClock { .. }, Event::Failed(_)) => None,
        (_, Event::Failed(_)) => Some(run_fails()),
        _ => None,
    }
}

/// What follows an attempt at the export.
pub open spec fn retry_step(doc: ExportDocument, stage: RetryPhase, event: Event) -> Option<
    (Phase, Action),
> {
    match (stage, event) {
        (RetryPhase::Trimming, Event::Done) => Some(run_succeeds()),
        (RetryPhase::Logging { too_large }, Event::Done) => Some(
            if too_large {
                (
                    Phase::Retry { doc, stage: RetryPhase::MarkingFailed },
                    Action::Edit { id: doc.id, edit: Edit::MarkFailed },
                )
            } else {
                (
                    Phase::Retry { doc, stage: RetryPhase::Reporting },
                    Action::Report { died: false },
                )
            },
        ),
        (RetryPhase::MarkingFailed, Event::Done) => Some(run_succeeds()),
        (RetryPhase::MarkingFailed, Event::Failed(failure)) => Some(
            if failure.canceled {
                run_succeeds()
            } else {
                run_fails()
            },
        ),
        (RetryPhase::Reporting, Event::Done) => Some(
            (Phase::Retry { doc, stage: RetryPhase::BackingOff }, Action::FailBackoff),
        ),
        (RetryPhase::BackingOff, Event::Delay(delay)) => Some(
            (Phase::Retry { doc, stage: RetryPhase::Waiting }, Action::Wait(delay)),
        ),
        (RetryPhase::Waiting, Event::Done) => Some(attempt_begins(doc)),
        _ => None,
    }
}

/// An attempt at the export.
pub open spec fn attempt_step(
    config: Config,
    doc: ExportDocument,
    at: AttemptPhase,
    event: Event,
) -> Option<(Phase, Action)> {
    match (at, event) {
        (AttemptPhase::TakingSnapshot { job }, Event::Timestamp(snapshot_ts)) => Some(
            (
                Phase::Attempt {
                    doc,
                    at: AttemptPhase::Racing { requestor: job.requestor, snapshot_ts },
                },
                Action::Race(
                    ExportPlan {
                        deployment_name: config.deployment_name,
                        id: doc.id,
                        snapshot_ts,
                        job,
                    },
                ),
            ),
        ),
        (AttemptPhase::Racing { requestor, snapshot_ts }, Event::Exported { object_key }) => Some(
            (
                Phase::Attempt {
                    doc,
                    at: AttemptPhase::ReadingAttributes { requestor, snapshot_ts, object_key },
                },
                Action::ReadAttributes { object_key },
            ),
        ),
        (
            AttemptPhase::ReadingAttributes { requestor, snapshot_ts, object_key },
            Event::Attributes(Some(size)),
        ) => Some(
            (
                Phase::Attempt { doc, at: AttemptPhase::MarkingComplete { requestor, size } },
                Action::Edit {
                    id: doc.id,
                    edit: Edit::MarkComplete { snapshot_ts, object_key, size },
                },
            ),
        ),
        (AttemptPhase::ReadingAttributes { .. }, Event::Attributes(None)) => Some(
            (
                Phase::Attempt { doc, at: AttemptPhase::Raising },
                Action::Raise(Fault::MissingObjectAttributes),
            ),
        ),
        (AttemptPhase::MarkingComplete { requestor, size }, Event::Done) => Some(
            (
                Phase::Attempt { doc, at: AttemptPhase::ChargingIngress { requestor } },
                Action::ChargeIngress {
                    component: ComponentPath::Root,
                    tag: UsageTag(requestor),
                    size,
                },
            ),
        ),
        (AttemptPhase::ChargingIngress { requestor }, Event::Done) => Some(
            (
                Phase::Attempt { doc, at: AttemptPhase::ChargingCall },
                Action::ChargeCall {
                    caller: UdfIdentifier::SystemJob(UsageTag(requestor)),
                    call_type: requestor.spec_call_type(),
                    success: true,
                },
            ),
        ),
        (AttemptPhase::ChargingCall, Event::Done) => Some(
            (Phase::Retry { doc, stage: RetryPhase::Trimming }, Action::Trim(TrimReason::Export)),
        ),
        (AttemptPhase::ChargingIngress { .. }, Event::Failed(_)) => None,
        (AttemptPhase::ChargingCall, Event::Failed(_)) => None,
        (_, Event::Failed(failure)) => Some(attempt_fails(config, doc, failure)),
        _ => None,
    }
}

/// How the worker goes on after an event; `None` where the event does not fit.
pub open spec fn worker_step(config: Config, phase: Phase, event: Event) -> Option<(Phase, Action)> {
    match phase {
        Phase::Loop(at) => loop_step(at, event),
        Phase::Run(at) => run_step(at, event),
        Phase::Retry { doc, stage } => retry_step(doc, stage, event),
        Phase::Attempt { doc, at } => attempt_step(config, doc, at, event),
    }
}

fn succeed_run() -> (next: (Phase, Action))
    ensures
        next == run_succeeds(),
{
    (Phase::Loop(LoopPhase::Resetting), Action::ResetBackoff)
}

fn fail_run() -> (next: (Phase, Action))
    ensures
        next == run_fails(),
{
    (Phase::Loop(LoopPhase::Reporting), Action::Report { died: true })
}

fn begin_attempt(doc: ExportDocument) -> (next: (Phase, Action))
    ensures
        next == attempt_begins(doc),
{
    match &doc.export {
        Export::InProgress { job, .. } => {
            let job = job.clone();
            (
                Phase::Attempt { doc, at: AttemptPhase::TakingSnapshot { job } },
                Action::TakeSnapshot,
            )
        },
        _ => (
            Phase::Attempt { doc, at: AttemptPhase::Raising },
            Action::Raise(Fault::ExportNotInProgress),
        ),
    }
}

fn fail_attempt(config: &Config, doc: ExportDocument, failure: Failure) -> (next: (Phase, Action))
    ensures
        next == attempt_fails(*config, doc, failure),
{
    if failure.canceled {
        succeed_run()
    } else {
        let too_large = failure.short_msg == config.too_large_short_msg;
        (
            Phase::Retry { doc, stage: RetryPhase::Logging { too_large } },
            Action::LogFailure(failure),
        )
    }
}

/// A worker and what it is waiting for.
pub struct ExportWorker {
    config: Config,
    phase: Phase,
}

impl ExportWorker {
    pub closed spec fn config(self) -> Config {
        self.config
    }

    pub closed spec fn phase(self) -> Phase {
        self.phase
    }

    /// A worker, and the first thing it asks for.
    pub fn new(config: Config) -> (started: (ExportWorker, Action))
        ensures
            started.0.config() == config,
            started.0.phase() == Phase::Run(RunPhase::Polling),
            started.0.phase().wf(),
            started.1 == Action::Poll,
    {
        (ExportWorker { config, phase: Phase::Run(RunPhase::Polling) }, Action::Poll)
    }

    /// The worker is to be recorded as working: it has found one export,
    /// requested or in progress, and the run is not over.
    pub fn is_working(&self) -> (working: bool)
        ensures
            working == self.phase().working(),
    {
        match &self.phase {
            Phase::Loop(_) => false,
            Phase::Run(RunPhase::ReadingClock { .. }) => true,
            Phase::Run(RunPhase::Starting) => true,
            Phase::Run(RunPhase::Committing { .. }) => true,
            Phase::Run(_) => false,
            Phase::Retry { .. } => true,
            Phase::Attempt { .. } => true,
        }
    }

    /// Takes what has come of the last action, and says what to do next. An
    /// event that does not answer the last action changes nothing.
    pub fn step(&mut self, event: Event) -> (next: Result<Action, UnexpectedEvent>)
        ensures
            final(self).config() == old(self).config(),
            old(self).phase().wf() ==> final(self).phase().wf(),
            match worker_step(old(self).config(), old(self).phase(), event) {
                Some((phase, action)) => final(self).phase() == phase && next == Ok::<
                    Action,
                    UnexpectedEvent,
                >(action),
                None => final(self).phase() == old(self).phase() && next == Err::<
                    Action,
                    UnexpectedEvent,
                >(UnexpectedEvent),
            },
    {
        let mut phase = Phase::Run(RunPhase::Polling);
        std::mem::swap(&mut phase, &mut self.phase);
        let next = match phase {
            Phase::Loop(at) => Self::between_runs(at, event),
            Phase::Run(at) => Self::run(at, event),
            Phase::Retry { doc, stage } => Self::export(doc, stage, event),
            Phase::Attempt { doc, at } => {
                Self::export_and_mark_complete(&self.config, doc, at, event)
            },
        };
        match next {
            Ok((phase, action)) => {
                self.phase = phase;
                Ok(action)
            },
            Err(phase) => {
                self.phase = phase;
                Err(UnexpectedEvent)
            },
        }
    }

    /// After a run: without an error the backoff is reset, and with one the
    /// worker waits before the next run.
    fn between_runs(at: LoopPhase, event: Event) -> (next: Result<(Phase, Action), Phase>)
        ensures
            next == (match loop_step(at, event) {
                Some(next) => Ok(next),
                None => Err(Phase::Loop(at)),
            }),
    {
        match (at, event) {
            (LoopPhase::Resetting, Event::Done) => Ok(
                (Phase::Run(RunPhase::Polling), Action::Poll),
            ),
            (LoopPhase::Reporting, Event::Done) => Ok(
                (Phase::Loop(LoopPhase::BackingOff), Action::FailBackoff),
            ),
            (LoopPhase::BackingOff, Event::Delay(delay)) => Ok(
                (Phase::Loop(LoopPhase::Waiting), Action::Wait(delay)),
            ),
            (LoopPhase::Waiting, Event::Done) => Ok((Phase::Run(RunPhase::Polling), Action::Poll)),
            (at, _) => Err(Phase::Loop(at)),
        }
    }

    /// Looks at the exports. A requested one is put in progress and carried out,
    /// one in progress that did not finish is carried out again, and without
    /// either the worker waits for a change.
    pub fn run(at: RunPhase, event: Event) -> (next: Result<(Phase, Action), Phase>)
        ensures
            next == (match run_step(at, event) {
                Some(next) => Ok(next),
                None => Err(Phase::Run(at)),
            }),
    {
        match (at, event) {
            (RunPhase::Polling, Event::Polled { requested, in_progress }) => match (
                requested,
                in_progress,
            ) {
                (Some(_), Some(_)) => Ok(
                    (Phase::Run(RunPhase::Raising), Action::Raise(Fault::SeveralExports)),
                ),
                (Some(doc), None) => Ok(
                    (Phase::Run(RunPhase::ReadingClock { id: doc.id }), Action::ReadClock),
                ),
                (None, Some(doc)) => Ok(begin_attempt(doc)),
                (None, None) => Ok((Phase::Run(RunPhase::Subscribing), Action::Subscribe)),
            },
            (RunPhase::ReadingClock { id }, Event::Timestamp(start_ts)) => Ok(
                (Phase::Run(RunPhase::Starting), Action::Start { id, start_ts }),
            ),
            (RunPhase::Starting, Event::Started(doc)) => Ok(
                (
                    Phase::Run(RunPhase::Committing { doc }),
                    Action::Commit(WriteSource::ExportRequested),
                ),
            ),
            (RunPhase::Committing { doc }, Event::Done) => Ok(begin_attempt(doc)),
            (RunPhase::Subscribing, Event::Done) => Ok(succeed_run()),
            (RunPhase::ReadingClock { id }, _) => Err(Phase::Run(RunPhase::ReadingClock { id })),
            (_, Event::Failed(_)) => Ok(fail_run()),
            (at, _) => Err(Phase::Run(at)),
        }
    }

    /// After an attempt. An export that failed because it is too large is marked
    /// as failed; after any other failure it is attempted again.
    pub fn export(doc: ExportDocument, stage: RetryPhase, event: Event) -> (next: Result<
        (Phase, Action),
        Phase,
    >)
        ensures
            next == (match retry_step(doc, stage, event) {
                Some(next) => Ok(next),
                None => Err(Phase::Retry { doc, stage }),
            }),
    {
        match (stage, event) {
            (RetryPhase::Trimming, Event::Done) => Ok(succeed_run()),
            (RetryPhase::Logging { too_large }, Event::Done) => {
                if too_large {
                    let id = doc.id.clone();
                    Ok(
                        (
                            Phase::Retry { doc, stage: RetryPhase::MarkingFailed },
                            Action::Edit { id, edit: Edit::MarkFailed },
                        ),
                    )
                } else {
                    Ok(
                        (
                            Phase::Retry { doc, stage: RetryPhase::Reporting },
                            Action::Report { died: false },
                        ),
                    )
                }
            },
            (RetryPhase::MarkingFailed, Event::Done) => Ok(succeed_run()),
            (RetryPhase::MarkingFailed, Event::Failed(failure)) => {
                if failure.canceled {
                    Ok(succeed_run())
                } else {
                    Ok(fail_run())
                }
            },
            (RetryPhase::Reporting, Event::Done) => Ok(
                (Phase::Retry { doc, stage: RetryPhase::BackingOff }, Action::FailBackoff),
            ),
            (RetryPhase::BackingOff, Event::Delay(delay)) => Ok(
                (Phase::Retry { doc, stage: RetryPhase::Waiting }, Action::Wait(delay)),
            ),
            (RetryPhase::Waiting, Event::Done) => Ok(begin_attempt(doc)),
            (stage, _) => Err(Phase::Retry { doc, stage }),
        }
    }

    /// An attempt: the export is carried out from a snapshot, its object is
    /// looked up, the document is marked as completed, and the usage is charged.
    pub fn export_and_mark_complete(
        config: &Config,
        doc: ExportDocument,
        at: AttemptPhase,
        event: Event,
    ) -> (next: Result<(Phase, Action), Phase>)
        ensures
            next == (match attempt_step(*config, doc, at, event) {
                Some(next) => Ok(next),
                None => Err(Phase::Attempt { doc, at }),
            }),
    {
        match (at, event) {
            (AttemptPhase::TakingSnapshot { job }, Event::Timestamp(snapshot_ts)) => {
                let requestor = job.requestor;
                let plan = ExportPlan {
                    deployment_name: config.deployment_name.clone(),
                    id: doc.id.clone(),
                    snapshot_ts,
                    job,
                };
                Ok(
                    (
                        Phase::Attempt { doc, at: AttemptPhase::Racing { requestor, snapshot_ts } },
                        Action::Race(plan),
                    ),
                )
            },
            (AttemptPhase::Racing { requestor, snapshot_ts }, Event::Exported { object_key }) => {
                let key = object_key.clone();
                Ok(
                    (
                        Phase::Attempt {
                            doc,
                            at: AttemptPhase::ReadingAttributes {
                                requestor,
                                snapshot_ts,
                                object_key: key,
                            },
                        },
                        Action::ReadAttributes { object_key },
                    ),
                )
            },
            (
                AttemptPhase::ReadingAttributes { requestor, snapshot_ts, object_key },
                Event::Attributes(Some(size)),
            ) => {
                let id = doc.id.clone();
                Ok(
                    (
                        Phase::Attempt {
                            doc,
                            at: AttemptPhase::MarkingComplete { requestor, size },
                        },
                        Action::Edit {
                            id,
                            edit: Edit::MarkComplete { snapshot_ts, object_key, size },
                        },
                    ),
                )
            },
            (AttemptPhase::ReadingAttributes { .. }, Event::Attributes(None)) => Ok(
                (
                    Phase::Attempt { doc, at: AttemptPhase::Raising },
                    Action::Raise(Fault::MissingObjectAttributes),
                ),
            ),
            (AttemptPhase::MarkingComplete { requestor, size }, Event::Done) => Ok(
                (
                    Phase::Attempt { doc, at: AttemptPhase::ChargingIngress { requestor } },
                    Action::ChargeIngress {
                    component: ComponentPath::Root,
                    tag: UsageTag(requestor),
                    size,
                },
                ),
            ),
            (AttemptPhase::ChargingIngress { requestor }, Event::Done) => Ok(
                (
                    Phase::Attempt { doc, at: AttemptPhase::ChargingCall },
                    Action::ChargeCall {
                        caller: UdfIdentifier::SystemJob(UsageTag(requestor)),
                        call_type: requestor.call_type(),
                        success: true,
                    },
                ),
            ),
            (AttemptPhase::ChargingCall, Event::Done) => Ok(
                (Phase::Retry { doc, stage: RetryPhase::Trimming }, Action::Trim(TrimReason::Export)),
            ),
            (AttemptPhase::ChargingIngress { requestor }, _) => Err(
                Phase::Attempt { doc, at: AttemptPhase::ChargingIngress { requestor } },
            ),
            (AttemptPhase::ChargingCall, _) => Err(
                Phase::Attempt { doc, at: AttemptPhase::ChargingCall },
            ),
            (_, Event::Failed(failure)) => Ok(fail_attempt(config, doc, failure)),
            (at, _) => Err(Phase::Attempt { doc, at }),
        }
    }
}

} // verus!
