//! Carrying out one export: resume an earlier attempt, or begin anew.
use vstd::prelude::*;

use crate::exports::document::{ExportRequestor, Job};

verus! {

/// All that one attempt hands to the export provider.
#[derive(Debug, PartialEq, Eq)]
pub struct ExportPlan {
    pub deployment_name: String,
    pub id: String,
    pub snapshot_ts: u64,
    pub job: Job,
}

/// Where an attempt stands.
#[derive(Clone, Copy, Debug, PartialEq, Eq, Structural)]
pub enum TaskPhase {
    /// The provider is resuming an earlier attempt.
    Resuming,
    /// Resuming has failed, and the error is being reported.
    Reporting,
    /// The provider is exporting from the beginning.
    Exporting,
    /// The attempt is over.
    Finished,
}

/// What an attempt asks for.
#[derive(Debug, PartialEq, Eq)]
pub enum TaskAction {
    /// Let the provider resume where `token` says.
    Resume { deployment_name: String, token: String, id: String },
    /// Report the error with which resuming failed.
    Report,
    /// Let the provider export from the beginning.
    Export {
        deployment_name: String,
        snapshot_ts: u64,
        format: String,
        requestor: ExportRequestor,
        id: String,
    },
    /// The attempt has produced the object under this key.
    Finish { object_key: String },
    /// The attempt ends with the provider's error.
    Fail,
}

/// What has come of the action asked for.
#[derive(Debug, PartialEq, Eq)]
pub enum TaskEvent {
    /// The provider has resumed and finished, or has found nothing to resume.
    Resumed(Option<String>),
    ResumeFailed,
    Reported,
    Exported(String),
    ExportFailed,
}

/// The event does not answer the action that was asked for last.
#[derive(Clone, Copy, Debug, PartialEq, Eq, Structural)]
pub struct UnexpectedEvent;

/// Begin anew, whatever an earlier attempt left behind.
pub open spec fn export_anew(plan: ExportPlan) -> (TaskPhase, TaskAction) {
    (
        TaskPhase::Exporting,
        TaskAction::Export {
            deployment_name: plan.deployment_name,
            snapshot_ts: plan.snapshot_ts,
            format: plan.job.format,
            requestor: plan.job.requestor,
            id: plan.id,
        },
    )
}

/// The first thing an attempt asks for.
pub open spec fn task_start(plan: ExportPlan) -> (TaskPhase, TaskAction) {
    match plan.job.resumption_token {
        Some(token) => (
            TaskPhase::Resuming,
            TaskAction::Resume { deployment_name: plan.deployment_name, token, id: plan.id },
        ),
        None => export_anew(plan),
    }
}

/// How an attempt goes on after an event; `None` where the event does not fit.
pub open spec fn task_step(plan: ExportPlan, phase: TaskPhase, event: TaskEvent) -> Option<
    (TaskPhase, TaskAction),
> {
    match (phase, event) {
        (TaskPhase::Resuming, TaskEvent::Resumed(Some(object_key))) => Some(
            (TaskPhase::Finished, TaskAction::Finish { object_key }),
        ),
        (TaskPhase::Resuming, TaskEvent::Resumed(None)) => Some(export_anew(plan)),
        (TaskPhase::Resuming, TaskEvent::ResumeFailed) => Some(
            (TaskPhase::Reporting, TaskAction::Report),
        ),
        (TaskPhase::Reporting, TaskEvent::Reported) => Some(export_anew(plan)),
        (TaskPhase::Exporting, TaskEvent::Exported(object_key)) => Some(
            (TaskPhase::Finished, TaskAction::Finish { object_key }),
        ),
        (TaskPhase::Exporting, TaskEvent::ExportFailed) => Some(
            (TaskPhase::Finished, TaskAction::Fail),
        ),
        _ => None,
    }
}

/// One attempt at an export.
pub struct ExportTask {
    plan: ExportPlan,
    phase: TaskPhase,
}

impl ExportTask {
    pub closed spec fn plan(self) -> ExportPlan {
        self.plan
    }

    pub closed spec fn phase(self) -> TaskPhase {
        self.phase
    }

    /// Begins an attempt: with a resumption token the provider is asked to
    /// resume, without one to export.
    pub fn start(plan: ExportPlan) -> (started: (ExportTask, TaskAction))
        ensures
            started.0.plan() == plan,
            (started.0.phase(), started.1) == task_start(plan),
    {
        match &plan.job.resumption_token {
            Some(token) => {
                let action = TaskAction::Resume {
                    deployment_name: plan.deployment_name.clone(),
                    token: token.clone(),
                    id: plan.id.clone(),
                };
                (ExportTask { plan, phase: TaskPhase::Resuming }, action)
            },
            None => {
                let mut task = ExportTask { plan, phase: TaskPhase::Exporting };
                let action = task.export_anew();
                (task, action)
            },
        }
    }

    fn export_anew(&mut self) -> (action: TaskAction)
        ensures
            final(self).plan() == old(self).plan(),
            (final(self).phase(), action) == export_anew(old(self).plan()),
    {
        self.phase = TaskPhase::Exporting;
        TaskAction::Export {
            deployment_name: self.plan.deployment_name.clone(),
            snapshot_ts: self.plan.snapshot_ts,
            format: self.plan.job.format.clone(),
            requestor: self.plan.job.requestor,
            id: self.plan.id.clone(),
        }
    }

    /// Takes what has come of the last action, and says what to do next. An
    /// event that does not answer the last action changes nothing.
    pub fn step(&mut self, event: TaskEvent) -> (next: Result<TaskAction, UnexpectedEvent>)
        ensures
            final(self).plan() == old(self).plan(),
            match task_step(old(self).plan(), old(self).phase(), event) {
                Some((phase, action)) => final(self).phase() == phase && next == Ok::<
                    TaskAction,
                    UnexpectedEvent,
                >(action),
                None => final(self).phase() == old(self).phase() && next == Err::<
                    TaskAction,
                    UnexpectedEvent,
                >(UnexpectedEvent),
            },
    {
        match (self.phase, event) {
            (TaskPhase::Resuming, TaskEvent::Resumed(Some(object_key))) => {
                self.phase = TaskPhase::Finished;
                Ok(TaskAction::Finish { object_key })
            },
            (TaskPhase::Resuming, TaskEvent::Resumed(None)) => Ok(self.export_anew()),
            (TaskPhase::Resuming, TaskEvent::ResumeFailed) => {
                self.phase = TaskPhase::Reporting;
                Ok(TaskAction::Report)
            },
            (TaskPhase::Reporting, TaskEvent::Reported) => Ok(self.export_anew()),
            (TaskPhase::Exporting, TaskEvent::Exported(object_key)) => {
                self.phase = TaskPhase::Finished;
                Ok(TaskAction::Finish { object_key })
            },
            (TaskPhase::Exporting, TaskEvent::ExportFailed) => {
                self.phase = TaskPhase::Finished;
                Ok(TaskAction::Fail)
            },
            _ => Err(UnexpectedEvent),
        }
    }
}

} // verus!
