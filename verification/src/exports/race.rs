//! Carrying an export out while watching its document for a cancellation.
//!
//! Two things go on side by side: the attempt at the export, and the watch. Each
//! asks for its own actions and gets its own events; the first of the two to be
//! over decides how the whole ends.
use vstd::prelude::*;

use crate::exports::document::Export;
use crate::exports::edit::{monitor_export, spec_monitor_export};
use crate::exports::fault::Fault;
use crate::exports::task::{
    task_start, task_step, ExportPlan, ExportTask, TaskAction, TaskEvent, TaskPhase,
    UnexpectedEvent,
};

verus! {

/// Where the watch stands.
#[derive(Clone, Copy, Debug, PartialEq, Eq, Structural)]
pub enum MonitorPhase {
    /// The document is being read.
    Looking,
    /// The document is as it should be, and the watch waits for it to change.
    Subscribed,
}

/// What the watch asks for.
#[derive(Clone, Copy, Debug, PartialEq, Eq, Structural)]
pub enum MonitorAction {
    /// Read the document in a new transaction.
    Look,
    /// Wait until what that transaction has read is invalidated.
    Subscribe,
}

/// What has come of the watch's action.
#[derive(Debug, PartialEq, Eq)]
pub enum MonitorEvent {
    /// The document as read, if it is there.
    Looked(Option<Export>),
    Invalidated,
    Failed,
}

/// How it all ends.
#[derive(Debug, PartialEq, Eq)]
pub enum RaceEnd {
    /// The export has produced the object under this key.
    Exported { object_key: String },
    /// The attempt has failed with the provider's error.
    ExportFailed,
    /// The watch has ended with a fault.
    Raised(Fault),
    /// The watch itself has failed.
    MonitorFailed,
}

/// What follows an event on either side.
#[derive(Debug, PartialEq, Eq)]
pub enum RaceStep {
    /// The attempt goes on with this action.
    Task(TaskAction),
    /// The watch goes on with this action.
    Monitor(MonitorAction),
    /// Both are over. Whatever the other side was doing is dropped.
    Over(RaceEnd),
}

/// Where both sides stand.
#[derive(Clone, Copy, Debug, PartialEq, Eq, Structural)]
pub struct RaceState {
    pub task: TaskPhase,
    pub monitor: MonitorPhase,
    pub over: bool,
}

/// What follows an event of the attempt; `None` where the event does not fit.
pub open spec fn race_task_step(plan: ExportPlan, state: RaceState, event: TaskEvent) -> Option<
    (RaceState, RaceStep),
> {
    if state.over {
        None
    } else {
        match task_step(plan, state.task, event) {
            Some((task, TaskAction::Finish { object_key })) => Some(
                (
                    RaceState { task, over: true, ..state },
                    RaceStep::Over(RaceEnd::Exported { object_key }),
                ),
            ),
            Some((task, TaskAction::Fail)) => Some(
                (RaceState { task, over: true, ..state }, RaceStep::Over(RaceEnd::ExportFailed)),
            ),
            Some((task, action)) => Some((RaceState { task, ..state }, RaceStep::Task(action))),
            None => None,
        }
    }
}

/// What follows an event of the watch; `None` where the event does not fit.
pub open spec fn race_monitor_step(state: RaceState, event: MonitorEvent) -> Option<
    (RaceState, RaceStep),
> {
    if state.over {
        None
    } else {
        match (state.monitor, event) {
            (MonitorPhase::Looking, MonitorEvent::Looked(read)) => Some(
                match spec_monitor_export(read) {
                    Ok(_) => (
                        RaceState { monitor: MonitorPhase::Subscribed, ..state },
                        RaceStep::Monitor(MonitorAction::Subscribe),
                    ),
                    Err(fault) => (
                        RaceState { over: true, ..state },
                        RaceStep::Over(RaceEnd::Raised(fault)),
                    ),
                },
            ),
            (MonitorPhase::Subscribed, MonitorEvent::Invalidated) => Some(
                (
                    RaceState { monitor: MonitorPhase::Looking, ..state },
                    RaceStep::Monitor(MonitorAction::Look),
                ),
            ),
            (_, MonitorEvent::Failed) => Some(
                (RaceState { over: true, ..state }, RaceStep::Over(RaceEnd::MonitorFailed)),
            ),
            _ => None,
        }
    }
}

/// An attempt at an export and the watch over it.
pub struct Race {
    task: ExportTask,
    monitor: MonitorPhase,
    over: bool,
}

impl Race {
    pub closed spec fn plan(self) -> ExportPlan {
        self.task.plan()
    }

    pub closed spec fn state(self) -> RaceState {
        RaceState { task: self.task.phase(), monitor: self.monitor, over: self.over }
    }

    /// Starts both sides, and says what each asks for first.
    pub fn start(plan: ExportPlan) -> (started: (Race, TaskAction, MonitorAction))
        ensures
            started.0.plan() == plan,
            started.0.state() == (RaceState {
                task: task_start(plan).0,
                monitor: MonitorPhase::Looking,
                over: false,
            }),
            started.1 == task_start(plan).1,
            started.2 == MonitorAction::Look,
    {
        let (task, action) = ExportTask::start(plan);
        (Race { task, monitor: MonitorPhase::Looking, over: false }, action, MonitorAction::Look)
    }

    /// Takes what has come of the attempt's last action. An event that does not
    /// answer it, or that comes when all is over, changes nothing.
    pub fn task_event(&mut self, event: TaskEvent) -> (next: Result<RaceStep, UnexpectedEvent>)
        ensures
            final(self).plan() == old(self).plan(),
            match race_task_step(old(self).plan(), old(self).state(), event) {
                Some((state, step)) => final(self).state() == state && next == Ok::<
                    RaceStep,
                    UnexpectedEvent,
                >(step),
                None => final(self).state() == old(self).state() && next == Err::<
                    RaceStep,
                    UnexpectedEvent,
                >(UnexpectedEvent),
            },
    {
        if self.over {
            return Err(UnexpectedEvent);
        }
        match self.task.step(event) {
            Ok(TaskAction::Finish { object_key }) => {
                self.over = true;
                Ok(RaceStep::Over(RaceEnd::Exported { object_key }))
            },
            Ok(TaskAction::Fail) => {
                self.over = true;
                Ok(RaceStep::Over(RaceEnd::ExportFailed))
            },
            Ok(action) => Ok(RaceStep::Task(action)),
            Err(unexpected) => Err(unexpected),
        }
    }

    /// Takes what has come of the watch's last action. An event that does not
    /// answer it, or that comes when all is over, changes nothing.
    pub fn monitor_event(&mut self, event: MonitorEvent) -> (next: Result<
        RaceStep,
        UnexpectedEvent,
    >)
        ensures
            final(self).plan() == old(self).plan(),
            match race_monitor_step(old(self).state(), event) {
                Some((state, step)) => final(self).state() == state && next == Ok::<
                    RaceStep,
                    UnexpectedEvent,
                >(step),
                None => final(self).state() == old(self).state() && next == Err::<
                    RaceStep,
                    UnexpectedEvent,
                >(UnexpectedEvent),
            },
    {
        if self.over {
            return Err(UnexpectedEvent);
        }
        match (self.monitor, event) {
            (MonitorPhase::Looking, MonitorEvent::Looked(read)) => match monitor_export(&read) {
                Ok(_) => {
                    self.monitor = MonitorPhase::Subscribed;
                    Ok(RaceStep::Monitor(MonitorAction::Subscribe))
                },
                Err(fault) => {
                    self.over = true;
                    Ok(RaceStep::Over(RaceEnd::Raised(fault)))
                },
            },
            (MonitorPhase::Subscribed, MonitorEvent::Invalidated) => {
                self.monitor = MonitorPhase::Looking;
                Ok(RaceStep::Monitor(MonitorAction::Look))
            },
            (_, MonitorEvent::Failed) => {
                self.over = true;
                Ok(RaceStep::Over(RaceEnd::MonitorFailed))
            },
            _ => Err(UnexpectedEvent),
        }
    }
}

} // verus!
