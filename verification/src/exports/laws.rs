//! What holds of the worker over whole histories and in every state.
use std::time::Duration;

use vstd::prelude::*;

use crate::allocator::{
    trim_outcome, trim_total, trim_updates, TrimReason, TrimTask,
};
use crate::exports::document::{
    CallType, ComponentPath, Export, ExportDocument, ExportRequestor, UdfIdentifier, UsageTag,
};
use crate::exports::edit::{
    spec_monitor_export, still_wanted, Change, Edit, WriteSource,
};
use crate::exports::fault::{Failure, Fault};
use crate::exports::race::{
    race_monitor_step, race_task_step, MonitorAction, MonitorEvent, MonitorPhase, RaceEnd, RaceState,
    RaceStep,
};
use crate::exports::task::{
    export_anew, task_start, task_step, ExportPlan, TaskAction, TaskEvent, TaskPhase,
};
use crate::exports::worker::{
    attempt_begins, run_fails, run_succeeds, worker_step, Action, AttemptPhase, Config, Event,
    LoopPhase, Phase, RetryPhase, RunPhase,
};
use crate::laws::law_every_trim_is_counted_once;
use crate::metrics::Metric;

verus! {

/// The phase of a new worker and what it has asked for, after a history of
/// events each of which answered the action before it; `None` if one did not.
pub open spec fn after(config: Config, events: Seq<Event>) -> Option<(Phase, Action)>
    decreases events.len(),
{
    if events.len() == 0 {
        Some((Phase::Run(RunPhase::Polling), Action::Poll))
    } else {
        match after(config, events.drop_last()) {
            Some((phase, _)) => worker_step(config, phase, events.last()),
            None => None,
        }
    }
}

/// The event is an answer to the action.
pub open spec fn answers(action: Action, event: Event) -> bool {
    match action {
        Action::Poll => event is Polled || event is Failed,
        Action::ReadClock => event is Timestamp,
        Action::Start { .. } => event is Started || event is Failed,
        Action::Commit(_) => event is Done || event is Failed,
        Action::Subscribe => event is Done || event is Failed,
        Action::Raise(_) => event is Failed,
        Action::TakeSnapshot => event is Timestamp || event is Failed,
        Action::Race(_) => event is Exported || event is Failed,
        Action::ReadAttributes { .. } => event is Attributes || event is Failed,
        Action::Edit { .. } => event is Done || event is Failed,
        Action::FailBackoff => event is Delay,
        _ => event is Done,
    }
}

/// The phase waits for an answer to the action.
pub open spec fn waits_for(phase: Phase, action: Action) -> bool {
    match phase {
        Phase::Loop(at) => match at {
            LoopPhase::Resetting => action is ResetBackoff,
            LoopPhase::Reporting => action is Report,
            LoopPhase::BackingOff => action is FailBackoff,
            LoopPhase::Waiting => action is Wait,
        },
        Phase::Run(at) => match at {
            RunPhase::Polling => action is Poll,
            RunPhase::Raising => action is Raise,
            RunPhase::ReadingClock { .. } => action is ReadClock,
            RunPhase::Starting => action is Start,
            RunPhase::Committing { .. } => action is Commit,
            RunPhase::Subscribing => action is Subscribe,
        },
        Phase::Retry { stage, .. } => match stage {
            RetryPhase::Trimming => action is Trim,
            RetryPhase::Logging { .. } => action is LogFailure,
            RetryPhase::MarkingFailed => action is Edit,
            RetryPhase::Reporting => action is Report,
            RetryPhase::BackingOff => action is FailBackoff,
            RetryPhase::Waiting => action is Wait,
        },
        Phase::Attempt { at, .. } => match at {
            AttemptPhase::Raising => action is Raise,
            AttemptPhase::TakingSnapshot { .. } => action is TakeSnapshot,
            AttemptPhase::Racing { .. } => action is Race,
            AttemptPhase::ReadingAttributes { .. } => action is ReadAttributes,
            AttemptPhase::MarkingComplete { .. } => action is Edit,
            AttemptPhase::ChargingIngress { .. } => action is ChargeIngress,
            AttemptPhase::ChargingCall => action is ChargeCall,
        },
    }
}

/// Every step leaves the worker waiting for the action that it asks for.
pub proof fn law_worker_waits_for_what_it_asks(config: Config, phase: Phase, event: Event)
    requires
        worker_step(config, phase, event) is Some,
    ensures
        ({
            let (next, action) = worker_step(config, phase, event)->0;
            waits_for(next, action)
        }),
{
}

/// A phase takes exactly the answers to the action for which it waits.
pub proof fn law_answers_are_taken(config: Config, phase: Phase, action: Action, event: Event)
    requires
        waits_for(phase, action),
    ensures
        worker_step(config, phase, event) is Some <==> answers(action, event),
{
}

/// The worker goes on exactly when it gets an answer to the action that it has
/// asked for last, whatever the history: it never refuses an answer, and takes
/// nothing else.
pub proof fn law_every_answer_is_taken(config: Config, events: Seq<Event>, event: Event)
    requires
        after(config, events) is Some,
    ensures
        after(config, events.push(event)) is Some <==> answers((after(config, events)->0).1, event),
{
    assert(events.push(event).drop_last() =~= events);
    let (phase, action) = after(config, events)->0;
    if events.len() > 0 {
        law_worker_waits_for_what_it_asks(
            config,
            (after(config, events.drop_last())->0).0,
            events.last(),
        );
    }
    law_answers_are_taken(config, phase, action, event);
}

/// The worker never stops: every phase it can be in takes some event.
pub proof fn law_worker_never_stops(config: Config, events: Seq<Event>)
    requires
        after(config, events) is Some,
    ensures
        exists|event: Event| after(config, events.push(event)) is Some,
{
    let action = (after(config, events)->0).1;
    let failure: Failure = arbitrary();
    let event = match action {
        Action::ReadClock => Event::Timestamp(0),
        Action::Poll => Event::Failed(failure),
        Action::Start { .. } => Event::Failed(failure),
        Action::Raise(_) => Event::Failed(failure),
        Action::TakeSnapshot => Event::Failed(failure),
        Action::Race(_) => Event::Failed(failure),
        Action::ReadAttributes { .. } => Event::Failed(failure),
        Action::FailBackoff => Event::Delay(arbitrary()),
        _ => Event::Done,
    };
    law_every_answer_is_taken(config, events, event);
}

/// The worker's memory of an attempt always agrees with the document.
pub proof fn law_phases_are_well_formed(config: Config, events: Seq<Event>)
    requires
        after(config, events) is Some,
    ensures
        (after(config, events)->0).0.wf(),
    decreases events.len(),
{
    if events.len() > 0 {
        law_phases_are_well_formed(config, events.drop_last());
    }
}

/// While an export is being carried out, from its first attempt through every
/// retry, it is one and the same document.
pub proof fn law_one_export_at_a_time(config: Config, phase: Phase, event: Event)
    requires
        worker_step(config, phase, event) is Some,
    ensures
        ({
            let next = (worker_step(config, phase, event)->0).0;
            phase.doc() is Some && next.doc() is Some ==> phase.doc() == next.doc()
        }),
{
}

/// The document was found in progress with nothing requested, at the event `i`.
pub open spec fn found_in_progress(events: Seq<Event>, i: int, doc: ExportDocument) -> bool {
    0 <= i < events.len() && events[i] == (Event::Polled {
        requested: None,
        in_progress: Some(doc),
    })
}

/// The document was written as being in progress at the event `i`, and the
/// write was committed right after.
pub open spec fn committed_in_progress(events: Seq<Event>, i: int, doc: ExportDocument) -> bool {
    0 <= i && i + 1 < events.len() && events[i] == Event::Started(doc) && events[i + 1]
        == Event::Done
}

/// An export is only carried out once it is stored as being in progress: either
/// it was found so, or it was requested, and the write that put it in progress
/// has been committed. So a worker that is restarted finds it again.
pub proof fn law_only_stored_exports_are_carried_out(
    config: Config,
    events: Seq<Event>,
    doc: ExportDocument,
)
    requires
        after(config, events) is Some,
        (after(config, events)->0).0.doc() == Some(doc),
    ensures
        (exists|i: int| found_in_progress(events, i, doc)) || (exists|i: int|
            committed_in_progress(events, i, doc)),
    decreases events.len(),
{
    let before = events.drop_last();
    let n = before.len() as int;
    let phase = (after(config, before)->0).0;
    if phase.doc() is Some {
        law_one_export_at_a_time(config, phase, events.last());
        law_only_stored_exports_are_carried_out(config, before, doc);
        if exists|i: int| found_in_progress(before, i, doc) {
            let i = choose|i: int| found_in_progress(before, i, doc);
            assert(found_in_progress(events, i, doc));
        } else {
            let i = choose|i: int| committed_in_progress(before, i, doc);
            assert(committed_in_progress(events, i, doc));
        }
    } else if phase is Run && phase->Run_0 is Polling {
        assert(found_in_progress(events, n, doc));
    } else {
        assert(phase == Phase::Run(RunPhase::Committing { doc }));
        assert(before.last() == Event::Started(doc));
        assert(committed_in_progress(events, n - 1, doc));
    }
}

/// A requested export is put in progress as of the timestamp that was read, in
/// a write that is committed under the name for it, before the first attempt.
pub proof fn law_requested_export_is_started(
    config: Config,
    requested: ExportDocument,
    start_ts: u64,
    doc: ExportDocument,
)
    ensures
        ({
            let polled = worker_step(
                config,
                Phase::Run(RunPhase::Polling),
                Event::Polled { requested: Some(requested), in_progress: None },
            );
            let read = worker_step(config, (polled->0).0, Event::Timestamp(start_ts));
            let started = worker_step(config, (read->0).0, Event::Started(doc));
            let committed = worker_step(config, (started->0).0, Event::Done);
            &&& polled matches Some((_, action)) && action == Action::ReadClock
            &&& read matches Some((_, action)) && action == (Action::Start {
                id: requested.id,
                start_ts,
            })
            &&& started matches Some((_, action)) && action == Action::Commit(
                WriteSource::ExportRequested,
            )
            &&& committed == Some(attempt_begins(doc))
        }),
{
}

/// An export that is in progress when the worker looks, for instance after a
/// restart, is carried out as it is.
pub proof fn law_unfinished_export_is_restarted(config: Config, doc: ExportDocument)
    ensures
        worker_step(
            config,
            Phase::Run(RunPhase::Polling),
            Event::Polled { requested: None, in_progress: Some(doc) },
        ) == Some(attempt_begins(doc)),
{
}

/// What an attempt hands to the export provider is the document's own job and
/// id, the worker's deployment name, and the timestamp of the snapshot that the
/// attempt has just taken.
pub proof fn law_race_follows_document(config: Config, events: Seq<Event>, plan: ExportPlan)
    requires
        after(config, events) is Some,
        (after(config, events)->0).1 == Action::Race(plan),
    ensures
        ({
            let doc = (after(config, events)->0).0.doc()->0;
            &&& (after(config, events)->0).0.doc() is Some
            &&& doc.export matches Export::InProgress { job, .. } && job == plan.job
            &&& plan.id == doc.id
            &&& plan.deployment_name == config.deployment_name
            &&& events.last() == Event::Timestamp(plan.snapshot_ts)
        }),
{
    law_phases_are_well_formed(config, events.drop_last());
}

/// An export is only marked as completed with the timestamp of the snapshot
/// from which it was made, the key of the object that was made of it, and that
/// object's size: these three are the last three answers.
pub proof fn law_completion_tells_what_was_exported(
    config: Config,
    events: Seq<Event>,
    id: String,
    snapshot_ts: u64,
    object_key: String,
    size: u64,
)
    requires
        after(config, events) is Some,
        (after(config, events)->0).1 == (Action::Edit {
            id,
            edit: Edit::MarkComplete { snapshot_ts, object_key, size },
        }),
    ensures
        ({
            let n = events.len();
            &&& n >= 3
            &&& events[n - 3] == Event::Timestamp(snapshot_ts)
            &&& events[n - 2] == (Event::Exported { object_key })
            &&& events[n - 1] == Event::Attributes(Some(size))
            &&& (after(config, events)->0).0.doc() matches Some(doc) && doc.id == id
        }),
{
    let one = events.drop_last();
    let two = one.drop_last();
    let three = two.drop_last();
    assert(after(config, one) is Some);
    assert((after(config, one)->0).0->Attempt_at is ReadingAttributes);
    assert(one.len() > 0);
    assert(after(config, two) is Some);
    assert((after(config, two)->0).0->Attempt_at is Racing);
    assert(two.len() > 0);
    assert(after(config, three) is Some);
}

/// Usage is only charged after the export has been marked as completed, for the
/// size with which it was, to the root component, and under the tag of the
/// document's requestor.
pub proof fn law_only_completed_exports_are_charged(config: Config, events: Seq<Event>)
    requires
        after(config, events) is Some,
        (after(config, events)->0).1 is ChargeIngress,
    ensures
        ({
            let (phase, action) = after(config, events)->0;
            let asked = (after(config, events.drop_last())->0).1;
            &&& events.len() > 0
            &&& events.last() == Event::Done
            &&& after(config, events.drop_last()) is Some
            &&& asked matches Action::Edit { edit, .. } && edit matches Edit::MarkComplete {
                size,
                ..
            } && size == action->ChargeIngress_size
            &&& phase.doc() matches Some(doc) && doc.export matches Export::InProgress { job, .. }
                && action->ChargeIngress_tag == UsageTag(job.requestor)
            &&& action->ChargeIngress_component == ComponentPath::Root
        }),
{
    let before = events.drop_last();
    law_phases_are_well_formed(config, before);
    assert((after(config, before)->0).0->Attempt_at is MarkingComplete);
    assert(before.len() > 0);
    assert(after(config, before.drop_last()) is Some);
}

/// The charge for the call follows the charge for the upload, as a successful
/// call of the system job that has the same tag, and of the kind that belongs to
/// the requestor.
pub proof fn law_call_is_charged_after_upload(config: Config, events: Seq<Event>)
    requires
        after(config, events) is Some,
        (after(config, events)->0).1 is ChargeCall,
    ensures
        ({
            let action = (after(config, events)->0).1;
            let asked = (after(config, events.drop_last())->0).1;
            &&& events.len() > 0
            &&& events.last() == Event::Done
            &&& asked is ChargeIngress
            &&& action == (Action::ChargeCall {
                caller: UdfIdentifier::SystemJob(asked->ChargeIngress_tag),
                call_type: asked->ChargeIngress_tag.0.spec_call_type(),
                success: true,
            })
        }),
{
    let before = events.drop_last();
    assert((after(config, before)->0).0->Attempt_at is ChargingIngress);
    assert(before.len() > 0);
    assert(after(config, before.drop_last()) is Some);
}

/// Pages are only given back after an export that was carried out to the end,
/// its usage charged.
pub proof fn law_trim_only_after_success(config: Config, events: Seq<Event>)
    requires
        after(config, events) is Some,
        (after(config, events)->0).1 is Trim,
    ensures
        ({
            let asked = (after(config, events.drop_last())->0).1;
            &&& events.len() > 0
            &&& events.last() == Event::Done
            &&& asked is ChargeCall
        }),
{
    let before = events.drop_last();
    assert((after(config, before)->0).0->Attempt_at is ChargingCall);
    assert(before.len() > 0);
    assert(after(config, before.drop_last()) is Some);
}

/// A cancellation ends the run without an error, at whatever point of carrying
/// the export out it is noticed: nothing is counted as a failure, nothing is
/// reported, the document is not touched, and there is no retry.
pub proof fn law_cancellation_ends_the_run(config: Config, phase: Phase, failure: Failure)
    requires
        phase.doc() is Some,
        failure.canceled,
        worker_step(config, phase, Event::Failed(failure)) is Some,
    ensures
        worker_step(config, phase, Event::Failed(failure)) == Some(run_succeeds()),
{
}

/// An attempt that fails because the export's file storage is too large is
/// counted, and then the export is marked as failed. Whatever comes of that, the
/// run is over: such an export is not attempted again.
pub proof fn law_too_large_export_is_given_up(
    config: Config,
    doc: ExportDocument,
    at: AttemptPhase,
    failure: Failure,
    answer: Event,
)
    requires
        worker_step(config, Phase::Attempt { doc, at }, Event::Failed(failure)) is Some,
        !failure.canceled,
        failure.short_msg@ == config.too_large_short_msg@,
        answers(Action::Edit { id: doc.id, edit: Edit::MarkFailed }, answer),
    ensures
        ({
            let failed = worker_step(config, Phase::Attempt { doc, at }, Event::Failed(failure));
            let logged = worker_step(config, (failed->0).0, Event::Done);
            let marked = worker_step(config, (logged->0).0, answer);
            &&& failed matches Some((_, action)) && action == Action::LogFailure(failure)
            &&& logged matches Some((_, action)) && action == (Action::Edit {
                id: doc.id,
                edit: Edit::MarkFailed,
            })
            &&& marked == Some(
                if answer matches Event::Failed(error) && !error.canceled {
                    run_fails()
                } else {
                    run_succeeds()
                },
            )
        }),
{
}

/// An attempt that fails for any other reason is counted and reported, and after
/// the delay that the backoff asks for the same document is attempted again.
pub proof fn law_failed_attempt_is_retried(
    config: Config,
    doc: ExportDocument,
    at: AttemptPhase,
    failure: Failure,
    delay: Duration,
)
    requires
        worker_step(config, Phase::Attempt { doc, at }, Event::Failed(failure)) is Some,
        !failure.canceled,
        failure.short_msg@ != config.too_large_short_msg@,
    ensures
        ({
            let failed = worker_step(config, Phase::Attempt { doc, at }, Event::Failed(failure));
            let logged = worker_step(config, (failed->0).0, Event::Done);
            let reported = worker_step(config, (logged->0).0, Event::Done);
            let backed_off = worker_step(config, (reported->0).0, Event::Delay(delay));
            let waited = worker_step(config, (backed_off->0).0, Event::Done);
            &&& failed matches Some((_, action)) && action == Action::LogFailure(failure)
            &&& logged matches Some((_, action)) && action == (Action::Report { died: false })
            &&& reported matches Some((_, action)) && action == Action::FailBackoff
            &&& backed_off matches Some((_, action)) && action == Action::Wait(delay)
            &&& waited == Some(attempt_begins(doc))
        }),
{
}

/// A run that fails is reported as the death of the worker, and after the delay
/// that the backoff asks for the worker looks for exports again.
pub proof fn law_failed_run_is_retried(config: Config, delay: Duration)
    ensures
        ({
            let reported = worker_step(config, run_fails().0, Event::Done);
            let backed_off = worker_step(config, (reported->0).0, Event::Delay(delay));
            let waited = worker_step(config, (backed_off->0).0, Event::Done);
            &&& run_fails().1 == (Action::Report { died: true })
            &&& reported matches Some((_, action)) && action == Action::FailBackoff
            &&& backed_off matches Some((_, action)) && action == Action::Wait(delay)
            &&& waited == Some((Phase::Run(RunPhase::Polling), Action::Poll))
        }),
{
}

/// A run that ends without an error resets the backoff, and the worker looks
/// for exports again at once.
pub proof fn law_successful_run_resets_backoff(config: Config)
    ensures
        run_succeeds().1 == Action::ResetBackoff,
        worker_step(config, run_succeeds().0, Event::Done) == Some(
            (Phase::Run(RunPhase::Polling), Action::Poll),
        ),
{
}

/// The backoff is only reset when a run has ended without an error: after a wait
/// for a change, after an export that was carried out, marked as failed, or
/// canceled. In particular a retry does not reset it.
pub proof fn law_backoff_is_only_reset_by_success(config: Config, phase: Phase, event: Event)
    requires
        worker_step(config, phase, event) is Some,
        (worker_step(config, phase, event)->0).1 is ResetBackoff,
    ensures
        ({
            ||| phase == Phase::Run(RunPhase::Subscribing) && event is Done
            ||| phase matches Phase::Retry { stage, .. } && stage is Trimming && event is Done
            ||| phase matches Phase::Retry { stage, .. } && stage is MarkingFailed && event is Done
            ||| phase.doc() is Some && (event matches Event::Failed(failure) && failure.canceled)
        }),
{
}

/// Two exports at once are an error of the run: neither is touched.
pub proof fn law_two_exports_at_once_are_refused(
    config: Config,
    requested: ExportDocument,
    in_progress: ExportDocument,
    error: Failure,
)
    ensures
        ({
            let polled = worker_step(
                config,
                Phase::Run(RunPhase::Polling),
                Event::Polled { requested: Some(requested), in_progress: Some(in_progress) },
            );
            &&& polled matches Some((_, action)) && action == Action::Raise(Fault::SeveralExports)
            &&& worker_step(config, (polled->0).0, Event::Failed(error)) == Some(run_fails())
        }),
{
}

/// An attempt in which nothing fails takes the export from its snapshot to the
/// end of the run, in this order and with nothing in between.
pub proof fn law_attempt_without_failure_completes(
    config: Config,
    doc: ExportDocument,
    snapshot_ts: u64,
    object_key: String,
    size: u64,
)
    requires
        doc.export is InProgress,
    ensures
        ({
            let job = doc.export->job;
            let begun = attempt_begins(doc);
            let snapshot = worker_step(config, begun.0, Event::Timestamp(snapshot_ts));
            let exported = worker_step(config, (snapshot->0).0, Event::Exported { object_key });
            let looked_up = worker_step(config, (exported->0).0, Event::Attributes(Some(size)));
            let marked = worker_step(config, (looked_up->0).0, Event::Done);
            let upload = worker_step(config, (marked->0).0, Event::Done);
            let call = worker_step(config, (upload->0).0, Event::Done);
            let trimmed = worker_step(config, (call->0).0, Event::Done);
            &&& begun.1 == Action::TakeSnapshot
            &&& snapshot matches Some((_, action)) && action == Action::Race(
                ExportPlan {
                    deployment_name: config.deployment_name,
                    id: doc.id,
                    snapshot_ts,
                    job,
                },
            )
            &&& exported matches Some((_, action)) && action == (Action::ReadAttributes {
                object_key,
            })
            &&& looked_up matches Some((_, action)) && action == (Action::Edit {
                id: doc.id,
                edit: Edit::MarkComplete { snapshot_ts, object_key, size },
            })
            &&& marked matches Some((_, action)) && action == (Action::ChargeIngress {
                component: ComponentPath::Root,
                tag: UsageTag(job.requestor),
                size,
            })
            &&& upload matches Some((_, action)) && action == (Action::ChargeCall {
                caller: UdfIdentifier::SystemJob(UsageTag(job.requestor)),
                call_type: job.requestor.spec_call_type(),
                success: true,
            })
            &&& call matches Some((_, action)) && action == Action::Trim(TrimReason::Export)
            &&& trimmed == Some(run_succeeds())
        }),
{
}

/// A document that is gone or canceled is never written by an edit, and an edit
/// is given up as canceled for no other reason.
pub proof fn law_canceled_export_is_never_written(
    edit: Edit,
    read: Option<Export>,
    begin_ts: u64,
)
    ensures
        edit.spec_decide(read, begin_ts) is Ok ==> still_wanted(read),
        edit.spec_decide(read, begin_ts) == Err::<Change, Fault>(Fault::ExportCanceled)
            <==> !still_wanted(read),
{
}

/// Whoever watches a document sees a cancellation exactly when an edit of the
/// same document would be given up as canceled.
pub proof fn law_monitor_and_edits_agree(edit: Edit, read: Option<Export>, begin_ts: u64)
    ensures
        spec_monitor_export(read) == Err::<(), Fault>(Fault::ExportCanceled) <==> edit.spec_decide(
            read,
            begin_ts,
        ) == Err::<Change, Fault>(Fault::ExportCanceled),
{
}

/// As long as whoever watches a document says to go on, every edit of it is
/// decided in favor of a write, and marking it as failed keeps the timestamp at
/// which it was started.
pub proof fn law_watched_export_can_be_edited(edit: Edit, read: Option<Export>, begin_ts: u64)
    requires
        spec_monitor_export(read) is Ok,
    ensures
        edit.spec_decide(read, begin_ts) is Ok,
        edit is MarkFailed ==> edit.spec_decide(read, begin_ts) == Ok::<Change, Fault>(
            Change::Failed { start_ts: read->0->start_ts, failed_ts: begin_ts },
        ),
{
}

/// Without a resumption token the provider is asked to export at once.
pub proof fn law_task_without_token_exports(plan: ExportPlan)
    requires
        plan.job.resumption_token is None,
    ensures
        task_start(plan) == export_anew(plan),
{
}

/// An export that cannot be resumed, because there is nothing to resume or
/// because resuming fails, is begun anew; a failure to resume is reported first.
pub proof fn law_unresumable_export_begins_anew(plan: ExportPlan)
    requires
        plan.job.resumption_token is Some,
    ensures
        ({
            let resuming = task_start(plan).0;
            let failed = task_step(plan, resuming, TaskEvent::ResumeFailed);
            &&& task_step(plan, resuming, TaskEvent::Resumed(None)) == Some(export_anew(plan))
            &&& failed matches Some((_, action)) && action == TaskAction::Report
            &&& task_step(plan, (failed->0).0, TaskEvent::Reported) == Some(export_anew(plan))
        }),
{
}

/// The object with which an attempt ends is one that the provider has handed over.
pub proof fn law_task_ends_with_the_providers_object(
    plan: ExportPlan,
    phase: TaskPhase,
    event: TaskEvent,
    object_key: String,
)
    requires
        task_step(plan, phase, event) is Some,
        (task_step(plan, phase, event)->0).1 == (TaskAction::Finish { object_key }),
    ensures
        event == TaskEvent::Resumed(Some(object_key)) || event == TaskEvent::Exported(object_key),
        (task_step(plan, phase, event)->0).0 is Finished,
{
}

/// How many more answers an attempt can take.
pub open spec fn answers_left(phase: TaskPhase) -> nat {
    match phase {
        TaskPhase::Resuming => 3,
        TaskPhase::Reporting => 2,
        TaskPhase::Exporting => 1,
        TaskPhase::Finished => 0,
    }
}

/// An attempt is over after at most three answers: every one brings it closer to
/// its end.
pub proof fn law_task_ends(plan: ExportPlan, phase: TaskPhase, event: TaskEvent)
    requires
        task_step(plan, phase, event) is Some,
    ensures
        answers_left((task_step(plan, phase, event)->0).0) < answers_left(phase) <= 3,
{
}

/// A cancellation, or the loss of the document, that the watch sees ends the
/// attempt as canceled at once, wherever the attempt stands.
pub proof fn law_watch_sees_cancellation(state: RaceState, read: Option<Export>)
    requires
        !state.over,
        state.monitor == MonitorPhase::Looking,
    ensures
        (race_monitor_step(state, MonitorEvent::Looked(read)) matches Some((_, step)) && step
            == RaceStep::Over(RaceEnd::Raised(Fault::ExportCanceled))) <==> !still_wanted(read),
{
}

/// As long as the export is in progress the watch goes on: it waits for a
/// change, and then looks again, while the attempt stays where it is.
pub proof fn law_watch_goes_on(state: RaceState, read: Option<Export>)
    requires
        !state.over,
        state.monitor == MonitorPhase::Looking,
        read matches Some(export) && export is InProgress,
    ensures
        ({
            let looked = race_monitor_step(state, MonitorEvent::Looked(read));
            &&& looked matches Some((_, step)) && step == RaceStep::Monitor(
                MonitorAction::Subscribe,
            )
            &&& race_monitor_step((looked->0).0, MonitorEvent::Invalidated) == Some(
                (state, RaceStep::Monitor(MonitorAction::Look)),
            )
        }),
{
}

/// The first side to be over decides: once a step has ended it all, no event of
/// either side is taken any more.
pub proof fn law_first_to_be_over_decides(
    plan: ExportPlan,
    state: RaceState,
    task_event: TaskEvent,
    monitor_event: MonitorEvent,
    late_task_event: TaskEvent,
    late_monitor_event: MonitorEvent,
)
    ensures
        race_task_step(plan, state, task_event) matches Some((ended, step)) ==> (step is Over ==> {
            &&& race_task_step(plan, ended, late_task_event) is None
            &&& race_monitor_step(ended, late_monitor_event) is None
        }),
        race_monitor_step(state, monitor_event) matches Some((ended, step)) ==> (step is Over ==> {
            &&& race_task_step(plan, ended, late_task_event) is None
            &&& race_monitor_step(ended, late_monitor_event) is None
        }),
{
}

/// Only the provider produces an object: the watch can end an attempt, but never
/// with success, and an attempt ends with the very key that the provider gave.
pub proof fn law_only_the_provider_exports(
    plan: ExportPlan,
    state: RaceState,
    task_event: TaskEvent,
    monitor_event: MonitorEvent,
    object_key: String,
)
    ensures
        race_task_step(plan, state, task_event) matches Some((_, step)) && step == RaceStep::Over(
            RaceEnd::Exported { object_key },
        ) ==> task_event == TaskEvent::Resumed(Some(object_key)) || task_event
            == TaskEvent::Exported(object_key),
        race_monitor_step(state, monitor_event) matches Some((_, step)) ==> step
            != RaceStep::Over(RaceEnd::Exported { object_key }),
{
}

/// The failure is what the worker reads of an error made of the fault.
pub open spec fn failure_of_fault(fault: Fault, failure: Failure) -> bool {
    failure.canceled <==> fault == Fault::ExportCanceled
}

/// When the watch sees that the export was canceled or is gone, the error that
/// is made of it ends the run without an error, and without touching the
/// document.
pub proof fn law_seen_cancellation_ends_the_run(
    config: Config,
    phase: Phase,
    state: RaceState,
    read: Option<Export>,
    failure: Failure,
)
    requires
        phase matches Phase::Attempt { at, .. } && at is Racing,
        !state.over,
        state.monitor == MonitorPhase::Looking,
        !still_wanted(read),
        failure_of_fault(
            (race_monitor_step(state, MonitorEvent::Looked(read))->0).1->Over_0->Raised_0,
            failure,
        ),
    ensures
        worker_step(config, phase, Event::Failed(failure)) == Some(run_succeeds()),
{
}

/// When the worker comes to mark an export as completed or failed and finds that
/// it was canceled or is gone, nothing is written, and the error that is made of
/// it ends the run without an error.
pub proof fn law_late_cancellation_ends_the_run(
    config: Config,
    events: Seq<Event>,
    id: String,
    edit: Edit,
    read: Option<Export>,
    begin_ts: u64,
    failure: Failure,
)
    requires
        after(config, events) is Some,
        (after(config, events)->0).1 == (Action::Edit { id, edit }),
        !still_wanted(read),
        edit.spec_decide(read, begin_ts) matches Err(fault) ==> failure_of_fault(fault, failure),
    ensures
        edit.spec_decide(read, begin_ts) is Err,
        worker_step(config, (after(config, events)->0).0, Event::Failed(failure)) == Some(
            run_succeeds(),
        ),
{
    if events.len() > 0 {
        law_worker_waits_for_what_it_asks(
            config,
            (after(config, events.drop_last())->0).0,
            events.last(),
        );
    }
    law_answers_are_taken(
        config,
        (after(config, events)->0).0,
        (after(config, events)->0).1,
        Event::Failed(failure),
    );
}

/// The trim after an export is the shared one, made for the reason of an export:
/// it is counted once, and as the last thing, in the total of all trims under
/// that reason, however it ends.
pub proof fn law_trim_after_export_is_the_shared_one(
    config: Config,
    events: Seq<Event>,
    reason: TrimReason,
    task: TrimTask,
    i: int,
)
    requires
        after(config, events) is Some,
        (after(config, events)->0).1 == Action::Trim(reason),
        0 <= i < trim_updates(reason, task).len(),
    ensures
        reason == TrimReason::Export,
        trim_updates(reason, task).last() == trim_total(TrimReason::Export, trim_outcome(task)),
        trim_updates(reason, task)[i].metric() == Metric::AllocatorMallocTrimTotal <==> i
            == trim_updates(reason, task).len() - 1,
{
    law_every_trim_is_counted_once(reason, task, i);
}

/// In the history `events`, the export `doc` is attempted for the first time
/// after the first `first` events, and its run lasts at least up to the last
/// event: no earlier event since has ended it.
pub open spec fn carried_out(
    config: Config,
    events: Seq<Event>,
    first: nat,
    doc: ExportDocument,
) -> bool
    decreases events.len(),
{
    &&& after(config, events) is Some
    &&& 0 < first <= events.len()
    &&& if events.len() == first {
        &&& after(config, events) == Some(attempt_begins(doc))
        &&& (after(config, events.drop_last())->0).0.doc() is None
    } else {
        &&& carried_out(config, events.drop_last(), first, doc)
        &&& (after(config, events.drop_last())->0).0.doc() is Some
    }
}

/// How many of the actions asked for after the first `first` events, and after
/// each further one, are such.
pub open spec fn times_asked(
    config: Config,
    events: Seq<Event>,
    first: nat,
    such: spec_fn(Action) -> bool,
) -> nat
    decreases events.len(),
{
    let now: nat = if such((after(config, events)->0).1) {
        1
    } else {
        0
    };
    if events.len() < first {
        0
    } else if events.len() == 0 {
        now
    } else {
        times_asked(config, events.drop_last(), first, such) + now
    }
}

/// How many attempts have ended, since the first `first` events, with an error
/// that is not a cancellation.
pub open spec fn failed_attempts(config: Config, events: Seq<Event>, first: nat) -> nat
    decreases events.len(),
{
    if events.len() <= first {
        0
    } else {
        let before = events.drop_last();
        failed_attempts(config, before, first) + (if (after(config, before)->0).0 is Attempt && (
        events.last() matches Event::Failed(failure) && !failure.canceled) {
            1nat
        } else {
            0nat
        })
    }
}

/// An attempt begins: a snapshot is taken, or the export is not in progress.
pub open spec fn begins_attempt() -> spec_fn(Action) -> bool {
    |action: Action|
        action is TakeSnapshot || action == Action::Raise(Fault::ExportNotInProgress)
}

pub open spec fn logs_failure() -> spec_fn(Action) -> bool {
    |action: Action| action is LogFailure
}

pub open spec fn fails_backoff() -> spec_fn(Action) -> bool {
    |action: Action| action is FailBackoff
}

pub open spec fn resets_backoff() -> spec_fn(Action) -> bool {
    |action: Action| action is ResetBackoff
}

/// While an export is carried out, from its first attempt to the end of the run:
///
/// - every failed attempt that was not canceled is counted once as a failed
///   export, and nothing else is;
/// - every attempt but the latest has failed so;
/// - the backoff is told of a failure once between any two attempts, so once
///   less often than an attempt has begun when the run is over;
/// - the backoff is not reset before the run is over.
pub proof fn law_failures_are_counted(
    config: Config,
    events: Seq<Event>,
    first: nat,
    doc: ExportDocument,
)
    requires
        carried_out(config, events, first, doc),
    ensures
        ({
            let phase = (after(config, events)->0).0;
            let begun = times_asked(config, events, first, begins_attempt());
            let failed = failed_attempts(config, events, first);
            let backed_off = times_asked(config, events, first, fails_backoff());
            &&& times_asked(config, events, first, logs_failure()) == failed
            &&& begun - 1 <= failed <= begun
            &&& phase is Attempt ==> failed == begun - 1
            &&& phase.doc() is None ==> {
                let over = (after(config, events)->0).1;
                &&& (over is ResetBackoff || over == (Action::Report { died: true }))
                &&& backed_off == begun - 1
            }
            &&& phase.doc() is Some ==> {
                &&& times_asked(config, events, first, resets_backoff()) == 0
                &&& backed_off == (if phase matches Phase::Retry { stage, .. } && (stage is BackingOff
                    || stage is Waiting) {
                    begun as int
                } else {
                    begun - 1
                })
                &&& phase is Retry ==> failed == (if phase->Retry_stage is Trimming {
                    begun - 1
                } else {
                    begun as int
                })
            }
        }),
    decreases events.len(),
{
    let before = events.drop_last();
    if events.len() == first {
        assert(times_asked(config, before, first, begins_attempt()) == 0);
        assert(times_asked(config, before, first, fails_backoff()) == 0);
        assert(times_asked(config, before, first, logs_failure()) == 0);
        assert(times_asked(config, before, first, resets_backoff()) == 0);
    } else {
        law_failures_are_counted(config, before, first, doc);
        law_one_export_at_a_time(config, (after(config, before)->0).0, events.last());
    }
}

/// One edit of the stored document, in a transaction that began at `begin_ts`:
/// what the document is afterwards, if `made` is what the transition makes of it.
pub open spec fn stored_after(
    stored: Option<Export>,
    edit: Edit,
    begin_ts: u64,
    made: Result<Export, Failure>,
) -> Option<Export> {
    match (edit.spec_decide(stored, begin_ts), made) {
        (Ok(_), Ok(export)) => Some(export),
        _ => stored,
    }
}

/// What the stored document is after a list of edits.
pub open spec fn stored_after_all(
    stored: Option<Export>,
    edits: Seq<(Edit, u64, Result<Export, Failure>)>,
) -> Option<Export>
    decreases edits.len(),
{
    if edits.len() == 0 {
        stored
    } else {
        let (edit, begin_ts, made) = edits.last();
        stored_after(stored_after_all(stored, edits.drop_last()), edit, begin_ts, made)
    }
}

/// Once an export is canceled or gone, it stays so, whatever progress updates,
/// resumption tokens, failures and completions are still to be written.
pub proof fn law_canceled_export_stays_canceled(
    stored: Option<Export>,
    edits: Seq<(Edit, u64, Result<Export, Failure>)>,
)
    requires
        !still_wanted(stored),
    ensures
        stored_after_all(stored, edits) == stored,
    decreases edits.len(),
{
    if edits.len() > 0 {
        law_canceled_export_stays_canceled(stored, edits.drop_last());
    }
}

/// The answer to an edit of a document that is canceled or gone.
pub open spec fn refuses_edit(event: Event) -> bool {
    event matches Event::Failed(failure) && failure_of_fault(Fault::ExportCanceled, failure)
}

/// Since the first `since` events, every edit that the worker has asked for and
/// that was answered was refused, because the document is canceled or gone.
pub open spec fn edits_are_refused(config: Config, events: Seq<Event>, since: nat) -> bool
    decreases events.len(),
{
    events.len() > since ==> {
        let before = events.drop_last();
        &&& edits_are_refused(config, before, since)
        &&& (after(config, before)->0).1 is Edit ==> refuses_edit(events.last())
    }
}

/// The export has been marked as completed, and what follows that is under way.
pub open spec fn completed(phase: Phase) -> bool {
    match phase {
        Phase::Attempt { at, .. } => at is ChargingIngress || at is ChargingCall,
        Phase::Retry { stage, .. } => stage is Trimming,
        _ => false,
    }
}

/// An export that is canceled or gone at any moment before it is marked as
/// completed, even after the provider has succeeded, is never completed
/// afterwards: nothing is charged, no trim follows, and the edit that finds out
/// ends the run.
pub proof fn law_canceled_export_is_never_completed(
    config: Config,
    events: Seq<Event>,
    since: nat,
)
    requires
        after(config, events) is Some,
        since <= events.len(),
        !completed((after(config, events.take(since as int))->0).0),
        edits_are_refused(config, events, since),
    ensures
        ({
            let (phase, action) = after(config, events)->0;
            &&& !completed(phase)
            &&& events.len() > since ==> {
                &&& !(action is ChargeIngress || action is ChargeCall || action is Trim)
                &&& (after(config, events.drop_last())->0).1 is Edit ==> after(config, events)
                    == Some(run_succeeds())
            }
        }),
    decreases events.len(),
{
    if events.len() == since {
        assert(events.take(since as int) =~= events);
    } else {
        let before = events.drop_last();
        assert(before.take(since as int) =~= events.take(since as int));
        law_canceled_export_is_never_completed(config, before, since);
        let (phase, action) = after(config, before)->0;
        if before.len() > 0 {
            law_worker_waits_for_what_it_asks(
                config,
                (after(config, before.drop_last())->0).0,
                before.last(),
            );
        }
        law_answers_are_taken(config, phase, action, events.last());
    }
}

/// The worker begins to work exactly when it finds one export, requested or in
/// progress, and stops exactly when the run is over. It works all the while that
/// an export is carried out.
pub proof fn law_worker_works_from_finding_to_the_end(config: Config, phase: Phase, event: Event)
    requires
        worker_step(config, phase, event) is Some,
    ensures
        ({
            let next = worker_step(config, phase, event)->0;
            let found_one = event matches Event::Polled { requested, in_progress } && (requested
                is Some) != (in_progress is Some);
            let over = next == run_succeeds() || next == run_fails();
            &&& !phase.working() ==> (next.0.working() <==> found_one)
            &&& phase.working() ==> (next.0.working() <==> !over)
            &&& phase.doc() is Some ==> phase.working()
        }),
{
}

/// Whenever the provider is asked to export from the beginning, at the start of an
/// attempt or later, it is handed the plan's deployment name, snapshot timestamp
/// and id, and the format and the requestor of the plan's job.
pub proof fn law_export_request_carries_the_plan(
    plan: ExportPlan,
    phase: TaskPhase,
    event: TaskEvent,
    action: TaskAction,
)
    requires
        action is Export,
        action == task_start(plan).1 || (task_step(plan, phase, event) matches Some((_, asked))
            && asked == action),
    ensures
        action->Export_deployment_name == plan.deployment_name,
        action->Export_snapshot_ts == plan.snapshot_ts,
        action->Export_id == plan.id,
        action->Export_format == plan.job.format,
        action->Export_requestor == plan.job.requestor,
{
}

/// An attempt asks the provider to resume exactly if its job has a token, and then
/// hands over the plan's deployment name and id and that token; without one it asks
/// to export. It never asks to resume later.
pub proof fn law_resume_request_carries_the_token(
    plan: ExportPlan,
    phase: TaskPhase,
    event: TaskEvent,
)
    ensures
        plan.job.resumption_token matches Some(token) ==> {
            &&& task_start(plan).0 == TaskPhase::Resuming
            &&& task_start(plan).1 matches TaskAction::Resume {
                deployment_name,
                token: handed,
                id,
            } && deployment_name == plan.deployment_name && handed == token && id == plan.id
        },
        plan.job.resumption_token is None ==> task_start(plan).0 == TaskPhase::Exporting
            && task_start(plan).1 is Export,
        task_step(plan, phase, event) matches Some((_, action)) ==> !(action is Resume),
{
}

/// What an attempt makes of each answer of the provider: an object ends it with
/// that object, a failed export ends it as failed, nothing to resume leads to an
/// export from the beginning, and a failure to resume to a report and then to an
/// export from the beginning.
pub proof fn law_attempt_follows_the_provider(plan: ExportPlan, object_key: String)
    ensures
        task_step(plan, TaskPhase::Resuming, TaskEvent::Resumed(Some(object_key))) == Some(
            (TaskPhase::Finished, TaskAction::Finish { object_key }),
        ),
        task_step(plan, TaskPhase::Exporting, TaskEvent::Exported(object_key)) == Some(
            (TaskPhase::Finished, TaskAction::Finish { object_key }),
        ),
        task_step(plan, TaskPhase::Exporting, TaskEvent::ExportFailed) == Some(
            (TaskPhase::Finished, TaskAction::Fail),
        ),
        task_step(plan, TaskPhase::Resuming, TaskEvent::Resumed(None)) matches Some((next, action))
            && next == TaskPhase::Exporting && action is Export,
        task_step(plan, TaskPhase::Resuming, TaskEvent::ResumeFailed) == Some(
            (TaskPhase::Reporting, TaskAction::Report),
        ),
        task_step(plan, TaskPhase::Reporting, TaskEvent::Reported) matches Some((next, action))
            && next == TaskPhase::Exporting && action is Export,
{
}

/// Nothing else comes of an attempt: an event is only taken as the answer to what
/// was asked for, and one that is over takes none.
pub proof fn law_attempt_takes_only_answers(plan: ExportPlan, phase: TaskPhase, event: TaskEvent)
    ensures
        task_step(plan, phase, event) is Some ==> {
            ||| phase == TaskPhase::Resuming && (event is Resumed || event is ResumeFailed)
            ||| phase == TaskPhase::Reporting && event is Reported
            ||| phase == TaskPhase::Exporting && (event is Exported || event is ExportFailed)
        },
{
}

/// Whatever the watch is doing, an object that the provider hands over in answer to
/// the request to export, or to resume, ends the race with exactly that object.
pub proof fn law_providers_object_wins_the_race(
    plan: ExportPlan,
    state: RaceState,
    object_key: String,
)
    requires
        !state.over,
    ensures
        state.task == TaskPhase::Exporting ==> {
            let next = race_task_step(plan, state, TaskEvent::Exported(object_key));
            &&& next is Some
            &&& (next->0).0.over
            &&& (next->0).0.monitor == state.monitor
            &&& (next->0).1 == RaceStep::Over(RaceEnd::Exported { object_key })
        },
        state.task == TaskPhase::Resuming ==> {
            let next = race_task_step(plan, state, TaskEvent::Resumed(Some(object_key)));
            &&& next is Some
            &&& (next->0).0.over
            &&& (next->0).0.monitor == state.monitor
            &&& (next->0).1 == RaceStep::Over(RaceEnd::Exported { object_key })
        },
{
}

/// Whatever the watch is doing, a race is over as a failed export exactly when the
/// provider answers the request to export with an error.
pub proof fn law_only_the_provider_fails_an_export(
    plan: ExportPlan,
    state: RaceState,
    task_event: TaskEvent,
    monitor_event: MonitorEvent,
)
    ensures
        (race_task_step(plan, state, task_event) matches Some((_, step)) && step == RaceStep::Over(
            RaceEnd::ExportFailed,
        )) <==> !state.over && state.task == TaskPhase::Exporting && task_event
            == TaskEvent::ExportFailed,
        race_task_step(plan, state, task_event) matches Some((next, step)) ==> (step is Over
            <==> next.over),
        race_monitor_step(state, monitor_event) matches Some((_, step)) ==> step
            != RaceStep::Over(RaceEnd::ExportFailed),
{
}

/// An attempt that is not over goes on in a race as it would alone, and leaves the
/// watch where it is: nothing to resume leads to an export from the beginning, and a
/// failure to resume is reported first.
pub proof fn law_attempt_goes_on_in_the_race(plan: ExportPlan, state: RaceState)
    requires
        !state.over,
    ensures
        state.task == TaskPhase::Resuming ==> {
            let anew = race_task_step(plan, state, TaskEvent::Resumed(None));
            let failed = race_task_step(plan, state, TaskEvent::ResumeFailed);
            &&& anew matches Some((next, RaceStep::Task(action))) && action is Export && next == (
            RaceState { task: TaskPhase::Exporting, monitor: state.monitor, over: false })
            &&& failed matches Some((next, RaceStep::Task(action))) && action is Report && next == (
            RaceState { task: TaskPhase::Reporting, monitor: state.monitor, over: false })
        },
        state.task == TaskPhase::Reporting ==> {
            let anew = race_task_step(plan, state, TaskEvent::Reported);
            &&& anew matches Some((next, RaceStep::Task(action))) && action is Export && next == (
            RaceState { task: TaskPhase::Exporting, monitor: state.monitor, over: false })
        },
{
}

/// Whenever a race asks the provider to export from the beginning, it hands over
/// all of the plan.
pub proof fn law_race_hands_over_the_plan(
    plan: ExportPlan,
    state: RaceState,
    event: TaskEvent,
    action: TaskAction,
)
    requires
        race_task_step(plan, state, event) matches Some((_, step)) && step == RaceStep::Task(
            action,
        ),
    ensures
        action is Export || action is Report,
        action is Export ==> {
            &&& action->Export_deployment_name == plan.deployment_name
            &&& action->Export_snapshot_ts == plan.snapshot_ts
            &&& action->Export_id == plan.id
            &&& action->Export_format == plan.job.format
            &&& action->Export_requestor == plan.job.requestor
        },
{
}

/// No event of the attempt moves the watch, and none ends the race as the watch
/// would.
pub proof fn law_attempt_does_not_speak_for_the_watch(
    plan: ExportPlan,
    state: RaceState,
    event: TaskEvent,
)
    ensures
        race_task_step(plan, state, event) matches Some((next, step)) ==> {
            &&& next.monitor == state.monitor
            &&& !(step is Monitor)
            &&& step matches RaceStep::Over(end) ==> end is Exported || end is ExportFailed
        },
{
}

/// What the watch makes of a look at the document, wherever the attempt stands: a
/// missing or canceled export ends the race as canceled, one in progress is watched
/// further, and one that is requested, completed or failed ends the race as being in
/// an unexpected state.
pub proof fn law_watch_follows_the_document(state: RaceState, read: Option<Export>)
    requires
        !state.over,
        state.monitor == MonitorPhase::Looking,
    ensures
        ({
            let looked = race_monitor_step(state, MonitorEvent::Looked(read));
            let ended = RaceState { task: state.task, monitor: state.monitor, over: true };
            &&& read is None || read->0 is Canceled ==> looked == Some(
                (ended, RaceStep::Over(RaceEnd::Raised(Fault::ExportCanceled))),
            )
            &&& read is Some && read->0 is InProgress ==> looked == Some(
                (
                    RaceState {
                        task: state.task,
                        monitor: MonitorPhase::Subscribed,
                        over: false,
                    },
                    RaceStep::Monitor(MonitorAction::Subscribe),
                ),
            )
            &&& read is Some && (read->0 is Requested || read->0 is Completed || read->0 is Failed)
                ==> looked == Some(
                (ended, RaceStep::Over(RaceEnd::Raised(Fault::UnexpectedState))),
            )
        }),
{
}

/// A change that the watch was waiting for leads to another look, and a failure of
/// the watch ends the race, wherever both sides stand. Nothing else is taken.
pub proof fn law_watch_takes_only_answers(state: RaceState, read: Option<Export>)
    ensures
        !state.over && state.monitor == MonitorPhase::Subscribed ==> race_monitor_step(
            state,
            MonitorEvent::Invalidated,
        ) == Some(
            (
                RaceState { task: state.task, monitor: MonitorPhase::Looking, over: false },
                RaceStep::Monitor(MonitorAction::Look),
            ),
        ),
        !state.over ==> race_monitor_step(state, MonitorEvent::Failed) == Some(
            (
                RaceState { task: state.task, monitor: state.monitor, over: true },
                RaceStep::Over(RaceEnd::MonitorFailed),
            ),
        ),
        state.over || state.monitor == MonitorPhase::Subscribed ==> race_monitor_step(
            state,
            MonitorEvent::Looked(read),
        ) is None,
        state.over || state.monitor == MonitorPhase::Looking ==> race_monitor_step(
            state,
            MonitorEvent::Invalidated,
        ) is None,
        state.over ==> race_monitor_step(state, MonitorEvent::Failed) is None,
{
}

/// A race that is over takes no event of the attempt, and one that is not takes
/// exactly those that the attempt takes.
pub proof fn law_race_takes_what_the_attempt_takes(
    plan: ExportPlan,
    state: RaceState,
    event: TaskEvent,
)
    ensures
        race_task_step(plan, state, event) is Some <==> !state.over && task_step(
            plan,
            state.task,
            event,
        ) is Some,
{
}

/// An edit of a document that is there and not canceled makes the change that it is
/// for, whatever state the document is in: a progress message, a resumption token and
/// a completion are carried over as they are, and the completion gets the timestamp of
/// the transaction.
pub proof fn law_edit_makes_its_own_change(
    export: Export,
    begin_ts: u64,
    text: String,
    snapshot_ts: u64,
    size: u64,
)
    requires
        !(export is Canceled),
    ensures
        (Edit::UpdateProgress { message: text }).spec_decide(Some(export), begin_ts) == Ok::<
            Change,
            Fault,
        >(Change::Progress { message: text }),
        (Edit::SaveResumptionToken { token: text }).spec_decide(Some(export), begin_ts) == Ok::<
            Change,
            Fault,
        >(Change::ResumptionToken { token: text }),
        (Edit::MarkComplete { snapshot_ts, object_key: text, size }).spec_decide(
            Some(export),
            begin_ts,
        ) == Ok::<Change, Fault>(
            Change::Completed { snapshot_ts, complete_ts: begin_ts, object_key: text, size },
        ),
{
}

/// Only an export in progress is marked as failed, with the timestamp at which it was
/// started and that of the transaction.
pub proof fn law_only_exports_in_progress_are_marked_as_failed(export: Export, begin_ts: u64)
    ensures
        export matches Export::InProgress { start_ts, .. } ==> Edit::MarkFailed.spec_decide(
            Some(export),
            begin_ts,
        ) == Ok::<Change, Fault>(Change::Failed { start_ts, failed_ts: begin_ts }),
        export is Requested || export is Completed || export is Failed
            ==> Edit::MarkFailed.spec_decide(Some(export), begin_ts) == Err::<Change, Fault>(
            Fault::FailNotInProgress,
        ),
{
}

/// No edit touches an export that is gone or canceled, and every change is of the
/// kind of its edit.
pub proof fn law_changes_are_of_the_kind_of_their_edits(
    edit: Edit,
    read: Option<Export>,
    begin_ts: u64,
)
    ensures
        read is None || read->0 is Canceled ==> edit.spec_decide(read, begin_ts) == Err::<
            Change,
            Fault,
        >(Fault::ExportCanceled),
        edit.spec_decide(read, begin_ts) matches Ok(change) ==> {
            &&& change is Progress <==> edit is UpdateProgress
            &&& change is ResumptionToken <==> edit is SaveResumptionToken
            &&& change is Failed <==> edit is MarkFailed
            &&& change is Completed <==> edit is MarkComplete
        },
        edit.spec_decide(read, begin_ts) matches Err(fault) ==> fault == Fault::ExportCanceled
            || edit is MarkFailed,
{
}

/// Every edit is committed under the name for its kind, and no two kinds share one.
pub proof fn law_edits_are_committed_under_their_own_names(edit: Edit, other: Edit)
    ensures
        edit is UpdateProgress ==> edit.spec_write_source() == WriteSource::UpdateProgress,
        edit is SaveResumptionToken ==> edit.spec_write_source()
            == WriteSource::SaveResumptionToken,
        edit is MarkFailed ==> edit.spec_write_source() == WriteSource::MarkFailed,
        edit is MarkComplete ==> edit.spec_write_source() == WriteSource::MarkComplete,
        edit.spec_write_source() == other.spec_write_source() ==> (edit is MarkFailed <==> other is
            MarkFailed) && (edit is MarkComplete <==> other is MarkComplete),
{
}

/// A snapshot export is charged as an export and a cloud backup as a cloud backup.
pub proof fn law_requestors_are_charged_as_what_they_are(requestor: ExportRequestor)
    ensures
        requestor.spec_call_type() == CallType::Export <==> requestor
            == ExportRequestor::SnapshotExport,
        requestor.spec_call_type() == CallType::CloudBackup <==> requestor
            == ExportRequestor::CloudBackup,
{
}

/// The text of every fault, for every export and every state of it. Only that of an
/// unexpected state speaks of them, and names both.
pub proof fn law_faults_say_what_happened(id: Seq<char>, shown: Seq<char>)
    ensures
        Fault::ExportCanceled.spec_message(id, shown) == "Export canceled"@,
        Fault::SeveralExports.spec_message(id, shown)
            == "Can only have one export requested or in progress at once."@,
        Fault::FailNotInProgress.spec_message(id, shown) == "Can only fail an in-progress export"@,
        Fault::ExportNotInProgress.spec_message(id, shown)
            == "export_and_mark_complete should only be called with an InProgress export"@,
        Fault::MissingObjectAttributes.spec_message(id, shown)
            == "error getting export object attributes from S3"@,
        Fault::UnexpectedState.spec_message(id, shown) == "Export "@ + id
            + " is in unexpected state: "@ + shown,
{
}

} // verus!
