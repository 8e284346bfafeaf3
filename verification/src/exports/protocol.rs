//! What the worker asks for next, told by actions and events alone.
//!
//! Each law takes any history of a worker, looks at the action that it has asked
//! for last and at the answer to it, and says what comes of it.
use std::time::Duration;

use vstd::prelude::*;

use crate::allocator::TrimReason;
use crate::exports::document::{
    CallType, ComponentPath, Export, ExportDocument, ExportRequestor, Job, UdfIdentifier, UsageTag,
};
use crate::exports::edit::{Edit, WriteSource};
use crate::exports::fault::{Failure, Fault};
use crate::exports::laws::{
    after, committed_in_progress, found_in_progress, law_only_stored_exports_are_carried_out,
    law_phases_are_well_formed, law_worker_waits_for_what_it_asks, waits_for,
};
use crate::exports::task::ExportPlan;
use crate::exports::worker::{
    worker_step, Action, AttemptPhase, Config, Event, LoopPhase, Phase, RetryPhase, RunPhase,
};

verus! {

/// What the phase remembers agrees with the action that was asked for on entering
/// it, and with the event that led there.
spec fn linked(config: Config, phase: Phase, action: Action, event: Event) -> bool {
    match phase {
        Phase::Loop(LoopPhase::Reporting) => action == (Action::Report { died: true }),
        Phase::Run(RunPhase::Raising) => action == Action::Raise(Fault::SeveralExports),
        Phase::Run(RunPhase::ReadingClock { id }) => event matches Event::Polled {
            requested,
            in_progress,
        } && requested is Some && in_progress is None && requested->0.id == id,
        Phase::Run(RunPhase::Committing { doc }) => event == Event::Started(doc),
        Phase::Retry { doc, stage: RetryPhase::Logging { too_large } } => {
            &&& action matches Action::LogFailure(failure) && too_large == (failure.short_msg@
                == config.too_large_short_msg@)
        },
        Phase::Retry { doc, stage: RetryPhase::MarkingFailed } => action == (Action::Edit {
            id: doc.id,
            edit: Edit::MarkFailed,
        }),
        Phase::Retry { stage: RetryPhase::Reporting, .. } => action == (Action::Report {
            died: false,
        }),
        Phase::Attempt { at: AttemptPhase::Raising, .. } => action == Action::Raise(
            Fault::ExportNotInProgress,
        ) || action == Action::Raise(Fault::MissingObjectAttributes),
        Phase::Attempt { at: AttemptPhase::Racing { snapshot_ts, .. }, .. } => event
            == Event::Timestamp(snapshot_ts),
        Phase::Attempt {
            at: AttemptPhase::ReadingAttributes { snapshot_ts, object_key, .. },
            ..
        } => action == (Action::ReadAttributes { object_key }),
        Phase::Attempt { doc, at: AttemptPhase::MarkingComplete { size, .. } } => action matches Action::Edit {
            id,
            edit,
        } && id == doc.id && edit is MarkComplete && edit->size == size,
        Phase::Attempt { at: AttemptPhase::ChargingIngress { requestor }, .. } => action matches Action::ChargeIngress {
            tag,
            ..
        } && tag == UsageTag(requestor),
        _ => true,
    }
}

proof fn lemma_step_links(config: Config, phase: Phase, event: Event)
    requires
        worker_step(config, phase, event) is Some,
    ensures
        ({
            let (next, action) = worker_step(config, phase, event)->0;
            linked(config, next, action, event)
        }),
{
}

/// After every history the phase is that of the action asked for last, and
/// remembers what led to it.
proof fn lemma_linked(config: Config, events: Seq<Event>)
    requires
        after(config, events) is Some,
    ensures
        ({
            let (phase, action) = after(config, events)->0;
            &&& waits_for(phase, action)
            &&& phase.wf()
            &&& if events.len() == 0 {
                phase == Phase::Run(RunPhase::Polling)
            } else {
                linked(config, phase, action, events.last())
            }
        }),
{
    law_phases_are_well_formed(config, events);
    if events.len() > 0 {
        let before = (after(config, events.drop_last())->0).0;
        law_worker_waits_for_what_it_asks(config, before, events.last());
        lemma_step_links(config, before, events.last());
    }
}

proof fn lemma_push(config: Config, events: Seq<Event>, event: Event)
    requires
        after(config, events) is Some,
    ensures
        after(config, events.push(event)) == worker_step(
            config,
            (after(config, events)->0).0,
            event,
        ),
{
    assert(events.push(event).drop_last() =~= events);
}

/// The worker begins an attempt at the export: it takes a snapshot if the export
/// is in progress, and raises a fault if it is not.
pub open spec fn attempts(next: Option<(Phase, Action)>, doc: ExportDocument) -> bool {
    &&& next is Some
    &&& (next->0).0.doc() == Some(doc)
    &&& doc.export is InProgress ==> (next->0).1 == Action::TakeSnapshot
    &&& !(doc.export is InProgress) ==> (next->0).1 == Action::Raise(Fault::ExportNotInProgress)
}

/// The worker asks for the action, and is carrying no export out.
pub open spec fn asks_idle(next: Option<(Phase, Action)>, action: Action) -> bool {
    &&& next is Some
    &&& (next->0).0.doc() is None
    &&& (next->0).1 == action
}

/// The worker asks for the action, and is carrying the export out.
pub open spec fn asks_for(
    next: Option<(Phase, Action)>,
    doc: ExportDocument,
    action: Action,
) -> bool {
    &&& next is Some
    &&& (next->0).0.doc() == Some(doc)
    &&& (next->0).1 == action
}

/// The first thing that a worker asks for is a poll.
pub proof fn law_worker_begins_with_a_poll(config: Config)
    ensures
        asks_idle(after(config, Seq::empty()), Action::Poll),
{
}

/// A poll that finds a requested export leads to the clock, one that finds an
/// export in progress to an attempt at it, one that finds nothing to a wait for a
/// change, and one that finds both to a fault.
pub proof fn law_poll_decides(
    config: Config,
    events: Seq<Event>,
    requested: Option<ExportDocument>,
    in_progress: Option<ExportDocument>,
)
    requires
        after(config, events) is Some,
        (after(config, events)->0).1 == Action::Poll,
    ensures
        ({
            let next = after(config, events.push(Event::Polled { requested, in_progress }));
            &&& requested is Some && in_progress is Some ==> asks_idle(
                next,
                Action::Raise(Fault::SeveralExports),
            )
            &&& requested is Some && in_progress is None ==> asks_idle(next, Action::ReadClock)
            &&& requested is None && in_progress is Some ==> attempts(next, in_progress->0)
            &&& requested is None && in_progress is None ==> asks_idle(next, Action::Subscribe)
        }),
{
    lemma_linked(config, events);
    lemma_push(config, events, Event::Polled { requested, in_progress });
}

/// Whatever fails in a run before the first attempt, canceled or not, ends the
/// run as the death of the worker: the poll, the write that puts an export in
/// progress, its commit, the wait for a change, and the fault of two exports at
/// once.
pub proof fn law_failure_before_the_first_attempt_is_reported(
    config: Config,
    events: Seq<Event>,
    failure: Failure,
)
    requires
        after(config, events) is Some,
        ({
            let action = (after(config, events)->0).1;
            ||| action == Action::Poll
            ||| action is Start
            ||| action is Commit
            ||| action == Action::Subscribe
            ||| action == Action::Raise(Fault::SeveralExports)
        }),
    ensures
        asks_idle(
            after(config, events.push(Event::Failed(failure))),
            Action::Report { died: true },
        ),
{
    lemma_linked(config, events);
    lemma_push(config, events, Event::Failed(failure));
}

/// The requested export is put in progress under its own id, as of the timestamp
/// that was read.
pub proof fn law_requested_export_is_started_as_of_the_clock(
    config: Config,
    events: Seq<Event>,
    start_ts: u64,
)
    requires
        after(config, events) is Some,
        (after(config, events)->0).1 == Action::ReadClock,
    ensures
        events.len() > 0,
        events.last() matches Event::Polled { requested, in_progress } && requested is Some
            && in_progress is None && asks_idle(
            after(config, events.push(Event::Timestamp(start_ts))),
            Action::Start { id: requested->0.id, start_ts },
        ),
{
    lemma_linked(config, events);
    lemma_push(config, events, Event::Timestamp(start_ts));
}

/// What was written is committed, as the write of a requested export.
pub proof fn law_start_is_committed(config: Config, events: Seq<Event>, doc: ExportDocument)
    requires
        after(config, events) is Some,
        (after(config, events)->0).1 is Start,
    ensures
        asks_idle(
            after(config, events.push(Event::Started(doc))),
            Action::Commit(WriteSource::ExportRequested),
        ),
{
    lemma_linked(config, events);
    lemma_push(config, events, Event::Started(doc));
}

/// Once it is committed, the document as written is attempted.
pub proof fn law_committed_export_is_attempted(config: Config, events: Seq<Event>)
    requires
        after(config, events) is Some,
        (after(config, events)->0).1 is Commit,
    ensures
        events.len() > 0,
        events.last() matches Event::Started(doc) && attempts(
            after(config, events.push(Event::Done)),
            doc,
        ),
{
    lemma_linked(config, events);
    lemma_push(config, events, Event::Done);
}

/// A change that was waited for ends the run well.
pub proof fn law_change_ends_the_wait(config: Config, events: Seq<Event>)
    requires
        after(config, events) is Some,
        (after(config, events)->0).1 == Action::Subscribe,
    ensures
        asks_idle(after(config, events.push(Event::Done)), Action::ResetBackoff),
{
    lemma_linked(config, events);
    lemma_push(config, events, Event::Done);
}

/// After a reset of the backoff the worker polls.
pub proof fn law_reset_leads_to_a_poll(config: Config, events: Seq<Event>)
    requires
        after(config, events) is Some,
        (after(config, events)->0).1 == Action::ResetBackoff,
    ensures
        asks_idle(after(config, events.push(Event::Done)), Action::Poll),
{
    lemma_linked(config, events);
    lemma_push(config, events, Event::Done);
}

/// After a report of any kind the backoff is told, and the worker goes on with
/// the same export, or with none if it died.
pub proof fn law_report_leads_to_a_backoff(config: Config, events: Seq<Event>, died: bool)
    requires
        after(config, events) is Some,
        (after(config, events)->0).1 == (Action::Report { died }),
    ensures
        ({
            let doc = (after(config, events)->0).0.doc();
            let next = after(config, events.push(Event::Done));
            &&& died ==> asks_idle(next, Action::FailBackoff)
            &&& !died ==> doc is Some && asks_for(next, doc->0, Action::FailBackoff)
        }),
{
    lemma_linked(config, events);
    lemma_push(config, events, Event::Done);
}

/// The delay that the backoff gives is the one that is waited for.
pub proof fn law_delay_of_the_backoff_is_waited_for(
    config: Config,
    events: Seq<Event>,
    delay: Duration,
)
    requires
        after(config, events) is Some,
        (after(config, events)->0).1 == Action::FailBackoff,
    ensures
        ({
            let doc = (after(config, events)->0).0.doc();
            let next = after(config, events.push(Event::Delay(delay)));
            &&& doc is None ==> asks_idle(next, Action::Wait(delay))
            &&& doc is Some ==> asks_for(next, doc->0, Action::Wait(delay))
        }),
{
    lemma_linked(config, events);
    lemma_push(config, events, Event::Delay(delay));
}

/// After the wait the worker polls if it died, and attempts the same export again
/// if an attempt at it failed.
pub proof fn law_wait_leads_back(config: Config, events: Seq<Event>)
    requires
        after(config, events) is Some,
        (after(config, events)->0).1 is Wait,
    ensures
        ({
            let doc = (after(config, events)->0).0.doc();
            let next = after(config, events.push(Event::Done));
            &&& doc is None ==> asks_idle(next, Action::Poll)
            &&& doc is Some ==> attempts(next, doc->0)
        }),
{
    lemma_linked(config, events);
    lemma_push(config, events, Event::Done);
}

/// The worker polls only at first, after a reset of the backoff, and after a wait:
/// it never polls again right after a failure.
pub proof fn law_polls_are_kept_apart(config: Config, events: Seq<Event>)
    requires
        after(config, events) is Some,
        (after(config, events)->0).1 == Action::Poll,
        events.len() > 0,
    ensures
        events.last() == Event::Done,
        ({
            let asked = (after(config, events.drop_last())->0).1;
            asked == Action::ResetBackoff || asked is Wait
        }),
{
    let before = events.drop_last();
    lemma_linked(config, before);
}

/// The attempt hands the provider the deployment name, the id of its document,
/// the timestamp of the snapshot, and the document's own format, requestor and
/// resumption token.
pub proof fn law_snapshot_leads_to_the_export(
    config: Config,
    events: Seq<Event>,
    snapshot_ts: u64,
)
    requires
        after(config, events) is Some,
        (after(config, events)->0).1 == Action::TakeSnapshot,
    ensures
        ({
            let doc = (after(config, events)->0).0.doc();
            let next = after(config, events.push(Event::Timestamp(snapshot_ts)));
            &&& doc is Some
            &&& next is Some
            &&& (next->0).0.doc() == doc
            &&& (next->0).1 matches Action::Race(plan) && {
                &&& plan.deployment_name == config.deployment_name
                &&& plan.id == doc->0.id
                &&& plan.snapshot_ts == snapshot_ts
                &&& doc->0.export matches Export::InProgress { job, .. } && {
                    &&& plan.job.format == job.format
                    &&& plan.job.requestor == job.requestor
                    &&& plan.job.resumption_token == job.resumption_token
                }
            }
        }),
{
    lemma_linked(config, events);
    lemma_push(config, events, Event::Timestamp(snapshot_ts));
}

/// At the event `i`, a document with the plan's id and job was found in progress,
/// or was written as such and then committed.
pub open spec fn stored_job(events: Seq<Event>, i: int, plan: ExportPlan) -> bool {
    &&& 0 <= i < events.len()
    &&& match events[i] {
        Event::Polled { requested: None, in_progress: Some(doc) } => doc.id == plan.id
            && doc.export is InProgress && doc.export->job == plan.job,
        Event::Started(doc) => doc.id == plan.id && doc.export is InProgress && doc.export->job
            == plan.job && i + 1 < events.len() && events[i + 1] == Event::Done,
        _ => false,
    }
}

/// Whatever is handed to the provider is the job of a document that was found in
/// progress, or that was written as such in a write that was committed.
pub proof fn law_provider_gets_a_stored_job(
    config: Config,
    events: Seq<Event>,
    plan: ExportPlan,
)
    requires
        after(config, events) is Some,
        (after(config, events)->0).1 == Action::Race(plan),
    ensures
        exists|i: int| stored_job(events, i, plan),
{
    let before = events.drop_last();
    lemma_linked(config, before);
    lemma_linked(config, events);
    let doc = (after(config, events)->0).0.doc()->0;
    assert((after(config, before)->0).0.doc() == Some(doc));
    law_only_stored_exports_are_carried_out(config, events, doc);
    if exists|i: int| found_in_progress(events, i, doc) {
        let i = choose|i: int| found_in_progress(events, i, doc);
        assert(stored_job(events, i, plan));
    } else {
        let i = choose|i: int| committed_in_progress(events, i, doc);
        assert(stored_job(events, i, plan));
    }
}

/// The object that the export has produced is the one that is looked up.
pub proof fn law_exported_object_is_looked_up(
    config: Config,
    events: Seq<Event>,
    object_key: String,
)
    requires
        after(config, events) is Some,
        (after(config, events)->0).1 is Race,
    ensures
        ({
            let doc = (after(config, events)->0).0.doc();
            &&& doc is Some
            &&& asks_for(
                after(config, events.push(Event::Exported { object_key })),
                doc->0,
                Action::ReadAttributes { object_key },
            )
        }),
{
    lemma_linked(config, events);
    lemma_push(config, events, Event::Exported { object_key });
}

/// An object without attributes is a fault. One with attributes is what the export
/// is marked as completed with: the document's id, the timestamp of the snapshot
/// that was taken for this attempt, the object's key and its size.
pub proof fn law_attributes_lead_to_completion(
    config: Config,
    events: Seq<Event>,
    object_key: String,
    attributes: Option<u64>,
)
    requires
        after(config, events) is Some,
        (after(config, events)->0).1 == (Action::ReadAttributes { object_key }),
    ensures
        ({
            let n = events.len();
            let doc = (after(config, events)->0).0.doc();
            let next = after(config, events.push(Event::Attributes(attributes)));
            &&& n >= 2
            &&& doc is Some
            &&& attributes is None ==> asks_for(
                next,
                doc->0,
                Action::Raise(Fault::MissingObjectAttributes),
            )
            &&& attributes matches Some(size) ==> (events[n - 2] matches Event::Timestamp(
                snapshot_ts,
            ) && asks_for(
                next,
                doc->0,
                Action::Edit {
                    id: doc->0.id,
                    edit: Edit::MarkComplete { snapshot_ts, object_key, size },
                },
            ))
        }),
{
    lemma_linked(config, events);
    lemma_push(config, events, Event::Attributes(attributes));
    let one = events.drop_last();
    lemma_linked(config, one);
    assert(one.last() == events[events.len() - 2]);
}

/// Once the export is marked as completed, the root component is charged for the
/// object's size, under the tag of the document's requestor.
pub proof fn law_completion_leads_to_the_charge_for_the_upload(
    config: Config,
    events: Seq<Event>,
    id: String,
    snapshot_ts: u64,
    object_key: String,
    size: u64,
)
    requires
        after(config, events) is Some,
        (after(config, events)->0).1 == (Action::Edit {
            id,
            edit: Edit::MarkComplete { snapshot_ts, object_key, size },
        }),
    ensures
        ({
            let doc = (after(config, events)->0).0.doc();
            &&& doc is Some
            &&& doc->0.id == id
            &&& doc->0.export matches Export::InProgress { job, .. } && asks_for(
                after(config, events.push(Event::Done)),
                doc->0,
                Action::ChargeIngress {
                    component: ComponentPath::Root,
                    tag: UsageTag(job.requestor),
                    size,
                },
            )
        }),
{
    lemma_linked(config, events);
    lemma_push(config, events, Event::Done);
}

/// The charge for the upload is followed by the one for the call: of the system
/// job with the same tag, as an export or a cloud backup as the requestor is, and
/// as a success.
pub proof fn law_charge_for_the_upload_leads_to_that_for_the_call(
    config: Config,
    events: Seq<Event>,
    component: ComponentPath,
    tag: UsageTag,
    size: u64,
)
    requires
        after(config, events) is Some,
        (after(config, events)->0).1 == (Action::ChargeIngress { component, tag, size }),
    ensures
        ({
            let doc = (after(config, events)->0).0.doc();
            let next = after(config, events.push(Event::Done));
            &&& doc is Some
            &&& tag.0 == ExportRequestor::SnapshotExport ==> asks_for(
                next,
                doc->0,
                Action::ChargeCall {
                    caller: UdfIdentifier::SystemJob(tag),
                    call_type: CallType::Export,
                    success: true,
                },
            )
            &&& tag.0 == ExportRequestor::CloudBackup ==> asks_for(
                next,
                doc->0,
                Action::ChargeCall {
                    caller: UdfIdentifier::SystemJob(tag),
                    call_type: CallType::CloudBackup,
                    success: true,
                },
            )
        }),
{
    lemma_linked(config, events);
    lemma_push(config, events, Event::Done);
}

/// The charge for the call is followed by the trim for an export, and that by the
/// good end of the run.
pub proof fn law_charges_lead_to_the_trim_and_the_end(config: Config, events: Seq<Event>)
    requires
        after(config, events) is Some,
    ensures
        ({
            let (phase, action) = after(config, events)->0;
            let next = after(config, events.push(Event::Done));
            &&& action is ChargeCall ==> phase.doc() is Some && asks_for(
                next,
                phase.doc()->0,
                Action::Trim(TrimReason::Export),
            )
            &&& action is Trim ==> asks_idle(next, Action::ResetBackoff)
        }),
{
    lemma_linked(config, events);
    lemma_push(config, events, Event::Done);
}

/// Whatever fails in an attempt, from the snapshot to the completion, ends the run
/// well if it is a cancellation, and is otherwise counted as the failure that it
/// is.
pub proof fn law_failure_of_an_attempt_is_counted(
    config: Config,
    events: Seq<Event>,
    failure: Failure,
)
    requires
        after(config, events) is Some,
        ({
            let action = (after(config, events)->0).1;
            ||| action == Action::TakeSnapshot
            ||| action == Action::Raise(Fault::ExportNotInProgress)
            ||| action == Action::Raise(Fault::MissingObjectAttributes)
            ||| action is Race
            ||| action is ReadAttributes
            ||| (action matches Action::Edit { edit, .. } && edit is MarkComplete)
        }),
    ensures
        ({
            let doc = (after(config, events)->0).0.doc();
            let next = after(config, events.push(Event::Failed(failure)));
            &&& doc is Some
            &&& failure.canceled ==> asks_idle(next, Action::ResetBackoff)
            &&& !failure.canceled ==> asks_for(next, doc->0, Action::LogFailure(failure))
        }),
{
    lemma_linked(config, events);
    lemma_push(config, events, Event::Failed(failure));
}

/// A counted failure whose short message is that of a too large export leads to
/// the document being marked as failed, and any other to a report.
pub proof fn law_counted_failure_is_marked_or_reported(
    config: Config,
    events: Seq<Event>,
    failure: Failure,
)
    requires
        after(config, events) is Some,
        (after(config, events)->0).1 == Action::LogFailure(failure),
    ensures
        ({
            let doc = (after(config, events)->0).0.doc();
            let next = after(config, events.push(Event::Done));
            &&& doc is Some
            &&& failure.short_msg@ == config.too_large_short_msg@ ==> asks_for(
                next,
                doc->0,
                Action::Edit { id: doc->0.id, edit: Edit::MarkFailed },
            )
            &&& failure.short_msg@ != config.too_large_short_msg@ ==> asks_for(
                next,
                doc->0,
                Action::Report { died: false },
            )
        }),
{
    lemma_linked(config, events);
    lemma_push(config, events, Event::Done);
}

/// Marking an export as failed ends the run: well if it is done or if the export
/// turns out to be canceled, and as the death of the worker if it fails otherwise.
pub proof fn law_marking_as_failed_ends_the_run(
    config: Config,
    events: Seq<Event>,
    id: String,
    failure: Failure,
)
    requires
        after(config, events) is Some,
        (after(config, events)->0).1 == (Action::Edit { id, edit: Edit::MarkFailed }),
    ensures
        asks_idle(after(config, events.push(Event::Done)), Action::ResetBackoff),
        failure.canceled ==> asks_idle(
            after(config, events.push(Event::Failed(failure))),
            Action::ResetBackoff,
        ),
        !failure.canceled ==> asks_idle(
            after(config, events.push(Event::Failed(failure))),
            Action::Report { died: true },
        ),
{
    lemma_linked(config, events);
    lemma_push(config, events, Event::Done);
    lemma_push(config, events, Event::Failed(failure));
}

/// No event but an answer is taken: actions that cannot fail take no failure,
/// those that have nothing to tell take nothing else, and a fault that was raised
/// is only answered by the error made of it.
pub proof fn law_only_answers_are_taken(config: Config, events: Seq<Event>, event: Event)
    requires
        after(config, events) is Some,
        after(config, events.push(event)) is Some,
    ensures
        ({
            let action = (after(config, events)->0).1;
            &&& event is Polled ==> action == Action::Poll
            &&& event is Timestamp ==> action == Action::ReadClock || action
                == Action::TakeSnapshot
            &&& event is Started ==> action is Start
            &&& event is Exported ==> action is Race
            &&& event is Attributes ==> action is ReadAttributes
            &&& event is Delay ==> action == Action::FailBackoff
            &&& event is Done ==> !(action == Action::Poll || action == Action::ReadClock || action
                == Action::TakeSnapshot || action == Action::FailBackoff || action is Start
                || action is Race || action is ReadAttributes || action is Raise)
            &&& event is Failed ==> action == Action::Poll || action == Action::TakeSnapshot
                || action == Action::Subscribe || action is Start || action is Commit || action
                is Raise || action is Race || action is ReadAttributes || action is Edit
        }),
{
    lemma_linked(config, events);
    lemma_push(config, events, event);
}

/// In whatever phase a worker is put, with whatever it remembers there, the stages of
/// an attempt hand on what they were given: the job and the snapshot to the provider,
/// the key to the look-up, both with the size to the completion, and the requestor and
/// the size to the charges.
pub proof fn law_stages_of_an_attempt_hand_on_what_they_get(
    config: Config,
    doc: ExportDocument,
    job: Job,
    requestor: ExportRequestor,
    snapshot_ts: u64,
    object_key: String,
    size: u64,
)
    ensures
        worker_step(
            config,
            Phase::Attempt { doc, at: AttemptPhase::TakingSnapshot { job } },
            Event::Timestamp(snapshot_ts),
        ) matches Some((next, Action::Race(plan))) && plan.deployment_name
            == config.deployment_name && plan.id == doc.id && plan.snapshot_ts == snapshot_ts
            && plan.job == job && next == (Phase::Attempt {
            doc,
            at: AttemptPhase::Racing { requestor: job.requestor, snapshot_ts },
        }),
        worker_step(
            config,
            Phase::Attempt { doc, at: AttemptPhase::Racing { requestor, snapshot_ts } },
            Event::Exported { object_key },
        ) == Some(
            (
                Phase::Attempt {
                    doc,
                    at: AttemptPhase::ReadingAttributes { requestor, snapshot_ts, object_key },
                },
                Action::ReadAttributes { object_key },
            ),
        ),
        worker_step(
            config,
            Phase::Attempt {
                doc,
                at: AttemptPhase::ReadingAttributes { requestor, snapshot_ts, object_key },
            },
            Event::Attributes(Some(size)),
        ) == Some(
            (
                Phase::Attempt { doc, at: AttemptPhase::MarkingComplete { requestor, size } },
                Action::Edit {
                    id: doc.id,
                    edit: Edit::MarkComplete { snapshot_ts, object_key, size },
                },
            ),
        ),
        worker_step(
            config,
            Phase::Attempt {
                doc,
                at: AttemptPhase::ReadingAttributes { requestor, snapshot_ts, object_key },
            },
            Event::Attributes(None),
        ) == Some(
            (
                Phase::Attempt { doc, at: AttemptPhase::Raising },
                Action::Raise(Fault::MissingObjectAttributes),
            ),
        ),
        worker_step(
            config,
            Phase::Attempt { doc, at: AttemptPhase::MarkingComplete { requestor, size } },
            Event::Done,
        ) == Some(
            (
                Phase::Attempt { doc, at: AttemptPhase::ChargingIngress { requestor } },
                Action::ChargeIngress {
                    component: ComponentPath::Root,
                    tag: UsageTag(requestor),
                    size,
                },
            ),
        ),
        worker_step(
            config,
            Phase::Attempt { doc, at: AttemptPhase::ChargingIngress { requestor } },
            Event::Done,
        ) matches Some((next, Action::ChargeCall { caller, call_type, success })) && success
            && caller == UdfIdentifier::SystemJob(UsageTag(requestor)) && (call_type
            == CallType::CloudBackup <==> requestor == ExportRequestor::CloudBackup) && next == (
        Phase::Attempt { doc, at: AttemptPhase::ChargingCall }),
        worker_step(
            config,
            Phase::Attempt { doc, at: AttemptPhase::ChargingCall },
            Event::Done,
        ) == Some(
            (
                Phase::Retry { doc, stage: RetryPhase::Trimming },
                Action::Trim(TrimReason::Export),
            ),
        ),
{
}

/// In whatever stage of an attempt a failure comes, with whatever the worker remembers
/// there, it ends the run well if it is a cancellation, and is otherwise counted, with
/// a note whether the export is too large. The charges take no failure.
pub proof fn law_any_stage_of_an_attempt_can_fail(
    config: Config,
    doc: ExportDocument,
    at: AttemptPhase,
    failure: Failure,
)
    ensures
        ({
            let next = worker_step(config, Phase::Attempt { doc, at }, Event::Failed(failure));
            let charging = at is ChargingIngress || at is ChargingCall;
            &&& charging ==> next is None
            &&& !charging && failure.canceled ==> next == Some(
                (Phase::Loop(LoopPhase::Resetting), Action::ResetBackoff),
            )
            &&& !charging && !failure.canceled ==> (next matches Some((phase, action)) && action
                == Action::LogFailure(failure) && (phase matches Phase::Retry {
                doc: kept,
                stage: RetryPhase::Logging { too_large },
            } && kept == doc && too_large == (failure.short_msg@
                == config.too_large_short_msg@)))
        }),
{
}

/// In whatever document they are about, the stages after an attempt follow on each
/// other: a counted failure to the mark or to the report, the report to the backoff,
/// the backoff to the wait, the wait to the next attempt at the same document, and the
/// mark and the trim to the end of the run.
pub proof fn law_stages_after_an_attempt_follow_on_each_other(
    config: Config,
    doc: ExportDocument,
    too_large: bool,
    delay: Duration,
    failure: Failure,
)
    ensures
        worker_step(
            config,
            Phase::Retry { doc, stage: RetryPhase::Logging { too_large } },
            Event::Done,
        ) == (if too_large {
            Some(
                (
                    Phase::Retry { doc, stage: RetryPhase::MarkingFailed },
                    Action::Edit { id: doc.id, edit: Edit::MarkFailed },
                ),
            )
        } else {
            Some(
                (
                    Phase::Retry { doc, stage: RetryPhase::Reporting },
                    Action::Report { died: false },
                ),
            )
        }),
        worker_step(
            config,
            Phase::Retry { doc, stage: RetryPhase::Reporting },
            Event::Done,
        ) == Some((Phase::Retry { doc, stage: RetryPhase::BackingOff }, Action::FailBackoff)),
        worker_step(
            config,
            Phase::Retry { doc, stage: RetryPhase::BackingOff },
            Event::Delay(delay),
        ) == Some((Phase::Retry { doc, stage: RetryPhase::Waiting }, Action::Wait(delay))),
        attempts(
            worker_step(config, Phase::Retry { doc, stage: RetryPhase::Waiting }, Event::Done),
            doc,
        ),
        worker_step(
            config,
            Phase::Retry { doc, stage: RetryPhase::Trimming },
            Event::Done,
        ) == Some((Phase::Loop(LoopPhase::Resetting), Action::ResetBackoff)),
        worker_step(
            config,
            Phase::Retry { doc, stage: RetryPhase::MarkingFailed },
            Event::Done,
        ) == Some((Phase::Loop(LoopPhase::Resetting), Action::ResetBackoff)),
        worker_step(
            config,
            Phase::Retry { doc, stage: RetryPhase::MarkingFailed },
            Event::Failed(failure),
        ) == (if failure.canceled {
            Some((Phase::Loop(LoopPhase::Resetting), Action::ResetBackoff))
        } else {
            Some((Phase::Loop(LoopPhase::Reporting), Action::Report { died: true }))
        }),
{
}

/// However an attempt begins, with the first look at an export or again after a wait,
/// what it remembers is the job of the document.
pub proof fn law_attempt_remembers_the_job(config: Config, phase: Phase, event: Event)
    requires
        worker_step(config, phase, event) is Some,
        (worker_step(config, phase, event)->0).1 == Action::TakeSnapshot,
    ensures
        (worker_step(config, phase, event)->0).0 matches Phase::Attempt {
            doc,
            at: AttemptPhase::TakingSnapshot { job },
        } && (doc.export matches Export::InProgress { job: stored, .. } && job.format
            == stored.format && job.requestor == stored.requestor && job.resumption_token
            == stored.resumption_token),
{
}

/// In whatever phase of a run before the first attempt, with whatever the worker
/// remembers there, the stages follow on each other, and every failure ends the run as
/// the death of the worker.
pub proof fn law_stages_before_an_attempt_follow_on_each_other(
    config: Config,
    at: RunPhase,
    id: String,
    doc: ExportDocument,
    start_ts: u64,
    failure: Failure,
)
    ensures
        worker_step(
            config,
            Phase::Run(RunPhase::ReadingClock { id }),
            Event::Timestamp(start_ts),
        ) == Some((Phase::Run(RunPhase::Starting), Action::Start { id, start_ts })),
        worker_step(config, Phase::Run(RunPhase::Starting), Event::Started(doc)) == Some(
            (
                Phase::Run(RunPhase::Committing { doc }),
                Action::Commit(WriteSource::ExportRequested),
            ),
        ),
        attempts(
            worker_step(config, Phase::Run(RunPhase::Committing { doc }), Event::Done),
            doc,
        ),
        worker_step(config, Phase::Run(RunPhase::Subscribing), Event::Done) == Some(
            (Phase::Loop(LoopPhase::Resetting), Action::ResetBackoff),
        ),
        !(at is ReadingClock) ==> worker_step(config, Phase::Run(at), Event::Failed(failure))
            == Some((Phase::Loop(LoopPhase::Reporting), Action::Report { died: true })),
        at is ReadingClock ==> worker_step(config, Phase::Run(at), Event::Failed(failure)) is None,
{
}

/// Between two runs: a reset leads to a poll, and a report to the backoff, to a wait
/// for its delay, and to a poll.
pub proof fn law_stages_between_runs_follow_on_each_other(config: Config, delay: Duration)
    ensures
        worker_step(config, Phase::Loop(LoopPhase::Resetting), Event::Done) == Some(
            (Phase::Run(RunPhase::Polling), Action::Poll),
        ),
        worker_step(config, Phase::Loop(LoopPhase::Reporting), Event::Done) == Some(
            (Phase::Loop(LoopPhase::BackingOff), Action::FailBackoff),
        ),
        worker_step(config, Phase::Loop(LoopPhase::BackingOff), Event::Delay(delay)) == Some(
            (Phase::Loop(LoopPhase::Waiting), Action::Wait(delay)),
        ),
        worker_step(config, Phase::Loop(LoopPhase::Waiting), Event::Done) == Some(
            (Phase::Run(RunPhase::Polling), Action::Poll),
        ),
{
}

} // verus!
