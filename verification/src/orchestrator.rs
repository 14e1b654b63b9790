//! The publish-then-consume protocol for one note, as a state machine.
//!
//! The orchestrator builds the two transaction requests and keeps the phase.
//! Its owner executes and submits the requests and synchronizes with the
//! ledger, and reports each outcome; the orchestrator says what it comes to.

use miden_client::transaction::TransactionRequest;
use miden_objects::account::AccountId;
use miden_objects::note::Note;
use vstd::pervasive::unreached;
use vstd::prelude::*;

use crate::error::{ComposeError, ConsumptionFault};
use crate::ledger::note::clone_note;
use crate::ledger::request::{consume_request, publish_request, request_view, RequestView};
use crate::session::SyncOutcome;

verus! {

/// Where the protocol stands.
#[derive(Clone, Copy, Debug, PartialEq, Eq, Structural)]
pub enum Phase {
    /// Nothing has been done.
    Idle,
    /// The publishing request has been built.
    Built,
    /// The publishing transaction has been submitted.
    Submitted,
    /// The local view has been synchronized after the submission: the note
    /// can be consumed.
    Synced,
    /// The synchronized view was searched and shows the note.
    Consumable,
    /// The synchronized view was searched and does not show the note.
    Failed,
    /// The consuming request has been built.
    ConsumeBuilt,
    /// The consuming transaction has been submitted.
    ConsumeSubmitted,
    /// The local view has been synchronized after the consumption.
    ConsumeSynced,
    /// The consuming account has been read back: the protocol is complete.
    Done,
}

/// How executing and submitting a transaction ended.
#[derive(Clone, Copy, Debug, PartialEq, Eq, Structural)]
pub enum SubmitOutcome {
    /// The ledger took the transaction.
    Accepted,
    /// The request could not be executed as a transaction.
    Malformed,
    /// The ledger rejected the transaction.
    Rejected,
    /// The ledger endpoint did not answer in time.
    Unreachable,
    /// A note that the transaction consumes is already spent.
    NoteSpent,
}

/// What can happen to an orchestrator.
#[derive(Clone, Copy, Debug, PartialEq, Eq, Structural)]
pub enum Event {
    /// The publishing request is asked for.
    BuildPublish,
    /// The publishing transaction was executed and submitted.
    PublishSubmitted(SubmitOutcome),
    /// The local view was synchronized after the publishing submission.
    PublishSynced(SyncOutcome),
    /// The synchronized view was searched for the note.
    NoteObserved(bool),
    /// The consuming request is asked for.
    BuildConsume,
    /// The consuming transaction was executed and submitted.
    ConsumeSubmitted(SubmitOutcome),
    /// The local view was synchronized after the consuming submission.
    ConsumeSynced(SyncOutcome),
    /// The consuming account was looked up in the synchronized view.
    AccountReconciled(bool),
}

/// The phase after an event, and what the event is answered with.
pub struct Step {
    pub phase: Phase,
    pub outcome: Result<(), ComposeError>,
}

/// The failure that a submission which was not accepted is reported as.
/// Only a transaction that consumes (`consuming`) can meet a spent note; for
/// one that does not, such an answer counts as a rejection.
pub open spec fn submit_error(outcome: SubmitOutcome, consuming: bool) -> ComposeError {
    match outcome {
        SubmitOutcome::Malformed => ComposeError::TransactionBuildFailure,
        SubmitOutcome::Unreachable => ComposeError::RpcFailure,
        SubmitOutcome::NoteSpent => if consuming {
            ComposeError::ConsumptionFailure(ConsumptionFault::AlreadySpent)
        } else {
            ComposeError::SubmissionFailure
        },
        _ => ComposeError::SubmissionFailure,
    }
}

/// The failure that a synchronization which did not complete is reported as.
pub open spec fn sync_error(outcome: SyncOutcome) -> ComposeError {
    match outcome {
        SyncOutcome::Unreachable => ComposeError::RpcFailure,
        _ => ComposeError::SyncFailure,
    }
}

/// The phase stays `phase`, and the event is answered with `error`.
pub open spec fn refused(phase: Phase, error: ComposeError) -> Step {
    Step { phase, outcome: Err(error) }
}

/// The phase becomes `phase`, and the event is answered with success.
pub open spec fn moved(phase: Phase) -> Step {
    Step { phase, outcome: Ok(()) }
}

/// The transition function of the protocol. An event that fails, or that
/// does not belong to the phase, leaves the phase as it is, with one
/// exception: a synchronized view that is found not to show the note leads
/// to `Failed`, from where a further synchronization leads back to `Synced`.
///
/// The note can be consumed as soon as the synchronization after its
/// publication has completed. Searching the view for it is optional, and
/// stands in the way of the consumption only where the note is not found.
pub open spec fn step(phase: Phase, event: Event) -> Step {
    match event {
        Event::BuildPublish => match phase {
            Phase::Idle | Phase::Built => moved(Phase::Built),
            _ => refused(phase, ComposeError::TransactionBuildFailure),
        },
        Event::PublishSubmitted(outcome) => match (phase, outcome) {
            (Phase::Built, SubmitOutcome::Accepted) => moved(Phase::Submitted),
            (Phase::Built, _) => refused(phase, submit_error(outcome, false)),
            _ => refused(phase, ComposeError::SubmissionFailure),
        },
        Event::PublishSynced(outcome) => match (phase, outcome) {
            (Phase::Submitted, SyncOutcome::Completed) => moved(Phase::Synced),
            (Phase::Failed, SyncOutcome::Completed) => moved(Phase::Synced),
            (Phase::Submitted, _) => refused(phase, sync_error(outcome)),
            (Phase::Failed, _) => refused(phase, sync_error(outcome)),
            _ => refused(phase, ComposeError::SyncFailure),
        },
        Event::NoteObserved(visible) => match phase {
            Phase::Synced => if visible {
                moved(Phase::Consumable)
            } else {
                refused(
                    Phase::Failed,
                    ComposeError::ConsumptionFailure(ConsumptionFault::NoteNotFound),
                )
            },
            _ => refused(phase, ComposeError::ConsumptionFailure(ConsumptionFault::NoteNotFound)),
        },
        Event::BuildConsume => match phase {
            Phase::Synced | Phase::Consumable | Phase::ConsumeBuilt => moved(Phase::ConsumeBuilt),
            Phase::ConsumeSubmitted | Phase::ConsumeSynced | Phase::Done => refused(
                phase,
                ComposeError::ConsumptionFailure(ConsumptionFault::AlreadySpent),
            ),
            _ => refused(phase, ComposeError::ConsumptionFailure(ConsumptionFault::NoteNotFound)),
        },
        Event::ConsumeSubmitted(outcome) => match (phase, outcome) {
            (Phase::ConsumeBuilt, SubmitOutcome::Accepted) => moved(Phase::ConsumeSubmitted),
            (Phase::ConsumeBuilt, _) => refused(phase, submit_error(outcome, true)),
            _ => refused(phase, ComposeError::SubmissionFailure),
        },
        Event::ConsumeSynced(outcome) => match (phase, outcome) {
            (Phase::ConsumeSubmitted, SyncOutcome::Completed) => moved(Phase::ConsumeSynced),
            (Phase::ConsumeSubmitted, _) => refused(phase, sync_error(outcome)),
            _ => refused(phase, ComposeError::SyncFailure),
        },
        Event::AccountReconciled(found) => match (phase, found) {
            (Phase::ConsumeSynced, true) => moved(Phase::Done),
            _ => refused(phase, ComposeError::SyncFailure),
        },
    }
}

/// Computes [`step`].
pub fn advance(phase: Phase, event: Event) -> (next: Step)
    ensures
        next == step(phase, event),
{
    match event {
        Event::BuildPublish => match phase {
            Phase::Idle | Phase::Built => Step { phase: Phase::Built, outcome: Ok(()) },
            _ => Step { phase, outcome: Err(ComposeError::TransactionBuildFailure) },
        },
        Event::PublishSubmitted(outcome) => match (phase, outcome) {
            (Phase::Built, SubmitOutcome::Accepted) => Step {
                phase: Phase::Submitted,
                outcome: Ok(()),
            },
            (Phase::Built, _) => Step { phase, outcome: Err(submit_failure(outcome, false)) },
            _ => Step { phase, outcome: Err(ComposeError::SubmissionFailure) },
        },
        Event::PublishSynced(outcome) => match (phase, outcome) {
            (Phase::Submitted, SyncOutcome::Completed) => Step {
                phase: Phase::Synced,
                outcome: Ok(()),
            },
            (Phase::Failed, SyncOutcome::Completed) => Step {
                phase: Phase::Synced,
                outcome: Ok(()),
            },
            (Phase::Submitted, _) => Step { phase, outcome: Err(sync_failure(outcome)) },
            (Phase::Failed, _) => Step { phase, outcome: Err(sync_failure(outcome)) },
            _ => Step { phase, outcome: Err(ComposeError::SyncFailure) },
        },
        Event::NoteObserved(visible) => match phase {
            Phase::Synced => if visible {
                Step { phase: Phase::Consumable, outcome: Ok(()) }
            } else {
                Step {
                    phase: Phase::Failed,
                    outcome: Err(ComposeError::ConsumptionFailure(ConsumptionFault::NoteNotFound)),
                }
            },
            _ => Step {
                phase,
                outcome: Err(ComposeError::ConsumptionFailure(ConsumptionFault::NoteNotFound)),
            },
        },
        Event::BuildConsume => match phase {
            Phase::Synced | Phase::Consumable | Phase::ConsumeBuilt => Step {
                phase: Phase::ConsumeBuilt,
                outcome: Ok(()),
            },
            Phase::ConsumeSubmitted | Phase::ConsumeSynced | Phase::Done => Step {
                phase,
                outcome: Err(ComposeError::ConsumptionFailure(ConsumptionFault::AlreadySpent)),
            },
            _ => Step {
                phase,
                outcome: Err(ComposeError::ConsumptionFailure(ConsumptionFault::NoteNotFound)),
            },
        },
        Event::ConsumeSubmitted(outcome) => match (phase, outcome) {
            (Phase::ConsumeBuilt, SubmitOutcome::Accepted) => Step {
                phase: Phase::ConsumeSubmitted,
                outcome: Ok(()),
            },
            (Phase::ConsumeBuilt, _) => Step {
                phase,
                outcome: Err(submit_failure(outcome, true)),
            },
            _ => Step { phase, outcome: Err(ComposeError::SubmissionFailure) },
        },
        Event::ConsumeSynced(outcome) => match (phase, outcome) {
            (Phase::ConsumeSubmitted, SyncOutcome::Completed) => Step {
                phase: Phase::ConsumeSynced,
                outcome: Ok(()),
            },
            (Phase::ConsumeSubmitted, _) => Step { phase, outcome: Err(sync_failure(outcome)) },
            _ => Step { phase, outcome: Err(ComposeError::SyncFailure) },
        },
        Event::AccountReconciled(found) => match (phase, found) {
            (Phase::ConsumeSynced, true) => Step { phase: Phase::Done, outcome: Ok(()) },
            _ => Step { phase, outcome: Err(ComposeError::SyncFailure) },
        },
    }
}

/// Computes [`submit_error`].
pub fn submit_failure(outcome: SubmitOutcome, consuming: bool) -> (error: ComposeError)
    ensures
        error == submit_error(outcome, consuming),
{
    match outcome {
        SubmitOutcome::Malformed => ComposeError::TransactionBuildFailure,
        SubmitOutcome::Unreachable => ComposeError::RpcFailure,
        SubmitOutcome::NoteSpent => if consuming {
            ComposeError::ConsumptionFailure(ConsumptionFault::AlreadySpent)
        } else {
            ComposeError::SubmissionFailure
        },
        _ => ComposeError::SubmissionFailure,
    }
}

/// Computes [`sync_error`].
pub fn sync_failure(outcome: SyncOutcome) -> (error: ComposeError)
    ensures
        error == sync_error(outcome),
{
    match outcome {
        SyncOutcome::Unreachable => ComposeError::RpcFailure,
        _ => ComposeError::SyncFailure,
    }
}

/// A transaction request, with the account that it is to be executed under.
pub struct Submission {
    pub account: AccountId,
    pub request: TransactionRequest,
}

/// The state of an orchestrator.
pub struct OrchestratorView {
    pub phase: Phase,
    /// The account that publishes the note.
    pub sender: AccountId,
    /// The account that consumes the note.
    pub consumer: AccountId,
    pub note: Note,
}

/// The publish-then-consume protocol for one note.
pub struct TransactionOrchestrator {
    phase: Phase,
    sender: AccountId,
    consumer: AccountId,
    note: Note,
}

impl View for TransactionOrchestrator {
    type V = OrchestratorView;

    closed spec fn view(&self) -> OrchestratorView {
        OrchestratorView {
            phase: self.phase,
            sender: self.sender,
            consumer: self.consumer,
            note: self.note,
        }
    }
}

/// `result` and the state `after` are what asking for a request leaves
/// behind: the phase moves as `event` says, and where the event succeeds, the
/// request is handed out for `account`, with `created` as the notes that it
/// creates and `consumed` as the notes that it consumes.
pub open spec fn request_built(
    before: OrchestratorView,
    after: OrchestratorView,
    event: Event,
    account: AccountId,
    created: Seq<Note>,
    consumed: Seq<Note>,
    result: Result<Submission, ComposeError>,
) -> bool {
    &&& after == (OrchestratorView { phase: step(before.phase, event).phase, ..before })
    &&& match step(before.phase, event).outcome {
        Err(error) => result == Err::<Submission, ComposeError>(error),
        Ok(_) => {
            &&& result is Ok
            &&& result->Ok_0.account == account
            &&& request_view(result->Ok_0.request) == (RequestView {
                own_output_notes: created,
                unauthenticated_input_notes: consumed,
            })
        },
    }
}

impl TransactionOrchestrator {
    /// An orchestrator that has done nothing yet: `sender` is to publish
    /// `note`, and `consumer` is to consume it.
    pub fn new(sender: AccountId, consumer: AccountId, note: Note) -> (orchestrator: Self)
        ensures
            orchestrator@ == (OrchestratorView { phase: Phase::Idle, sender, consumer, note }),
    {
        TransactionOrchestrator { phase: Phase::Idle, sender, consumer, note }
    }

    /// Where the protocol stands.
    pub fn phase(&self) -> (phase: Phase)
        ensures
            phase == self@.phase,
    {
        self.phase
    }

    /// The note that the protocol is about.
    pub fn note(&self) -> (note: &Note)
        ensures
            *note == self@.note,
    {
        &self.note
    }

    /// The account that publishes the note.
    pub fn sender(&self) -> (sender: AccountId)
        ensures
            sender == self@.sender,
    {
        self.sender
    }

    /// The account that consumes the note.
    pub fn consumer(&self) -> (consumer: AccountId)
        ensures
            consumer == self@.consumer,
    {
        self.consumer
    }

    /// Takes an event that hands out no request, and answers it as [`step`]
    /// says.
    fn take(&mut self, event: Event) -> (result: Result<(), ComposeError>)
        ensures
            final(self)@ == (OrchestratorView {
                phase: step(old(self)@.phase, event).phase,
                ..old(self)@
            }),
            result == step(old(self)@.phase, event).outcome,
    {
        let next = advance(self.phase, event);
        self.phase = next.phase;
        next.outcome
    }

    /// Builds the request that publishes the note: its output is the note in
    /// full, and it is to be executed under the sender's account.
    ///
    /// The request is built, again if need be, until it has been submitted.
    pub fn build_publish(&mut self) -> (result: Result<Submission, ComposeError>)
        ensures
            request_built(
                old(self)@,
                final(self)@,
                Event::BuildPublish,
                old(self)@.sender,
                seq![old(self)@.note],
                Seq::empty(),
                result,
            ),
    {
        match self.take(Event::BuildPublish) {
            Err(error) => Err(error),
            Ok(()) => match publish_request(clone_note(&self.note)) {
                Ok(request) => Ok(Submission { account: self.sender, request }),
                Err(_) => unreached(),
            },
        }
    }

    /// Records how executing and submitting the publishing transaction ended.
    /// A submission that was not accepted does not advance the phase.
    pub fn publish_submitted(&mut self, outcome: SubmitOutcome) -> (result: Result<
        (),
        ComposeError,
    >)
        ensures
            final(self)@ == (OrchestratorView {
                phase: step(old(self)@.phase, Event::PublishSubmitted(outcome)).phase,
                ..old(self)@
            }),
            result == step(old(self)@.phase, Event::PublishSubmitted(outcome)).outcome,
    {
        self.take(Event::PublishSubmitted(outcome))
    }

    /// Records how the synchronization after the publishing submission ended.
    pub fn publish_synced(&mut self, outcome: SyncOutcome) -> (result: Result<(), ComposeError>)
        ensures
            final(self)@ == (OrchestratorView {
                phase: step(old(self)@.phase, Event::PublishSynced(outcome)).phase,
                ..old(self)@
            }),
            result == step(old(self)@.phase, Event::PublishSynced(outcome)).outcome,
    {
        self.take(Event::PublishSynced(outcome))
    }

    /// Records whether the synchronized view shows the note.
    pub fn note_observed(&mut self, visible: bool) -> (result: Result<(), ComposeError>)
        ensures
            final(self)@ == (OrchestratorView {
                phase: step(old(self)@.phase, Event::NoteObserved(visible)).phase,
                ..old(self)@
            }),
            result == step(old(self)@.phase, Event::NoteObserved(visible)).outcome,
    {
        self.take(Event::NoteObserved(visible))
    }

    /// Builds the request that consumes the note: its input is the note
    /// itself, without a proof of inclusion, and it is to be executed under
    /// the consumer's account.
    ///
    /// Until the note has been published and the synchronization after that
    /// has completed, this fails: the note is not found. So it does where the
    /// synchronized view was searched for the note in vain. Once the
    /// consumption has been submitted, it fails too: the note is spent.
    pub fn build_consume(&mut self) -> (result: Result<Submission, ComposeError>)
        ensures
            request_built(
                old(self)@,
                final(self)@,
                Event::BuildConsume,
                old(self)@.consumer,
                Seq::empty(),
                seq![old(self)@.note],
                result,
            ),
    {
        match self.take(Event::BuildConsume) {
            Err(error) => Err(error),
            Ok(()) => match consume_request(clone_note(&self.note)) {
                Ok(request) => Ok(Submission { account: self.consumer, request }),
                Err(_) => unreached(),
            },
        }
    }

    /// Records how executing and submitting the consuming transaction ended.
    /// A submission that was not accepted does not advance the phase.
    pub fn consume_submitted(&mut self, outcome: SubmitOutcome) -> (result: Result<
        (),
        ComposeError,
    >)
        ensures
            final(self)@ == (OrchestratorView {
                phase: step(old(self)@.phase, Event::ConsumeSubmitted(outcome)).phase,
                ..old(self)@
            }),
            result == step(old(self)@.phase, Event::ConsumeSubmitted(outcome)).outcome,
    {
        self.take(Event::ConsumeSubmitted(outcome))
    }

    /// Records how the synchronization after the consuming submission ended.
    pub fn consume_synced(&mut self, outcome: SyncOutcome) -> (result: Result<(), ComposeError>)
        ensures
            final(self)@ == (OrchestratorView {
                phase: step(old(self)@.phase, Event::ConsumeSynced(outcome)).phase,
                ..old(self)@
            }),
            result == step(old(self)@.phase, Event::ConsumeSynced(outcome)).outcome,
    {
        self.take(Event::ConsumeSynced(outcome))
    }

    /// Records whether the consuming account was found in the synchronized
    /// view, so that its storage can be read.
    pub fn account_reconciled(&mut self, found: bool) -> (result: Result<(), ComposeError>)
        ensures
            final(self)@ == (OrchestratorView {
                phase: step(old(self)@.phase, Event::AccountReconciled(found)).phase,
                ..old(self)@
            }),
            result == step(old(self)@.phase, Event::AccountReconciled(found)).outcome,
    {
        self.take(Event::AccountReconciled(found))
    }
}

/// How far the protocol has come. Searching the synchronized view for the
/// note takes the protocol no further, whatever is found.
pub open spec fn progress(phase: Phase) -> nat {
    match phase {
        Phase::Idle => 0,
        Phase::Built => 1,
        Phase::Submitted => 2,
        Phase::Synced | Phase::Consumable | Phase::Failed => 3,
        Phase::ConsumeBuilt => 4,
        Phase::ConsumeSubmitted => 5,
        Phase::ConsumeSynced => 6,
        Phase::Done => 7,
    }
}

/// The phase that `events`, taken in order, lead to from `phase`.
pub open spec fn run(phase: Phase, events: Seq<Event>) -> Phase
    decreases events.len(),
{
    if events.len() == 0 {
        phase
    } else {
        step(run(phase, events.drop_last()), events.last()).phase
    }
}

/// The request that consumes the note is refused with "note not found" in
/// every phase before the synchronization that follows the publishing
/// submission has completed, and it is built once that synchronization has
/// completed, unless the synchronized view was searched for the note in vain.
pub proof fn lemma_consume_waits_for_the_publishing_synchronization(phase: Phase)
    ensures
        progress(phase) < progress(Phase::Synced) ==> step(phase, Event::BuildConsume) == refused(
            phase,
            ComposeError::ConsumptionFailure(ConsumptionFault::NoteNotFound),
        ),
        phase == Phase::Synced || phase == Phase::Consumable ==> step(phase, Event::BuildConsume)
            == moved(Phase::ConsumeBuilt),
        step(phase, Event::PublishSynced(SyncOutcome::Completed)).outcome is Ok ==> step(
            step(phase, Event::PublishSynced(SyncOutcome::Completed)).phase,
            Event::BuildConsume,
        ) == moved(Phase::ConsumeBuilt),
{
}

/// No event takes the protocol back, and none takes it further than to the
/// next phase. An event that is answered with a failure takes it nowhere,
/// but for the view that does not show the note.
pub proof fn lemma_step_never_skips(phase: Phase, event: Event)
    ensures
        progress(phase) <= progress(step(phase, event).phase) <= progress(phase) + 1,
        step(phase, event).outcome is Err ==> step(phase, event).phase == phase || (phase
            == Phase::Synced && step(phase, event).phase == Phase::Failed),
{
}

/// Whatever events arrive in whatever order: where the protocol has come as
/// far as the publishing synchronization, the publishing transaction was
/// submitted first, and the synchronization after it completed later.
proof fn lemma_synchronized_after_submission(events: Seq<Event>)
    requires
        progress(run(Phase::Idle, events)) >= progress(Phase::Synced),
    ensures
        exists|i: int, j: int|
            0 <= i < j <= events.len() && #[trigger] run(Phase::Idle, events.take(i))
                == Phase::Submitted && #[trigger] run(Phase::Idle, events.take(j)) == Phase::Synced,
    decreases events.len(),
{
    if events.len() > 0 {
        let earlier = events.drop_last();
        let last = events.len() - 1;
        assert(events.take(last) == earlier);
        assert(events.take(events.len() as int) == events);
        lemma_step_never_skips(run(Phase::Idle, earlier), events.last());
        if progress(run(Phase::Idle, earlier)) >= progress(Phase::Synced) {
            lemma_synchronized_after_submission(earlier);
            let (i, j) = choose|i: int, j: int|
                0 <= i < j <= earlier.len() && #[trigger] run(Phase::Idle, earlier.take(i))
                    == Phase::Submitted && #[trigger] run(Phase::Idle, earlier.take(j))
                    == Phase::Synced;
            assert(events.take(i) == earlier.take(i));
            assert(events.take(j) == earlier.take(j));
        } else {
            assert(run(Phase::Idle, events.take(last)) == Phase::Submitted);
            assert(run(Phase::Idle, events.take(events.len() as int)) == Phase::Synced);
        }
    }
}

/// The ordering of the protocol. Whatever events arrive in whatever order,
/// if the request that consumes the note has been built after the first `k`
/// of them, then the publishing transaction was submitted before, and the
/// synchronization after it completed between the two.
pub proof fn lemma_consume_follows_publish(events: Seq<Event>, k: int)
    requires
        0 <= k <= events.len(),
        progress(run(Phase::Idle, events.take(k))) >= progress(Phase::ConsumeBuilt),
    ensures
        exists|i: int, j: int|
            0 <= i < j < k && #[trigger] run(Phase::Idle, events.take(i)) == Phase::Submitted
                && #[trigger] run(Phase::Idle, events.take(j)) == Phase::Synced,
{
    let prefix = events.take(k);
    lemma_synchronized_after_submission(prefix);
    let (i, j) = choose|i: int, j: int|
        0 <= i < j <= prefix.len() && #[trigger] run(Phase::Idle, prefix.take(i))
            == Phase::Submitted && #[trigger] run(Phase::Idle, prefix.take(j)) == Phase::Synced;
    assert(prefix.take(i) == events.take(i));
    assert(prefix.take(j) == events.take(j));
    assert(prefix.take(k) == prefix);
}

/// The protocol can be completed: where every submission is accepted and
/// every synchronization completes, seven events lead from `Idle` to `Done`.
pub proof fn lemma_protocol_completes()
    ensures
        run(
            Phase::Idle,
            seq![
                Event::BuildPublish,
                Event::PublishSubmitted(SubmitOutcome::Accepted),
                Event::PublishSynced(SyncOutcome::Completed),
                Event::BuildConsume,
                Event::ConsumeSubmitted(SubmitOutcome::Accepted),
                Event::ConsumeSynced(SyncOutcome::Completed),
                Event::AccountReconciled(true),
            ],
        ) == Phase::Done,
{
    let events = seq![
        Event::BuildPublish,
        Event::PublishSubmitted(SubmitOutcome::Accepted),
        Event::PublishSynced(SyncOutcome::Completed),
        Event::BuildConsume,
        Event::ConsumeSubmitted(SubmitOutcome::Accepted),
        Event::ConsumeSynced(SyncOutcome::Completed),
        Event::AccountReconciled(true),
    ];
    assert(run(Phase::Idle, events.take(0)) == Phase::Idle);
    assert(events.take(1).drop_last() == events.take(0));
    assert(run(Phase::Idle, events.take(1)) == Phase::Built);
    assert(events.take(2).drop_last() == events.take(1));
    assert(run(Phase::Idle, events.take(2)) == Phase::Submitted);
    assert(events.take(3).drop_last() == events.take(2));
    assert(run(Phase::Idle, events.take(3)) == Phase::Synced);
    assert(events.take(4).drop_last() == events.take(3));
    assert(run(Phase::Idle, events.take(4)) == Phase::ConsumeBuilt);
    assert(events.take(5).drop_last() == events.take(4));
    assert(run(Phase::Idle, events.take(5)) == Phase::ConsumeSubmitted);
    assert(events.take(6).drop_last() == events.take(5));
    assert(run(Phase::Idle, events.take(6)) == Phase::ConsumeSynced);
    assert(events.take(7).drop_last() == events.take(6));
    assert(events.take(7) == events);
}

} // verus!
