//! The git transfer worker: one repository's clone-then-push cycle.
//!
//! The worker creates the repository at the destination, clones it bare from
//! the source into a scratch directory of its own, registers the destination
//! as a second remote, connects to it in push mode, pushes every reference
//! by itself as a forced update, and removes its scratch directory. The git
//! and platform calls are the caller's: this module decides which call comes
//! next and what is reported.
use crate::errors::{
    error_text, failure_view, outcome_view, GitMoverError, GitMoverErrorView,
};
use crate::platform::{transport_url, Platform};
use crate::utils::{Repo, RepoView};
use vstd::prelude::*;
use vstd::string::StringExecFns;

verus! {

/// The name under which the destination is registered in the scratch clone.
pub const DESTINATION_REMOTE: &'static str = "new_origin";

/// The step of the transfer that is under way.
#[derive(Debug, Clone, Copy, PartialEq, Eq, Structural)]
pub enum TransferPhase {
    /// Creating the repository at the destination.
    Creating,
    /// Cloning from the source.
    Cloning,
    /// Registering the destination as a remote.
    AddingRemote,
    /// Connecting to the destination in push mode.
    Connecting,
    /// Enumerating the references of the clone.
    ListingRefs,
    /// Pushing the references, one at a time.
    Pushing,
    /// Removing the scratch directory.
    CleaningUp,
    /// Nothing is left to do.
    Finished,
}

/// The texts of a sequence of strings, in the same order.
pub open spec fn texts(strings: Seq<String>) -> Seq<Seq<char>> {
    strings.map_values(|s: String| s@)
}

/// What came of the call that was under way.
#[derive(Debug)]
pub enum TransferEvent {
    /// The call succeeded.
    Succeeded,
    /// The references were enumerated; these are their names.
    Listed(Vec<String>),
    /// The call failed.
    Failed(GitMoverError),
}

/// Mathematical model of a [`TransferEvent`].
pub enum TransferEventView {
    Succeeded,
    Listed(Seq<Seq<char>>),
    Failed(GitMoverErrorView),
}

impl View for TransferEvent {
    type V = TransferEventView;

    open spec fn view(&self) -> TransferEventView {
        match self {
            TransferEvent::Succeeded => TransferEventView::Succeeded,
            TransferEvent::Listed(names) => TransferEventView::Listed(texts(names@)),
            TransferEvent::Failed(e) => TransferEventView::Failed(e@),
        }
    }
}

/// The call to make next.
#[derive(Debug)]
pub enum TransferAction {
    /// Create the repository at the destination, or bring it up to date.
    Upsert(Repo),
    /// Clone bare from `url` into the scratch directory `directory`.
    CloneBare { url: String, directory: String },
    /// Register the remote `name` with address `url` in the clone.
    AddRemote { name: String, url: String },
    /// Connect to the remote `remote` in push mode.
    ConnectPush { remote: String },
    /// Enumerate the references of the clone.
    ListReferences,
    /// Push `refspec` to the remote `remote`.
    PushReference { remote: String, refspec: String },
    /// Remove the scratch directory `directory`.
    RemoveDirectory { directory: String },
    /// Nothing more: the transfer ended with this outcome.
    Stop(Result<(), GitMoverError>),
}

/// Mathematical model of a [`TransferAction`].
pub enum TransferActionView {
    Upsert(RepoView),
    CloneBare { url: Seq<char>, directory: Seq<char> },
    AddRemote { name: Seq<char>, url: Seq<char> },
    ConnectPush { remote: Seq<char> },
    ListReferences,
    PushReference { remote: Seq<char>, refspec: Seq<char> },
    RemoveDirectory { directory: Seq<char> },
    Stop(Result<(), GitMoverErrorView>),
}

impl View for TransferAction {
    type V = TransferActionView;

    open spec fn view(&self) -> TransferActionView {
        match self {
            TransferAction::Upsert(r) => TransferActionView::Upsert(r@),
            TransferAction::CloneBare { url, directory } => TransferActionView::CloneBare {
                url: url@,
                directory: directory@,
            },
            TransferAction::AddRemote { name, url } => TransferActionView::AddRemote {
                name: name@,
                url: url@,
            },
            TransferAction::ConnectPush { remote } => TransferActionView::ConnectPush {
                remote: remote@,
            },
            TransferAction::ListReferences => TransferActionView::ListReferences,
            TransferAction::PushReference { remote, refspec } => TransferActionView::PushReference {
                remote: remote@,
                refspec: refspec@,
            },
            TransferAction::RemoveDirectory { directory } => TransferActionView::RemoveDirectory {
                directory: directory@,
            },
            TransferAction::Stop(r) => TransferActionView::Stop(outcome_view(*r)),
        }
    }
}

/// A point that a transfer has reached.
#[derive(Debug)]
pub enum Stage {
    /// The repository exists at the destination.
    Created,
    /// The clone has started.
    Cloning,
    /// The clone is complete.
    Cloned,
    /// The destination is registered as a remote.
    RemoteAdded,
    /// The push of this reference has started.
    Pushing(String),
    /// This reference was pushed.
    Pushed(String),
    /// This reference could not be pushed; the error reads as `error`.
    PushFailed { reference: String, error: String },
    /// The transfer is complete and every step succeeded.
    Done,
    /// The transfer is over and failed; the error reads as held here.
    Failed(String),
}

/// Mathematical model of a [`Stage`].
pub enum StageView {
    Created,
    Cloning,
    Cloned,
    RemoteAdded,
    Pushing(Seq<char>),
    Pushed(Seq<char>),
    PushFailed { reference: Seq<char>, error: Seq<char> },
    Done,
    Failed(Seq<char>),
}

impl View for Stage {
    type V = StageView;

    open spec fn view(&self) -> StageView {
        match self {
            Stage::Created => StageView::Created,
            Stage::Cloning => StageView::Cloning,
            Stage::Cloned => StageView::Cloned,
            Stage::RemoteAdded => StageView::RemoteAdded,
            Stage::Pushing(r) => StageView::Pushing(r@),
            Stage::Pushed(r) => StageView::Pushed(r@),
            Stage::PushFailed { reference, error } => StageView::PushFailed {
                reference: reference@,
                error: error@,
            },
            Stage::Done => StageView::Done,
            Stage::Failed(e) => StageView::Failed(e@),
        }
    }
}

/// One entry of the progress stream.
#[derive(Debug)]
pub struct ProgressEvent {
    /// The name of the repository that the entry is about.
    pub repository: String,
    /// What was reached.
    pub stage: Stage,
    /// The entry as a line of text.
    pub message: String,
}

/// Mathematical model of a [`ProgressEvent`].
pub struct ProgressEventView {
    pub repository: Seq<char>,
    pub stage: StageView,
    pub message: Seq<char>,
}

impl View for ProgressEvent {
    type V = ProgressEventView;

    open spec fn view(&self) -> ProgressEventView {
        ProgressEventView {
            repository: self.repository@,
            stage: self.stage@,
            message: self.message@,
        }
    }
}

/// The models of a sequence of progress entries, in the same order.
pub open spec fn event_views(events: Seq<ProgressEvent>) -> Seq<ProgressEventView> {
    events.map_values(|e: ProgressEvent| e@)
}

/// Mathematical model of a [`Transfer`].
pub struct TransferView {
    /// The repository that is transferred.
    pub repo: RepoView,
    /// Where it is cloned from.
    pub source_url: Seq<char>,
    /// Where it is pushed to.
    pub destination_url: Seq<char>,
    /// The step that is under way.
    pub phase: TransferPhase,
    /// The references of the clone, once they are known.
    pub refs: Seq<Seq<char>>,
    /// How many of them have been attempted.
    pub next_ref: nat,
    /// How many of them were pushed.
    pub pushed: nat,
    /// How many of them could not be pushed.
    pub push_failures: nat,
    /// The first failure, if any step failed.
    pub failure: Option<GitMoverErrorView>,
}

/// What always holds of a transfer: the references that were attempted are
/// those that were pushed and those that failed, and while pushing there is
/// a reference left to push.
pub open spec fn transfer_wf(t: TransferView) -> bool {
    &&& t.next_ref <= t.refs.len()
    &&& t.pushed + t.push_failures == t.next_ref
    &&& t.phase == TransferPhase::Pushing ==> t.next_ref < t.refs.len()
    &&& t.push_failures > 0 ==> t.failure is Some
}

/// The text of a progress entry.
pub open spec fn stage_message(t: TransferView, stage: StageView) -> Seq<char> {
    match stage {
        StageView::Created => "Creating repo to destination done"@,
        StageView::Cloning => "Cloning from '"@ + t.source_url + "'..."@,
        StageView::Cloned => "Cloning from '"@ + t.source_url + "' done"@,
        StageView::RemoteAdded => "Adding remote new_origin to "@ + t.destination_url,
        StageView::Pushing(r) => "Pushing '"@ + r + "'..."@,
        StageView::Pushed(r) => "Pushing '"@ + r + "' done"@,
        StageView::PushFailed { reference, error } => "Pushing '"@ + reference + "' failed: "@
            + error,
        StageView::Done => "Successfully synced"@,
        StageView::Failed(e) => "Error syncing "@ + e,
    }
}

/// The progress entry of transfer `t` for `stage`.
pub open spec fn report_of(t: TransferView, stage: StageView) -> ProgressEventView {
    ProgressEventView { repository: t.repo.name, stage, message: stage_message(t, stage) }
}

/// The scratch directory of a repository, relative to the workspace.
pub open spec fn scratch_directory(repo: RepoView) -> Seq<char> {
    repo.name + ".git"@
}

/// The refspec that forces `reference` onto the reference of the same name.
pub open spec fn forced_refspec(reference: Seq<char>) -> Seq<char> {
    "+"@ + reference + ":"@ + reference
}

/// The outcome of a transfer that has recorded `failure`.
pub open spec fn transfer_outcome(failure: Option<GitMoverErrorView>) -> Result<
    (),
    GitMoverErrorView,
> {
    match failure {
        Some(e) => Err(e),
        None => Ok(()),
    }
}

/// The state in which a transfer starts.
pub open spec fn transfer_initial(repo: RepoView, source_url: Seq<char>, destination_url: Seq<char>)
    -> TransferView {
    TransferView {
        repo,
        source_url,
        destination_url,
        phase: TransferPhase::Creating,
        refs: Seq::empty(),
        next_ref: 0,
        pushed: 0,
        push_failures: 0,
        failure: None,
    }
}

/// The failure on record once `e` has been met: the first one stays.
pub open spec fn first_failure(failure: Option<GitMoverErrorView>, e: GitMoverErrorView) -> Option<
    GitMoverErrorView,
> {
    match failure {
        Some(first) => Some(first),
        None => Some(e),
    }
}

/// The phase after one more reference has been attempted.
pub open spec fn phase_after_attempt(t: TransferView) -> TransferPhase {
    if t.next_ref + 1 < t.refs.len() {
        TransferPhase::Pushing
    } else {
        TransferPhase::CleaningUp
    }
}

/// The state that follows `t` on `event`. An event that does not answer the
/// call under way changes nothing. A failure before the clone ends the
/// transfer; a failure of the clone or after it leads to the removal of the
/// scratch directory; a failure to push one reference is recorded and the
/// next reference is pushed.
pub open spec fn transfer_next(t: TransferView, event: TransferEventView) -> TransferView {
    match (t.phase, event) {
        (TransferPhase::Creating, TransferEventView::Succeeded) => TransferView {
            phase: TransferPhase::Cloning,
            ..t
        },
        (TransferPhase::Creating, TransferEventView::Failed(e)) => TransferView {
            phase: TransferPhase::Finished,
            failure: first_failure(t.failure, e),
            ..t
        },
        (TransferPhase::Cloning, TransferEventView::Succeeded) => TransferView {
            phase: TransferPhase::AddingRemote,
            ..t
        },
        (TransferPhase::AddingRemote, TransferEventView::Succeeded) => TransferView {
            phase: TransferPhase::Connecting,
            ..t
        },
        (TransferPhase::Connecting, TransferEventView::Succeeded) => TransferView {
            phase: TransferPhase::ListingRefs,
            ..t
        },
        (TransferPhase::ListingRefs, TransferEventView::Listed(names)) => TransferView {
            phase: if names.len() > 0 {
                TransferPhase::Pushing
            } else {
                TransferPhase::CleaningUp
            },
            refs: names,
            next_ref: 0,
            pushed: 0,
            push_failures: 0,
            ..t
        },
        (TransferPhase::Pushing, TransferEventView::Succeeded) => TransferView {
            phase: phase_after_attempt(t),
            next_ref: t.next_ref + 1,
            pushed: t.pushed + 1,
            ..t
        },
        (TransferPhase::Pushing, TransferEventView::Failed(e)) => TransferView {
            phase: phase_after_attempt(t),
            next_ref: t.next_ref + 1,
            push_failures: t.push_failures + 1,
            failure: first_failure(t.failure, e),
            ..t
        },
        (TransferPhase::CleaningUp, TransferEventView::Succeeded) => TransferView {
            phase: TransferPhase::Finished,
            ..t
        },
        (TransferPhase::CleaningUp, TransferEventView::Failed(e)) => TransferView {
            phase: TransferPhase::Finished,
            failure: first_failure(t.failure, e),
            ..t
        },
        (TransferPhase::Finished, _) => t,
        (_, TransferEventView::Failed(e)) => TransferView {
            phase: TransferPhase::CleaningUp,
            failure: first_failure(t.failure, e),
            ..t
        },
        _ => t,
    }
}

/// The entry that announces the push of the next reference, if one is left.
pub open spec fn next_push_report(t: TransferView) -> Seq<ProgressEventView> {
    if t.next_ref + 1 < t.refs.len() {
        seq![report_of(t, StageView::Pushing(t.refs[t.next_ref as int + 1]))]
    } else {
        Seq::empty()
    }
}

/// The entry that closes a transfer with `failure` on record.
pub open spec fn closing_report(t: TransferView, failure: Option<GitMoverErrorView>)
    -> ProgressEventView {
    match failure {
        Some(e) => report_of(t, StageView::Failed(error_text(e))),
        None => report_of(t, StageView::Done),
    }
}

/// What is reported when `event` comes in state `t`, in order.
pub open spec fn transfer_reports(t: TransferView, event: TransferEventView) -> Seq<
    ProgressEventView,
> {
    match (t.phase, event) {
        (TransferPhase::Creating, TransferEventView::Succeeded) => seq![
            report_of(t, StageView::Created),
            report_of(t, StageView::Cloning),
        ],
        (TransferPhase::Creating, TransferEventView::Failed(e)) => seq![
            closing_report(t, first_failure(t.failure, e)),
        ],
        (TransferPhase::Cloning, TransferEventView::Succeeded) => seq![
            report_of(t, StageView::Cloned),
        ],
        (TransferPhase::AddingRemote, TransferEventView::Succeeded) => seq![
            report_of(t, StageView::RemoteAdded),
        ],
        (TransferPhase::ListingRefs, TransferEventView::Listed(names)) => if names.len() > 0 {
            seq![report_of(t, StageView::Pushing(names[0]))]
        } else {
            Seq::empty()
        },
        (TransferPhase::Pushing, TransferEventView::Succeeded) => seq![
            report_of(t, StageView::Pushed(t.refs[t.next_ref as int])),
        ] + next_push_report(t),
        (TransferPhase::Pushing, TransferEventView::Failed(e)) => seq![
            report_of(
                t,
                StageView::PushFailed {
                    reference: t.refs[t.next_ref as int],
                    error: error_text(e),
                },
            ),
        ] + next_push_report(t),
        (TransferPhase::CleaningUp, TransferEventView::Succeeded) => seq![
            closing_report(t, t.failure),
        ],
        (TransferPhase::CleaningUp, TransferEventView::Failed(e)) => seq![
            closing_report(t, first_failure(t.failure, e)),
        ],
        _ => Seq::empty(),
    }
}

/// The call that is under way in state `t`.
pub open spec fn transfer_pending(t: TransferView) -> TransferActionView {
    match t.phase {
        TransferPhase::Creating => TransferActionView::Upsert(t.repo),
        TransferPhase::Cloning => TransferActionView::CloneBare {
            url: t.source_url,
            directory: scratch_directory(t.repo),
        },
        TransferPhase::AddingRemote => TransferActionView::AddRemote {
            name: DESTINATION_REMOTE@,
            url: t.destination_url,
        },
        TransferPhase::Connecting => TransferActionView::ConnectPush { remote: DESTINATION_REMOTE@ },
        TransferPhase::ListingRefs => TransferActionView::ListReferences,
        TransferPhase::Pushing => TransferActionView::PushReference {
            remote: DESTINATION_REMOTE@,
            refspec: forced_refspec(t.refs[t.next_ref as int]),
        },
        TransferPhase::CleaningUp => TransferActionView::RemoveDirectory {
            directory: scratch_directory(t.repo),
        },
        TransferPhase::Finished => TransferActionView::Stop(transfer_outcome(t.failure)),
    }
}

/// A step keeps what always holds of a transfer.
pub proof fn lemma_transfer_step_keeps_wf(t: TransferView, event: TransferEventView)
    requires
        transfer_wf(t),
    ensures
        transfer_wf(transfer_next(t, event)),
{
}

/// The state reached from `t` after the events `events`, in order.
pub open spec fn transfer_run(t: TransferView, events: Seq<TransferEventView>) -> TransferView
    decreases events.len(),
{
    if events.len() == 0 {
        t
    } else {
        transfer_next(transfer_run(t, events.drop_last()), events.last())
    }
}

/// How many of `events` are failures.
pub open spec fn failures_among(events: Seq<TransferEventView>) -> nat
    decreases events.len(),
{
    if events.len() == 0 {
        0
    } else {
        let last: nat = if events.last() is Failed {
            1
        } else {
            0
        };
        failures_among(events.drop_last()) + last
    }
}

/// Every reference is attempted, whatever came of the ones before it.
///
/// From a transfer that is pushing, any run of push outcomes, failures
/// among them, is answered reference by reference: after `n` outcomes the
/// next `n` references have been attempted, as many are on record as failed
/// as there were failures, the rest as pushed, and the reference after them
/// is the one that is pushed next. After the last reference the scratch
/// directory is removed. A single failure is enough for the transfer to
/// fail as a whole.
pub proof fn lemma_every_reference_is_attempted(t: TransferView, outcomes: Seq<TransferEventView>)
    requires
        transfer_wf(t),
        t.phase == TransferPhase::Pushing,
        outcomes.len() <= t.refs.len() - t.next_ref,
        forall|i: int|
            0 <= i < outcomes.len() ==> (#[trigger] outcomes[i]) is Succeeded || outcomes[i] is Failed,
    ensures
        transfer_run(t, outcomes).refs == t.refs,
        transfer_run(t, outcomes).next_ref == t.next_ref + outcomes.len(),
        transfer_run(t, outcomes).push_failures == t.push_failures + failures_among(outcomes),
        transfer_run(t, outcomes).pushed == t.pushed + outcomes.len() - failures_among(outcomes),
        failures_among(outcomes) <= outcomes.len(),
        transfer_run(t, outcomes).phase == if t.next_ref + outcomes.len() < t.refs.len() {
            TransferPhase::Pushing
        } else {
            TransferPhase::CleaningUp
        },
        t.next_ref + outcomes.len() < t.refs.len() ==> transfer_pending(transfer_run(t, outcomes))
            == (TransferActionView::PushReference {
            remote: DESTINATION_REMOTE@,
            refspec: forced_refspec(t.refs[t.next_ref as int + outcomes.len()]),
        }),
        failures_among(outcomes) > 0 ==> transfer_run(t, outcomes).failure is Some,
        failures_among(outcomes) == 0 ==> transfer_run(t, outcomes).failure == t.failure,
        transfer_wf(transfer_run(t, outcomes)),
    decreases outcomes.len(),
{
    if outcomes.len() > 0 {
        let earlier = outcomes.drop_last();
        assert forall|i: int| 0 <= i < earlier.len() implies (#[trigger] earlier[i]) is Succeeded
            || earlier[i] is Failed by {
            assert(earlier[i] == outcomes[i]);
        }
        lemma_every_reference_is_attempted(t, earlier);
        assert(outcomes.last() == outcomes[outcomes.len() - 1]);
    }
}

/// Removing the scratch directory ends the transfer with the first failure
/// on record as its outcome, and with success if there is none.
pub proof fn lemma_cleanup_settles_outcome(t: TransferView)
    requires
        t.phase == TransferPhase::CleaningUp,
    ensures
        transfer_next(t, TransferEventView::Succeeded).phase == TransferPhase::Finished,
        transfer_pending(transfer_next(t, TransferEventView::Succeeded)) == TransferActionView::Stop(
            transfer_outcome(t.failure),
        ),
        transfer_reports(t, TransferEventView::Succeeded) == seq![closing_report(t, t.failure)],
{
}

/// The scratch directory does not outlive the transfer: a transfer that has
/// started its clone finishes only by way of the removal of its scratch
/// directory, on the success path and on every failure path.
pub proof fn lemma_finish_only_after_cleanup(t: TransferView, event: TransferEventView)
    requires
        t.phase != TransferPhase::Finished,
        t.phase != TransferPhase::Creating,
        transfer_next(t, event).phase == TransferPhase::Finished,
    ensures
        t.phase == TransferPhase::CleaningUp,
        transfer_pending(t) == (TransferActionView::RemoveDirectory {
            directory: scratch_directory(t.repo),
        }),
{
}

/// A failure never skips the removal: from the clone on, a failed call
/// leads to the removal of the scratch directory or, while pushing, to the
/// next reference.
pub proof fn lemma_failure_leads_to_cleanup(t: TransferView, e: GitMoverErrorView)
    requires
        transfer_wf(t),
        t.phase != TransferPhase::Finished,
        t.phase != TransferPhase::Creating,
        t.phase != TransferPhase::CleaningUp,
    ensures
        transfer_next(t, TransferEventView::Failed(e)).failure is Some,
        transfer_next(t, TransferEventView::Failed(e)).phase == if t.phase
            == TransferPhase::Pushing && t.next_ref + 1 < t.refs.len() {
            TransferPhase::Pushing
        } else {
            TransferPhase::CleaningUp
        },
{
}

/// One repository's transfer under way.
#[derive(Debug)]
pub struct Transfer {
    repo: Repo,
    source_url: String,
    destination_url: String,
    phase: TransferPhase,
    refs: Vec<String>,
    next_ref: usize,
    pushed: usize,
    push_failures: usize,
    failure: Option<GitMoverError>,
}

impl View for Transfer {
    type V = TransferView;

    closed spec fn view(&self) -> TransferView {
        TransferView {
            repo: self.repo@,
            source_url: self.source_url@,
            destination_url: self.destination_url@,
            phase: self.phase,
            refs: texts(self.refs@),
            next_ref: self.next_ref as nat,
            pushed: self.pushed as nat,
            push_failures: self.push_failures as nat,
            failure: failure_view(self.failure),
        }
    }
}

impl Transfer {
    #[verifier::type_invariant]
    spec fn well_formed(&self) -> bool {
        transfer_wf(self@)
    }

    /// Starts the transfer of `repo` from `source` to `destination`: the
    /// clone comes from the source's git address of the repository's path,
    /// the push goes to the destination's.
    pub fn new<S: Platform + ?Sized, D: Platform + ?Sized>(
        source: &S,
        destination: &D,
        repo: Repo,
    ) -> (t: Transfer)
        ensures
            t@ == transfer_initial(
                repo@,
                transport_url(source.model().host, source.model().username, repo@.path),
                transport_url(destination.model().host, destination.model().username, repo@.path),
            ),
            transfer_wf(t@),
    {
        let source_url = source.git_url(repo.path.as_str());
        let destination_url = destination.git_url(repo.path.as_str());
        let t = Transfer {
            repo,
            source_url,
            destination_url,
            phase: TransferPhase::Creating,
            refs: Vec::new(),
            next_ref: 0,
            pushed: 0,
            push_failures: 0,
            failure: None,
        };
        assert(texts(t.refs@) =~= Seq::<Seq<char>>::empty());
        t
    }

    /// The step that is under way.
    pub fn phase(&self) -> (p: TransferPhase)
        ensures
            p == self@.phase,
    {
        self.phase
    }

    /// Whether nothing is left to do.
    pub fn is_finished(&self) -> (b: bool)
        ensures
            b == (self@.phase == TransferPhase::Finished),
    {
        self.phase == TransferPhase::Finished
    }

    /// How many references were pushed so far.
    pub fn pushed(&self) -> (n: usize)
        ensures
            n == self@.pushed,
    {
        self.pushed
    }

    /// How many references could not be pushed so far.
    pub fn push_failures(&self) -> (n: usize)
        ensures
            n == self@.push_failures,
    {
        self.push_failures
    }

    /// The outcome as it stands: the first failure if a step failed.
    pub fn outcome(&self) -> (res: Result<(), GitMoverError>)
        ensures
            outcome_view(res) == transfer_outcome(self@.failure),
    {
        match &self.failure {
            Some(e) => Err(e.clone()),
            None => Ok(()),
        }
    }

    /// The scratch directory of the transfer, relative to the workspace.
    pub fn scratch_name(&self) -> (s: String)
        ensures
            s@ == scratch_directory(self@.repo),
    {
        self.repo.name.clone().concat(".git")
    }

    fn message_of(&self, stage: &Stage) -> (m: String)
        ensures
            m@ == stage_message(self@, stage@),
    {
        match stage {
            Stage::Created => String::from_str("Creating repo to destination done"),
            Stage::Cloning => String::from_str("Cloning from '").concat(
                self.source_url.as_str(),
            ).concat("'..."),
            Stage::Cloned => String::from_str("Cloning from '").concat(
                self.source_url.as_str(),
            ).concat("' done"),
            Stage::RemoteAdded => String::from_str("Adding remote new_origin to ").concat(
                self.destination_url.as_str(),
            ),
            Stage::Pushing(r) => String::from_str("Pushing '").concat(r.as_str()).concat("'..."),
            Stage::Pushed(r) => String::from_str("Pushing '").concat(r.as_str()).concat("' done"),
            Stage::PushFailed { reference, error } => String::from_str("Pushing '").concat(
                reference.as_str(),
            ).concat("' failed: ").concat(error.as_str()),
            Stage::Done => String::from_str("Successfully synced"),
            Stage::Failed(e) => String::from_str("Error syncing ").concat(e.as_str()),
        }
    }

    fn report(&self, stage: Stage) -> (e: ProgressEvent)
        ensures
            e@ == report_of(self@, stage@),
    {
        let message = self.message_of(&stage);
        ProgressEvent { repository: self.repo.name.clone(), stage, message }
    }

    fn recorded(&self, e: GitMoverError) -> (res: Option<GitMoverError>)
        ensures
            failure_view(res) == first_failure(self@.failure, e@),
            res is Some,
    {
        match &self.failure {
            Some(first) => Some(first.clone()),
            None => Some(e),
        }
    }

    fn closing(&self, failure: &Option<GitMoverError>) -> (e: ProgressEvent)
        ensures
            e@ == closing_report(self@, failure_view(*failure)),
    {
        match failure {
            Some(f) => self.report(Stage::Failed(f.to_text())),
            None => self.report(Stage::Done),
        }
    }

    /// The call to make next, or the outcome once the transfer is over.
    pub fn pending(&self) -> (action: TransferAction)
        ensures
            action@ == transfer_pending(self@),
            transfer_wf(self@),
    {
        proof {
            use_type_invariant(self);
        }
        match self.phase {
            TransferPhase::Creating => TransferAction::Upsert(self.repo.clone()),
            TransferPhase::Cloning => TransferAction::CloneBare {
                url: self.source_url.clone(),
                directory: self.scratch_name(),
            },
            TransferPhase::AddingRemote => TransferAction::AddRemote {
                name: String::from_str(DESTINATION_REMOTE),
                url: self.destination_url.clone(),
            },
            TransferPhase::Connecting => TransferAction::ConnectPush {
                remote: String::from_str(DESTINATION_REMOTE),
            },
            TransferPhase::ListingRefs => TransferAction::ListReferences,
            TransferPhase::Pushing => {
                let reference = self.refs[self.next_ref].as_str();
                TransferAction::PushReference {
                    remote: String::from_str(DESTINATION_REMOTE),
                    refspec: String::from_str("+").concat(reference).concat(":").concat(reference),
                }
            },
            TransferPhase::CleaningUp => TransferAction::RemoveDirectory {
                directory: self.scratch_name(),
            },
            TransferPhase::Finished => TransferAction::Stop(self.outcome()),
        }
    }

    /// Takes what came of the call under way and moves on. Returns the
    /// transfer in its next state and what is to be reported, in order.
    pub fn step(self, event: TransferEvent) -> (next: (Transfer, Vec<ProgressEvent>))
        ensures
            next.0@ == transfer_next(self@, event@),
            event_views(next.1@) == transfer_reports(self@, event@),
            transfer_wf(self@),
            transfer_wf(next.0@),
    {
        proof {
            use_type_invariant(&self);
        }
        let mut reports: Vec<ProgressEvent> = Vec::new();
        let ghost before = self@;
        let next = match self.phase {
            TransferPhase::Finished => self,
            TransferPhase::Creating => match event {
                TransferEvent::Succeeded => {
                    reports.push(self.report(Stage::Created));
                    reports.push(self.report(Stage::Cloning));
                    Transfer { phase: TransferPhase::Cloning, ..self }
                },
                TransferEvent::Failed(e) => {
                    let failure = self.recorded(e);
                    reports.push(self.closing(&failure));
                    Transfer { phase: TransferPhase::Finished, failure, ..self }
                },
                TransferEvent::Listed(_) => self,
            },
            TransferPhase::Cloning => match event {
                TransferEvent::Succeeded => {
                    reports.push(self.report(Stage::Cloned));
                    Transfer { phase: TransferPhase::AddingRemote, ..self }
                },
                TransferEvent::Failed(e) => {
                    let failure = self.recorded(e);
                    Transfer { phase: TransferPhase::CleaningUp, failure, ..self }
                },
                TransferEvent::Listed(_) => self,
            },
            TransferPhase::AddingRemote => match event {
                TransferEvent::Succeeded => {
                    reports.push(self.report(Stage::RemoteAdded));
                    Transfer { phase: TransferPhase::Connecting, ..self }
                },
                TransferEvent::Failed(e) => {
                    let failure = self.recorded(e);
                    Transfer { phase: TransferPhase::CleaningUp, failure, ..self }
                },
                TransferEvent::Listed(_) => self,
            },
            TransferPhase::Connecting => match event {
                TransferEvent::Succeeded => Transfer { phase: TransferPhase::ListingRefs, ..self },
                TransferEvent::Failed(e) => {
                    let failure = self.recorded(e);
                    Transfer { phase: TransferPhase::CleaningUp, failure, ..self }
                },
                TransferEvent::Listed(_) => self,
            },
            TransferPhase::ListingRefs => match event {
                TransferEvent::Listed(names) => {
                    if names.len() > 0 {
                        reports.push(self.report(Stage::Pushing(names[0].clone())));
                        Transfer {
                            phase: TransferPhase::Pushing,
                            refs: names,
                            next_ref: 0,
                            pushed: 0,
                            push_failures: 0,
                            ..self
                        }
                    } else {
                        Transfer {
                            phase: TransferPhase::CleaningUp,
                            refs: names,
                            next_ref: 0,
                            pushed: 0,
                            push_failures: 0,
                            ..self
                        }
                    }
                },
                TransferEvent::Failed(e) => {
                    let failure = self.recorded(e);
                    Transfer { phase: TransferPhase::CleaningUp, failure, ..self }
                },
                TransferEvent::Succeeded => self,
            },
            TransferPhase::Pushing => {
                assert(texts(self.refs@).len() == self.refs@.len());
                let count = self.refs.len();
                let more = self.next_ref + 1 < count;
                let phase = if more {
                    TransferPhase::Pushing
                } else {
                    TransferPhase::CleaningUp
                };
                match event {
                    TransferEvent::Succeeded => {
                        reports.push(self.report(Stage::Pushed(self.refs[self.next_ref].clone())));
                        if more {
                            reports.push(
                                self.report(Stage::Pushing(self.refs[self.next_ref + 1].clone())),
                            );
                        }
                        Transfer {
                            phase,
                            next_ref: self.next_ref + 1,
                            pushed: self.pushed + 1,
                            ..self
                        }
                    },
                    TransferEvent::Failed(e) => {
                        reports.push(
                            self.report(
                                Stage::PushFailed {
                                    reference: self.refs[self.next_ref].clone(),
                                    error: e.to_text(),
                                },
                            ),
                        );
                        if more {
                            reports.push(
                                self.report(Stage::Pushing(self.refs[self.next_ref + 1].clone())),
                            );
                        }
                        let failure = self.recorded(e);
                        Transfer {
                            phase,
                            next_ref: self.next_ref + 1,
                            push_failures: self.push_failures + 1,
                            failure,
                            ..self
                        }
                    },
                    TransferEvent::Listed(_) => self,
                }
            },
            TransferPhase::CleaningUp => match event {
                TransferEvent::Succeeded => {
                    reports.push(self.closing(&self.failure));
                    Transfer { phase: TransferPhase::Finished, ..self }
                },
                TransferEvent::Failed(e) => {
                    let failure = self.recorded(e);
                    reports.push(self.closing(&failure));
                    Transfer { phase: TransferPhase::Finished, failure, ..self }
                },
                TransferEvent::Listed(_) => self,
            },
        };
        assert(event_views(reports@) =~= transfer_reports(before, event@));
        (next, reports)
    }
}

} // verus!
