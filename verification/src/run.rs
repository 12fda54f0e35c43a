//! The course of one synchronization run.
//!
//! A run probes both platforms, enumerates both, computes the plan, and
//! then goes through three stages, each behind a question to the operator:
//! the transfer of the repositories to sync, the transfer of the forks, and
//! the removal of what the source no longer has. The scratch workspace is
//! created before the first transfer and removed when the stages are over.
//!
//! Only a failed probe, a failed enumeration and a workspace that cannot be
//! created or removed abort a run. What fails inside a stage is the
//! stage's own business and is reported there.
use crate::cli::GitMoverCli;
use crate::diff::{
    copy_inventory, diff_inventories, forks_of, lemma_fork_counts, non_forks, plan_of, views,
    SyncPlan, SyncPlanView,
};
use crate::errors::{
    failure_view, headed, outcome_view, plain_error, GitMoverError, GitMoverErrorView,
};
use crate::platform::Platform;
use crate::text::{decimal, push_decimal, same_text};
use crate::utils::{Repo, RepoView};
use vstd::prelude::*;
use vstd::string::StringExecFns;

verus! {

/// Where a run stands.
#[derive(Debug, Clone, Copy, PartialEq, Eq, Structural)]
pub enum RunPhase {
    /// Git access to both platforms is being probed.
    Probing,
    /// Both platforms are being enumerated.
    Enumerating,
    /// The operator is asked whether to start syncing.
    SyncGate,
    /// The scratch workspace is being created for the repositories to sync.
    PreparingSync,
    /// The repositories to sync are being transferred.
    Transferring,
    /// The operator is asked whether to sync the forks.
    ForkGate,
    /// The scratch workspace is being created for the forks.
    PreparingForks,
    /// The forks are being transferred.
    TransferringForks,
    /// The operator is asked whether to go through the removals.
    DeleteGate,
    /// The removals are being gone through.
    Deleting,
    /// The scratch workspace is being removed.
    CleaningUp,
    /// The run is over.
    Done,
    /// The run was given up.
    Aborted,
}

/// A line of the run's own report.
#[derive(Debug, Clone, Copy, PartialEq, Eq, Structural)]
pub enum RunReport {
    /// The counts of the plan.
    Summary {
        source_total: usize,
        forks: usize,
        non_forks: usize,
        destination_total: usize,
        to_sync: usize,
        to_delete: usize,
    },
    /// The transfer stage is over.
    AllReposSynced,
    /// Forks are switched off.
    NotSyncingForks,
    /// The source has no forks.
    NoForksFound,
    /// The fork stage is over.
    AllForksSynced,
    /// Removal is switched off.
    NotPromptingForDeletion,
    /// The plan removes nothing.
    NothingToDelete,
    /// The removal stage is over.
    AllReposDeleted,
}

/// What happened outside.
#[derive(Debug)]
pub enum RunEvent {
    /// Both probes came back.
    Probed { source: Result<(), GitMoverError>, destination: Result<(), GitMoverError> },
    /// Both enumerations came back.
    Enumerated {
        source_repos: Result<Vec<Repo>, GitMoverError>,
        destination_repos: Result<Vec<Repo>, GitMoverError>,
    },
    /// The operator answered the question that was put.
    Answer(bool),
    /// The creation of the scratch workspace came back.
    WorkspaceCreated(Result<(), GitMoverError>),
    /// Every job of the batch that was handed out has been settled.
    BatchFinished,
    /// Every removal has been settled.
    DeletionFinished,
    /// The removal of the scratch workspace came back.
    WorkspaceRemoved(Result<(), GitMoverError>),
}

/// The model of the outcome of an enumeration.
pub open spec fn inventory_view(r: Result<Vec<Repo>, GitMoverError>) -> Result<
    Seq<RepoView>,
    GitMoverErrorView,
> {
    match r {
        Ok(repos) => Ok(views(repos@)),
        Err(e) => Err(e@),
    }
}

/// Mathematical model of a [`RunEvent`].
pub enum RunEventView {
    Probed { source: Result<(), GitMoverErrorView>, destination: Result<(), GitMoverErrorView> },
    Enumerated {
        source_repos: Result<Seq<RepoView>, GitMoverErrorView>,
        destination_repos: Result<Seq<RepoView>, GitMoverErrorView>,
    },
    Answer(bool),
    WorkspaceCreated(Result<(), GitMoverErrorView>),
    BatchFinished,
    DeletionFinished,
    WorkspaceRemoved(Result<(), GitMoverErrorView>),
}

impl View for RunEvent {
    type V = RunEventView;

    open spec fn view(&self) -> RunEventView {
        match self {
            RunEvent::Probed { source, destination } => RunEventView::Probed {
                source: outcome_view(*source),
                destination: outcome_view(*destination),
            },
            RunEvent::Enumerated { source_repos, destination_repos } => RunEventView::Enumerated {
                source_repos: inventory_view(*source_repos),
                destination_repos: inventory_view(*destination_repos),
            },
            RunEvent::Answer(yes) => RunEventView::Answer(*yes),
            RunEvent::WorkspaceCreated(r) => RunEventView::WorkspaceCreated(outcome_view(*r)),
            RunEvent::BatchFinished => RunEventView::BatchFinished,
            RunEvent::DeletionFinished => RunEventView::DeletionFinished,
            RunEvent::WorkspaceRemoved(r) => RunEventView::WorkspaceRemoved(outcome_view(*r)),
        }
    }
}

/// What the run wants done.
#[derive(Debug)]
pub enum RunAction {
    /// Probe git access to both platforms.
    ProbeAccess,
    /// Enumerate both platforms.
    Enumerate,
    /// Put this question to the operator.
    Ask(String),
    /// Create the scratch workspace.
    CreateWorkspace,
    /// Transfer these repositories as one batch, in this mode.
    RunBatch { repos: Vec<Repo>, manual: bool },
    /// Go through the removal of these repositories.
    RunDeletion { repos: Vec<Repo> },
    /// Remove the scratch workspace.
    RemoveWorkspace,
    /// Nothing more: the run ended with this outcome.
    Stop(Result<(), GitMoverError>),
}

/// Mathematical model of a [`RunAction`].
pub enum RunActionView {
    ProbeAccess,
    Enumerate,
    Ask(Seq<char>),
    CreateWorkspace,
    RunBatch { repos: Seq<RepoView>, manual: bool },
    RunDeletion { repos: Seq<RepoView> },
    RemoveWorkspace,
    Stop(Result<(), GitMoverErrorView>),
}

impl View for RunAction {
    type V = RunActionView;

    open spec fn view(&self) -> RunActionView {
        match self {
            RunAction::ProbeAccess => RunActionView::ProbeAccess,
            RunAction::Enumerate => RunActionView::Enumerate,
            RunAction::Ask(q) => RunActionView::Ask(q@),
            RunAction::CreateWorkspace => RunActionView::CreateWorkspace,
            RunAction::RunBatch { repos, manual } => RunActionView::RunBatch {
                repos: views(repos@),
                manual: *manual,
            },
            RunAction::RunDeletion { repos } => RunActionView::RunDeletion { repos: views(repos@) },
            RunAction::RemoveWorkspace => RunActionView::RemoveWorkspace,
            RunAction::Stop(r) => RunActionView::Stop(outcome_view(*r)),
        }
    }
}

/// Mathematical model of a [`Run`].
pub struct RunView {
    pub phase: RunPhase,
    /// Transfer every non-fork repository, whatever the destination holds.
    pub resync: bool,
    /// Forks may be transferred.
    pub sync_forks: bool,
    /// Removals may be gone through.
    pub delete: bool,
    /// Ask before every transfer.
    pub manual: bool,
    /// The plan; empty until both platforms are enumerated.
    pub plan: SyncPlanView,
    /// Whether the scratch workspace exists.
    pub workspace: bool,
    /// Why the run was given up.
    pub failure: Option<GitMoverErrorView>,
}

/// Whether transfers run in `phase`.
pub open spec fn transfers_in(phase: RunPhase) -> bool {
    phase == RunPhase::Transferring || phase == RunPhase::TransferringForks
}

/// What always holds of a run.
///
/// The scratch workspace exists whenever transfers run, and from the first
/// transfer stage until it is removed; a run that is done has none. A stage
/// is entered only if the plan has work for it and, for forks and removals,
/// only if it is switched on. A run has a failure on record exactly when it
/// was given up.
pub open spec fn run_wf(r: RunView) -> bool {
    &&& transfers_in(r.phase) || r.phase == RunPhase::CleaningUp ==> r.workspace
    &&& r.phase == RunPhase::Probing || r.phase == RunPhase::Enumerating || r.phase
        == RunPhase::SyncGate || r.phase == RunPhase::PreparingSync || r.phase
        == RunPhase::PreparingForks || r.phase == RunPhase::Done ==> !r.workspace
    &&& r.phase == RunPhase::SyncGate || r.phase == RunPhase::PreparingSync || r.phase
        == RunPhase::Transferring ==> r.plan.to_sync.len() > 0
    &&& r.phase == RunPhase::ForkGate || r.phase == RunPhase::PreparingForks || r.phase
        == RunPhase::TransferringForks ==> r.sync_forks && r.plan.forks.len() > 0
    &&& r.phase == RunPhase::DeleteGate || r.phase == RunPhase::Deleting ==> r.delete
        && r.plan.to_delete.len() > 0
    &&& (r.phase == RunPhase::Aborted) == (r.failure is Some)
}

/// The plan before anything is known.
pub open spec fn empty_plan() -> SyncPlanView {
    SyncPlanView { to_sync: Seq::empty(), forks: Seq::empty(), to_delete: Seq::empty() }
}

/// The state in which a run starts. Source and destination have to be
/// different hosts: if they are not, the run is given up at once.
pub open spec fn run_initial(
    resync: bool,
    sync_forks: bool,
    delete: bool,
    manual: bool,
    source_host: Seq<char>,
    destination_host: Seq<char>,
) -> RunView {
    let same = source_host == destination_host;
    RunView {
        phase: if same {
            RunPhase::Aborted
        } else {
            RunPhase::Probing
        },
        resync,
        sync_forks,
        delete,
        manual,
        plan: empty_plan(),
        workspace: false,
        failure: if same {
            Some(plain_error("Source and destination can't be the same"@))
        } else {
            None
        },
    }
}

/// A state together with what is reported on entering it.
pub struct RunStep {
    pub state: RunView,
    pub reports: Seq<RunReport>,
}

/// The run given up because of `e`.
pub open spec fn aborted(r: RunView, e: GitMoverErrorView) -> RunStep {
    RunStep {
        state: RunView { phase: RunPhase::Aborted, failure: Some(e), ..r },
        reports: Seq::empty(),
    }
}

/// The run in phase `phase`, with nothing to report.
pub open spec fn moved(r: RunView, phase: RunPhase) -> RunStep {
    RunStep { state: RunView { phase, ..r }, reports: Seq::empty() }
}

/// The end of the stages: the workspace is removed if there is one.
pub open spec fn enter_cleanup(r: RunView) -> RunStep {
    if r.workspace {
        moved(r, RunPhase::CleaningUp)
    } else {
        moved(r, RunPhase::Done)
    }
}

/// The removal stage: skipped when it is switched off or has nothing to do.
pub open spec fn enter_delete(r: RunView) -> RunStep {
    if !r.delete {
        RunStep {
            state: enter_cleanup(r).state,
            reports: seq![RunReport::NotPromptingForDeletion],
        }
    } else if r.plan.to_delete.len() == 0 {
        RunStep { state: enter_cleanup(r).state, reports: seq![RunReport::NothingToDelete] }
    } else {
        moved(r, RunPhase::DeleteGate)
    }
}

/// The fork stage: skipped when it is switched off or has nothing to do.
pub open spec fn enter_forks(r: RunView) -> RunStep {
    if !r.sync_forks {
        RunStep {
            state: enter_delete(r).state,
            reports: seq![RunReport::NotSyncingForks] + enter_delete(r).reports,
        }
    } else if r.plan.forks.len() == 0 {
        RunStep {
            state: enter_delete(r).state,
            reports: seq![RunReport::NoForksFound] + enter_delete(r).reports,
        }
    } else {
        moved(r, RunPhase::ForkGate)
    }
}

/// The transfer stage: skipped when the plan transfers nothing.
pub open spec fn enter_sync(r: RunView) -> RunStep {
    if r.plan.to_sync.len() == 0 {
        enter_forks(r)
    } else {
        moved(r, RunPhase::SyncGate)
    }
}

/// `step` with `first` reported before what it reports.
pub open spec fn after_report(first: RunReport, step: RunStep) -> RunStep {
    RunStep { state: step.state, reports: seq![first] + step.reports }
}

/// The counts of a plan.
pub open spec fn summary_of(source: Seq<RepoView>, destination: Seq<RepoView>, plan: SyncPlanView)
    -> RunReport {
    RunReport::Summary {
        source_total: source.len() as usize,
        forks: forks_of(source).len() as usize,
        non_forks: non_forks(source).len() as usize,
        destination_total: destination.len() as usize,
        to_sync: plan.to_sync.len() as usize,
        to_delete: plan.to_delete.len() as usize,
    }
}

/// What follows in state `r` on `event`. An event that answers nothing that
/// is under way changes nothing and reports nothing.
pub open spec fn run_step(r: RunView, event: RunEventView) -> RunStep {
    match (r.phase, event) {
        (RunPhase::Probing, RunEventView::Probed { source, destination }) => match (
            source,
            destination,
        ) {
            (Err(e), _) => aborted(r, e),
            (Ok(()), Err(e)) => aborted(r, e),
            (Ok(()), Ok(())) => moved(r, RunPhase::Enumerating),
        },
        (
            RunPhase::Enumerating,
            RunEventView::Enumerated { source_repos, destination_repos },
        ) => match (source_repos, destination_repos) {
            (Err(e), _) => aborted(r, headed("Error getting repositories for source: "@, e)),
            (Ok(_), Err(e)) => aborted(
                r,
                headed("Error getting repositories for destination: "@, e),
            ),
            (Ok(s), Ok(d)) => {
                let plan = plan_of(s, d, r.resync);
                after_report(summary_of(s, d, plan), enter_sync(RunView { plan, ..r }))
            },
        },
        (RunPhase::SyncGate, RunEventView::Answer(true)) => moved(r, RunPhase::PreparingSync),
        (RunPhase::SyncGate, RunEventView::Answer(false)) => enter_forks(r),
        (RunPhase::PreparingSync, RunEventView::WorkspaceCreated(Ok(()))) => moved(
            RunView { workspace: true, ..r },
            RunPhase::Transferring,
        ),
        (RunPhase::PreparingSync, RunEventView::WorkspaceCreated(Err(e))) => aborted(r, e),
        (RunPhase::Transferring, RunEventView::BatchFinished) => after_report(
            RunReport::AllReposSynced,
            enter_forks(r),
        ),
        (RunPhase::ForkGate, RunEventView::Answer(true)) => if r.workspace {
            moved(r, RunPhase::TransferringForks)
        } else {
            moved(r, RunPhase::PreparingForks)
        },
        (RunPhase::ForkGate, RunEventView::Answer(false)) => enter_delete(r),
        (RunPhase::PreparingForks, RunEventView::WorkspaceCreated(Ok(()))) => moved(
            RunView { workspace: true, ..r },
            RunPhase::TransferringForks,
        ),
        (RunPhase::PreparingForks, RunEventView::WorkspaceCreated(Err(e))) => aborted(r, e),
        (RunPhase::TransferringForks, RunEventView::BatchFinished) => after_report(
            RunReport::AllForksSynced,
            enter_delete(r),
        ),
        (RunPhase::DeleteGate, RunEventView::Answer(true)) => moved(r, RunPhase::Deleting),
        (RunPhase::DeleteGate, RunEventView::Answer(false)) => enter_cleanup(r),
        (RunPhase::Deleting, RunEventView::DeletionFinished) => after_report(
            RunReport::AllReposDeleted,
            enter_cleanup(r),
        ),
        (RunPhase::CleaningUp, RunEventView::WorkspaceRemoved(Ok(()))) => moved(
            RunView { workspace: false, ..r },
            RunPhase::Done,
        ),
        (RunPhase::CleaningUp, RunEventView::WorkspaceRemoved(Err(e))) => aborted(r, e),
        _ => RunStep { state: r, reports: Seq::empty() },
    }
}

/// The question before the fork stage.
pub open spec fn fork_question(count: nat) -> Seq<char> {
    "Do you want to sync forks ("@ + decimal(count) + ")? (y/n)"@
}

/// The question before the removal stage.
pub open spec fn delete_gate_question(count: nat) -> Seq<char> {
    "Do you want to delete the missing ("@ + decimal(count) + ") repos (manually)? (y/n)"@
}

/// What is under way in state `r`.
pub open spec fn run_pending(r: RunView) -> RunActionView {
    match r.phase {
        RunPhase::Probing => RunActionView::ProbeAccess,
        RunPhase::Enumerating => RunActionView::Enumerate,
        RunPhase::SyncGate => RunActionView::Ask("Do you want to start syncing ? (y/n)"@),
        RunPhase::PreparingSync => RunActionView::CreateWorkspace,
        RunPhase::Transferring => RunActionView::RunBatch {
            repos: r.plan.to_sync,
            manual: r.manual,
        },
        RunPhase::ForkGate => RunActionView::Ask(fork_question(r.plan.forks.len())),
        RunPhase::PreparingForks => RunActionView::CreateWorkspace,
        RunPhase::TransferringForks => RunActionView::RunBatch {
            repos: r.plan.forks,
            manual: r.manual,
        },
        RunPhase::DeleteGate => RunActionView::Ask(delete_gate_question(r.plan.to_delete.len())),
        RunPhase::Deleting => RunActionView::RunDeletion { repos: r.plan.to_delete },
        RunPhase::CleaningUp => RunActionView::RemoveWorkspace,
        RunPhase::Done => RunActionView::Stop(Ok(())),
        RunPhase::Aborted => RunActionView::Stop(
            match r.failure {
                Some(e) => Err(e),
                None => Ok(()),
            },
        ),
    }
}

/// A step keeps what always holds of a run.
pub proof fn lemma_run_step_keeps_wf(r: RunView, event: RunEventView)
    requires
        run_wf(r),
    ensures
        run_wf(run_step(r, event).state),
{
}

/// The state reached from `r` after the events `events`, in order.
pub open spec fn run_trace(r: RunView, events: Seq<RunEventView>) -> RunView
    decreases events.len(),
{
    if events.len() == 0 {
        r
    } else {
        run_step(run_trace(r, events.drop_last()), events.last()).state
    }
}

/// What always holds of a run holds after any events in any order.
pub proof fn lemma_run_trace_keeps_wf(r: RunView, events: Seq<RunEventView>)
    requires
        run_wf(r),
    ensures
        run_wf(run_trace(r, events)),
    decreases events.len(),
{
    if events.len() > 0 {
        lemma_run_trace_keeps_wf(r, events.drop_last());
        lemma_run_step_keeps_wf(run_trace(r, events.drop_last()), events.last());
    }
}

/// A run is given up only for a failed probe, a failed enumeration, or a
/// scratch workspace that cannot be created or removed. Nothing that
/// happens inside a transfer or removal stage gives it up.
pub proof fn lemma_abort_causes(r: RunView, event: RunEventView)
    requires
        r.phase != RunPhase::Aborted,
        run_step(r, event).state.phase == RunPhase::Aborted,
    ensures
        match r.phase {
            RunPhase::Probing => event matches RunEventView::Probed { source, destination }
                && (source is Err || destination is Err),
            RunPhase::Enumerating => event matches RunEventView::Enumerated {
                source_repos,
                destination_repos,
            } && (source_repos is Err || destination_repos is Err),
            RunPhase::PreparingSync => event matches RunEventView::WorkspaceCreated(Err(_)),
            RunPhase::PreparingForks => event matches RunEventView::WorkspaceCreated(Err(_)),
            RunPhase::CleaningUp => event matches RunEventView::WorkspaceRemoved(Err(_)),
            _ => false,
        },
{
}

/// The life of the scratch workspace.
///
/// A batch is handed out only while the workspace exists. Once it exists it
/// stays until the run, with every stage behind it, removes it: nothing but
/// a successful removal in the clean-up phase ends it, and that ends the
/// run. The removal is asked for in the clean-up phase only, when no batch
/// is under way. A run that is done has no workspace, and a run that is
/// over hands out nothing more.
pub proof fn lemma_workspace_lifecycle(r: RunView, event: RunEventView)
    requires
        run_wf(r),
    ensures
        run_pending(r) is RunBatch ==> r.workspace,
        run_pending(r) is RemoveWorkspace <==> r.phase == RunPhase::CleaningUp,
        r.workspace && !run_step(r, event).state.workspace ==> r.phase == RunPhase::CleaningUp
            && run_step(r, event).state.phase == RunPhase::Done,
        r.workspace && !run_step(r, event).state.workspace ==> (
        event matches RunEventView::WorkspaceRemoved(Ok(_))),
        run_step(r, event).state.phase == RunPhase::Done ==> !run_step(r, event).state.workspace,
        r.phase == RunPhase::Done || r.phase == RunPhase::Aborted ==> run_step(r, event)
            == (RunStep { state: r, reports: Seq::empty() }),
        transfers_in(r.phase) ==> transfers_in(run_step(r, event).state.phase) || run_step(
            r,
            event,
        ).state.workspace,
{
}

/// A stage behind a question is entered on a yes only: forks are
/// transferred only if they are switched on and the operator agrees, and
/// the removals are gone through only if they are switched on and the
/// operator agrees.
pub proof fn lemma_stages_need_consent(r: RunView, event: RunEventView)
    requires
        run_wf(r),
    ensures
        r.phase != RunPhase::PreparingSync && run_step(r, event).state.phase
            == RunPhase::PreparingSync ==> r.phase == RunPhase::SyncGate && event
            == RunEventView::Answer(true),
        r.phase != RunPhase::PreparingForks && r.phase != RunPhase::TransferringForks && (run_step(
            r,
            event,
        ).state.phase == RunPhase::PreparingForks || run_step(r, event).state.phase
            == RunPhase::TransferringForks) ==> r.phase == RunPhase::ForkGate && event
            == RunEventView::Answer(true) && r.sync_forks,
        r.phase != RunPhase::Deleting && run_step(r, event).state.phase == RunPhase::Deleting
            ==> r.phase == RunPhase::DeleteGate && event == RunEventView::Answer(true)
            && r.delete,
        r.phase != RunPhase::Transferring && run_step(r, event).state.phase
            == RunPhase::Transferring ==> r.phase == RunPhase::PreparingSync,
{
}

/// With both probes passed and both platforms enumerated, the plan of the
/// run is the plan of the two inventories under the run's resync policy.
pub proof fn lemma_run_plans_by_diff(r: RunView, source: Seq<RepoView>, destination: Seq<RepoView>)
    requires
        r.phase == RunPhase::Enumerating,
    ensures
        run_step(
            r,
            RunEventView::Enumerated {
                source_repos: Ok(source),
                destination_repos: Ok(destination),
            },
        ).state.plan == plan_of(source, destination, r.resync),
        run_step(
            r,
            RunEventView::Enumerated {
                source_repos: Ok(source),
                destination_repos: Ok(destination),
            },
        ).reports[0] == summary_of(source, destination, plan_of(source, destination, r.resync)),
{
}

/// One synchronization run under way.
#[derive(Debug)]
pub struct Run {
    phase: RunPhase,
    resync: bool,
    sync_forks: bool,
    delete: bool,
    manual: bool,
    plan: SyncPlan,
    workspace: bool,
    failure: Option<GitMoverError>,
}

impl View for Run {
    type V = RunView;

    closed spec fn view(&self) -> RunView {
        RunView {
            phase: self.phase,
            resync: self.resync,
            sync_forks: self.sync_forks,
            delete: self.delete,
            manual: self.manual,
            plan: self.plan@,
            workspace: self.workspace,
            failure: failure_view(self.failure),
        }
    }
}

fn cleanup_entry(Ghost(r): Ghost<RunView>, workspace: bool) -> (phase: RunPhase)
    requires
        r.workspace == workspace,
    ensures
        enter_cleanup(r) == moved(r, phase),
{
    if workspace {
        RunPhase::CleaningUp
    } else {
        RunPhase::Done
    }
}

fn delete_entry(
    Ghost(r): Ghost<RunView>,
    delete: bool,
    to_delete: usize,
    workspace: bool,
    reports: &mut Vec<RunReport>,
) -> (phase: RunPhase)
    requires
        r.workspace == workspace,
        r.delete == delete,
        r.plan.to_delete.len() == to_delete,
    ensures
        enter_delete(r).state == (RunView { phase, ..r }),
        final(reports)@ == old(reports)@ + enter_delete(r).reports,
{
    if !delete {
        reports.push(RunReport::NotPromptingForDeletion);
        assert(reports@ =~= old(reports)@ + enter_delete(r).reports);
        cleanup_entry(Ghost(r), workspace)
    } else if to_delete == 0 {
        reports.push(RunReport::NothingToDelete);
        assert(reports@ =~= old(reports)@ + enter_delete(r).reports);
        cleanup_entry(Ghost(r), workspace)
    } else {
        assert(reports@ =~= old(reports)@ + enter_delete(r).reports);
        RunPhase::DeleteGate
    }
}

fn forks_entry(
    Ghost(r): Ghost<RunView>,
    sync_forks: bool,
    forks: usize,
    delete: bool,
    to_delete: usize,
    workspace: bool,
    reports: &mut Vec<RunReport>,
) -> (phase: RunPhase)
    requires
        r.workspace == workspace,
        r.delete == delete,
        r.plan.to_delete.len() == to_delete,
        r.sync_forks == sync_forks,
        r.plan.forks.len() == forks,
    ensures
        enter_forks(r).state == (RunView { phase, ..r }),
        final(reports)@ == old(reports)@ + enter_forks(r).reports,
{
    if !sync_forks {
        reports.push(RunReport::NotSyncingForks);
        let phase = delete_entry(Ghost(r), delete, to_delete, workspace, reports);
        assert(reports@ =~= old(reports)@ + enter_forks(r).reports);
        phase
    } else if forks == 0 {
        reports.push(RunReport::NoForksFound);
        let phase = delete_entry(Ghost(r), delete, to_delete, workspace, reports);
        assert(reports@ =~= old(reports)@ + enter_forks(r).reports);
        phase
    } else {
        assert(reports@ =~= old(reports)@ + enter_forks(r).reports);
        RunPhase::ForkGate
    }
}

impl Run {
    #[verifier::type_invariant]
    spec fn well_formed(&self) -> bool {
        run_wf(self@)
    }

    /// Starts a run from `source` to `destination` under the options of the
    /// command line.
    pub fn new<S: Platform + ?Sized, D: Platform + ?Sized>(
        cli: &GitMoverCli,
        source: &S,
        destination: &D,
    ) -> (run: Run)
        ensures
            run@ == run_initial(
                cli@.resync,
                !cli@.no_forks,
                !cli@.no_delete,
                cli@.manual,
                source.model().host,
                destination.model().host,
            ),
            run_wf(run@),
    {
        let same = same_text(
            source.get_remote_url().as_str(),
            destination.get_remote_url().as_str(),
        );
        let plan = SyncPlan { to_sync: Vec::new(), forks: Vec::new(), to_delete: Vec::new() };
        proof {
            assert(views(plan.to_sync@) =~= Seq::<RepoView>::empty());
            assert(views(plan.forks@) =~= Seq::<RepoView>::empty());
            assert(views(plan.to_delete@) =~= Seq::<RepoView>::empty());
        }
        Run {
            phase: if same {
                RunPhase::Aborted
            } else {
                RunPhase::Probing
            },
            resync: cli.resync,
            sync_forks: !cli.no_forks,
            delete: !cli.no_delete,
            manual: cli.manual,
            plan,
            workspace: false,
            failure: if same {
                Some(GitMoverError::new(String::from_str("Source and destination can't be the same")))
            } else {
                None
            },
        }
    }

    /// Where the run stands.
    pub fn phase(&self) -> (p: RunPhase)
        ensures
            p == self@.phase,
            run_wf(self@),
    {
        proof {
            use_type_invariant(self);
        }
        self.phase
    }

    /// Whether the scratch workspace exists.
    pub fn has_workspace(&self) -> (b: bool)
        ensures
            b == self@.workspace,
    {
        self.workspace
    }

    /// The plan; empty until both platforms are enumerated.
    pub fn plan(&self) -> (plan: &SyncPlan)
        ensures
            plan@ == self@.plan,
    {
        &self.plan
    }

    /// What to do next, or the outcome once the run is over.
    pub fn pending(&self) -> (action: RunAction)
        ensures
            action@ == run_pending(self@),
    {
        match self.phase {
            RunPhase::Probing => RunAction::ProbeAccess,
            RunPhase::Enumerating => RunAction::Enumerate,
            RunPhase::SyncGate => RunAction::Ask(
                String::from_str("Do you want to start syncing ? (y/n)"),
            ),
            RunPhase::PreparingSync => RunAction::CreateWorkspace,
            RunPhase::Transferring => RunAction::RunBatch {
                repos: copy_inventory(&self.plan.to_sync),
                manual: self.manual,
            },
            RunPhase::ForkGate => {
                let mut q = String::from_str("Do you want to sync forks (");
                push_decimal(&mut q, self.plan.forks.len());
                q.append(")? (y/n)");
                assert(views(self.plan.forks@).len() == self.plan.forks@.len());
                RunAction::Ask(q)
            },
            RunPhase::PreparingForks => RunAction::CreateWorkspace,
            RunPhase::TransferringForks => RunAction::RunBatch {
                repos: copy_inventory(&self.plan.forks),
                manual: self.manual,
            },
            RunPhase::DeleteGate => {
                let mut q = String::from_str("Do you want to delete the missing (");
                push_decimal(&mut q, self.plan.to_delete.len());
                q.append(") repos (manually)? (y/n)");
                assert(views(self.plan.to_delete@).len() == self.plan.to_delete@.len());
                RunAction::Ask(q)
            },
            RunPhase::Deleting => RunAction::RunDeletion {
                repos: copy_inventory(&self.plan.to_delete),
            },
            RunPhase::CleaningUp => RunAction::RemoveWorkspace,
            RunPhase::Done => RunAction::Stop(Ok(())),
            RunPhase::Aborted => RunAction::Stop(
                match &self.failure {
                    Some(e) => Err(e.clone()),
                    None => Ok(()),
                },
            ),
        }
    }

    fn on_probed(self, source: Result<(), GitMoverError>, destination: Result<(), GitMoverError>)
        -> (next: (Run, Vec<RunReport>))
        ensures
            next.0@ == run_step(
                self@,
                RunEventView::Probed {
                    source: outcome_view(source),
                    destination: outcome_view(destination),
                },
            ).state,
            next.1@ == run_step(
                self@,
                RunEventView::Probed {
                    source: outcome_view(source),
                    destination: outcome_view(destination),
                },
            ).reports,
    {
        proof {
            use_type_invariant(&self);
        }
        let reports: Vec<RunReport> = Vec::new();
        if self.phase != RunPhase::Probing {
            return (self, reports);
        }
        match source {
            Err(e) => (Run { phase: RunPhase::Aborted, failure: Some(e), ..self }, reports),
            Ok(()) => match destination {
                Err(e) => (Run { phase: RunPhase::Aborted, failure: Some(e), ..self }, reports),
                Ok(()) => (Run { phase: RunPhase::Enumerating, ..self }, reports),
            },
        }
    }

    fn on_enumerated(
        self,
        source: Result<Vec<Repo>, GitMoverError>,
        destination: Result<Vec<Repo>, GitMoverError>,
    ) -> (next: (Run, Vec<RunReport>))
        ensures
            next.0@ == run_step(
                self@,
                RunEventView::Enumerated {
                    source_repos: inventory_view(source),
                    destination_repos: inventory_view(destination),
                },
            ).state,
            next.1@ == run_step(
                self@,
                RunEventView::Enumerated {
                    source_repos: inventory_view(source),
                    destination_repos: inventory_view(destination),
                },
            ).reports,
    {
        proof {
            use_type_invariant(&self);
        }
        let ghost before = self@;
        let mut reports: Vec<RunReport> = Vec::new();
        if self.phase != RunPhase::Enumerating {
            return (self, reports);
        }
        match source {
            Err(e) => {
                let failure = Some(e.under_heading("Error getting repositories for source: "));
                (Run { phase: RunPhase::Aborted, failure, ..self }, reports)
            },
            Ok(s) => match destination {
                Err(e) => {
                    let failure = Some(
                        e.under_heading("Error getting repositories for destination: "),
                    );
                    (Run { phase: RunPhase::Aborted, failure, ..self }, reports)
                },
                Ok(d) => {
                    let plan = diff_inventories(&s, &d, self.resync);
                    proof {
                        lemma_fork_counts(views(s@));
                        assert(views(plan.forks@).len() == plan.forks@.len());
                        assert(views(plan.to_delete@).len() == plan.to_delete@.len());
                        assert(views(plan.to_sync@).len() == plan.to_sync@.len());
                        assert(views(s@).len() == s@.len());
                        assert(views(d@).len() == d@.len());
                    }
                    let summary = RunReport::Summary {
                        source_total: s.len(),
                        forks: plan.forks.len(),
                        non_forks: s.len() - plan.forks.len(),
                        destination_total: d.len(),
                        to_sync: plan.to_sync.len(),
                        to_delete: plan.to_delete.len(),
                    };
                    assert(summary == summary_of(views(s@), views(d@), plan@));
                    reports.push(summary);
                    let ghost planned = RunView { plan: plan@, ..before };
                    let phase = if plan.to_sync.len() == 0 {
                        forks_entry(
                            Ghost(planned),
                            self.sync_forks,
                            plan.forks.len(),
                            self.delete,
                            plan.to_delete.len(),
                            self.workspace,
                            &mut reports,
                        )
                    } else {
                        RunPhase::SyncGate
                    };
                    proof {
                        assert(enter_sync(planned).state == (RunView { phase, ..planned }));
                        assert(reports@ =~= seq![summary] + enter_sync(planned).reports);
                    }
                    (Run { phase, plan, ..self }, reports)
                },
            },
        }
    }

    fn on_answer(self, yes: bool) -> (next: (Run, Vec<RunReport>))
        ensures
            next.0@ == run_step(self@, RunEventView::Answer(yes)).state,
            next.1@ == run_step(self@, RunEventView::Answer(yes)).reports,
    {
        proof {
            use_type_invariant(&self);
            assert(views(self.plan.forks@).len() == self.plan.forks@.len());
            assert(views(self.plan.to_delete@).len() == self.plan.to_delete@.len());
        }
        let ghost before = self@;
        let mut reports: Vec<RunReport> = Vec::new();
        let phase = match self.phase {
            RunPhase::SyncGate => if yes {
                RunPhase::PreparingSync
            } else {
                forks_entry(
                    Ghost(before),
                    self.sync_forks,
                    self.plan.forks.len(),
                    self.delete,
                    self.plan.to_delete.len(),
                    self.workspace,
                    &mut reports,
                )
            },
            RunPhase::ForkGate => if yes {
                if self.workspace {
                    RunPhase::TransferringForks
                } else {
                    RunPhase::PreparingForks
                }
            } else {
                delete_entry(
                    Ghost(before),
                    self.delete,
                    self.plan.to_delete.len(),
                    self.workspace,
                    &mut reports,
                )
            },
            RunPhase::DeleteGate => if yes {
                RunPhase::Deleting
            } else {
                cleanup_entry(Ghost(before), self.workspace)
            },
            _ => self.phase,
        };
        assert(reports@ =~= run_step(before, RunEventView::Answer(yes)).reports);
        (Run { phase, ..self }, reports)
    }

    fn on_workspace_created(self, outcome: Result<(), GitMoverError>) -> (next: (
        Run,
        Vec<RunReport>,
    ))
        ensures
            next.0@ == run_step(
                self@,
                RunEventView::WorkspaceCreated(outcome_view(outcome)),
            ).state,
            next.1@ == run_step(
                self@,
                RunEventView::WorkspaceCreated(outcome_view(outcome)),
            ).reports,
    {
        proof {
            use_type_invariant(&self);
        }
        let reports: Vec<RunReport> = Vec::new();
        let target = match self.phase {
            RunPhase::PreparingSync => RunPhase::Transferring,
            RunPhase::PreparingForks => RunPhase::TransferringForks,
            _ => {
                return (self, reports);
            },
        };
        match outcome {
            Ok(()) => (Run { phase: target, workspace: true, ..self }, reports),
            Err(e) => (Run { phase: RunPhase::Aborted, failure: Some(e), ..self }, reports),
        }
    }

    fn on_stage_finished(self, removal: bool) -> (next: (Run, Vec<RunReport>))
        ensures
            next.0@ == run_step(
                self@,
                if removal {
                    RunEventView::DeletionFinished
                } else {
                    RunEventView::BatchFinished
                },
            ).state,
            next.1@ == run_step(
                self@,
                if removal {
                    RunEventView::DeletionFinished
                } else {
                    RunEventView::BatchFinished
                },
            ).reports,
    {
        proof {
            use_type_invariant(&self);
            assert(views(self.plan.forks@).len() == self.plan.forks@.len());
            assert(views(self.plan.to_delete@).len() == self.plan.to_delete@.len());
        }
        let ghost before = self@;
        let ghost event = if removal {
            RunEventView::DeletionFinished
        } else {
            RunEventView::BatchFinished
        };
        let mut reports: Vec<RunReport> = Vec::new();
        let phase = match self.phase {
            RunPhase::Transferring if !removal => {
                reports.push(RunReport::AllReposSynced);
                forks_entry(
                    Ghost(before),
                    self.sync_forks,
                    self.plan.forks.len(),
                    self.delete,
                    self.plan.to_delete.len(),
                    self.workspace,
                    &mut reports,
                )
            },
            RunPhase::TransferringForks if !removal => {
                reports.push(RunReport::AllForksSynced);
                delete_entry(
                    Ghost(before),
                    self.delete,
                    self.plan.to_delete.len(),
                    self.workspace,
                    &mut reports,
                )
            },
            RunPhase::Deleting if removal => {
                reports.push(RunReport::AllReposDeleted);
                cleanup_entry(Ghost(before), self.workspace)
            },
            _ => self.phase,
        };
        assert(reports@ =~= run_step(before, event).reports);
        (Run { phase, ..self }, reports)
    }

    fn on_workspace_removed(self, outcome: Result<(), GitMoverError>) -> (next: (
        Run,
        Vec<RunReport>,
    ))
        ensures
            next.0@ == run_step(
                self@,
                RunEventView::WorkspaceRemoved(outcome_view(outcome)),
            ).state,
            next.1@ == run_step(
                self@,
                RunEventView::WorkspaceRemoved(outcome_view(outcome)),
            ).reports,
    {
        proof {
            use_type_invariant(&self);
        }
        let reports: Vec<RunReport> = Vec::new();
        if self.phase != RunPhase::CleaningUp {
            return (self, reports);
        }
        match outcome {
            Ok(()) => (Run { phase: RunPhase::Done, workspace: false, ..self }, reports),
            Err(e) => (Run { phase: RunPhase::Aborted, failure: Some(e), ..self }, reports),
        }
    }

    /// Takes what happened outside and moves on. Returns the run in its
    /// next state and what is to be reported, in order.
    pub fn step(self, event: RunEvent) -> (next: (Run, Vec<RunReport>))
        ensures
            next.0@ == run_step(self@, event@).state,
            next.1@ == run_step(self@, event@).reports,
            run_wf(self@),
            run_wf(next.0@),
    {
        proof {
            use_type_invariant(&self);
            lemma_run_step_keeps_wf(self@, event@);
        }
        match event {
            RunEvent::Probed { source, destination } => self.on_probed(source, destination),
            RunEvent::Enumerated { source_repos, destination_repos } => self.on_enumerated(
                source_repos,
                destination_repos,
            ),
            RunEvent::Answer(yes) => self.on_answer(yes),
            RunEvent::WorkspaceCreated(outcome) => self.on_workspace_created(outcome),
            RunEvent::BatchFinished => self.on_stage_finished(false),
            RunEvent::DeletionFinished => self.on_stage_finished(true),
            RunEvent::WorkspaceRemoved(outcome) => self.on_workspace_removed(outcome),
        }
    }
}

} // verus!
