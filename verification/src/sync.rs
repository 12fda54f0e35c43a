//! Sync repositories from one platform to another: the scheduling of one
//! batch of transfers.
//!
//! A batch is split in two lanes. The concurrent lane holds the jobs that
//! start at once and run side by side. The serial lane holds the jobs that
//! need the operator's consent: each is asked about, and where the answer is
//! yes it runs to its end before the next one is asked about. Private
//! repositories are always in the serial lane. In manual mode every job is.
//! The batch is complete when every job has been settled: finished, failed
//! or declined.
use crate::diff::{
    lemma_filter_push, lemma_views_push, lemma_views_take_next, repo_is_private, views,
};
use crate::text::{decimal, push_decimal};
use crate::utils::{full_name, Repo, RepoView};
use vstd::prelude::*;
use vstd::string::StringExecFns;

verus! {

/// One repository of a batch, with its place in the batch for display.
#[derive(Debug)]
pub struct Job {
    /// The repository to transfer.
    pub repo: Repo,
    /// Its place in its list, counted from 1.
    pub position: usize,
    /// The length of that list.
    pub total: usize,
}

/// Mathematical model of a [`Job`].
pub struct JobView {
    pub repo: RepoView,
    pub position: nat,
    pub total: nat,
}

impl View for Job {
    type V = JobView;

    open spec fn view(&self) -> JobView {
        JobView { repo: self.repo@, position: self.position as nat, total: self.total as nat }
    }
}

impl Clone for Job {
    fn clone(&self) -> (res: Job)
        ensures
            res@ == self@,
    {
        Job { repo: self.repo.clone(), position: self.position, total: self.total }
    }
}

/// The models of a sequence of jobs, in the same order.
pub open spec fn job_views(jobs: Seq<Job>) -> Seq<JobView> {
    jobs.map_values(|j: Job| j@)
}

/// The records as jobs, numbered from 1 in the order in which they stand.
pub open spec fn numbered(repos: Seq<RepoView>) -> Seq<JobView> {
    Seq::new(
        repos.len(),
        |i: int| JobView { repo: repos[i], position: (i + 1) as nat, total: repos.len() },
    )
}

/// Selects the jobs whose repository has the privacy flag `private`.
pub open spec fn job_is_private(private: bool) -> spec_fn(JobView) -> bool {
    |j: JobView| j.repo.private == private
}

/// The jobs of the repositories that are not private. Each keeps the number
/// that it has in the whole batch.
pub open spec fn public_jobs(batch: Seq<RepoView>) -> Seq<JobView> {
    numbered(batch).filter(job_is_private(false))
}

/// The jobs of the private repositories, numbered among themselves.
pub open spec fn private_jobs(batch: Seq<RepoView>) -> Seq<JobView> {
    numbered(batch.filter(repo_is_private(true)))
}

/// The tag under which a job's progress is shown.
pub open spec fn job_label(j: JobView) -> Seq<char> {
    "["@ + decimal(j.position) + "/"@ + decimal(j.total) + "]"@
}

/// The question that asks for consent to a job.
pub open spec fn sync_question(j: JobView) -> Seq<char> {
    if j.repo.private {
        "Should sync private repo "@ + full_name(j.repo) + " (y/n)"@
    } else {
        "Should sync repo "@ + j.repo.name + " (y/n)"@
    }
}

impl Job {
    /// The tag under which the job's progress is shown.
    pub fn label(&self) -> (s: String)
        ensures
            s@ == job_label(self@),
    {
        let mut s = String::from_str("[");
        push_decimal(&mut s, self.position);
        s.append("/");
        push_decimal(&mut s, self.total);
        s.append("]");
        s
    }

    /// The question that asks for consent to the job.
    pub fn question(&self) -> (s: String)
        ensures
            s@ == sync_question(self@),
    {
        if self.repo.private {
            String::from_str("Should sync private repo ").concat(
                self.repo.show_full_name().as_str(),
            ).concat(" (y/n)")
        } else {
            String::from_str("Should sync repo ").concat(self.repo.name.as_str()).concat(" (y/n)")
        }
    }
}

/// The lane in which a job runs.
#[derive(Debug, Clone, Copy, PartialEq, Eq, Structural)]
pub enum Lane {
    /// Started at once, side by side with the others.
    Concurrent,
    /// Started on consent, one at a time.
    Serial,
}

/// What the serial lane is doing.
#[derive(Debug, Clone, Copy, PartialEq, Eq, Structural)]
pub enum SerialLane {
    /// Nothing: no job is left in the lane, or the batch has not begun.
    Idle,
    /// The operator is asked about the job at the cursor.
    Asking,
    /// The job at the cursor is running.
    Working,
}

/// How far a batch is.
#[derive(Debug, Clone, Copy, PartialEq, Eq, Structural)]
pub enum BatchPhase {
    /// Nothing was started yet.
    Ready,
    /// Jobs are running or waiting for consent.
    Running,
    /// Every job has been settled.
    Completed,
}

/// What happened outside.
#[derive(Debug, Clone, Copy, PartialEq, Eq, Structural)]
pub enum BatchEvent {
    /// The batch may begin.
    Begin,
    /// The operator answered the question that was put.
    Answer(bool),
    /// A job of this lane came to its end.
    Finished { lane: Lane, succeeded: bool },
}

/// What the batch wants done.
#[derive(Debug)]
pub enum BatchAction {
    /// Start the transfer of this job, without waiting for it.
    Start { job: Job, lane: Lane },
    /// Put this question about this job to the operator.
    Ask { question: String, job: Job },
    /// Report that this job was declined.
    Skip { job: Job },
    /// Every job has been settled, with these counts.
    Complete { succeeded: usize, failed: usize, skipped: usize },
}

/// Mathematical model of a [`BatchAction`].
pub enum BatchActionView {
    Start { job: JobView, lane: Lane },
    Ask { question: Seq<char>, job: JobView },
    Skip { job: JobView },
    Complete { succeeded: nat, failed: nat, skipped: nat },
}

impl View for BatchAction {
    type V = BatchActionView;

    open spec fn view(&self) -> BatchActionView {
        match self {
            BatchAction::Start { job, lane } => BatchActionView::Start { job: job@, lane: *lane },
            BatchAction::Ask { question, job } => BatchActionView::Ask {
                question: question@,
                job: job@,
            },
            BatchAction::Skip { job } => BatchActionView::Skip { job: job@ },
            BatchAction::Complete { succeeded, failed, skipped } => BatchActionView::Complete {
                succeeded: *succeeded as nat,
                failed: *failed as nat,
                skipped: *skipped as nat,
            },
        }
    }
}

/// The models of a sequence of actions, in the same order.
pub open spec fn action_views(actions: Seq<BatchAction>) -> Seq<BatchActionView> {
    actions.map_values(|a: BatchAction| a@)
}

/// Mathematical model of a [`Batch`].
pub struct BatchView {
    pub phase: BatchPhase,
    /// The jobs that start at once.
    pub concurrent: Seq<JobView>,
    /// The jobs that wait for consent, in the order in which they are asked about.
    pub serial: Seq<JobView>,
    /// How many jobs of the serial lane have been settled.
    pub cursor: nat,
    pub lane: SerialLane,
    /// How many jobs of the concurrent lane are running.
    pub running: nat,
    pub succeeded: nat,
    pub failed: nat,
    pub skipped: nat,
}

/// What always holds of a batch.
///
/// Every job is accounted for: the settled ones are those that succeeded,
/// failed or were declined. A batch is complete only when no job runs and
/// none waits, and a running batch is never in that state.
pub open spec fn batch_wf(b: BatchView) -> bool {
    &&& b.cursor <= b.serial.len()
    &&& b.running <= b.concurrent.len()
    &&& b.concurrent.len() + b.serial.len() <= usize::MAX
    &&& match b.phase {
        BatchPhase::Ready => b.running == 0 && b.cursor == 0 && b.lane == SerialLane::Idle
            && b.succeeded == 0 && b.failed == 0 && b.skipped == 0,
        BatchPhase::Running => {
            &&& b.succeeded + b.failed + b.skipped + b.running == b.concurrent.len() + b.cursor
            &&& (b.lane == SerialLane::Idle) == (b.cursor == b.serial.len())
            &&& b.running > 0 || b.cursor < b.serial.len()
        },
        BatchPhase::Completed => {
            &&& b.succeeded + b.failed + b.skipped == b.concurrent.len() + b.serial.len()
            &&& b.lane == SerialLane::Idle
            &&& b.cursor == b.serial.len()
            &&& b.running == 0
        },
    }
}

/// The batch before it begins. In automatic mode the repositories that are
/// not private start at once and the private ones wait for consent; in
/// manual mode every repository waits for consent, the private ones last.
pub open spec fn batch_initial(batch: Seq<RepoView>, manual: bool) -> BatchView {
    BatchView {
        phase: BatchPhase::Ready,
        concurrent: if manual {
            Seq::empty()
        } else {
            public_jobs(batch)
        },
        serial: if manual {
            public_jobs(batch) + private_jobs(batch)
        } else {
            private_jobs(batch)
        },
        cursor: 0,
        lane: SerialLane::Idle,
        running: 0,
        succeeded: 0,
        failed: 0,
        skipped: 0,
    }
}

/// A state together with what is to be done on entering it.
pub struct BatchStep {
    pub state: BatchView,
    pub actions: Seq<BatchActionView>,
}

/// The actions that start every job of the concurrent lane.
pub open spec fn start_all(jobs: Seq<JobView>) -> Seq<BatchActionView> {
    Seq::new(jobs.len(), |i: int| BatchActionView::Start { job: jobs[i], lane: Lane::Concurrent })
}

/// Turns to the job at the cursor: asks about it, or lets the lane rest
/// when none is left.
pub open spec fn turn_to_next(b: BatchView) -> BatchStep {
    if b.cursor < b.serial.len() {
        BatchStep {
            state: BatchView { lane: SerialLane::Asking, ..b },
            actions: seq![
                BatchActionView::Ask {
                    question: sync_question(b.serial[b.cursor as int]),
                    job: b.serial[b.cursor as int],
                },
            ],
        }
    } else {
        BatchStep { state: BatchView { lane: SerialLane::Idle, ..b }, actions: Seq::empty() }
    }
}

/// Completes the batch if no job runs and none waits.
pub open spec fn settle(b: BatchView) -> BatchStep {
    if b.running == 0 && b.cursor == b.serial.len() {
        BatchStep {
            state: BatchView { phase: BatchPhase::Completed, ..b },
            actions: seq![
                BatchActionView::Complete {
                    succeeded: b.succeeded,
                    failed: b.failed,
                    skipped: b.skipped,
                },
            ],
        }
    } else {
        BatchStep { state: b, actions: Seq::empty() }
    }
}

/// The batch with one more job counted as finished.
pub open spec fn tally(b: BatchView, succeeded: bool) -> BatchView {
    if succeeded {
        BatchView { succeeded: b.succeeded + 1, ..b }
    } else {
        BatchView { failed: b.failed + 1, ..b }
    }
}

/// What follows in state `b` on `event`. An event that answers nothing that
/// is under way changes nothing and asks for nothing.
pub open spec fn batch_step(b: BatchView, event: BatchEvent) -> BatchStep {
    match (b.phase, event) {
        (BatchPhase::Ready, BatchEvent::Begin) => {
            let begun = BatchView {
                phase: BatchPhase::Running,
                running: b.concurrent.len(),
                ..b
            };
            let turned = turn_to_next(begun);
            let settled = settle(turned.state);
            BatchStep {
                state: settled.state,
                actions: start_all(b.concurrent) + turned.actions + settled.actions,
            }
        },
        (BatchPhase::Running, BatchEvent::Answer(true)) if b.lane == SerialLane::Asking => {
            BatchStep {
                state: BatchView { lane: SerialLane::Working, ..b },
                actions: seq![
                    BatchActionView::Start { job: b.serial[b.cursor as int], lane: Lane::Serial },
                ],
            }
        },
        (BatchPhase::Running, BatchEvent::Answer(false)) if b.lane == SerialLane::Asking => {
            let turned = turn_to_next(
                BatchView { skipped: b.skipped + 1, cursor: b.cursor + 1, ..b },
            );
            let settled = settle(turned.state);
            BatchStep {
                state: settled.state,
                actions: seq![BatchActionView::Skip { job: b.serial[b.cursor as int] }]
                    + turned.actions + settled.actions,
            }
        },
        (BatchPhase::Running, BatchEvent::Finished { lane: Lane::Serial, succeeded }) if b.lane
            == SerialLane::Working => {
            let turned = turn_to_next(BatchView { cursor: b.cursor + 1, ..tally(b, succeeded) });
            let settled = settle(turned.state);
            BatchStep { state: settled.state, actions: turned.actions + settled.actions }
        },
        (BatchPhase::Running, BatchEvent::Finished { lane: Lane::Concurrent, succeeded })
            if b.running > 0 => {
            settle(BatchView { running: (b.running - 1) as nat, ..tally(b, succeeded) })
        },
        _ => BatchStep { state: b, actions: Seq::empty() },
    }
}

/// A step keeps what always holds of a batch.
pub proof fn lemma_batch_step_keeps_wf(b: BatchView, event: BatchEvent)
    requires
        batch_wf(b),
    ensures
        batch_wf(batch_step(b, event).state),
{
}

/// The jobs of a prefix extended by the next record.
pub proof fn lemma_numbered_take_next(repos: Seq<RepoView>, i: int)
    requires
        0 <= i < repos.len(),
    ensures
        numbered(repos).take(i + 1) == numbered(repos).take(i).push(
            JobView { repo: repos[i], position: (i + 1) as nat, total: repos.len() },
        ),
{
    assert(numbered(repos).take(i + 1) =~= numbered(repos).take(i).push(
        JobView { repo: repos[i], position: (i + 1) as nat, total: repos.len() },
    ));
}

/// The models of a sequence of jobs extended by one job.
pub proof fn lemma_job_views_push(jobs: Seq<Job>, j: Job)
    ensures
        job_views(jobs.push(j)) == job_views(jobs).push(j@),
{
    assert(job_views(jobs.push(j)) =~= job_views(jobs).push(j@));
}

/// The models of two runs of jobs, one after the other.
pub proof fn lemma_job_views_add(a: Seq<Job>, b: Seq<Job>)
    ensures
        job_views(a + b) == job_views(a) + job_views(b),
{
    assert(job_views(a + b) =~= job_views(a) + job_views(b));
}

/// The models of a sequence of actions extended by one action.
pub proof fn lemma_action_views_push(actions: Seq<BatchAction>, a: BatchAction)
    ensures
        action_views(actions.push(a)) == action_views(actions).push(a@),
{
    assert(action_views(actions.push(a)) =~= action_views(actions).push(a@));
}

/// Up to any place in the batch, the public jobs and the private records
/// are as many as the records up to that place.
pub proof fn lemma_lanes_cover_prefix(batch: Seq<RepoView>, i: int)
    requires
        0 <= i <= batch.len(),
    ensures
        numbered(batch).take(i).filter(job_is_private(false)).len() + batch.take(i).filter(
            repo_is_private(true),
        ).len() == i,
    decreases i,
{
    reveal(Seq::filter);
    if i > 0 {
        lemma_lanes_cover_prefix(batch, i - 1);
        lemma_numbered_take_next(batch, i - 1);
        assert(batch.take(i) =~= batch.take(i - 1).push(batch[i - 1]));
        lemma_filter_push(
            numbered(batch).take(i - 1),
            job_is_private(false),
            JobView { repo: batch[i - 1], position: i as nat, total: batch.len() },
        );
        lemma_filter_push(batch.take(i - 1), repo_is_private(true), batch[i - 1]);
    } else {
        assert(numbered(batch).take(0) =~= Seq::<JobView>::empty());
        assert(batch.take(0) =~= Seq::<RepoView>::empty());
    }
}

/// Every repository of a batch is in exactly one lane, and a private one is
/// never in the concurrent lane: whatever the mode, it waits for consent. In
/// manual mode the concurrent lane is empty.
pub proof fn lemma_private_jobs_wait_for_consent(batch: Seq<RepoView>, manual: bool)
    ensures
        batch_initial(batch, manual).concurrent.len() + batch_initial(batch, manual).serial.len()
            == batch.len(),
        forall|i: int|
            0 <= i < batch_initial(batch, manual).concurrent.len() ==> !(
            #[trigger] batch_initial(batch, manual).concurrent[i]).repo.private,
        manual ==> batch_initial(batch, manual).concurrent.len() == 0,
        forall|i: int|
            0 <= i < private_jobs(batch).len() ==> (#[trigger] private_jobs(batch)[i]).repo.private,
{
    lemma_lanes_cover_prefix(batch, batch.len() as int);
    assert(numbered(batch).take(batch.len() as int) =~= numbered(batch));
    assert(batch.take(batch.len() as int) =~= batch);
    let public = public_jobs(batch);
    assert forall|i: int| 0 <= i < public.len() implies !(#[trigger] public[i]).repo.private by {
        numbered(batch).lemma_filter_pred(job_is_private(false), i);
    }
    let kept = batch.filter(repo_is_private(true));
    assert forall|i: int| 0 <= i < private_jobs(batch).len() implies (
    #[trigger] private_jobs(batch)[i]).repo.private by {
        batch.lemma_filter_pred(repo_is_private(true), i);
    }
}

/// The barrier: a batch completes only when no job runs and none waits, and
/// it says so once. A completed batch starts nothing and asks nothing.
pub proof fn lemma_complete_means_all_settled(b: BatchView, event: BatchEvent)
    requires
        batch_wf(b),
    ensures
        batch_step(b, event).state.phase == BatchPhase::Completed ==> batch_step(
            b,
            event,
        ).state.running == 0 && batch_step(b, event).state.cursor == b.serial.len() && batch_step(
            b,
            event,
        ).state.succeeded + batch_step(b, event).state.failed + batch_step(b, event).state.skipped
            == b.concurrent.len() + b.serial.len(),
        b.phase == BatchPhase::Completed ==> batch_step(b, event) == (BatchStep {
            state: b,
            actions: Seq::empty(),
        }),
        b.phase != BatchPhase::Completed && batch_step(b, event).state.phase
            == BatchPhase::Completed ==> batch_step(b, event).actions.last()
            == (BatchActionView::Complete {
            succeeded: batch_step(b, event).state.succeeded,
            failed: batch_step(b, event).state.failed,
            skipped: batch_step(b, event).state.skipped,
        }),
{
}

/// A job that fails is counted and nothing else: the batch goes on as it
/// would have after a success.
pub proof fn lemma_failure_is_isolated(b: BatchView, lane: Lane)
    requires
        batch_wf(b),
    ensures
        ({
            let failed = batch_step(b, BatchEvent::Finished { lane, succeeded: false }).state;
            let passed = batch_step(b, BatchEvent::Finished { lane, succeeded: true }).state;
            &&& failed.phase == passed.phase
            &&& failed.cursor == passed.cursor
            &&& failed.lane == passed.lane
            &&& failed.running == passed.running
            &&& failed.skipped == passed.skipped
            &&& failed.succeeded + failed.failed == passed.succeeded + passed.failed
        }),
{
}

/// The serial lane takes one job at a time: while a job of the lane runs,
/// nothing but its end moves the cursor or puts a question.
pub proof fn lemma_serial_lane_is_sequential(b: BatchView, event: BatchEvent)
    requires
        batch_wf(b),
        b.lane == SerialLane::Working,
        !(event matches BatchEvent::Finished { lane: Lane::Serial, .. }),
    ensures
        batch_step(b, event).state.lane == SerialLane::Working,
        batch_step(b, event).state.cursor == b.cursor,
        batch_step(b, event).actions.len() == 0,
{
}

/// One batch of transfers under way.
#[derive(Debug)]
pub struct Batch {
    phase: BatchPhase,
    concurrent: Vec<Job>,
    serial: Vec<Job>,
    cursor: usize,
    lane: SerialLane,
    running: usize,
    succeeded: usize,
    failed: usize,
    skipped: usize,
}

impl View for Batch {
    type V = BatchView;

    closed spec fn view(&self) -> BatchView {
        BatchView {
            phase: self.phase,
            concurrent: job_views(self.concurrent@),
            serial: job_views(self.serial@),
            cursor: self.cursor as nat,
            lane: self.lane,
            running: self.running as nat,
            succeeded: self.succeeded as nat,
            failed: self.failed as nat,
            skipped: self.skipped as nat,
        }
    }
}

/// Numbers the records from 1 in the order in which they stand.
fn number_jobs(repos: Vec<Repo>) -> (jobs: Vec<Job>)
    ensures
        job_views(jobs@) == numbered(views(repos@)),
{
    let total = repos.len();
    let mut jobs: Vec<Job> = Vec::new();
    let mut i: usize = 0;
    assert(job_views(jobs@) =~= numbered(views(repos@)).take(0));
    while i < repos.len()
        invariant
            i <= repos.len(),
            total == repos.len(),
            job_views(jobs@) == numbered(views(repos@)).take(i as int),
        decreases repos.len() - i,
    {
        let job = Job { repo: repos[i].clone(), position: i + 1, total };
        proof {
            lemma_numbered_take_next(views(repos@), i as int);
            lemma_job_views_push(jobs@, job);
        }
        jobs.push(job);
        i += 1;
    }
    assert(numbered(views(repos@)).take(repos.len() as int) =~= numbered(views(repos@)));
    jobs
}

impl Batch {
    #[verifier::type_invariant]
    spec fn well_formed(&self) -> bool {
        batch_wf(self@)
    }

    /// Lays out a batch for `repos`.
    pub fn new(repos: &Vec<Repo>, manual: bool) -> (b: Batch)
        ensures
            b@ == batch_initial(views(repos@), manual),
            batch_wf(b@),
    {
        let total = repos.len();
        let mut public: Vec<Job> = Vec::new();
        let mut private: Vec<Repo> = Vec::new();
        let mut i: usize = 0;
        let ghost batch = views(repos@);
        proof {
            reveal(Seq::filter);
            assert(numbered(batch).take(0) =~= Seq::<JobView>::empty());
            assert(batch.take(0) =~= Seq::<RepoView>::empty());
            assert(job_views(public@) =~= Seq::<JobView>::empty());
            assert(views(private@) =~= Seq::<RepoView>::empty());
        }
        while i < repos.len()
            invariant
                i <= repos.len(),
                total == repos.len(),
                batch == views(repos@),
                job_views(public@) == numbered(batch).take(i as int).filter(job_is_private(false)),
                views(private@) == batch.take(i as int).filter(repo_is_private(true)),
                public@.len() + private@.len() == i,
            decreases repos.len() - i,
        {
            let ghost job = JobView {
                repo: batch[i as int],
                position: (i + 1) as nat,
                total: batch.len(),
            };
            proof {
                lemma_views_take_next(repos@, i as int);
                lemma_numbered_take_next(batch, i as int);
                lemma_filter_push(numbered(batch).take(i as int), job_is_private(false), job);
                lemma_filter_push(batch.take(i as int), repo_is_private(true), batch[i as int]);
            }
            if repos[i].private {
                let r = repos[i].clone();
                proof {
                    lemma_views_push(private@, r);
                }
                private.push(r);
            } else {
                let j = Job { repo: repos[i].clone(), position: i + 1, total };
                proof {
                    lemma_job_views_push(public@, j);
                }
                public.push(j);
            }
            i += 1;
        }
        proof {
            assert(numbered(batch).take(repos.len() as int) =~= numbered(batch));
            assert(batch.take(repos.len() as int) =~= batch);
        }
        let mut waiting = number_jobs(private);
        let b = if manual {
            proof {
                lemma_job_views_add(public@, waiting@);
            }
            public.append(&mut waiting);
            Batch {
                phase: BatchPhase::Ready,
                concurrent: Vec::new(),
                serial: public,
                cursor: 0,
                lane: SerialLane::Idle,
                running: 0,
                succeeded: 0,
                failed: 0,
                skipped: 0,
            }
        } else {
            Batch {
                phase: BatchPhase::Ready,
                concurrent: public,
                serial: waiting,
                cursor: 0,
                lane: SerialLane::Idle,
                running: 0,
                succeeded: 0,
                failed: 0,
                skipped: 0,
            }
        };
        proof {
            assert(job_views(Seq::<Job>::empty()) =~= Seq::<JobView>::empty());
            assert(b@.concurrent =~= batch_initial(batch, manual).concurrent);
            assert(b@.serial =~= batch_initial(batch, manual).serial);
        }
        b
    }

    /// How far the batch is.
    pub fn phase(&self) -> (p: BatchPhase)
        ensures
            p == self@.phase,
    {
        self.phase
    }

    /// Whether every job has been settled.
    pub fn is_completed(&self) -> (b: bool)
        ensures
            b == (self@.phase == BatchPhase::Completed),
            batch_wf(self@),
    {
        proof {
            use_type_invariant(self);
        }
        self.phase == BatchPhase::Completed
    }

    /// How many jobs of the concurrent lane are running.
    pub fn running(&self) -> (n: usize)
        ensures
            n == self@.running,
    {
        self.running
    }

    /// How many jobs succeeded so far.
    pub fn succeeded(&self) -> (n: usize)
        ensures
            n == self@.succeeded,
    {
        self.succeeded
    }

    /// How many jobs failed so far.
    pub fn failed(&self) -> (n: usize)
        ensures
            n == self@.failed,
    {
        self.failed
    }

    /// How many jobs were declined so far.
    pub fn skipped(&self) -> (n: usize)
        ensures
            n == self@.skipped,
    {
        self.skipped
    }

    /// Takes what happened outside and says what is to be done, in order.
    pub fn step(self, event: BatchEvent) -> (next: (Batch, Vec<BatchAction>))
        ensures
            next.0@ == batch_step(self@, event).state,
            action_views(next.1@) == batch_step(self@, event).actions,
            batch_wf(self@),
            batch_wf(next.0@),
    {
        proof {
            use_type_invariant(&self);
        }
        let ghost before = self@;
        let ghost expected = batch_step(before, event);
        let mut actions: Vec<BatchAction> = Vec::new();
        assert(action_views(actions@) =~= Seq::<BatchActionView>::empty());
        let Batch {
            phase,
            concurrent,
            serial,
            cursor,
            lane,
            running,
            succeeded,
            failed,
            skipped,
        } = self;
        let mut phase = phase;
        let mut cursor = cursor;
        let mut lane = lane;
        let mut running = running;
        let mut succeeded = succeeded;
        let mut failed = failed;
        let mut skipped = skipped;
        let mut turn = false;
        let mut settle_now = false;
        assert(job_views(serial@).len() == serial@.len());
        assert(job_views(concurrent@).len() == concurrent@.len());
        match event {
            BatchEvent::Begin => {
                if phase == BatchPhase::Ready {
                    let mut i: usize = 0;
                    assert(action_views(actions@) =~= start_all(job_views(concurrent@)).take(0));
                    while i < concurrent.len()
                        invariant
                            i <= concurrent.len(),
                            action_views(actions@) == start_all(job_views(concurrent@)).take(
                                i as int,
                            ),
                        decreases concurrent.len() - i,
                    {
                        let a = BatchAction::Start {
                            job: concurrent[i].clone(),
                            lane: Lane::Concurrent,
                        };
                        proof {
                            lemma_action_views_push(actions@, a);
                            assert(start_all(job_views(concurrent@)).take(i + 1) =~= start_all(
                                job_views(concurrent@),
                            ).take(i as int).push(a@));
                        }
                        actions.push(a);
                        i += 1;
                    }
                    assert(start_all(job_views(concurrent@)).take(concurrent.len() as int)
                        =~= start_all(job_views(concurrent@)));
                    phase = BatchPhase::Running;
                    running = concurrent.len();
                    turn = true;
                    settle_now = true;
                }
            },
            BatchEvent::Answer(yes) => {
                if phase == BatchPhase::Running && lane == SerialLane::Asking {
                    if yes {
                        let a = BatchAction::Start {
                            job: serial[cursor].clone(),
                            lane: Lane::Serial,
                        };
                        proof {
                            lemma_action_views_push(actions@, a);
                        }
                        actions.push(a);
                        lane = SerialLane::Working;
                    } else {
                        let a = BatchAction::Skip { job: serial[cursor].clone() };
                        proof {
                            lemma_action_views_push(actions@, a);
                        }
                        actions.push(a);
                        skipped = skipped + 1;
                        cursor = cursor + 1;
                        turn = true;
                        settle_now = true;
                    }
                }
            },
            BatchEvent::Finished { lane: which, succeeded: ok } => {
                if phase == BatchPhase::Running {
                    match which {
                        Lane::Serial => {
                            if lane == SerialLane::Working {
                                if ok {
                                    succeeded = succeeded + 1;
                                } else {
                                    failed = failed + 1;
                                }
                                cursor = cursor + 1;
                                turn = true;
                                settle_now = true;
                            }
                        },
                        Lane::Concurrent => {
                            if running > 0 {
                                if ok {
                                    succeeded = succeeded + 1;
                                } else {
                                    failed = failed + 1;
                                }
                                running = running - 1;
                                settle_now = true;
                            }
                        },
                    }
                }
            },
        }
        if turn {
            if cursor < serial.len() {
                let a = BatchAction::Ask {
                    question: serial[cursor].question(),
                    job: serial[cursor].clone(),
                };
                proof {
                    lemma_action_views_push(actions@, a);
                }
                actions.push(a);
                lane = SerialLane::Asking;
            } else {
                lane = SerialLane::Idle;
            }
        }
        if settle_now && running == 0 && cursor == serial.len() {
            let a = BatchAction::Complete { succeeded, failed, skipped };
            proof {
                lemma_action_views_push(actions@, a);
            }
            actions.push(a);
            phase = BatchPhase::Completed;
        }
        proof {
            lemma_batch_step_keeps_wf(before, event);
            assert(action_views(actions@) =~= expected.actions);
        }
        let next = Batch {
            phase,
            concurrent,
            serial,
            cursor,
            lane,
            running,
            succeeded,
            failed,
            skipped,
        };
        assert(next@ == expected.state);
        (next, actions)
    }
}

} // verus!
