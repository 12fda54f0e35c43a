//! Removal of the destination repositories that the source no longer has.
//!
//! Every removal needs the operator's consent, whatever the mode. The
//! repositories are taken in order, one at a time. A removal that fails is
//! reported and counted, and the next repository is taken.
use crate::diff::views;
use crate::errors::{error_text, GitMoverError, GitMoverErrorView};
use crate::text::{decimal, push_decimal};
use crate::utils::{full_name, Repo, RepoView};
use vstd::prelude::*;
use vstd::string::StringExecFns;

verus! {

/// What the deletion is doing.
#[derive(Debug, Clone, Copy, PartialEq, Eq, Structural)]
pub enum DeletionPhase {
    /// Nothing was asked yet.
    Ready,
    /// The operator is asked about the repository at the cursor.
    Asking,
    /// The repository at the cursor is being removed.
    Deleting,
    /// Every repository has been settled.
    Completed,
}

/// What happened outside.
#[derive(Debug)]
pub enum DeletionEvent {
    /// The deletion may begin.
    Begin,
    /// The operator answered the question that was put.
    Answer(bool),
    /// The platform was asked to remove the repository; this came of it.
    Removed(Result<(), GitMoverError>),
}

/// Mathematical model of a [`DeletionEvent`].
pub enum DeletionEventView {
    Begin,
    Answer(bool),
    Removed(Result<(), GitMoverErrorView>),
}

impl View for DeletionEvent {
    type V = DeletionEventView;

    open spec fn view(&self) -> DeletionEventView {
        match self {
            DeletionEvent::Begin => DeletionEventView::Begin,
            DeletionEvent::Answer(yes) => DeletionEventView::Answer(*yes),
            DeletionEvent::Removed(Ok(())) => DeletionEventView::Removed(Ok(())),
            DeletionEvent::Removed(Err(e)) => DeletionEventView::Removed(Err(e@)),
        }
    }
}

/// What the deletion wants done.
#[derive(Debug)]
pub enum DeletionAction {
    /// Put this question to the operator.
    Ask { question: String },
    /// Ask the destination to remove the repository at this path.
    Remove { path: String },
    /// Report this line.
    Report { line: String },
    /// Every repository has been settled, with these counts.
    Complete { deleted: usize, failed: usize, skipped: usize },
}

/// Mathematical model of a [`DeletionAction`].
pub enum DeletionActionView {
    Ask { question: Seq<char> },
    Remove { path: Seq<char> },
    Report { line: Seq<char> },
    Complete { deleted: nat, failed: nat, skipped: nat },
}

impl View for DeletionAction {
    type V = DeletionActionView;

    open spec fn view(&self) -> DeletionActionView {
        match self {
            DeletionAction::Ask { question } => DeletionActionView::Ask { question: question@ },
            DeletionAction::Remove { path } => DeletionActionView::Remove { path: path@ },
            DeletionAction::Report { line } => DeletionActionView::Report { line: line@ },
            DeletionAction::Complete { deleted, failed, skipped } => DeletionActionView::Complete {
                deleted: *deleted as nat,
                failed: *failed as nat,
                skipped: *skipped as nat,
            },
        }
    }
}

/// The models of a sequence of actions, in the same order.
pub open spec fn deletion_action_views(actions: Seq<DeletionAction>) -> Seq<DeletionActionView> {
    actions.map_values(|a: DeletionAction| a@)
}

/// Mathematical model of a [`Deletion`].
pub struct DeletionView {
    pub phase: DeletionPhase,
    /// The repositories to remove, in order.
    pub repos: Seq<RepoView>,
    /// How many of them have been settled.
    pub cursor: nat,
    pub deleted: nat,
    pub failed: nat,
    pub skipped: nat,
}

/// What always holds of a deletion: every settled repository was removed,
/// failed to be, or was declined; and while one is asked about or removed,
/// it is the one at the cursor.
pub open spec fn deletion_wf(d: DeletionView) -> bool {
    &&& d.cursor <= d.repos.len() <= usize::MAX
    &&& d.deleted + d.failed + d.skipped == d.cursor
    &&& match d.phase {
        DeletionPhase::Ready => d.cursor == 0,
        DeletionPhase::Asking => d.cursor < d.repos.len(),
        DeletionPhase::Deleting => d.cursor < d.repos.len(),
        DeletionPhase::Completed => d.cursor == d.repos.len(),
    }
}

/// The deletion before it begins.
pub open spec fn deletion_initial(repos: Seq<RepoView>) -> DeletionView {
    DeletionView {
        phase: DeletionPhase::Ready,
        repos,
        cursor: 0,
        deleted: 0,
        failed: 0,
        skipped: 0,
    }
}

/// The question that asks for consent to the removal of the repository at
/// place `index` (counted from 0) of `total`.
pub open spec fn delete_question(r: RepoView, index: nat, total: nat) -> Seq<char> {
    "Should delete repo '"@ + full_name(r) + "' ("@ + decimal(index) + "/"@ + decimal(total)
        + ") (y/n)"@
}

/// A state together with what is to be done on entering it.
pub struct DeletionStep {
    pub state: DeletionView,
    pub actions: Seq<DeletionActionView>,
}

/// Turns to the repository at the cursor: asks about it, or completes the
/// deletion when none is left.
pub open spec fn deletion_turn(d: DeletionView) -> DeletionStep {
    if d.cursor < d.repos.len() {
        DeletionStep {
            state: DeletionView { phase: DeletionPhase::Asking, ..d },
            actions: seq![
                DeletionActionView::Ask {
                    question: delete_question(d.repos[d.cursor as int], d.cursor, d.repos.len()),
                },
            ],
        }
    } else {
        DeletionStep {
            state: DeletionView { phase: DeletionPhase::Completed, ..d },
            actions: seq![
                DeletionActionView::Complete {
                    deleted: d.deleted,
                    failed: d.failed,
                    skipped: d.skipped,
                },
            ],
        }
    }
}

/// What follows in state `d` on `event`. An event that answers nothing that
/// is under way changes nothing and asks for nothing.
pub open spec fn deletion_step(d: DeletionView, event: DeletionEventView) -> DeletionStep {
    match (d.phase, event) {
        (DeletionPhase::Ready, DeletionEventView::Begin) => deletion_turn(d),
        (DeletionPhase::Asking, DeletionEventView::Answer(true)) => DeletionStep {
            state: DeletionView { phase: DeletionPhase::Deleting, ..d },
            actions: seq![DeletionActionView::Remove { path: d.repos[d.cursor as int].path }],
        },
        (DeletionPhase::Asking, DeletionEventView::Answer(false)) => {
            let turned = deletion_turn(
                DeletionView { skipped: d.skipped + 1, cursor: d.cursor + 1, ..d },
            );
            DeletionStep {
                state: turned.state,
                actions: seq![
                    DeletionActionView::Report {
                        line: "Skipping "@ + full_name(d.repos[d.cursor as int]),
                    },
                ] + turned.actions,
            }
        },
        (DeletionPhase::Deleting, DeletionEventView::Removed(Ok(()))) => {
            let turned = deletion_turn(
                DeletionView { deleted: d.deleted + 1, cursor: d.cursor + 1, ..d },
            );
            DeletionStep {
                state: turned.state,
                actions: seq![
                    DeletionActionView::Report {
                        line: "Deleted "@ + full_name(d.repos[d.cursor as int]),
                    },
                ] + turned.actions,
            }
        },
        (DeletionPhase::Deleting, DeletionEventView::Removed(Err(e))) => {
            let turned = deletion_turn(
                DeletionView { failed: d.failed + 1, cursor: d.cursor + 1, ..d },
            );
            DeletionStep {
                state: turned.state,
                actions: seq![DeletionActionView::Report { line: "Error: "@ + error_text(e) }]
                    + turned.actions,
            }
        },
        _ => DeletionStep { state: d, actions: Seq::empty() },
    }
}

/// A step keeps what always holds of a deletion.
pub proof fn lemma_deletion_step_keeps_wf(d: DeletionView, event: DeletionEventView)
    requires
        deletion_wf(d),
    ensures
        deletion_wf(deletion_step(d, event).state),
{
}

/// Nothing is removed without consent: a removal is asked of the platform
/// only in answer to a yes, and only for the repository that the question
/// was about.
pub proof fn lemma_removal_needs_consent(d: DeletionView, event: DeletionEventView, i: int)
    requires
        deletion_wf(d),
        0 <= i < deletion_step(d, event).actions.len(),
        deletion_step(d, event).actions[i] is Remove,
    ensures
        d.phase == DeletionPhase::Asking,
        event == DeletionEventView::Answer(true),
        deletion_step(d, event).actions[i] == (DeletionActionView::Remove {
            path: d.repos[d.cursor as int].path,
        }),
{
}

/// A removal that fails does not stop the deletion: the repository is
/// counted as failed and the next one is turned to, as after a success.
pub proof fn lemma_failed_removal_is_isolated(d: DeletionView, e: GitMoverErrorView)
    requires
        deletion_wf(d),
        d.phase == DeletionPhase::Deleting,
    ensures
        deletion_step(d, DeletionEventView::Removed(Err(e))).state.cursor == d.cursor + 1,
        deletion_step(d, DeletionEventView::Removed(Err(e))).state.failed == d.failed + 1,
        deletion_step(d, DeletionEventView::Removed(Err(e))).state.phase == deletion_step(
            d,
            DeletionEventView::Removed(Ok(())),
        ).state.phase,
{
}

/// The models of a sequence of actions extended by one action.
pub proof fn lemma_deletion_action_views_push(actions: Seq<DeletionAction>, a: DeletionAction)
    ensures
        deletion_action_views(actions.push(a)) == deletion_action_views(actions).push(a@),
{
    assert(deletion_action_views(actions.push(a)) =~= deletion_action_views(actions).push(a@));
}

/// The removal of a list of repositories under way.
#[derive(Debug)]
pub struct Deletion {
    phase: DeletionPhase,
    repos: Vec<Repo>,
    cursor: usize,
    deleted: usize,
    failed: usize,
    skipped: usize,
}

impl View for Deletion {
    type V = DeletionView;

    closed spec fn view(&self) -> DeletionView {
        DeletionView {
            phase: self.phase,
            repos: views(self.repos@),
            cursor: self.cursor as nat,
            deleted: self.deleted as nat,
            failed: self.failed as nat,
            skipped: self.skipped as nat,
        }
    }
}

fn question_for(repos: &Vec<Repo>, cursor: usize) -> (q: String)
    requires
        cursor < repos@.len(),
    ensures
        q@ == delete_question(views(repos@)[cursor as int], cursor as nat, repos@.len()),
{
    let mut q = String::from_str("Should delete repo '");
    q.append(repos[cursor].show_full_name().as_str());
    q.append("' (");
    push_decimal(&mut q, cursor);
    q.append("/");
    push_decimal(&mut q, repos.len());
    q.append(") (y/n)");
    q
}

impl Deletion {
    #[verifier::type_invariant]
    spec fn well_formed(&self) -> bool {
        deletion_wf(self@)
    }

    /// Lays out the removal of `repos`.
    pub fn new(repos: Vec<Repo>) -> (d: Deletion)
        ensures
            d@ == deletion_initial(views(repos@)),
            deletion_wf(d@),
    {
        assert(views(repos@).len() == repos.len() <= usize::MAX);
        Deletion {
            phase: DeletionPhase::Ready,
            repos,
            cursor: 0,
            deleted: 0,
            failed: 0,
            skipped: 0,
        }
    }

    /// What the deletion is doing.
    pub fn phase(&self) -> (p: DeletionPhase)
        ensures
            p == self@.phase,
            deletion_wf(self@),
    {
        proof {
            use_type_invariant(self);
        }
        self.phase
    }

    /// How many repositories were removed so far.
    pub fn deleted(&self) -> (n: usize)
        ensures
            n == self@.deleted,
    {
        self.deleted
    }

    /// How many removals failed so far.
    pub fn failed(&self) -> (n: usize)
        ensures
            n == self@.failed,
    {
        self.failed
    }

    /// How many repositories were declined so far.
    pub fn skipped(&self) -> (n: usize)
        ensures
            n == self@.skipped,
    {
        self.skipped
    }

    /// Takes what happened outside and says what is to be done, in order.
    pub fn step(self, event: DeletionEvent) -> (next: (Deletion, Vec<DeletionAction>))
        ensures
            next.0@ == deletion_step(self@, event@).state,
            deletion_action_views(next.1@) == deletion_step(self@, event@).actions,
            deletion_wf(self@),
            deletion_wf(next.0@),
    {
        proof {
            use_type_invariant(&self);
            lemma_deletion_step_keeps_wf(self@, event@);
        }
        let ghost before = self@;
        let ghost expected = deletion_step(before, event@);
        let mut actions: Vec<DeletionAction> = Vec::new();
        assert(deletion_action_views(actions@) =~= Seq::<DeletionActionView>::empty());
        assert(views(self.repos@).len() == self.repos@.len());
        let mut turn = false;
        let mut deleted = self.deleted;
        let mut failed = self.failed;
        let mut skipped = self.skipped;
        let mut cursor = self.cursor;
        let mut phase = self.phase;
        match event {
            DeletionEvent::Begin => {
                if phase == DeletionPhase::Ready {
                    turn = true;
                }
            },
            DeletionEvent::Answer(yes) => {
                if phase == DeletionPhase::Asking {
                    if yes {
                        let a = DeletionAction::Remove { path: self.repos[cursor].path.clone() };
                        proof {
                            lemma_deletion_action_views_push(actions@, a);
                        }
                        actions.push(a);
                        phase = DeletionPhase::Deleting;
                    } else {
                        let a = DeletionAction::Report {
                            line: String::from_str("Skipping ").concat(
                                self.repos[cursor].show_full_name().as_str(),
                            ),
                        };
                        proof {
                            lemma_deletion_action_views_push(actions@, a);
                        }
                        actions.push(a);
                        skipped = skipped + 1;
                        cursor = cursor + 1;
                        turn = true;
                    }
                }
            },
            DeletionEvent::Removed(outcome) => {
                if phase == DeletionPhase::Deleting {
                    let line = match outcome {
                        Ok(()) => {
                            deleted = deleted + 1;
                            String::from_str("Deleted ").concat(
                                self.repos[cursor].show_full_name().as_str(),
                            )
                        },
                        Err(e) => {
                            failed = failed + 1;
                            String::from_str("Error: ").concat(e.to_text().as_str())
                        },
                    };
                    let a = DeletionAction::Report { line };
                    proof {
                        lemma_deletion_action_views_push(actions@, a);
                    }
                    actions.push(a);
                    cursor = cursor + 1;
                    turn = true;
                }
            },
        }
        let repos = self.repos;
        if turn {
            if cursor < repos.len() {
                let a = DeletionAction::Ask { question: question_for(&repos, cursor) };
                proof {
                    lemma_deletion_action_views_push(actions@, a);
                }
                actions.push(a);
                phase = DeletionPhase::Asking;
            } else {
                let a = DeletionAction::Complete { deleted, failed, skipped };
                proof {
                    lemma_deletion_action_views_push(actions@, a);
                }
                actions.push(a);
                phase = DeletionPhase::Completed;
            }
        }
        assert(deletion_action_views(actions@) =~= expected.actions);
        (Deletion { phase, repos, cursor, deleted, failed, skipped }, actions)
    }
}

} // verus!
