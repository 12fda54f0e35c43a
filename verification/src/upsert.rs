//! Create-or-update reconciliation.
//!
//! A repository is created at the destination. When the platform refuses,
//! the repository is looked up: if it is there and equal to the intended
//! one, nothing is left to do; if it differs, it is updated; if the lookup
//! fails too, the refusal is reported with the lookup failure as its cause.
//! The platform calls themselves are the caller's: this module decides which
//! call comes next.
use crate::errors::{augmented, outcome_view, GitMoverError, GitMoverErrorView};
use crate::utils::{same_repo, Repo, RepoView};
use vstd::prelude::*;

verus! {

/// Where a reconciliation stands.
#[derive(Debug)]
pub enum UpsertState {
    /// `create` was asked for.
    Creating,
    /// `create` failed with the error held here; `get` was asked for.
    Looking(GitMoverError),
    /// The platform holds a different record; `update` was asked for.
    Updating,
    /// The destination holds the intended record.
    Succeeded,
    /// The reconciliation failed.
    Failed(GitMoverError),
}

/// Mathematical model of an [`UpsertState`].
pub enum UpsertStateView {
    Creating,
    Looking(GitMoverErrorView),
    Updating,
    Succeeded,
    Failed(GitMoverErrorView),
}

impl View for UpsertState {
    type V = UpsertStateView;

    open spec fn view(&self) -> UpsertStateView {
        match self {
            UpsertState::Creating => UpsertStateView::Creating,
            UpsertState::Looking(e) => UpsertStateView::Looking(e@),
            UpsertState::Updating => UpsertStateView::Updating,
            UpsertState::Succeeded => UpsertStateView::Succeeded,
            UpsertState::Failed(e) => UpsertStateView::Failed(e@),
        }
    }
}

/// What the platform answered.
#[derive(Debug)]
pub enum UpsertEvent {
    /// `create` succeeded.
    Created,
    /// `create` failed.
    CreateFailed(GitMoverError),
    /// `get` returned this record.
    Found(Repo),
    /// `get` failed.
    LookupFailed(GitMoverError),
    /// `update` succeeded.
    Updated,
    /// `update` failed.
    UpdateFailed(GitMoverError),
}

/// Mathematical model of an [`UpsertEvent`].
pub enum UpsertEventView {
    Created,
    CreateFailed(GitMoverErrorView),
    Found(RepoView),
    LookupFailed(GitMoverErrorView),
    Updated,
    UpdateFailed(GitMoverErrorView),
}

impl View for UpsertEvent {
    type V = UpsertEventView;

    open spec fn view(&self) -> UpsertEventView {
        match self {
            UpsertEvent::Created => UpsertEventView::Created,
            UpsertEvent::CreateFailed(e) => UpsertEventView::CreateFailed(e@),
            UpsertEvent::Found(r) => UpsertEventView::Found(r@),
            UpsertEvent::LookupFailed(e) => UpsertEventView::LookupFailed(e@),
            UpsertEvent::Updated => UpsertEventView::Updated,
            UpsertEvent::UpdateFailed(e) => UpsertEventView::UpdateFailed(e@),
        }
    }
}

/// What to ask of the platform next.
#[derive(Debug)]
pub enum UpsertAction {
    /// Call `create` with this record.
    Create(Repo),
    /// Call `get` for this record.
    Lookup(Repo),
    /// Call `update` with this record.
    Update(Repo),
    /// Nothing more: the reconciliation ended with this outcome.
    Stop(Result<(), GitMoverError>),
}

/// Mathematical model of an [`UpsertAction`].
pub enum UpsertActionView {
    Create(RepoView),
    Lookup(RepoView),
    Update(RepoView),
    Stop(Result<(), GitMoverErrorView>),
}

impl View for UpsertAction {
    type V = UpsertActionView;

    open spec fn view(&self) -> UpsertActionView {
        match self {
            UpsertAction::Create(r) => UpsertActionView::Create(r@),
            UpsertAction::Lookup(r) => UpsertActionView::Lookup(r@),
            UpsertAction::Update(r) => UpsertActionView::Update(r@),
            UpsertAction::Stop(r) => UpsertActionView::Stop(outcome_view(*r)),
        }
    }
}

/// The state that follows `state` on `event`. An answer to a call that is
/// not under way changes nothing.
pub open spec fn upsert_next(intended: RepoView, state: UpsertStateView, event: UpsertEventView)
    -> UpsertStateView {
    match (state, event) {
        (UpsertStateView::Creating, UpsertEventView::Created) => UpsertStateView::Succeeded,
        (UpsertStateView::Creating, UpsertEventView::CreateFailed(e)) => UpsertStateView::Looking(
            e,
        ),
        (UpsertStateView::Looking(_), UpsertEventView::Found(found)) => if same_repo(
            found,
            intended,
        ) {
            UpsertStateView::Succeeded
        } else {
            UpsertStateView::Updating
        },
        (UpsertStateView::Looking(refusal), UpsertEventView::LookupFailed(e)) => {
            UpsertStateView::Failed(augmented(refusal, e))
        },
        (UpsertStateView::Updating, UpsertEventView::Updated) => UpsertStateView::Succeeded,
        (UpsertStateView::Updating, UpsertEventView::UpdateFailed(e)) => UpsertStateView::Failed(
            e,
        ),
        _ => state,
    }
}

/// The call that is under way in `state`.
pub open spec fn upsert_pending(intended: RepoView, state: UpsertStateView) -> UpsertActionView {
    match state {
        UpsertStateView::Creating => UpsertActionView::Create(intended),
        UpsertStateView::Looking(_) => UpsertActionView::Lookup(intended),
        UpsertStateView::Updating => UpsertActionView::Update(intended),
        UpsertStateView::Succeeded => UpsertActionView::Stop(Ok(())),
        UpsertStateView::Failed(e) => UpsertActionView::Stop(Err(e)),
    }
}

/// The state in which every reconciliation starts.
pub fn upsert_start() -> (state: UpsertState)
    ensures
        state@ == UpsertStateView::Creating,
{
    UpsertState::Creating
}

/// Takes the platform's answer and moves on.
pub fn upsert_step(intended: &Repo, state: UpsertState, event: UpsertEvent) -> (next: UpsertState)
    ensures
        next@ == upsert_next(intended@, state@, event@),
{
    match state {
        UpsertState::Creating => match event {
            UpsertEvent::Created => UpsertState::Succeeded,
            UpsertEvent::CreateFailed(e) => UpsertState::Looking(e),
            _ => UpsertState::Creating,
        },
        UpsertState::Looking(refusal) => match event {
            UpsertEvent::Found(found) => if found == *intended {
                UpsertState::Succeeded
            } else {
                UpsertState::Updating
            },
            UpsertEvent::LookupFailed(e) => UpsertState::Failed(refusal.with_cause(&e)),
            _ => UpsertState::Looking(refusal),
        },
        UpsertState::Updating => match event {
            UpsertEvent::Updated => UpsertState::Succeeded,
            UpsertEvent::UpdateFailed(e) => UpsertState::Failed(e),
            _ => UpsertState::Updating,
        },
        UpsertState::Succeeded => UpsertState::Succeeded,
        UpsertState::Failed(e) => UpsertState::Failed(e),
    }
}

/// The call to make in `state`, or the outcome once there is one.
pub fn upsert_action(intended: &Repo, state: &UpsertState) -> (action: UpsertAction)
    ensures
        action@ == upsert_pending(intended@, state@),
{
    match state {
        UpsertState::Creating => UpsertAction::Create(intended.clone()),
        UpsertState::Looking(_) => UpsertAction::Lookup(intended.clone()),
        UpsertState::Updating => UpsertAction::Update(intended.clone()),
        UpsertState::Succeeded => UpsertAction::Stop(Ok(())),
        UpsertState::Failed(e) => UpsertAction::Stop(Err(e.clone())),
    }
}

/// The state reached from `state` after the answers `events`, in order.
pub open spec fn upsert_run(intended: RepoView, state: UpsertStateView, events: Seq<
    UpsertEventView,
>) -> UpsertStateView
    decreases events.len(),
{
    if events.len() == 0 {
        state
    } else {
        upsert_next(intended, upsert_run(intended, state, events.drop_last()), events.last())
    }
}

/// How often `update` is asked for on the way from `state` through `events`:
/// the number of steps that enter [`UpsertStateView::Updating`].
pub open spec fn updates_asked(intended: RepoView, state: UpsertStateView, events: Seq<
    UpsertEventView,
>) -> nat
    decreases events.len(),
{
    if events.len() == 0 {
        0
    } else {
        let before = upsert_run(intended, state, events.drop_last());
        let after = upsert_next(intended, before, events.last());
        let entered: nat = if after is Updating && !(before is Updating) {
            1
        } else {
            0
        };
        updates_asked(intended, state, events.drop_last()) + entered
    }
}

/// How far a state is along the protocol.
pub open spec fn upsert_rank(state: UpsertStateView) -> nat {
    match state {
        UpsertStateView::Creating => 0,
        UpsertStateView::Looking(_) => 1,
        UpsertStateView::Updating => 2,
        UpsertStateView::Succeeded => 3,
        UpsertStateView::Failed(_) => 3,
    }
}

/// A step never goes back: it leaves the state as it is or moves it further
/// along the protocol.
pub proof fn lemma_upsert_step_advances(
    intended: RepoView,
    state: UpsertStateView,
    event: UpsertEventView,
)
    ensures
        upsert_next(intended, state, event) == state || upsert_rank(
            upsert_next(intended, state, event),
        ) > upsert_rank(state),
{
}

/// Create refused, lookup finds an equal record: the reconciliation succeeds
/// and `update` is never asked for.
pub proof fn lemma_equal_record_needs_no_update(
    intended: RepoView,
    refusal: GitMoverErrorView,
    found: RepoView,
)
    requires
        same_repo(found, intended),
    ensures
        upsert_run(
            intended,
            UpsertStateView::Creating,
            seq![UpsertEventView::CreateFailed(refusal), UpsertEventView::Found(found)],
        ) == UpsertStateView::Succeeded,
        updates_asked(
            intended,
            UpsertStateView::Creating,
            seq![UpsertEventView::CreateFailed(refusal), UpsertEventView::Found(found)],
        ) == 0,
{
    let e1 = UpsertEventView::CreateFailed(refusal);
    let e2 = UpsertEventView::Found(found);
    let events = seq![e1, e2];
    assert(events.drop_last() =~= seq![e1]);
    assert(seq![e1].drop_last() =~= Seq::<UpsertEventView>::empty());
    reveal_with_fuel(upsert_run, 3);
    reveal_with_fuel(updates_asked, 3);
}

/// Create refused, lookup finds a different record: `update` is asked for,
/// with the intended record, and its outcome is the outcome of the whole.
pub proof fn lemma_different_record_is_updated(
    intended: RepoView,
    refusal: GitMoverErrorView,
    found: RepoView,
)
    requires
        !same_repo(found, intended),
    ensures
        upsert_run(
            intended,
            UpsertStateView::Creating,
            seq![UpsertEventView::CreateFailed(refusal), UpsertEventView::Found(found)],
        ) == UpsertStateView::Updating,
        upsert_pending(intended, UpsertStateView::Updating) == UpsertActionView::Update(intended),
        upsert_next(intended, UpsertStateView::Updating, UpsertEventView::Updated)
            == UpsertStateView::Succeeded,
        forall|e: GitMoverErrorView|
            #[trigger] upsert_next(
                intended,
                UpsertStateView::Updating,
                UpsertEventView::UpdateFailed(e),
            ) == UpsertStateView::Failed(e),
{
    let e1 = UpsertEventView::CreateFailed(refusal);
    let e2 = UpsertEventView::Found(found);
    let events = seq![e1, e2];
    assert(events.drop_last() =~= seq![e1]);
    assert(seq![e1].drop_last() =~= Seq::<UpsertEventView>::empty());
    reveal_with_fuel(upsert_run, 3);
}

/// Whatever the platform answers and in whatever order, `update` is asked
/// for at most once, and not at all unless the run passes through
/// [`UpsertStateView::Updating`].
pub proof fn lemma_update_at_most_once(
    intended: RepoView,
    state: UpsertStateView,
    events: Seq<UpsertEventView>,
)
    ensures
        updates_asked(intended, state, events) <= 1,
        updates_asked(intended, state, events) == 1 ==> upsert_rank(
            upsert_run(intended, state, events),
        ) >= 2,
        upsert_rank(upsert_run(intended, state, events)) >= upsert_rank(state),
        upsert_rank(state) >= 2 ==> updates_asked(intended, state, events) == 0,
    decreases events.len(),
{
    if events.len() > 0 {
        let before = upsert_run(intended, state, events.drop_last());
        lemma_update_at_most_once(intended, state, events.drop_last());
        lemma_upsert_step_advances(intended, before, events.last());
    }
}

/// Without a lookup that finds a different record, `update` is not asked for.
pub proof fn lemma_update_only_for_different_record(
    intended: RepoView,
    state: UpsertStateView,
    event: UpsertEventView,
)
    requires
        upsert_next(intended, state, event) is Updating,
        !(state is Updating),
    ensures
        state is Looking,
        event matches UpsertEventView::Found(found) && !same_repo(found, intended),
{
}

} // verus!
