//! The diff engine: from two inventories to a plan of what is transferred and
//! what is removed. Pure and order-preserving.
use crate::utils::{same_repo, Repo, RepoView};
use vstd::prelude::*;

verus! {

/// The models of a sequence of records, in the same order.
pub open spec fn views(repos: Seq<Repo>) -> Seq<RepoView> {
    repos.map_values(|r: Repo| r@)
}

/// `inventory` has a record that denotes the same repository as `r`.
pub open spec fn listed(inventory: Seq<RepoView>, r: RepoView) -> bool {
    exists|i: int| 0 <= i < inventory.len() && same_repo(#[trigger] inventory[i], r)
}

/// Selects the records whose fork flag is `fork`.
pub open spec fn has_fork_flag(fork: bool) -> spec_fn(RepoView) -> bool {
    |r: RepoView| r.fork == fork
}

/// Selects the records with the privacy flag `private`.
pub open spec fn repo_is_private(private: bool) -> spec_fn(RepoView) -> bool {
    |r: RepoView| r.private == private
}

/// Selects the records that `inventory` does not list.
pub open spec fn not_listed_in(inventory: Seq<RepoView>) -> spec_fn(RepoView) -> bool {
    |r: RepoView| !listed(inventory, r)
}

/// The records of `source` that are not forks, in order.
pub open spec fn non_forks(source: Seq<RepoView>) -> Seq<RepoView> {
    source.filter(has_fork_flag(false))
}

/// The records of `source` that are forks, in order.
pub open spec fn forks_of(source: Seq<RepoView>) -> Seq<RepoView> {
    source.filter(has_fork_flag(true))
}

/// The records of `items` that `other` does not list, in order.
pub open spec fn missing_from(items: Seq<RepoView>, other: Seq<RepoView>) -> Seq<RepoView> {
    items.filter(not_listed_in(other))
}

/// Mathematical model of a [`SyncPlan`].
pub struct SyncPlanView {
    pub to_sync: Seq<RepoView>,
    pub forks: Seq<RepoView>,
    pub to_delete: Seq<RepoView>,
}

/// The plan that two inventories and the resync policy determine.
pub open spec fn plan_of(source: Seq<RepoView>, destination: Seq<RepoView>, resync: bool)
    -> SyncPlanView {
    SyncPlanView {
        to_sync: if resync {
            non_forks(source)
        } else {
            missing_from(non_forks(source), destination)
        },
        forks: forks_of(source),
        to_delete: missing_from(destination, non_forks(source)),
    }
}

/// What a run has to do, as computed from the two inventories.
#[derive(Debug)]
pub struct SyncPlan {
    /// Non-fork source repositories to create or update at the destination.
    pub to_sync: Vec<Repo>,
    /// Fork repositories of the source; transferred only when forks are enabled.
    pub forks: Vec<Repo>,
    /// Destination repositories that the source no longer has.
    pub to_delete: Vec<Repo>,
}

impl View for SyncPlan {
    type V = SyncPlanView;

    open spec fn view(&self) -> SyncPlanView {
        SyncPlanView {
            to_sync: views(self.to_sync@),
            forks: views(self.forks@),
            to_delete: views(self.to_delete@),
        }
    }
}

/// Filtering a sequence extended by one element.
pub proof fn lemma_filter_push<A>(s: Seq<A>, pred: spec_fn(A) -> bool, x: A)
    ensures
        s.push(x).filter(pred) == if pred(x) {
            s.filter(pred).push(x)
        } else {
            s.filter(pred)
        },
{
    reveal(Seq::filter);
    assert(s.push(x).drop_last() =~= s);
}

/// The models of a prefix extended by the next record.
pub proof fn lemma_views_take_next(repos: Seq<Repo>, i: int)
    requires
        0 <= i < repos.len(),
    ensures
        views(repos).take(i + 1) == views(repos).take(i).push(repos[i]@),
{
    assert(views(repos).take(i + 1) =~= views(repos).take(i).push(repos[i]@));
}

/// The models of a sequence extended by one record.
pub proof fn lemma_views_push(repos: Seq<Repo>, r: Repo)
    ensures
        views(repos.push(r)) == views(repos).push(r@),
{
    assert(views(repos.push(r)) =~= views(repos).push(r@));
}

/// A kept element of a filtered sequence satisfies the predicate and comes
/// from the sequence; every element that satisfies it is kept.
pub proof fn lemma_filter_membership<A>(s: Seq<A>, pred: spec_fn(A) -> bool, x: A)
    ensures
        s.filter(pred).contains(x) <==> s.contains(x) && pred(x),
{
    if s.filter(pred).contains(x) {
        s.lemma_filter_contains_rev(pred, x);
        let k = choose|k: int| 0 <= k < s.filter(pred).len() && s.filter(pred)[k] == x;
        s.lemma_filter_pred(pred, k);
    }
    if s.contains(x) && pred(x) {
        let k = choose|k: int| 0 <= k < s.len() && s[k] == x;
        s.lemma_filter_contains(pred, k);
    }
}

/// The non-fork part of `source` lists `r` exactly when some non-fork record
/// of `source` denotes the same repository.
pub proof fn lemma_listed_among_non_forks(source: Seq<RepoView>, r: RepoView)
    ensures
        listed(non_forks(source), r) <==> exists|i: int|
            0 <= i < source.len() && !(#[trigger] source[i]).fork && same_repo(source[i], r),
{
    let kept = non_forks(source);
    if listed(kept, r) {
        let k = choose|k: int| 0 <= k < kept.len() && same_repo(#[trigger] kept[k], r);
        assert(kept.contains(kept[k]));
        lemma_filter_membership(source, has_fork_flag(false), kept[k]);
        let i = choose|i: int| 0 <= i < source.len() && source[i] == kept[k];
        assert(!source[i].fork && same_repo(source[i], r));
    }
    if exists|i: int|
        0 <= i < source.len() && !(#[trigger] source[i]).fork && same_repo(source[i], r) {
        let i = choose|i: int|
            0 <= i < source.len() && !(#[trigger] source[i]).fork && same_repo(source[i], r);
        assert(source.contains(source[i]));
        lemma_filter_membership(source, has_fork_flag(false), source[i]);
        let k = choose|k: int| 0 <= k < kept.len() && kept[k] == source[i];
        assert(same_repo(kept[k], r));
    }
}

/// No repository is both transferred and removed: no record of `to_sync`
/// denotes the same repository as a record of `to_delete`, under either
/// resync policy.
pub proof fn lemma_sync_and_delete_disjoint(
    source: Seq<RepoView>,
    destination: Seq<RepoView>,
    resync: bool,
)
    ensures
        forall|i: int, j: int|
            #![trigger plan_of(source, destination, resync).to_sync[i], plan_of(source, destination, resync).to_delete[j]]
            0 <= i < plan_of(source, destination, resync).to_sync.len() && 0 <= j < plan_of(
                source,
                destination,
                resync,
            ).to_delete.len() ==> !same_repo(
                plan_of(source, destination, resync).to_sync[i],
                plan_of(source, destination, resync).to_delete[j],
            ),
{
    let plan = plan_of(source, destination, resync);
    let kept = non_forks(source);
    assert forall|i: int, j: int|
        0 <= i < plan.to_sync.len() && 0 <= j < plan.to_delete.len() implies !same_repo(
        #[trigger] plan.to_sync[i],
        #[trigger] plan.to_delete[j],
    ) by {
        let s = plan.to_sync[i];
        let d = plan.to_delete[j];
        assert(plan.to_sync.contains(s));
        assert(plan.to_delete.contains(d));
        if !resync {
            lemma_filter_membership(kept, not_listed_in(destination), s);
        }
        assert(kept.contains(s));
        lemma_filter_membership(destination, not_listed_in(kept), d);
        assert(!listed(kept, d));
        if same_repo(s, d) {
            let k = choose|k: int| 0 <= k < kept.len() && kept[k] == s;
            assert(same_repo(kept[k], d));
        }
    }
}

/// `to_delete` holds exactly the destination records that no non-fork source
/// record denotes, under either resync policy.
pub proof fn lemma_to_delete_exact(
    source: Seq<RepoView>,
    destination: Seq<RepoView>,
    resync: bool,
    d: RepoView,
)
    ensures
        plan_of(source, destination, resync).to_delete.contains(d) <==> destination.contains(d)
            && forall|i: int|
            0 <= i < source.len() ==> (#[trigger] source[i]).fork || !same_repo(source[i], d),
{
    lemma_filter_membership(destination, not_listed_in(non_forks(source)), d);
    lemma_listed_among_non_forks(source, d);
}

/// Without resync, `to_sync` holds exactly the non-fork source records that
/// the destination does not list.
pub proof fn lemma_to_sync_exact(source: Seq<RepoView>, destination: Seq<RepoView>, s: RepoView)
    ensures
        plan_of(source, destination, false).to_sync.contains(s) <==> source.contains(s) && !s.fork
            && forall|j: int|
            0 <= j < destination.len() ==> !same_repo(#[trigger] destination[j], s),
{
    lemma_filter_membership(non_forks(source), not_listed_in(destination), s);
    lemma_filter_membership(source, has_fork_flag(false), s);
}

/// Under resync every non-fork source record is transferred, whatever the
/// destination holds.
pub proof fn lemma_resync_ignores_destination(
    source: Seq<RepoView>,
    destination: Seq<RepoView>,
    other: Seq<RepoView>,
)
    ensures
        plan_of(source, destination, true).to_sync == non_forks(source),
        plan_of(source, destination, true).to_sync == plan_of(source, other, true).to_sync,
{
}

/// Forks and non-forks split the source: every record is in exactly one part.
pub proof fn lemma_fork_partition(source: Seq<RepoView>, r: RepoView)
    ensures
        source.contains(r) <==> forks_of(source).contains(r) || non_forks(source).contains(r),
        !(forks_of(source).contains(r) && non_forks(source).contains(r)),
        forks_of(source).len() + non_forks(source).len() == source.len(),
{
    lemma_filter_membership(source, has_fork_flag(true), r);
    lemma_filter_membership(source, has_fork_flag(false), r);
    lemma_fork_counts(source);
}

/// The two parts of the fork split have as many records as the source.
pub proof fn lemma_fork_counts(source: Seq<RepoView>)
    ensures
        forks_of(source).len() + non_forks(source).len() == source.len(),
    decreases source.len(),
{
    reveal(Seq::filter);
    if source.len() > 0 {
        lemma_fork_counts(source.drop_last());
    }
}

/// Copies a list of records.
pub fn copy_inventory(repos: &Vec<Repo>) -> (out: Vec<Repo>)
    ensures
        views(out@) == views(repos@),
{
    let mut out: Vec<Repo> = Vec::new();
    let mut i: usize = 0;
    while i < repos.len()
        invariant
            i <= repos.len(),
            out@.len() == i,
            forall|j: int| 0 <= j < i ==> (#[trigger] out@[j])@ == repos@[j]@,
        decreases repos.len() - i,
    {
        out.push(repos[i].clone());
        i += 1;
    }
    assert(views(out@) =~= views(repos@));
    out
}

/// Whether `inventory` lists the repository that `r` denotes.
pub fn is_listed(inventory: &Vec<Repo>, r: &Repo) -> (res: bool)
    ensures
        res == listed(views(inventory@), r@),
{
    let mut i: usize = 0;
    while i < inventory.len()
        invariant
            i <= inventory.len(),
            forall|j: int| 0 <= j < i ==> !same_repo(#[trigger] views(inventory@)[j], r@),
        decreases inventory.len() - i,
    {
        if inventory[i] == *r {
            assert(same_repo(views(inventory@)[i as int], r@));
            return true;
        }
        i += 1;
    }
    false
}

/// The records of `source` whose fork flag is `fork`, in order.
pub fn select_by_fork(source: &Vec<Repo>, fork: bool) -> (out: Vec<Repo>)
    ensures
        views(out@) == views(source@).filter(has_fork_flag(fork)),
{
    let mut out: Vec<Repo> = Vec::new();
    let mut i: usize = 0;
    proof {
        reveal(Seq::filter);
        assert(views(source@).take(0) =~= Seq::<RepoView>::empty());
        assert(views(out@) =~= Seq::<RepoView>::empty());
    }
    while i < source.len()
        invariant
            i <= source.len(),
            views(out@) == views(source@).take(i as int).filter(has_fork_flag(fork)),
        decreases source.len() - i,
    {
        proof {
            lemma_views_take_next(source@, i as int);
            lemma_filter_push(views(source@).take(i as int), has_fork_flag(fork), source@[i as int]@);
        }
        if source[i].fork == fork {
            let r = source[i].clone();
            proof {
                lemma_views_push(out@, r);
            }
            out.push(r);
        }
        i += 1;
    }
    assert(views(source@).take(source.len() as int) =~= views(source@));
    out
}

/// The records of `items` that `other` does not list, in order.
pub fn select_missing(items: &Vec<Repo>, other: &Vec<Repo>) -> (out: Vec<Repo>)
    ensures
        views(out@) == missing_from(views(items@), views(other@)),
{
    let mut out: Vec<Repo> = Vec::new();
    let mut i: usize = 0;
    let ghost pred = not_listed_in(views(other@));
    proof {
        reveal(Seq::filter);
        assert(views(items@).take(0) =~= Seq::<RepoView>::empty());
        assert(views(out@) =~= Seq::<RepoView>::empty());
    }
    while i < items.len()
        invariant
            i <= items.len(),
            pred == not_listed_in(views(other@)),
            views(out@) == views(items@).take(i as int).filter(pred),
        decreases items.len() - i,
    {
        proof {
            lemma_views_take_next(items@, i as int);
            lemma_filter_push(views(items@).take(i as int), pred, items@[i as int]@);
        }
        if !is_listed(other, &items[i]) {
            let r = items[i].clone();
            proof {
                lemma_views_push(out@, r);
            }
            out.push(r);
        }
        i += 1;
    }
    assert(views(items@).take(items.len() as int) =~= views(items@));
    out
}

/// The records of `repos` whose privacy flag is `private`, in order.
pub fn select_by_privacy(repos: &Vec<Repo>, private: bool) -> (out: Vec<Repo>)
    ensures
        views(out@) == views(repos@).filter(repo_is_private(private)),
{
    let mut out: Vec<Repo> = Vec::new();
    let mut i: usize = 0;
    proof {
        reveal(Seq::filter);
        assert(views(repos@).take(0) =~= Seq::<RepoView>::empty());
        assert(views(out@) =~= Seq::<RepoView>::empty());
    }
    while i < repos.len()
        invariant
            i <= repos.len(),
            views(out@) == views(repos@).take(i as int).filter(repo_is_private(private)),
        decreases repos.len() - i,
    {
        proof {
            lemma_views_take_next(repos@, i as int);
            lemma_filter_push(
                views(repos@).take(i as int),
                repo_is_private(private),
                repos@[i as int]@,
            );
        }
        if repos[i].private == private {
            let r = repos[i].clone();
            proof {
                lemma_views_push(out@, r);
            }
            out.push(r);
        }
        i += 1;
    }
    assert(views(repos@).take(repos.len() as int) =~= views(repos@));
    out
}

impl SyncPlan {
    /// The repositories to sync that are transferred without a question of
    /// their own: those that are not private.
    pub fn unattended(&self) -> (out: Vec<Repo>)
        ensures
            views(out@) == self@.to_sync.filter(repo_is_private(false)),
    {
        select_by_privacy(&self.to_sync, false)
    }

    /// The repositories to sync that are held back until the operator has
    /// agreed to each: the private ones.
    pub fn held_for_consent(&self) -> (out: Vec<Repo>)
        ensures
            views(out@) == self@.to_sync.filter(repo_is_private(true)),
    {
        select_by_privacy(&self.to_sync, true)
    }
}

/// Computes the plan for one run.
///
/// Forks are split off first. What remains of the source is transferred when
/// the destination does not list it, or always under `resync`. A destination
/// repository is removed when no non-fork source repository denotes it.
pub fn diff_inventories(source: &Vec<Repo>, destination: &Vec<Repo>, resync: bool) -> (plan:
    SyncPlan)
    ensures
        plan@ == plan_of(views(source@), views(destination@), resync),
{
    let kept = select_by_fork(source, false);
    let forks = select_by_fork(source, true);
    let to_delete = select_missing(destination, &kept);
    let to_sync = if resync {
        kept
    } else {
        select_missing(&kept, destination)
    };
    SyncPlan { to_sync, forks, to_delete }
}

} // verus!
