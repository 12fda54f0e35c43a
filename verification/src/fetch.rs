//! The repository directory fetcher: drives a paginated listing into one
//! inventory.
//!
//! Pages are asked for from page 1 on, until a page comes back empty. What
//! the pages held is concatenated in the order in which it came. No page cap
//! is enforced, and a short page does not end the enumeration: only an empty
//! one does.
use crate::diff::views;
use crate::utils::{Repo, RepoView};
use vstd::prelude::*;

verus! {

/// Number of records asked for per page.
pub const PAGE_SIZE: usize = 100;

/// Mathematical model of a [`Fetcher`].
pub struct FetcherView {
    /// The number of the page that is asked for next (or was asked for last,
    /// once the enumeration has finished).
    pub next_page: nat,
    /// What the pages held so far.
    pub inventory: Seq<RepoView>,
    /// Whether an empty page has come back.
    pub finished: bool,
}

/// An enumeration under way.
#[derive(Debug)]
pub struct Fetcher {
    next_page: usize,
    inventory: Vec<Repo>,
    finished: bool,
}

/// What the fetcher wants done next.
#[derive(Debug, Clone, Copy, PartialEq, Eq, Structural)]
pub enum FetchAction {
    /// Ask the platform for this page, with this many records per page.
    Request { page: usize, per_page: usize },
    /// The inventory is complete.
    Finished,
}

/// Report on one page that came back.
#[derive(Debug, Clone, Copy, PartialEq, Eq, Structural)]
pub struct PageProgress {
    /// The number of the page.
    pub page: usize,
    /// How many records it held.
    pub count: usize,
}

/// The state before the first page.
pub open spec fn fetch_initial() -> FetcherView {
    FetcherView { next_page: 1, inventory: Seq::empty(), finished: false }
}

/// The state after `page` came back in state `f`.
pub open spec fn fetch_accept(f: FetcherView, page: Seq<RepoView>) -> FetcherView {
    if f.finished {
        f
    } else if page.len() == 0 {
        FetcherView { finished: true, ..f }
    } else {
        FetcherView { next_page: f.next_page + 1, inventory: f.inventory + page, finished: false }
    }
}

/// What is asked of the platform in state `f`.
pub open spec fn fetch_pending(f: FetcherView) -> FetchAction {
    if f.finished {
        FetchAction::Finished
    } else {
        FetchAction::Request { page: f.next_page as usize, per_page: PAGE_SIZE }
    }
}

/// The number of requests that have been answered in state `f`.
pub open spec fn requests_answered(f: FetcherView) -> nat {
    if f.finished {
        f.next_page
    } else {
        (f.next_page - 1) as nat
    }
}

impl View for Fetcher {
    type V = FetcherView;

    closed spec fn view(&self) -> FetcherView {
        FetcherView {
            next_page: self.next_page as nat,
            inventory: views(self.inventory@),
            finished: self.finished,
        }
    }
}

/// The models of two runs of records, one after the other.
pub proof fn lemma_views_add(a: Seq<Repo>, b: Seq<Repo>)
    ensures
        views(a + b) == views(a) + views(b),
{
    assert(views(a + b) =~= views(a) + views(b));
}

impl Fetcher {
    /// Starts an enumeration.
    pub fn new() -> (f: Fetcher)
        ensures
            f@ == fetch_initial(),
    {
        let f = Fetcher { next_page: 1, inventory: Vec::new(), finished: false };
        assert(views(f.inventory@) =~= Seq::<RepoView>::empty());
        f
    }

    /// The number of the page that is asked for next.
    pub fn next_page(&self) -> (p: usize)
        ensures
            p == self@.next_page,
    {
        self.next_page
    }

    /// Whether the enumeration has finished.
    pub fn is_finished(&self) -> (b: bool)
        ensures
            b == self@.finished,
    {
        self.finished
    }

    /// What to ask of the platform next.
    pub fn pending(&self) -> (action: FetchAction)
        ensures
            action == fetch_pending(self@),
    {
        if self.finished {
            FetchAction::Finished
        } else {
            FetchAction::Request { page: self.next_page, per_page: PAGE_SIZE }
        }
    }

    /// Takes the page that the platform returned. An empty page ends the
    /// enumeration; any other is appended and the next page is due. Once the
    /// enumeration has finished, further pages are ignored.
    ///
    /// The report is for the progress sink: one per page that was asked for.
    pub fn accept(&mut self, page: Vec<Repo>) -> (progress: Option<PageProgress>)
        requires
            old(self)@.next_page < usize::MAX,
        ensures
            final(self)@ == fetch_accept(old(self)@, views(page@)),
            progress == if old(self)@.finished {
                None
            } else {
                Some(PageProgress { page: old(self)@.next_page as usize, count: page@.len() as usize })
            },
    {
        if self.finished {
            return None;
        }
        let report = PageProgress { page: self.next_page, count: page.len() };
        if page.len() == 0 {
            self.finished = true;
        } else {
            let mut page = page;
            proof {
                lemma_views_add(self.inventory@, page@);
            }
            self.inventory.append(&mut page);
            self.next_page = self.next_page + 1;
        }
        Some(report)
    }

    /// The records gathered so far; the whole inventory once the enumeration
    /// has finished.
    pub fn into_inventory(self) -> (inventory: Vec<Repo>)
        ensures
            views(inventory@) == self@.inventory,
    {
        self.inventory
    }
}

/// The state after the pages `pages` came back, in order, from the start.
pub open spec fn fetch_run(pages: Seq<Seq<RepoView>>) -> FetcherView
    decreases pages.len(),
{
    if pages.len() == 0 {
        fetch_initial()
    } else {
        fetch_accept(fetch_run(pages.drop_last()), pages.last())
    }
}

/// The pages one after the other.
pub open spec fn joined(pages: Seq<Seq<RepoView>>) -> Seq<RepoView>
    decreases pages.len(),
{
    if pages.len() == 0 {
        Seq::empty()
    } else {
        joined(pages.drop_last()) + pages.last()
    }
}

/// While no page is empty the enumeration goes on: the inventory is what
/// the pages held, in order, and the next page is due.
pub proof fn lemma_fetch_nonempty_pages(pages: Seq<Seq<RepoView>>)
    requires
        forall|i: int| 0 <= i < pages.len() ==> (#[trigger] pages[i]).len() > 0,
    ensures
        fetch_run(pages) == (FetcherView {
            next_page: pages.len() + 1,
            inventory: joined(pages),
            finished: false,
        }),
        requests_answered(fetch_run(pages)) == pages.len(),
    decreases pages.len(),
{
    if pages.len() > 0 {
        lemma_fetch_nonempty_pages(pages.drop_last());
    }
}

/// Pages that hold records, then an empty page: the enumeration finishes
/// with what the pages held, in order, after one request per page and one
/// more for the empty page.
pub proof fn lemma_fetch_until_empty(pages: Seq<Seq<RepoView>>)
    requires
        forall|i: int| 0 <= i < pages.len() ==> (#[trigger] pages[i]).len() > 0,
    ensures
        fetch_run(pages.push(Seq::empty())) == (FetcherView {
            next_page: pages.len() + 1,
            inventory: joined(pages),
            finished: true,
        }),
        requests_answered(fetch_run(pages.push(Seq::empty()))) == pages.len() + 1,
        fetch_pending(fetch_run(pages.push(Seq::empty()))) == FetchAction::Finished,
{
    lemma_fetch_nonempty_pages(pages);
    assert(pages.push(Seq::empty()).drop_last() =~= pages);
}

/// Once the enumeration has finished, no page changes it.
pub proof fn lemma_fetch_finished_is_final(f: FetcherView, page: Seq<RepoView>)
    requires
        f.finished,
    ensures
        fetch_accept(f, page) == f,
{
}

/// A page that holds records makes the inventory longer by its length, so
/// an enumeration whose pages add up to a bounded total ends.
pub proof fn lemma_fetch_inventory_grows(f: FetcherView, page: Seq<RepoView>)
    requires
        !f.finished,
        page.len() > 0,
    ensures
        fetch_accept(f, page).inventory.len() == f.inventory.len() + page.len(),
        fetch_accept(f, page).inventory.len() > f.inventory.len(),
{
}

} // verus!
