//! Github Repo struct and conversion to Repo struct
use crate::utils::{Repo, RepoView};
use vstd::prelude::*;
use vstd::std_specs::convert::FromSpecImpl;

verus! {

/// Github Repo
#[derive(Debug)]
pub struct RepoGithub {
    /// Repository ID
    pub id: u64,
    /// Repository name
    pub name: String,
    /// Repository description
    pub description: Option<String>,
    /// Repository private status
    pub private: bool,
    /// Repository URL
    pub html_url: String,
    /// Repository fork status
    pub fork: bool,
}

/// Mathematical model of a [`RepoGithub`].
pub struct RepoGithubView {
    pub id: u64,
    pub name: Seq<char>,
    pub description: Option<Seq<char>>,
    pub private: bool,
    pub html_url: Seq<char>,
    pub fork: bool,
}

/// The model of an optional text.
pub open spec fn optional_text(text: Option<String>) -> Option<Seq<char>> {
    match text {
        Some(t) => Some(t@),
        None => None,
    }
}

/// An optional text, or the empty text where there is none.
pub open spec fn text_or_empty(text: Option<Seq<char>>) -> Seq<char> {
    match text {
        Some(t) => t,
        None => Seq::empty(),
    }
}

impl View for RepoGithub {
    type V = RepoGithubView;

    open spec fn view(&self) -> RepoGithubView {
        RepoGithubView {
            id: self.id,
            name: self.name@,
            description: optional_text(self.description),
            private: self.private,
            html_url: self.html_url@,
            fork: self.fork,
        }
    }
}

/// The record that a GitHub repository stands for: GitHub addresses a
/// repository by its name, so the path is the name; a repository without a
/// description has the empty one.
pub open spec fn repo_of_github(r: RepoGithubView) -> RepoView {
    RepoView {
        name: r.name,
        path: r.name,
        description: text_or_empty(r.description),
        private: r.private,
        fork: r.fork,
    }
}

impl From<RepoGithub> for Repo {
    fn from(repo: RepoGithub) -> (res: Repo)
        ensures
            res@ == repo_of_github(repo@),
    {
        Repo {
            name: repo.name.clone(),
            path: repo.name,
            description: match repo.description {
                Some(d) => d,
                None => String::new(),
            },
            private: repo.private,
            fork: repo.fork,
        }
    }
}

/// The conversion is pinned by the model of its result, which the contract
/// of `from` states; no record is singled out beyond that.
impl FromSpecImpl<RepoGithub> for Repo {
    open spec fn obeys_from_spec() -> bool {
        false
    }

    open spec fn from_spec(repo: RepoGithub) -> Repo {
        choose|res: Repo| res@ == repo_of_github(repo@)
    }
}

/// The models of a sequence of RepoGithub values, in the same order.
pub open spec fn wire_views(wires: Seq<RepoGithub>) -> Seq<RepoGithubView> {
    wires.map_values(|w: RepoGithub| w@)
}

/// The records that a page of the platform's answer stands for, in order.
pub open spec fn page_of(wires: Seq<RepoGithubView>) -> Seq<RepoView> {
    wires.map_values(|w: RepoGithubView| repo_of_github(w))
}

impl RepoGithub {
    /// The record that this value stands for.
    pub fn to_repo(&self) -> (res: Repo)
        ensures
            res@ == repo_of_github(self@),
    {
        Repo {
            name: self.name.clone(),
            path: self.name.clone(),
            description: match &self.description {
                Some(d) => d.clone(),
                None => String::new(),
            },
            private: self.private,
            fork: self.fork,
        }
    }
}

/// Turns a page of the platform's answer into records, in order.
pub fn inventory_page(wires: &Vec<RepoGithub>) -> (out: Vec<Repo>)
    ensures
        crate::diff::views(out@) == page_of(wire_views(wires@)),
{
    let mut out: Vec<Repo> = Vec::new();
    let mut i: usize = 0;
    while i < wires.len()
        invariant
            i <= wires.len(),
            out@.len() == i,
            forall|j: int| 0 <= j < i ==> (#[trigger] out@[j])@ == repo_of_github(wires@[j]@),
        decreases wires.len() - i,
    {
        out.push(wires[i].to_repo());
        i += 1;
    }
    assert(crate::diff::views(out@) =~= page_of(wire_views(wires@)));
    out
}

} // verus!
