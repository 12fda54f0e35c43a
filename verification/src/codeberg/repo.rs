//! Codeberg repository
use crate::utils::{Repo, RepoView};
use vstd::prelude::*;
use vstd::std_specs::convert::FromSpecImpl;

verus! {

/// Codeberg repository
#[derive(Debug)]
pub struct CodebergRepo {
    /// Name of the repository
    pub name: String,
    /// Description of the repository
    pub description: String,
    /// Whether the repository is private
    pub private: bool,
    /// Whether the repository is a fork
    pub fork: bool,
}

/// Mathematical model of a [`CodebergRepo`].
pub struct CodebergRepoView {
    pub name: Seq<char>,
    pub description: Seq<char>,
    pub private: bool,
    pub fork: bool,
}

impl View for CodebergRepo {
    type V = CodebergRepoView;

    open spec fn view(&self) -> CodebergRepoView {
        CodebergRepoView {
            name: self.name@,
            description: self.description@,
            private: self.private,
            fork: self.fork,
        }
    }
}

impl Clone for CodebergRepo {
    fn clone(&self) -> (res: CodebergRepo)
        ensures
            res@ == self@,
    {
        CodebergRepo {
            name: self.name.clone(),
            description: self.description.clone(),
            private: self.private,
            fork: self.fork,
        }
    }
}

/// The record that a Codeberg repository stands for: Codeberg addresses a
/// repository by its name, so the path is the name.
pub open spec fn repo_of_codeberg(r: CodebergRepoView) -> RepoView {
    RepoView {
        name: r.name,
        path: r.name,
        description: r.description,
        private: r.private,
        fork: r.fork,
    }
}

impl From<CodebergRepo> for Repo {
    fn from(repo: CodebergRepo) -> (res: Repo)
        ensures
            res@ == repo_of_codeberg(repo@),
    {
        Repo {
            path: repo.name.clone(),
            name: repo.name,
            description: repo.description,
            private: repo.private,
            fork: repo.fork,
        }
    }
}

/// The conversion is pinned by the model of its result, which the contract
/// of `from` states; no record is singled out beyond that.
impl FromSpecImpl<CodebergRepo> for Repo {
    open spec fn obeys_from_spec() -> bool {
        false
    }

    open spec fn from_spec(repo: CodebergRepo) -> Repo {
        choose|res: Repo| res@ == repo_of_codeberg(repo@)
    }
}

/// The models of a sequence of CodebergRepo values, in the same order.
pub open spec fn wire_views(wires: Seq<CodebergRepo>) -> Seq<CodebergRepoView> {
    wires.map_values(|w: CodebergRepo| w@)
}

/// The records that a page of the platform's answer stands for, in order.
pub open spec fn page_of(wires: Seq<CodebergRepoView>) -> Seq<RepoView> {
    wires.map_values(|w: CodebergRepoView| repo_of_codeberg(w))
}

impl CodebergRepo {
    /// The record that this value stands for.
    pub fn to_repo(&self) -> (res: Repo)
        ensures
            res@ == repo_of_codeberg(self@),
    {
        Repo {
            name: self.name.clone(),
            path: self.name.clone(),
            description: self.description.clone(),
            private: self.private,
            fork: self.fork,
        }
    }
}

/// Turns a page of the platform's answer into records, in order.
pub fn inventory_page(wires: &Vec<CodebergRepo>) -> (out: Vec<Repo>)
    ensures
        crate::diff::views(out@) == page_of(wire_views(wires@)),
{
    let mut out: Vec<Repo> = Vec::new();
    let mut i: usize = 0;
    while i < wires.len()
        invariant
            i <= wires.len(),
            out@.len() == i,
            forall|j: int| 0 <= j < i ==> (#[trigger] out@[j])@ == repo_of_codeberg(wires@[j]@),
        decreases wires.len() - i,
    {
        out.push(wires[i].to_repo());
        i += 1;
    }
    assert(crate::diff::views(out@) =~= page_of(wire_views(wires@)));
    out
}

} // verus!
