//! Gitlab Repo module
use crate::github::repo::{optional_text, text_or_empty};
use crate::utils::{Repo, RepoView};
use vstd::prelude::*;
use vstd::std_specs::convert::FromSpecImpl;

verus! {

/// The project that a Gitlab project was forked from.
#[derive(Debug, Clone, Copy, PartialEq, Eq, Structural)]
pub struct ForkRepo {
    /// Forked from project id
    pub id: u64,
}

/// Gitlab Repo
#[derive(Debug)]
pub struct GitlabRepo {
    /// Repo name
    pub name: String,
    /// Repo path
    pub path: String,
    /// Repo description
    pub description: Option<String>,
    /// Repo visibility
    pub visibility: String,
    /// Forked from project
    pub forked_from_project: Option<ForkRepo>,
}

/// Mathematical model of a [`GitlabRepo`].
pub struct GitlabRepoView {
    pub name: Seq<char>,
    pub path: Seq<char>,
    pub description: Option<Seq<char>>,
    pub visibility: Seq<char>,
    pub forked_from_project: Option<ForkRepo>,
}

impl View for GitlabRepo {
    type V = GitlabRepoView;

    open spec fn view(&self) -> GitlabRepoView {
        GitlabRepoView {
            name: self.name@,
            path: self.path@,
            description: optional_text(self.description),
            visibility: self.visibility@,
            forked_from_project: self.forked_from_project,
        }
    }
}

/// What is sent to Gitlab to change a project.
#[derive(Debug)]
pub struct GitlabRepoEdition {
    /// Repo description
    pub description: String,
    /// Repo visibility
    pub visibility: String,
}

/// Mathematical model of a [`GitlabRepoEdition`].
pub struct GitlabRepoEditionView {
    pub description: Seq<char>,
    pub visibility: Seq<char>,
}

impl View for GitlabRepoEdition {
    type V = GitlabRepoEditionView;

    open spec fn view(&self) -> GitlabRepoEditionView {
        GitlabRepoEditionView { description: self.description@, visibility: self.visibility@ }
    }
}

/// The visibility under which Gitlab holds a project.
pub open spec fn visibility_of(private: bool) -> Seq<char> {
    if private {
        "private"@
    } else {
        "public"@
    }
}

/// The visibility under which Gitlab holds a project.
pub fn visibility(private: bool) -> (v: String)
    ensures
        v@ == visibility_of(private),
{
    if private {
        "private".to_owned()
    } else {
        "public".to_owned()
    }
}

/// The record that a Gitlab project stands for: it is private exactly when
/// its visibility is `private`, and a fork exactly when it names the project
/// that it was forked from; a project without a description has the empty
/// one.
pub open spec fn repo_of_gitlab(r: GitlabRepoView) -> RepoView {
    RepoView {
        name: r.name,
        path: r.path,
        description: text_or_empty(r.description),
        private: r.visibility == "private"@,
        fork: r.forked_from_project is Some,
    }
}

impl From<GitlabRepo> for Repo {
    fn from(repo: GitlabRepo) -> (res: Repo)
        ensures
            res@ == repo_of_gitlab(repo@),
    {
        let private = crate::text::same_text(repo.visibility.as_str(), "private");
        Repo {
            name: repo.name,
            path: repo.path,
            description: match repo.description {
                Some(d) => d,
                None => String::new(),
            },
            private,
            fork: repo.forked_from_project.is_some(),
        }
    }
}

/// The conversion is pinned by the model of its result, which the contract
/// of `from` states; no record is singled out beyond that.
impl FromSpecImpl<GitlabRepo> for Repo {
    open spec fn obeys_from_spec() -> bool {
        false
    }

    open spec fn from_spec(repo: GitlabRepo) -> Repo {
        choose|res: Repo| res@ == repo_of_gitlab(repo@)
    }
}

/// The models of a sequence of GitlabRepo values, in the same order.
pub open spec fn wire_views(wires: Seq<GitlabRepo>) -> Seq<GitlabRepoView> {
    wires.map_values(|w: GitlabRepo| w@)
}

/// The records that a page of the platform's answer stands for, in order.
pub open spec fn page_of(wires: Seq<GitlabRepoView>) -> Seq<RepoView> {
    wires.map_values(|w: GitlabRepoView| repo_of_gitlab(w))
}

impl GitlabRepo {
    /// The record that this value stands for.
    pub fn to_repo(&self) -> (res: Repo)
        ensures
            res@ == repo_of_gitlab(self@),
    {
        Repo {
            name: self.name.clone(),
            path: self.path.clone(),
            description: match &self.description {
                Some(d) => d.clone(),
                None => String::new(),
            },
            private: crate::text::same_text(self.visibility.as_str(), "private"),
            fork: self.forked_from_project.is_some(),
        }
    }
}

/// Turns a page of the platform's answer into records, in order.
pub fn inventory_page(wires: &Vec<GitlabRepo>) -> (out: Vec<Repo>)
    ensures
        crate::diff::views(out@) == page_of(wire_views(wires@)),
{
    let mut out: Vec<Repo> = Vec::new();
    let mut i: usize = 0;
    while i < wires.len()
        invariant
            i <= wires.len(),
            out@.len() == i,
            forall|j: int| 0 <= j < i ==> (#[trigger] out@[j])@ == repo_of_gitlab(wires@[j]@),
        decreases wires.len() - i,
    {
        out.push(wires[i].to_repo());
        i += 1;
    }
    assert(crate::diff::views(out@) =~= page_of(wire_views(wires@)));
    out
}

} // verus!
