//! Gitlab platform implementation
use super::repo::{
    repo_of_gitlab, visibility, visibility_of, GitlabRepo, GitlabRepoEdition,
    GitlabRepoEditionView, GitlabRepoView,
};
use crate::errors::{GitMoverError, GitMoverErrorKind, GitMoverErrorView};
use crate::fetch::PAGE_SIZE;
use crate::http::{
    no_pairs, pair, pair_of, pair_views, pairs1, pairs2, pairs3, url_encode, url_encoded, HttpMethod,
    HttpRequest, HttpRequestView, Pair, PairView, RequestBody, RequestBodyView,
};
use crate::platform::{Platform, PlatformType, PlatformView};
use crate::text::{decimal, decimal_string};
use crate::utils::{Repo, RepoView};
use vstd::prelude::*;
use vstd::string::StringExecFns;

verus! {

/// Gitlab URL
pub const GITLAB_URL: &'static str = "gitlab.com";

/// The host of a Gitlab: the custom one, or Gitlab's own where none is set.
pub open spec fn gitlab_host(custom_url: Option<Seq<char>>) -> Seq<char> {
    match custom_url {
        Some(host) => host,
        None => GITLAB_URL@,
    }
}

/// The address of the projects.
pub open spec fn gitlab_projects_url(host: Seq<char>) -> Seq<char> {
    "https://"@ + host + "/api/v4/projects"@
}

/// The address of one project: the projects' address, then the user name
/// and the path, joined by a slash, as one encoded segment.
pub open spec fn gitlab_project_url(host: Seq<char>, username: Seq<char>, path: Seq<char>) -> Seq<
    char,
> {
    gitlab_projects_url(host) + "/"@ + url_encoded(username + "/"@ + path)
}

/// The header that presents the token.
pub open spec fn gitlab_token_header(token: Seq<char>) -> PairView {
    pair_of("PRIVATE-TOKEN"@, token)
}

/// The headers that present the token and ask for JSON.
pub open spec fn gitlab_read_headers(token: Seq<char>) -> Seq<PairView> {
    seq![gitlab_token_header(token), pair_of("accept"@, "application/json"@)]
}

/// The headers of a request that sends JSON.
pub open spec fn gitlab_headers(token: Seq<char>) -> Seq<PairView> {
    seq![
        gitlab_token_header(token),
        pair_of("accept"@, "application/json"@),
        pair_of("content-type"@, "application/json"@),
    ]
}

/// The Gitlab form of a record that is to be created.
pub open spec fn gitlab_body(repo: RepoView) -> GitlabRepoView {
    GitlabRepoView {
        name: repo.name,
        path: repo.path,
        description: Some(repo.description),
        visibility: visibility_of(repo.private),
        forked_from_project: None,
    }
}

/// What is sent to change a project to `repo`.
pub open spec fn gitlab_edition(repo: RepoView) -> GitlabRepoEditionView {
    GitlabRepoEditionView {
        description: repo.description,
        visibility: visibility_of(repo.private),
    }
}

/// Gitlab platform
#[derive(Debug)]
pub struct GitlabPlatform {
    /// Gitlab username
    username: String,
    /// Gitlab token
    token: String,
    /// Host of the Gitlab
    host: String,
}

/// What a lookup on Gitlab found: the first project of the answer, or
/// nothing.
pub open spec fn first_project(projects: Seq<GitlabRepoView>) -> Option<RepoView> {
    if projects.len() > 0 {
        Some(repo_of_gitlab(projects[0]))
    } else {
        None
    }
}

/// The models of a sequence of projects, in the same order.
pub open spec fn project_views(projects: Seq<GitlabRepo>) -> Seq<GitlabRepoView> {
    projects.map_values(|p: GitlabRepo| p@)
}

impl GitlabPlatform {
    /// What is known of a Gitlab for a user, a token and a custom address.
    pub open spec fn model_of(
        username: Seq<char>,
        token: Seq<char>,
        custom_url: Option<Seq<char>>,
    ) -> PlatformView {
        PlatformView {
            kind: PlatformType::Gitlab,
            host: gitlab_host(custom_url),
            username,
            token,
        }
    }

    /// Create a new Gitlab platform
    pub fn new(username: String, token: String, custom_url: Option<String>) -> (p: Self)
        ensures
            p.model() == Self::model_of(
                username@,
                token@,
                crate::config::setting_view(custom_url),
            ),
    {
        let host = match custom_url {
            Some(host) => host,
            None => String::from_str(GITLAB_URL),
        };
        Self { username, token, host }
    }

    /// Reads the answer to a lookup: the first project that the search
    /// returned. An answer without projects is an error of kind `NotFound`
    /// whose message is the body of the answer.
    pub fn found(projects: Vec<GitlabRepo>, body: &str) -> (res: Result<Repo, GitMoverError>)
        ensures
            match res {
                Ok(repo) => first_project(project_views(projects@)) == Some(repo@),
                Err(e) => first_project(project_views(projects@)) is None && e@
                    == (GitMoverErrorView {
                    kind: GitMoverErrorKind::NotFound,
                    message: body@,
                    source: None,
                }),
            },
    {
        let mut projects = projects;
        if projects.len() > 0 {
            let project = projects.swap_remove(0);
            Ok(project.to_repo())
        } else {
            Err(GitMoverError::with_kind(GitMoverErrorKind::NotFound, String::from_str(body)))
        }
    }

    fn token_header(&self) -> (p: Pair)
        ensures
            p@ == gitlab_token_header(self.model().token),
    {
        pair("PRIVATE-TOKEN", self.token.as_str())
    }

    fn headers(&self) -> (v: Vec<Pair>)
        ensures
            pair_views(v@) == gitlab_headers(self.model().token),
    {
        pairs3(
            self.token_header(),
            pair("accept", "application/json"),
            pair("content-type", "application/json"),
        )
    }

    fn read_headers(&self) -> (v: Vec<Pair>)
        ensures
            pair_views(v@) == gitlab_read_headers(self.model().token),
    {
        pairs2(self.token_header(), pair("accept", "application/json"))
    }

    fn projects_url(&self) -> (url: String)
        ensures
            url@ == gitlab_projects_url(self.model().host),
    {
        String::from_str("https://").concat(self.host.as_str()).concat("/api/v4/projects")
    }

    fn project_url(&self, path: &str) -> (url: String)
        ensures
            url@ == gitlab_project_url(self.model().host, self.model().username, path@),
    {
        let segment = self.username.clone().concat("/").concat(path);
        self.projects_url().concat("/").concat(url_encode(segment.as_str()).as_str())
    }
}

impl Platform for GitlabPlatform {
    closed spec fn model(&self) -> PlatformView {
        PlatformView {
            kind: PlatformType::Gitlab,
            host: self.host@,
            username: self.username@,
            token: self.token@,
        }
    }

    open spec fn create_request_spec(&self, repo: RepoView) -> HttpRequestView {
        HttpRequestView {
            method: HttpMethod::Post,
            url: gitlab_projects_url(self.model().host),
            headers: gitlab_headers(self.model().token),
            query: Seq::empty(),
            body: RequestBodyView::Gitlab(gitlab_body(repo)),
        }
    }

    open spec fn get_request_spec(&self, name: Seq<char>) -> HttpRequestView {
        HttpRequestView {
            method: HttpMethod::Get,
            url: gitlab_projects_url(self.model().host),
            headers: seq![gitlab_token_header(self.model().token)],
            query: seq![pair_of("owned"@, "true"@), pair_of("search"@, name)],
            body: RequestBodyView::Empty,
        }
    }

    open spec fn edit_request_spec(&self, repo: RepoView) -> HttpRequestView {
        HttpRequestView {
            method: HttpMethod::Put,
            url: gitlab_project_url(self.model().host, self.model().username, repo.path),
            headers: gitlab_headers(self.model().token),
            query: Seq::empty(),
            body: RequestBodyView::GitlabEdition(gitlab_edition(repo)),
        }
    }

    open spec fn list_request_spec(&self, page: nat) -> HttpRequestView {
        HttpRequestView {
            method: HttpMethod::Get,
            url: gitlab_projects_url(self.model().host),
            headers: gitlab_read_headers(self.model().token),
            query: seq![
                pair_of("per_page"@, decimal(PAGE_SIZE as nat)),
                pair_of("page"@, decimal(page)),
                pair_of("owned"@, "true"@),
            ],
            body: RequestBodyView::Empty,
        }
    }

    open spec fn delete_request_spec(&self, name: Seq<char>) -> HttpRequestView {
        HttpRequestView {
            method: HttpMethod::Delete,
            url: gitlab_project_url(self.model().host, self.model().username, name),
            headers: gitlab_read_headers(self.model().token),
            query: Seq::empty(),
            body: RequestBodyView::Empty,
        }
    }

    open spec fn lookup_key_spec(&self, repo: RepoView) -> Seq<char> {
        repo.path
    }

    open spec fn as_stored_spec(&self, repo: RepoView) -> RepoView {
        repo_of_gitlab(gitlab_body(repo))
    }

    fn get_remote_url(&self) -> (h: String) {
        self.host.clone()
    }

    fn get_username(&self) -> (u: &str) {
        self.username.as_str()
    }

    fn get_type(&self) -> (k: PlatformType) {
        PlatformType::Gitlab
    }

    fn create_request(&self, repo: &Repo) -> (req: HttpRequest) {
        HttpRequest {
            method: HttpMethod::Post,
            url: self.projects_url(),
            headers: self.headers(),
            query: no_pairs(),
            body: RequestBody::Gitlab(gitlab_form(repo)),
        }
    }

    fn get_request(&self, name: &str) -> (req: HttpRequest) {
        HttpRequest {
            method: HttpMethod::Get,
            url: self.projects_url(),
            headers: pairs1(self.token_header()),
            query: pairs2(pair("owned", "true"), pair("search", name)),
            body: RequestBody::Empty,
        }
    }

    fn edit_request(&self, repo: &Repo) -> (req: HttpRequest) {
        HttpRequest {
            method: HttpMethod::Put,
            url: self.project_url(repo.path.as_str()),
            headers: self.headers(),
            query: no_pairs(),
            body: RequestBody::GitlabEdition(
                GitlabRepoEdition {
                    description: repo.description.clone(),
                    visibility: visibility(repo.private),
                },
            ),
        }
    }

    fn list_request(&self, page: usize) -> (req: HttpRequest) {
        HttpRequest {
            method: HttpMethod::Get,
            url: self.projects_url(),
            headers: self.read_headers(),
            query: pairs3(
                pair("per_page", decimal_string(PAGE_SIZE).as_str()),
                pair("page", decimal_string(page).as_str()),
                pair("owned", "true"),
            ),
            body: RequestBody::Empty,
        }
    }

    fn delete_request(&self, name: &str) -> (req: HttpRequest) {
        HttpRequest {
            method: HttpMethod::Delete,
            url: self.project_url(name),
            headers: self.read_headers(),
            query: no_pairs(),
            body: RequestBody::Empty,
        }
    }

    fn lookup_key(&self, repo: &Repo) -> (key: String) {
        repo.path.clone()
    }

    fn as_stored(&self, repo: &Repo) -> (stored: Repo) {
        gitlab_form(repo).to_repo()
    }
}

/// The Gitlab form of a record that is to be created.
pub fn gitlab_form(repo: &Repo) -> (project: GitlabRepo)
    ensures
        project@ == gitlab_body(repo@),
{
    GitlabRepo {
        name: repo.name.clone(),
        path: repo.path.clone(),
        description: Some(repo.description.clone()),
        visibility: visibility(repo.private),
        forked_from_project: None,
    }
}

} // verus!
