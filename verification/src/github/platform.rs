//! Github Platform
use crate::fetch::PAGE_SIZE;
use crate::http::{
    no_pairs, pair, pair_of, pair_views, pairs3, pairs4, url_encode, url_encoded, HttpMethod, HttpRequest,
    HttpRequestView, Pair, PairView, RequestBody, RequestBodyView,
};
use crate::platform::{Platform, PlatformType, PlatformView};
use crate::text::{decimal, decimal_string};
use crate::utils::{Repo, RepoView};
use vstd::prelude::*;
use vstd::string::StringExecFns;

verus! {

/// GitHub URL
pub const GITHUB_URL: &'static str = "github.com";

/// GitHub API URL
pub const GITHUB_API_URL: &'static str = "api.github.com";

/// GitHub API Header
pub const GITHUB_API_HEADER: &'static str = "X-GitHub-Api-Version";

/// GitHub API Version
pub const GITHUB_API_VERSION: &'static str = "2022-11-28";

/// The address of the user's repositories.
pub open spec fn github_repos_url() -> Seq<char> {
    "https://"@ + GITHUB_API_URL@ + "/user/repos"@
}

/// The address of one repository.
pub open spec fn github_repo_url(username: Seq<char>, name: Seq<char>) -> Seq<char> {
    "https://"@ + GITHUB_API_URL@ + "/repos/"@ + username + "/"@ + url_encoded(name)
}

/// The headers of every request to GitHub.
pub open spec fn github_headers(token: Seq<char>) -> Seq<PairView> {
    seq![
        pair_of("authorization"@, "Bearer "@ + token),
        pair_of("accept"@, "application/vnd.github+json"@),
        pair_of("user-agent"@, "reqwest"@),
        pair_of(GITHUB_API_HEADER@, GITHUB_API_VERSION@),
    ]
}

/// Github Platform
#[derive(Debug)]
pub struct GithubPlatform {
    /// Github username
    username: String,
    /// Github token
    token: String,
}

impl GithubPlatform {
    /// What is known of GitHub for a user and a token.
    pub open spec fn model_of(username: Seq<char>, token: Seq<char>) -> PlatformView {
        PlatformView { kind: PlatformType::Github, host: GITHUB_URL@, username, token }
    }

    /// Create a new GithubPlatform
    pub fn new(username: String, token: String) -> (p: Self)
        ensures
            p.model() == Self::model_of(username@, token@),
    {
        Self { username, token }
    }

    fn headers(&self) -> (v: Vec<Pair>)
        ensures
            pair_views(v@) == github_headers(self.model().token),
    {
        let bearer = String::from_str("Bearer ").concat(self.token.as_str());
        pairs4(
            pair("authorization", bearer.as_str()),
            pair("accept", "application/vnd.github+json"),
            pair("user-agent", "reqwest"),
            pair(GITHUB_API_HEADER, GITHUB_API_VERSION),
        )
    }

    fn repo_url(&self, name: &str) -> (url: String)
        ensures
            url@ == github_repo_url(self.model().username, name@),
    {
        String::from_str("https://").concat(GITHUB_API_URL).concat("/repos/").concat(
            self.username.as_str(),
        ).concat("/").concat(url_encode(name).as_str())
    }

    fn repos_url() -> (url: String)
        ensures
            url@ == github_repos_url(),
    {
        String::from_str("https://").concat(GITHUB_API_URL).concat("/user/repos")
    }
}

impl Platform for GithubPlatform {
    closed spec fn model(&self) -> PlatformView {
        Self::model_of(self.username@, self.token@)
    }

    open spec fn create_request_spec(&self, repo: RepoView) -> HttpRequestView {
        HttpRequestView {
            method: HttpMethod::Post,
            url: github_repos_url(),
            headers: github_headers(self.model().token),
            query: Seq::empty(),
            body: RequestBodyView::Github(repo),
        }
    }

    open spec fn get_request_spec(&self, name: Seq<char>) -> HttpRequestView {
        HttpRequestView {
            method: HttpMethod::Get,
            url: github_repo_url(self.model().username, name),
            headers: github_headers(self.model().token),
            query: Seq::empty(),
            body: RequestBodyView::Empty,
        }
    }

    open spec fn edit_request_spec(&self, repo: RepoView) -> HttpRequestView {
        HttpRequestView {
            method: HttpMethod::Patch,
            url: github_repo_url(self.model().username, repo.name),
            headers: github_headers(self.model().token),
            query: Seq::empty(),
            body: RequestBodyView::Github(repo),
        }
    }

    open spec fn list_request_spec(&self, page: nat) -> HttpRequestView {
        HttpRequestView {
            method: HttpMethod::Get,
            url: github_repos_url(),
            headers: github_headers(self.model().token),
            query: seq![
                pair_of("type"@, "owner"@),
                pair_of("per_page"@, decimal(PAGE_SIZE as nat)),
                pair_of("page"@, decimal(page)),
            ],
            body: RequestBodyView::Empty,
        }
    }

    open spec fn delete_request_spec(&self, name: Seq<char>) -> HttpRequestView {
        HttpRequestView {
            method: HttpMethod::Delete,
            url: github_repo_url(self.model().username, name),
            headers: github_headers(self.model().token),
            query: Seq::empty(),
            body: RequestBodyView::Empty,
        }
    }

    open spec fn lookup_key_spec(&self, repo: RepoView) -> Seq<char> {
        repo.name
    }

    open spec fn as_stored_spec(&self, repo: RepoView) -> RepoView {
        repo
    }

    fn get_remote_url(&self) -> (h: String) {
        String::from_str(GITHUB_URL)
    }

    fn get_username(&self) -> (u: &str) {
        self.username.as_str()
    }

    fn get_type(&self) -> (k: PlatformType) {
        PlatformType::Github
    }

    fn create_request(&self, repo: &Repo) -> (req: HttpRequest) {
        HttpRequest {
            method: HttpMethod::Post,
            url: Self::repos_url(),
            headers: self.headers(),
            query: no_pairs(),
            body: RequestBody::Github(repo.clone()),
        }
    }

    fn get_request(&self, name: &str) -> (req: HttpRequest) {
        HttpRequest {
            method: HttpMethod::Get,
            url: self.repo_url(name),
            headers: self.headers(),
            query: no_pairs(),
            body: RequestBody::Empty,
        }
    }

    fn edit_request(&self, repo: &Repo) -> (req: HttpRequest) {
        HttpRequest {
            method: HttpMethod::Patch,
            url: self.repo_url(repo.name.as_str()),
            headers: self.headers(),
            query: no_pairs(),
            body: RequestBody::Github(repo.clone()),
        }
    }

    fn list_request(&self, page: usize) -> (req: HttpRequest) {
        HttpRequest {
            method: HttpMethod::Get,
            url: Self::repos_url(),
            headers: self.headers(),
            query: pairs3(
                pair("type", "owner"),
                pair("per_page", decimal_string(PAGE_SIZE).as_str()),
                pair("page", decimal_string(page).as_str()),
            ),
            body: RequestBody::Empty,
        }
    }

    fn delete_request(&self, name: &str) -> (req: HttpRequest) {
        HttpRequest {
            method: HttpMethod::Delete,
            url: self.repo_url(name),
            headers: self.headers(),
            query: no_pairs(),
            body: RequestBody::Empty,
        }
    }

    fn lookup_key(&self, repo: &Repo) -> (key: String) {
        repo.name.clone()
    }

    fn as_stored(&self, repo: &Repo) -> (stored: Repo) {
        repo.clone()
    }
}

} // verus!
