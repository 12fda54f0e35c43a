//! Codeberg platform implementation
use super::repo::{CodebergRepo, CodebergRepoView};
use crate::fetch::PAGE_SIZE;
use crate::http::{
    no_pairs, pair, pair_of, pairs2, pairs3, url_encode, url_encoded, HttpMethod, HttpRequest,
    HttpRequestView, PairView, Pair, RequestBody, RequestBodyView,
};
use crate::platform::{Platform, PlatformType, PlatformView};
use crate::text::{decimal, decimal_string};
use crate::utils::{Repo, RepoView};
use vstd::prelude::*;
use vstd::string::StringExecFns;

verus! {

/// Codeberg URL
pub const CODEBERG_URL: &'static str = "codeberg.org";

/// The address of the user's repositories.
pub open spec fn codeberg_repos_url() -> Seq<char> {
    "https://"@ + CODEBERG_URL@ + "/api/v1/user/repos"@
}

/// The address of one repository.
pub open spec fn codeberg_repo_url(username: Seq<char>, name: Seq<char>) -> Seq<char> {
    "https://"@ + CODEBERG_URL@ + "/api/v1/repos/"@ + username + "/"@ + url_encoded(name)
}

/// The headers that present the token and ask for JSON.
pub open spec fn codeberg_read_headers(token: Seq<char>) -> Seq<PairView> {
    seq![
        pair_of("authorization"@, "token "@ + token),
        pair_of("accept"@, "application/json"@),
    ]
}

/// The headers of a request that sends or asks for JSON by name.
pub open spec fn codeberg_headers(token: Seq<char>) -> Seq<PairView> {
    seq![
        pair_of("authorization"@, "token "@ + token),
        pair_of("accept"@, "application/json"@),
        pair_of("content-type"@, "application/json"@),
    ]
}

/// The Codeberg form of a record. A new repository is never a fork.
pub open spec fn codeberg_body(repo: RepoView, fork: bool) -> CodebergRepoView {
    CodebergRepoView { name: repo.name, description: repo.description, private: repo.private, fork }
}

/// Codeberg platform
#[derive(Debug)]
pub struct CodebergPlatform {
    /// Codeberg username
    username: String,
    /// Codeberg token
    token: String,
}

impl CodebergPlatform {
    /// What is known of Codeberg for a user and a token.
    pub open spec fn model_of(username: Seq<char>, token: Seq<char>) -> PlatformView {
        PlatformView { kind: PlatformType::Codeberg, host: CODEBERG_URL@, username, token }
    }

    /// Create a new codeberg platform
    pub fn new(username: String, token: String) -> (p: Self)
        ensures
            p.model() == Self::model_of(username@, token@),
    {
        Self { username, token }
    }

    fn authorization(&self) -> (p: Pair)
        ensures
            p@ == pair_of("authorization"@, "token "@ + self.model().token),
    {
        let value = String::from_str("token ").concat(self.token.as_str());
        pair("authorization", value.as_str())
    }

    fn headers(&self) -> (v: Vec<Pair>)
        ensures
            crate::http::pair_views(v@) == codeberg_headers(self.model().token),
    {
        pairs3(
            self.authorization(),
            pair("accept", "application/json"),
            pair("content-type", "application/json"),
        )
    }

    fn read_headers(&self) -> (v: Vec<Pair>)
        ensures
            crate::http::pair_views(v@) == codeberg_read_headers(self.model().token),
    {
        pairs2(self.authorization(), pair("accept", "application/json"))
    }

    fn repo_url(&self, name: &str) -> (url: String)
        ensures
            url@ == codeberg_repo_url(self.model().username, name@),
    {
        String::from_str("https://").concat(CODEBERG_URL).concat("/api/v1/repos/").concat(
            self.username.as_str(),
        ).concat("/").concat(url_encode(name).as_str())
    }

    fn repos_url() -> (url: String)
        ensures
            url@ == codeberg_repos_url(),
    {
        String::from_str("https://").concat(CODEBERG_URL).concat("/api/v1/user/repos")
    }

    fn body(repo: &Repo, fork: bool) -> (b: CodebergRepo)
        ensures
            b@ == codeberg_body(repo@, fork),
    {
        CodebergRepo {
            name: repo.name.clone(),
            description: repo.description.clone(),
            private: repo.private,
            fork,
        }
    }
}

impl Platform for CodebergPlatform {
    closed spec fn model(&self) -> PlatformView {
        Self::model_of(self.username@, self.token@)
    }

    open spec fn create_request_spec(&self, repo: RepoView) -> HttpRequestView {
        HttpRequestView {
            method: HttpMethod::Post,
            url: codeberg_repos_url(),
            headers: codeberg_headers(self.model().token),
            query: Seq::empty(),
            body: RequestBodyView::Codeberg(codeberg_body(repo, false)),
        }
    }

    open spec fn get_request_spec(&self, name: Seq<char>) -> HttpRequestView {
        HttpRequestView {
            method: HttpMethod::Get,
            url: codeberg_repo_url(self.model().username, name),
            headers: codeberg_headers(self.model().token),
            query: Seq::empty(),
            body: RequestBodyView::Empty,
        }
    }

    open spec fn edit_request_spec(&self, repo: RepoView) -> HttpRequestView {
        HttpRequestView {
            method: HttpMethod::Patch,
            url: codeberg_repo_url(self.model().username, repo.name),
            headers: codeberg_headers(self.model().token),
            query: Seq::empty(),
            body: RequestBodyView::Codeberg(codeberg_body(repo, repo.fork)),
        }
    }

    open spec fn list_request_spec(&self, page: nat) -> HttpRequestView {
        HttpRequestView {
            method: HttpMethod::Get,
            url: codeberg_repos_url(),
            headers: codeberg_read_headers(self.model().token),
            query: seq![
                pair_of("page"@, decimal(page)),
                pair_of("limit"@, decimal(PAGE_SIZE as nat)),
            ],
            body: RequestBodyView::Empty,
        }
    }

    open spec fn delete_request_spec(&self, name: Seq<char>) -> HttpRequestView {
        HttpRequestView {
            method: HttpMethod::Delete,
            url: codeberg_repo_url(self.model().username, name),
            headers: codeberg_read_headers(self.model().token),
            query: Seq::empty(),
            body: RequestBodyView::Empty,
        }
    }

    open spec fn lookup_key_spec(&self, repo: RepoView) -> Seq<char> {
        repo.name
    }

    open spec fn as_stored_spec(&self, repo: RepoView) -> RepoView {
        super::repo::repo_of_codeberg(codeberg_body(repo, false))
    }

    fn get_remote_url(&self) -> (h: String) {
        String::from_str(CODEBERG_URL)
    }

    fn get_username(&self) -> (u: &str) {
        self.username.as_str()
    }

    fn get_type(&self) -> (k: PlatformType) {
        PlatformType::Codeberg
    }

    fn create_request(&self, repo: &Repo) -> (req: HttpRequest) {
        HttpRequest {
            method: HttpMethod::Post,
            url: Self::repos_url(),
            headers: self.headers(),
            query: no_pairs(),
            body: RequestBody::Codeberg(Self::body(repo, false)),
        }
    }

    fn get_request(&self, name: &str) -> (req: HttpRequest) {
        HttpRequest {
            method: HttpMethod::Get,
            url: self.repo_url(name),
            headers: self.headers(),
            query: no_pairs(),
            body: RequestBody::Empty,
        }
    }

    fn edit_request(&self, repo: &Repo) -> (req: HttpRequest) {
        HttpRequest {
            method: HttpMethod::Patch,
            url: self.repo_url(repo.name.as_str()),
            headers: self.headers(),
            query: no_pairs(),
            body: RequestBody::Codeberg(Self::body(repo, repo.fork)),
        }
    }

    fn list_request(&self, page: usize) -> (req: HttpRequest) {
        HttpRequest {
            method: HttpMethod::Get,
            url: Self::repos_url(),
            headers: self.read_headers(),
            query: pairs2(
                pair("page", decimal_string(page).as_str()),
                pair("limit", decimal_string(PAGE_SIZE).as_str()),
            ),
            body: RequestBody::Empty,
        }
    }

    fn delete_request(&self, name: &str) -> (req: HttpRequest) {
        HttpRequest {
            method: HttpMethod::Delete,
            url: self.repo_url(name),
            headers: self.read_headers(),
            query: no_pairs(),
            body: RequestBody::Empty,
        }
    }

    fn lookup_key(&self, repo: &Repo) -> (key: String) {
        repo.name.clone()
    }

    fn as_stored(&self, repo: &Repo) -> (stored: Repo) {
        Self::body(repo, false).to_repo()
    }
}

} // verus!
