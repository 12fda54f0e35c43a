use git_mover::codeberg::{CodebergConfig, CodebergPlatform, CodebergRepo};
use git_mover::config::{usable_home, ConfigKey};
use git_mover::github::{GithubConfig, GithubPlatform, RepoGithub};
use git_mover::gitlab::{ForkRepo, GitlabConfig, GitlabPlatform, GitlabRepo};
use git_mover::http::{
    check_response, classify_status, is_success, transport_error, HttpMethod, HttpRequest, Pair,
    RequestBody,
};
use git_mover::platform::{
    access_refused, choose_prompt, menu_line, platform_at, probe_passed, quote_stream,
};
use git_mover::text::{contains_bytes, decimal_string, same_text, str_contains};
use git_mover::workspace::{workspace_name, workspace_name_with};
use git_mover::dispatch::get_plateform;
use git_mover::{
    AnyPlatform, ConfigData, Direction, GitMoverCli, GitMoverConfig, GitMoverError, GitMoverErrorKind, Platform,
    PlatformType, Repo,
};

fn repo() -> Repo {
    Repo {
        name: "my repo".to_string(),
        path: "my-repo".to_string(),
        description: "about".to_string(),
        private: true,
        fork: true,
    }
}

fn flat(pairs: &Vec<Pair>) -> Vec<(String, String)> {
    pairs.iter().map(|p| (p.name.clone(), p.value.clone())).collect()
}

fn strs(pairs: &[(&str, &str)]) -> Vec<(String, String)> {
    pairs.iter().map(|(a, b)| (a.to_string(), b.to_string())).collect()
}

fn check(req: &HttpRequest, method: HttpMethod, url: &str, headers: &[(&str, &str)], query: &[(&str, &str)]) {
    assert_eq!(req.method, method);
    assert_eq!(req.url, url);
    assert_eq!(flat(&req.headers), strs(headers));
    assert_eq!(flat(&req.query), strs(query));
}

#[test]
fn codeberg_requests() {
    let p = CodebergPlatform::new("alice".to_string(), "SECRET-REDACTED".to_string());
    let all = [
        ("authorization", "token SECRET-REDACTED"),
        ("accept", "application/json"),
        ("content-type", "application/json"),
    ];
    let read = [("authorization", "token SECRET-REDACTED"), ("accept", "application/json")];
    let req = p.create_request(&repo());
    check(&req, HttpMethod::Post, "https://codeberg.org/api/v1/user/repos", &all, &[]);
    match &req.body {
        RequestBody::Codeberg(b) => {
            assert_eq!(b.name, "my repo");
            assert_eq!(b.description, "about");
            assert!(b.private);
            assert!(!b.fork);
        }
        _ => panic!("wrong body"),
    }
    let req = p.get_request("my repo/x");
    check(&req, HttpMethod::Get, "https://codeberg.org/api/v1/repos/alice/my%20repo%2Fx", &all, &[]);
    assert!(matches!(req.body, RequestBody::Empty));
    let req = p.edit_request(&repo());
    check(&req, HttpMethod::Patch, "https://codeberg.org/api/v1/repos/alice/my%20repo", &all, &[]);
    match &req.body {
        RequestBody::Codeberg(b) => assert!(b.fork),
        _ => panic!("wrong body"),
    }
    let req = p.list_request(3);
    check(
        &req,
        HttpMethod::Get,
        "https://codeberg.org/api/v1/user/repos",
        &read,
        &[("page", "3"), ("limit", "100")],
    );
    let req = p.delete_request("my-repo");
    check(&req, HttpMethod::Delete, "https://codeberg.org/api/v1/repos/alice/my-repo", &read, &[]);
    assert_eq!(p.lookup_key(&repo()), "my repo");
    let stored = p.as_stored(&repo());
    assert_eq!(stored.name, "my repo");
    assert_eq!(stored.path, "my repo");
    assert!(stored.private);
    assert!(!stored.fork);
    assert_eq!(p.get_remote_url(), "codeberg.org");
    assert_eq!(p.get_username(), "alice");
    assert_eq!(p.get_type(), PlatformType::Codeberg);
}

#[test]
fn github_requests() {
    let p = GithubPlatform::new("alice".to_string(), "SECRET-REDACTED".to_string());
    let headers = [
        ("authorization", "Bearer SECRET-REDACTED"),
        ("accept", "application/vnd.github+json"),
        ("user-agent", "reqwest"),
        ("X-GitHub-Api-Version", "2022-11-28"),
    ];
    let req = p.create_request(&repo());
    check(&req, HttpMethod::Post, "https://api.github.com/user/repos", &headers, &[]);
    match &req.body {
        RequestBody::Github(b) => {
            assert_eq!(b.path, "my-repo");
            assert!(b.fork);
        }
        _ => panic!("wrong body"),
    }
    let req = p.get_request("caf\u{e9}");
    check(&req, HttpMethod::Get, "https://api.github.com/repos/alice/caf%C3%A9", &headers, &[]);
    let req = p.edit_request(&repo());
    check(&req, HttpMethod::Patch, "https://api.github.com/repos/alice/my%20repo", &headers, &[]);
    let req = p.list_request(12);
    check(
        &req,
        HttpMethod::Get,
        "https://api.github.com/user/repos",
        &headers,
        &[("type", "owner"), ("per_page", "100"), ("page", "12")],
    );
    let req = p.delete_request("a_b-c.d~e");
    check(&req, HttpMethod::Delete, "https://api.github.com/repos/alice/a_b-c.d~e", &headers, &[]);
    assert_eq!(p.lookup_key(&repo()), "my repo");
    assert_eq!(p.as_stored(&repo()).path, "my-repo");
    assert_eq!(p.get_remote_url(), "github.com");
    assert_eq!(p.get_type(), PlatformType::Github);
}

#[test]
fn gitlab_requests() {
    let p = GitlabPlatform::new("alice".to_string(), "SECRET-REDACTED".to_string(), None);
    let all = [
        ("PRIVATE-TOKEN", "SECRET-REDACTED"),
        ("accept", "application/json"),
        ("content-type", "application/json"),
    ];
    let read = [("PRIVATE-TOKEN", "SECRET-REDACTED"), ("accept", "application/json")];
    let req = p.create_request(&repo());
    check(&req, HttpMethod::Post, "https://gitlab.com/api/v4/projects", &all, &[]);
    match &req.body {
        RequestBody::Gitlab(b) => {
            assert_eq!(b.name, "my repo");
            assert_eq!(b.path, "my-repo");
            assert_eq!(b.description, Some("about".to_string()));
            assert_eq!(b.visibility, "private");
            assert_eq!(b.forked_from_project, None);
        }
        _ => panic!("wrong body"),
    }
    let req = p.get_request("my-repo");
    check(
        &req,
        HttpMethod::Get,
        "https://gitlab.com/api/v4/projects",
        &[("PRIVATE-TOKEN", "SECRET-REDACTED")],
        &[("owned", "true"), ("search", "my-repo")],
    );
    let req = p.edit_request(&repo());
    check(&req, HttpMethod::Put, "https://gitlab.com/api/v4/projects/alice%2Fmy-repo", &all, &[]);
    match &req.body {
        RequestBody::GitlabEdition(b) => {
            assert_eq!(b.description, "about");
            assert_eq!(b.visibility, "private");
        }
        _ => panic!("wrong body"),
    }
    let req = p.list_request(1);
    check(
        &req,
        HttpMethod::Get,
        "https://gitlab.com/api/v4/projects",
        &read,
        &[("per_page", "100"), ("page", "1"), ("owned", "true")],
    );
    let req = p.delete_request("my-repo");
    check(&req, HttpMethod::Delete, "https://gitlab.com/api/v4/projects/alice%2Fmy-repo", &read, &[]);
    assert_eq!(p.lookup_key(&repo()), "my-repo");
    let stored = p.as_stored(&repo());
    assert_eq!(stored.path, "my-repo");
    assert!(stored.private);
    assert!(!stored.fork);
    assert_eq!(p.get_remote_url(), "gitlab.com");
    assert_eq!(p.get_type(), PlatformType::Gitlab);
    let own = GitlabPlatform::new("a".to_string(), "t".to_string(), Some("git.example.org".to_string()));
    assert_eq!(own.get_remote_url(), "git.example.org");
    assert_eq!(own.list_request(1).url, "https://git.example.org/api/v4/projects");
    assert_eq!(own.git_url("p"), "ssh://git@git.example.org/a/p.git");
}

#[test]
fn percent_encoding_keeps_only_unreserved_bytes() {
    let p = GithubPlatform::new("u".to_string(), "t".to_string());
    let url = p.delete_request("AZaz09-._~ !#%&+/:=?@\u{1f47e}").url;
    assert_eq!(
        url,
        "https://api.github.com/repos/u/AZaz09-._~%20%21%23%25%26%2B%2F%3A%3D%3F%40%F0%9F%91%BE"
    );
    assert_eq!(p.delete_request("").url, "https://api.github.com/repos/u/");
}

#[test]
fn git_addresses() {
    let p = GithubPlatform::new("alice".to_string(), "t".to_string());
    assert_eq!(p.access_probe_url(), "ssh://git@github.com");
    assert_eq!(p.git_url("my-repo"), "ssh://git@github.com/alice/my-repo.git");
    let p = CodebergPlatform::new("bob".to_string(), "t".to_string());
    assert_eq!(p.git_url("x"), "ssh://git@codeberg.org/bob/x.git");
}

#[test]
fn access_is_granted_when_the_user_name_shows_up() {
    let p = GithubPlatform::new("alice".to_string(), "t".to_string());
    assert!(p.check_git_access("Hi alice! You've successfully authenticated", "").is_ok());
    assert!(p.check_git_access("", "PTY allocation request failed\nHi alice!").is_ok());
    assert!(p.check_git_access("alice", "alice").is_ok());
}

#[test]
fn access_is_refused_with_both_streams_quoted() {
    let p = GithubPlatform::new("alice".to_string(), "t".to_string());
    let e = p.check_git_access("  Hi bob!\n", "\tPermission denied \n").unwrap_err();
    assert_eq!(e.kind(), GitMoverErrorKind::AuthFailure);
    assert_eq!(
        e.to_text(),
        "Cannot access to ssh://git@github.com: stdout=Hi bob! stderr=Permission denied for github"
    );
    let e = p.check_git_access("", "").unwrap_err();
    assert_eq!(e.to_text(), "Cannot access to ssh://git@github.com: for github");
    let e = p.check_git_access("Alice", "").unwrap_err();
    assert_eq!(e.to_text(), "Cannot access to ssh://git@github.com: stdout=Alice for github");
    let p = CodebergPlatform::new("alice".to_string(), "t".to_string());
    let e = p.check_git_access("", "nope").unwrap_err();
    assert_eq!(e.to_text(), "Cannot access to ssh://git@codeberg.org: stderr=nope for codeberg");
}

#[test]
fn refusal_is_put_together_from_quoted_streams() {
    assert_eq!(quote_stream("stdout", "", ""), "");
    assert_eq!(quote_stream("stdout", " x ", "x"), "stdout=x ");
    assert_eq!(quote_stream("stderr", " ", ""), "stderr= ");
    let e = access_refused("ssh://git@h", "stdout=a ", "stderr=b ", PlatformType::Gitlab);
    assert_eq!(e.kind(), GitMoverErrorKind::AuthFailure);
    assert_eq!(e.to_text(), "Cannot access to ssh://git@h: stdout=a stderr=b for gitlab");
    assert!(probe_passed("bob", "Hi bob", ""));
    assert!(probe_passed("bob", "", "Hi bob"));
    assert!(!probe_passed("bob", "Hi Bob", "bo b"));
    assert!(probe_passed("", "", ""));
}

#[test]
fn lowercase_names_are_read() {
    assert_eq!(PlatformType::from_lowercase("gitlab"), Some(PlatformType::Gitlab));
    assert_eq!(PlatformType::from_lowercase("github"), Some(PlatformType::Github));
    assert_eq!(PlatformType::from_lowercase("codeberg"), Some(PlatformType::Codeberg));
    assert_eq!(PlatformType::from_lowercase("GitHub"), None);
    assert_eq!(PlatformType::from_lowercase(""), None);
}

#[test]
fn substring_search() {
    assert!(str_contains("hello world", "lo w"));
    assert!(str_contains("hello", "hello"));
    assert!(str_contains("hello", ""));
    assert!(str_contains("", ""));
    assert!(!str_contains("", "a"));
    assert!(!str_contains("hello", "hello!"));
    assert!(!str_contains("hello", "lol"));
    assert!(str_contains("aaab", "aab"));
    assert!(str_contains("caf\u{e9} ok", "\u{e9} o"));
    assert!(contains_bytes(&[1, 2, 3, 4], &[3, 4]));
    assert!(!contains_bytes(&[1, 2, 3, 4], &[4, 3]));
    assert!(same_text("a", "a"));
    assert!(!same_text("a", "A"));
}

#[test]
fn decimal_rendering() {
    assert_eq!(decimal_string(0), "0");
    assert_eq!(decimal_string(7), "7");
    assert_eq!(decimal_string(10), "10");
    assert_eq!(decimal_string(237), "237");
    assert_eq!(decimal_string(1000000), "1000000");
    assert_eq!(decimal_string(usize::MAX), usize::MAX.to_string());
}

#[test]
fn platform_names() {
    assert_eq!(PlatformType::Gitlab.to_text(), "gitlab");
    assert_eq!(PlatformType::Github.to_text(), "github");
    assert_eq!(PlatformType::Codeberg.name(), "codeberg");
    assert_eq!(PlatformType::parse("gitlab"), Some(PlatformType::Gitlab));
    assert_eq!(PlatformType::parse("GitHub"), Some(PlatformType::Github));
    assert_eq!(PlatformType::parse("CODEBERG"), Some(PlatformType::Codeberg));
    assert_eq!(PlatformType::parse("bitbucket"), None);
    assert_eq!(PlatformType::parse(""), None);
    assert_eq!(PlatformType::parse(" github"), None);
}

#[test]
fn platform_menu() {
    assert_eq!(platform_at(0), Some(PlatformType::Github));
    assert_eq!(platform_at(1), Some(PlatformType::Gitlab));
    assert_eq!(platform_at(2), Some(PlatformType::Codeberg));
    assert_eq!(platform_at(3), None);
    assert_eq!(menu_line(0), Some("0: github".to_string()));
    assert_eq!(menu_line(1), Some("1: gitlab".to_string()));
    assert_eq!(menu_line(2), Some("2: codeberg".to_string()));
    assert_eq!(menu_line(3), None);
    assert_eq!(choose_prompt(Direction::Source), "Choose a platform for source");
    assert_eq!(choose_prompt(Direction::Destination), "Choose a platform for destination");
}

#[test]
fn command_line_may_name_the_platforms() {
    let mut cli = GitMoverCli::default();
    assert_eq!(cli.platform_for(Direction::Source), None);
    cli.source = Some(PlatformType::Github);
    cli.destination = Some(PlatformType::Codeberg);
    cli.config = Some("/tmp/c.toml".to_string());
    cli.verbose = 2;
    let copy = cli.clone();
    assert_eq!(copy.platform_for(Direction::Source), Some(PlatformType::Github));
    assert_eq!(copy.platform_for(Direction::Destination), Some(PlatformType::Codeberg));
    assert_eq!(copy.config, Some("/tmp/c.toml".to_string()));
    assert_eq!(copy.verbose, 2);
    assert!(!copy.resync && !copy.manual && !copy.no_forks && !copy.no_delete);
}

#[test]
fn statuses() {
    assert!(is_success(200));
    assert!(is_success(201));
    assert!(is_success(299));
    assert!(!is_success(199));
    assert!(!is_success(300));
    assert!(!is_success(404));
    assert_eq!(classify_status(404), GitMoverErrorKind::NotFound);
    assert_eq!(classify_status(409), GitMoverErrorKind::Conflict);
    assert_eq!(classify_status(401), GitMoverErrorKind::AuthFailure);
    assert_eq!(classify_status(403), GitMoverErrorKind::AuthFailure);
    assert_eq!(classify_status(500), GitMoverErrorKind::Other);
    assert_eq!(classify_status(422), GitMoverErrorKind::Other);
    assert!(check_response(204, "").is_ok());
    let e = check_response(409, "exists").unwrap_err();
    assert_eq!(e.kind(), GitMoverErrorKind::Conflict);
    assert_eq!(e.to_text(), "exists");
    let e = transport_error("connection reset");
    assert_eq!(e.kind(), GitMoverErrorKind::Transport);
    assert_eq!(e.to_text(), "connection reset");
}

#[test]
fn errors_read_as_text() {
    let e = GitMoverError::new("plain".to_string());
    assert_eq!(e.kind(), GitMoverErrorKind::Other);
    assert_eq!(e.message(), "plain");
    assert_eq!(e.source_text(), None);
    assert_eq!(e.to_text(), "plain");
    let e = GitMoverError::new_with_source("Unable to open", "No such file");
    assert_eq!(e.kind(), GitMoverErrorKind::Other);
    assert_eq!(e.to_text(), "Unable to open - No such file");
    let e = GitMoverError::from("text".to_string());
    assert_eq!(e.to_text(), "text");
    let e = GitMoverError::with_kind(GitMoverErrorKind::NotFound, "gone".to_string());
    let f = e.with_cause(&GitMoverError::new_with_source("a", "b"));
    assert_eq!(f.kind(), GitMoverErrorKind::NotFound);
    assert_eq!(f.to_text(), "gone - a - b");
    let g = f.under_heading("Error: ");
    assert_eq!(g.kind(), GitMoverErrorKind::NotFound);
    assert_eq!(g.to_text(), "Error: gone - a - b");
    assert_eq!(g.clone().to_text(), g.to_text());
}

#[test]
fn wire_records_become_repos() {
    let r: Repo = CodebergRepo {
        name: "n".to_string(),
        description: "d".to_string(),
        private: true,
        fork: true,
    }
    .into();
    assert_eq!((r.name.as_str(), r.path.as_str(), r.description.as_str()), ("n", "n", "d"));
    assert!(r.private && r.fork);
    let r: Repo = RepoGithub {
        id: 7,
        name: "n".to_string(),
        description: None,
        private: false,
        html_url: "https://github.com/u/n".to_string(),
        fork: true,
    }
    .into();
    assert_eq!((r.name.as_str(), r.path.as_str(), r.description.as_str()), ("n", "n", ""));
    assert!(!r.private && r.fork);
    let r: Repo = GitlabRepo {
        name: "N".to_string(),
        path: "n".to_string(),
        description: Some("d".to_string()),
        visibility: "private".to_string(),
        forked_from_project: Some(ForkRepo { id: 3 }),
    }
    .into();
    assert_eq!((r.name.as_str(), r.path.as_str(), r.description.as_str()), ("N", "n", "d"));
    assert!(r.private && r.fork);
    let r: Repo = GitlabRepo {
        name: "N".to_string(),
        path: "n".to_string(),
        description: None,
        visibility: "internal".to_string(),
        forked_from_project: None,
    }
    .into();
    assert_eq!(r.description, "");
    assert!(!r.private && !r.fork);
}

#[test]
fn pages_become_inventories() {
    let page = vec![
        CodebergRepo { name: "a".to_string(), description: String::new(), private: false, fork: false },
        CodebergRepo { name: "b".to_string(), description: String::new(), private: true, fork: false },
    ];
    let repos = git_mover::codeberg::repo::inventory_page(&page);
    assert_eq!(repos.len(), 2);
    assert_eq!(repos[1].name, "b");
    assert!(repos[1].private);
    let page = vec![RepoGithub {
        id: 1,
        name: "g".to_string(),
        description: Some("x".to_string()),
        private: false,
        html_url: String::new(),
        fork: false,
    }];
    assert_eq!(git_mover::github::repo::inventory_page(&page)[0].description, "x");
    let page: Vec<GitlabRepo> = Vec::new();
    assert!(git_mover::gitlab::repo::inventory_page(&page).is_empty());
}

#[test]
fn gitlab_lookup_takes_the_first_project() {
    let first = GitlabRepo {
        name: "one".to_string(),
        path: "one".to_string(),
        description: None,
        visibility: "public".to_string(),
        forked_from_project: None,
    };
    let second = GitlabRepo {
        name: "two".to_string(),
        path: "two".to_string(),
        description: None,
        visibility: "public".to_string(),
        forked_from_project: None,
    };
    let found = GitlabPlatform::found(vec![first, second], "[...]").unwrap();
    assert_eq!(found.name, "one");
    let e = GitlabPlatform::found(Vec::new(), "[]").unwrap_err();
    assert_eq!(e.kind(), GitMoverErrorKind::NotFound);
    assert_eq!(e.to_text(), "[]");
}

fn config(data: ConfigData) -> GitMoverConfig {
    GitMoverConfig::new("/home/u/.config/.git-mover/config.toml".to_string(), data, GitMoverCli::default())
}

#[test]
fn settings_are_stored_by_key() {
    let data = ConfigData::default();
    assert_eq!(data.lookup(ConfigKey::GithubToken), None);
    let data = data.with(ConfigKey::GithubToken, "t".to_string());
    assert_eq!(data.lookup(ConfigKey::GithubToken), Some("t".to_string()));
    assert_eq!(data.lookup(ConfigKey::GithubUsername), None);
    assert_eq!(data.lookup(ConfigKey::GitlabToken), None);
    let data = data
        .with(ConfigKey::GithubUsername, "u".to_string())
        .with(ConfigKey::GitlabCustomUrl, "".to_string())
        .with(ConfigKey::CodebergUsername, "c".to_string())
        .with(ConfigKey::GithubToken, "t2".to_string());
    assert_eq!(data.lookup(ConfigKey::GithubToken), Some("t2".to_string()));
    assert_eq!(data.lookup(ConfigKey::GithubUsername), Some("u".to_string()));
    assert_eq!(data.lookup(ConfigKey::GitlabCustomUrl), Some(String::new()));
    assert_eq!(data.lookup(ConfigKey::GitlabUsername), None);
    assert_eq!(data.lookup(ConfigKey::CodebergUsername), Some("c".to_string()));
    assert_eq!(data.lookup(ConfigKey::CodebergToken), None);
    let copy = data.clone();
    assert_eq!(copy.lookup(ConfigKey::GithubToken), Some("t2".to_string()));
    assert_eq!(copy.github.unwrap().username, Some("u".to_string()));
}

#[test]
fn platforms_come_from_complete_settings() {
    let mut c = config(ConfigData::default());
    assert_eq!(GithubConfig::get_plateform(&c).unwrap_err(), ConfigKey::GithubUsername);
    c.set(ConfigKey::GithubUsername, "alice".to_string());
    assert_eq!(GithubConfig::get_plateform(&c).unwrap_err(), ConfigKey::GithubToken);
    c.set(ConfigKey::GithubToken, "t".to_string());
    let p = GithubConfig::get_plateform(&c).unwrap();
    assert_eq!(p.get_username(), "alice");
    assert_eq!(p.list_request(1).headers[0].value, "Bearer t");

    assert_eq!(CodebergConfig::get_plateform(&c).unwrap_err(), ConfigKey::CodebergUsername);
    c.set(ConfigKey::CodebergToken, "t".to_string());
    assert_eq!(CodebergConfig::get_plateform(&c).unwrap_err(), ConfigKey::CodebergUsername);
    c.set(ConfigKey::CodebergUsername, "bob".to_string());
    assert_eq!(CodebergConfig::get_plateform(&c).unwrap().get_username(), "bob");

    assert_eq!(GitlabConfig::get_plateform(&c).unwrap_err(), ConfigKey::GitlabUsername);
    c.set(ConfigKey::GitlabUsername, "carol".to_string());
    assert_eq!(GitlabConfig::get_plateform(&c).unwrap_err(), ConfigKey::GitlabToken);
    c.set(ConfigKey::GitlabToken, "t".to_string());
    assert_eq!(GitlabConfig::get_plateform(&c).unwrap_err(), ConfigKey::GitlabCustomUrl);
    c.set(ConfigKey::GitlabCustomUrl, String::new());
    assert_eq!(GitlabConfig::get_plateform(&c).unwrap().get_remote_url(), "gitlab.com");
    c.set(ConfigKey::GitlabCustomUrl, "git.example.org".to_string());
    assert_eq!(GitlabConfig::get_plateform(&c).unwrap().get_remote_url(), "git.example.org");
    assert_eq!(c.config_path, "/home/u/.config/.git-mover/config.toml");
}

#[test]
fn chosen_platform_comes_from_the_settings_of_its_type() {
    let mut c = config(ConfigData::default());
    assert_eq!(get_plateform(&c, PlatformType::Github).unwrap_err(), ConfigKey::GithubUsername);
    assert_eq!(get_plateform(&c, PlatformType::Gitlab).unwrap_err(), ConfigKey::GitlabUsername);
    assert_eq!(get_plateform(&c, PlatformType::Codeberg).unwrap_err(), ConfigKey::CodebergUsername);
    c.set(ConfigKey::CodebergUsername, "bob".to_string());
    assert_eq!(get_plateform(&c, PlatformType::Codeberg).unwrap_err(), ConfigKey::CodebergToken);
    c.set(ConfigKey::CodebergToken, "t".to_string());
    let p = get_plateform(&c, PlatformType::Codeberg).unwrap();
    assert!(matches!(p, AnyPlatform::Codeberg(_)));
    assert_eq!(p.get_type(), PlatformType::Codeberg);
    assert_eq!(p.get_username(), "bob");
    assert_eq!(p.get_remote_url(), "codeberg.org");
    assert_eq!(p.git_url("x"), "ssh://git@codeberg.org/bob/x.git");
    assert_eq!(p.lookup_key(&repo()), "my repo");
    assert_eq!(p.as_stored(&repo()).path, "my repo");
    assert_eq!(p.delete_request("x").url, "https://codeberg.org/api/v1/repos/bob/x");
    assert_eq!(p.get_request("x").url, "https://codeberg.org/api/v1/repos/bob/x");
    assert_eq!(p.edit_request(&repo()).url, "https://codeberg.org/api/v1/repos/bob/my%20repo");
    assert_eq!(p.create_request(&repo()).url, "https://codeberg.org/api/v1/user/repos");
    assert_eq!(p.list_request(2).query[0].value, "2");
    assert!(p.check_git_access("bob", "").is_ok());
    assert_eq!(get_plateform(&c, PlatformType::Github).unwrap_err(), ConfigKey::GithubUsername);
    c.set(ConfigKey::GithubUsername, "u".to_string());
    c.set(ConfigKey::GithubToken, "t".to_string());
    assert!(matches!(get_plateform(&c, PlatformType::Github).unwrap(), AnyPlatform::Github(_)));
    c.set(ConfigKey::GitlabUsername, "u".to_string());
    c.set(ConfigKey::GitlabToken, "t".to_string());
    c.set(ConfigKey::GitlabCustomUrl, String::new());
    let p = get_plateform(&c, PlatformType::Gitlab).unwrap();
    assert!(matches!(p, AnyPlatform::Gitlab(_)));
    assert_eq!(p.get_remote_url(), "gitlab.com");
}

#[test]
fn constants() {
    assert_eq!(git_mover::platform::PROBE_TIMEOUT_SECONDS, 5);
    assert_eq!(git_mover::transfer::DESTINATION_REMOTE, "new_origin");
    assert_eq!(git_mover::workspace::SUFFIX_LENGTH, 10);
    assert_eq!(git_mover::config::CONFIG_HOME, ".config");
    assert_eq!(git_mover::config::CONFIG_DIRECTORY, ".git-mover");
    assert_eq!(git_mover::config::CONFIG_FILE, "config.toml");
    assert_eq!(git_mover::codeberg::CODEBERG_URL, "codeberg.org");
    assert_eq!(git_mover::github::GITHUB_URL, "github.com");
    assert_eq!(git_mover::gitlab::GITLAB_URL, "gitlab.com");
}

#[test]
fn update_applies_the_updater() {
    let mut c = config(ConfigData::default());
    c.update(|data| data.with(ConfigKey::GitlabToken, "x".to_string()));
    assert_eq!(c.config_data.lookup(ConfigKey::GitlabToken), Some("x".to_string()));
    assert_eq!(c.config_data.gitlab.as_ref().unwrap().username, None);
    c.update(|_| ConfigData::default());
    assert_eq!(c.config_data.lookup(ConfigKey::GitlabToken), None);
    assert!(c.config_data.gitlab.is_none());
    assert_eq!(c.config_path, "/home/u/.config/.git-mover/config.toml");
}

#[test]
fn prompts_and_secrets() {
    assert_eq!(ConfigKey::GithubUsername.prompt(), "Please enter your github username:");
    assert_eq!(
        ConfigKey::CodebergToken.prompt(),
        "Please enter your codeberg token (https://codeberg.org/user/settings/applications):"
    );
    assert_eq!(
        ConfigKey::GitlabCustomUrl.prompt(),
        "Please enter custom gitlab url - empty to get the default Gitlab url:"
    );
    assert!(!ConfigKey::GithubUsername.is_secret());
    assert!(!ConfigKey::GitlabUsername.is_secret());
    assert!(!ConfigKey::CodebergUsername.is_secret());
    assert!(ConfigKey::GithubToken.is_secret());
    assert!(ConfigKey::GitlabCustomUrl.is_secret());
    assert_eq!(ConfigKey::GitlabCustomUrl.platform(), PlatformType::Gitlab);
    assert_eq!(ConfigKey::CodebergToken.platform(), PlatformType::Codeberg);
    assert_eq!(ConfigKey::GithubToken.platform(), PlatformType::Github);
}

#[test]
fn home_directory_has_to_be_there() {
    assert_eq!(usable_home(Some("/home/u".to_string())).unwrap(), "/home/u");
    for home in [None, Some(String::new())] {
        assert_eq!(
            usable_home(home).unwrap_err().to_text(),
            "Unable to get your home dir! home::home_dir() isn't working"
        );
    }
}

#[test]
fn workspace_names() {
    assert_eq!(workspace_name_with("abc"), "tmp-abc");
    let mut seen = Vec::new();
    for _ in 0..20 {
        let name = workspace_name();
        assert_eq!(name.len(), 14);
        assert!(name.starts_with("tmp-"));
        assert!(name[4..].chars().all(|c| c.is_ascii_alphanumeric()));
        seen.push(name);
    }
    seen.sort();
    seen.dedup();
    assert!(seen.len() > 1);
}
