//! This module contains the Platform trait and PlatformType enum.
use crate::errors::{GitMoverError, GitMoverErrorKind, GitMoverErrorView};
use crate::http::{HttpRequest, HttpRequestView};
use crate::utils::{Direction, Repo, RepoView};
use crate::text::{lowercased, occurs_in, same_text, str_contains, to_lowercase, trim, trimmed};
use vstd::prelude::*;
use vstd::string::StringExecFns;
use vstd::utf8::encode_utf8;

verus! {

/// The PlatformType enum is used to specify the platform type.
#[derive(Debug, Clone, Copy, PartialEq, Eq, Structural)]
pub enum PlatformType {
    /// Gitlab platform
    Gitlab,
    /// Github platform
    Github,
    /// Codeberg platform
    Codeberg,
}

/// The lowercase name of a platform type.
pub open spec fn platform_name(kind: PlatformType) -> Seq<char> {
    match kind {
        PlatformType::Gitlab => "gitlab"@,
        PlatformType::Github => "github"@,
        PlatformType::Codeberg => "codeberg"@,
    }
}

/// The platform type that a lowercase name stands for.
pub open spec fn platform_named(lower: Seq<char>) -> Option<PlatformType> {
    if lower == "gitlab"@ {
        Some(PlatformType::Gitlab)
    } else if lower == "github"@ {
        Some(PlatformType::Github)
    } else if lower == "codeberg"@ {
        Some(PlatformType::Codeberg)
    } else {
        None
    }
}

impl PlatformType {
    /// The lowercase name of the platform type.
    pub fn name(&self) -> (s: &'static str)
        ensures
            s@ == platform_name(*self),
    {
        match self {
            PlatformType::Gitlab => "gitlab",
            PlatformType::Github => "github",
            PlatformType::Codeberg => "codeberg",
        }
    }

    /// The platform type as text.
    pub fn to_text(&self) -> (s: String)
        ensures
            s@ == platform_name(*self),
    {
        String::from_str(self.name())
    }

    /// Reads a platform type from its name in lowercase. Any other text
    /// names no platform.
    pub fn from_lowercase(lower: &str) -> (res: Option<PlatformType>)
        ensures
            res == platform_named(lower@),
    {
        if same_text(lower, "gitlab") {
            Some(PlatformType::Gitlab)
        } else if same_text(lower, "github") {
            Some(PlatformType::Github)
        } else if same_text(lower, "codeberg") {
            Some(PlatformType::Codeberg)
        } else {
            None
        }
    }

    /// Reads a platform type from its name, whatever the case of its letters.
    /// Any other text names no platform.
    pub fn parse(s: &str) -> (res: Option<PlatformType>)
        ensures
            res == platform_named(lowercased(s@)),
    {
        let lower = to_lowercase(s);
        PlatformType::from_lowercase(lower.as_str())
    }
}

/// The platform behind a number of the menu: GitHub, Gitlab, Codeberg,
/// counted from 0.
pub open spec fn platform_choice(index: nat) -> Option<PlatformType> {
    if index == 0 {
        Some(PlatformType::Github)
    } else if index == 1 {
        Some(PlatformType::Gitlab)
    } else if index == 2 {
        Some(PlatformType::Codeberg)
    } else {
        None
    }
}

/// The line that asks the operator to pick a platform.
pub open spec fn choose_prompt_text(direction: Direction) -> Seq<char> {
    match direction {
        Direction::Source => "Choose a platform for source"@,
        Direction::Destination => "Choose a platform for destination"@,
    }
}

/// The platform behind a number of the menu; `None` for a number that the
/// menu does not have.
pub fn platform_at(index: usize) -> (res: Option<PlatformType>)
    ensures
        res == platform_choice(index as nat),
{
    if index == 0 {
        Some(PlatformType::Github)
    } else if index == 1 {
        Some(PlatformType::Gitlab)
    } else if index == 2 {
        Some(PlatformType::Codeberg)
    } else {
        None
    }
}

/// The line of the menu for the number `index`: the number, a colon, and
/// the name of the platform. `None` for a number that the menu does not
/// have.
pub fn menu_line(index: usize) -> (res: Option<String>)
    ensures
        match res {
            Some(line) => platform_choice(index as nat) matches Some(kind) && line@
                == crate::text::decimal(index as nat) + ": "@ + platform_name(kind),
            None => platform_choice(index as nat) is None,
        },
{
    match platform_at(index) {
        Some(kind) => Some(
            crate::text::decimal_string(index).concat(": ").concat(kind.name()),
        ),
        None => None,
    }
}

/// The line that asks the operator to pick a platform.
pub fn choose_prompt(direction: Direction) -> (s: &'static str)
    ensures
        s@ == choose_prompt_text(direction),
{
    match direction {
        Direction::Source => "Choose a platform for source",
        Direction::Destination => "Choose a platform for destination",
    }
}

/// What is known of a platform without talking to it.
pub struct PlatformView {
    pub kind: PlatformType,
    pub host: Seq<char>,
    pub username: Seq<char>,
    pub token: Seq<char>,
}

/// How many seconds the access probe may take.
pub const PROBE_TIMEOUT_SECONDS: u64 = 5;

/// The address that the access probe connects to.
pub open spec fn probe_url(host: Seq<char>) -> Seq<char> {
    "ssh://git@"@ + host
}

/// The git transport address of a repository.
pub open spec fn transport_url(host: Seq<char>, username: Seq<char>, path: Seq<char>) -> Seq<
    char,
> {
    "ssh://git@"@ + host + "/"@ + username + "/"@ + path + ".git"@
}

/// The probe counts as passed when the user name shows up in either stream.
pub open spec fn access_granted(username: Seq<char>, stdout: Seq<char>, stderr: Seq<char>)
    -> bool {
    occurs_in(encode_utf8(stdout), encode_utf8(username)) || occurs_in(
        encode_utf8(stderr),
        encode_utf8(username),
    )
}

/// How a captured stream is quoted, given its trimmed form: not at all
/// when the stream is empty, else the trimmed form under the label, with a
/// blank behind it.
pub open spec fn quoted_stream(label: Seq<char>, stream: Seq<char>, trimmed_stream: Seq<char>)
    -> Seq<char> {
    if stream.len() == 0 {
        Seq::empty()
    } else {
        label + "="@ + trimmed_stream + " "@
    }
}

/// How a captured stream is quoted in the refusal.
pub open spec fn stream_note(label: Seq<char>, stream: Seq<char>) -> Seq<char> {
    quoted_stream(label, stream, trimmed(stream))
}

/// The message of a refusal, given the two streams as they are quoted.
pub open spec fn refusal_text(
    url: Seq<char>,
    stdout_note: Seq<char>,
    stderr_note: Seq<char>,
    kind: PlatformType,
) -> Seq<char> {
    "Cannot access to "@ + url + ": "@ + stdout_note + stderr_note + "for "@ + platform_name(kind)
}

/// The message of a failed access probe.
pub open spec fn access_denied_text(p: PlatformView, stdout: Seq<char>, stderr: Seq<char>) -> Seq<
    char,
> {
    refusal_text(
        probe_url(p.host),
        stream_note("stdout"@, stdout),
        stream_note("stderr"@, stderr),
        p.kind,
    )
}

/// Quotes a captured stream, given its trimmed form.
pub fn quote_stream(label: &str, stream: &str, trimmed_stream: &str) -> (s: String)
    ensures
        s@ == quoted_stream(label@, stream@, trimmed_stream@),
{
    if stream.is_empty() {
        String::new()
    } else {
        String::from_str(label).concat("=").concat(trimmed_stream).concat(" ")
    }
}

/// The refusal of a probe of `url` on a platform of type `kind`, given the
/// two streams as they are quoted.
pub fn access_refused(url: &str, stdout_note: &str, stderr_note: &str, kind: PlatformType) -> (e:
    GitMoverError)
    ensures
        e@ == (GitMoverErrorView {
            kind: GitMoverErrorKind::AuthFailure,
            message: refusal_text(url@, stdout_note@, stderr_note@, kind),
            source: None,
        }),
{
    let message = String::from_str("Cannot access to ").concat(url).concat(": ").concat(
        stdout_note,
    ).concat(stderr_note).concat("for ").concat(kind.name());
    GitMoverError::with_kind(GitMoverErrorKind::AuthFailure, message)
}

/// Whether the probe passed: whether the user name occurs in one of the
/// two streams.
pub fn probe_passed(username: &str, stdout: &str, stderr: &str) -> (b: bool)
    ensures
        b == access_granted(username@, stdout@, stderr@),
{
    str_contains(stdout, username) || str_contains(stderr, username)
}

fn note_of(label: &str, stream: &str) -> (s: String)
    ensures
        s@ == stream_note(label@, stream@),
{
    quote_stream(label, stream, trim(stream))
}

/// The Platform trait gathers what the engine needs to know of a git
/// platform before it talks to it.
pub trait Platform {
    /// The platform as the contracts see it.
    spec fn model(&self) -> PlatformView;

    /// Get the username of the platform.
    fn get_username(&self) -> (u: &str)
        ensures
            u@ == self.model().username,
    ;

    /// Get the host name under which the platform serves git.
    fn get_remote_url(&self) -> (h: String)
        ensures
            h@ == self.model().host,
    ;

    /// get the type of the Platform
    fn get_type(&self) -> (k: PlatformType)
        ensures
            k == self.model().kind,
    ;

    /// The request that creates `repo`.
    spec fn create_request_spec(&self, repo: RepoView) -> HttpRequestView;

    /// The request that looks up the repository under `name`.
    spec fn get_request_spec(&self, name: Seq<char>) -> HttpRequestView;

    /// The request that brings the platform's record up to `repo`.
    spec fn edit_request_spec(&self, repo: RepoView) -> HttpRequestView;

    /// The request that lists page `page` of the user's repositories.
    spec fn list_request_spec(&self, page: nat) -> HttpRequestView;

    /// The request that removes the repository under `name`.
    spec fn delete_request_spec(&self, name: Seq<char>) -> HttpRequestView;

    /// The name under which the platform looks `repo` up.
    spec fn lookup_key_spec(&self, repo: RepoView) -> Seq<char>;

    /// `repo` as the platform holds it once it has created it.
    spec fn as_stored_spec(&self, repo: RepoView) -> RepoView;

    /// Create a new repository on the platform: the request for it.
    fn create_request(&self, repo: &Repo) -> (req: HttpRequest)
        ensures
            req@ == self.create_request_spec(repo@),
    ;

    /// Get a repository from the platform: the request for it.
    fn get_request(&self, name: &str) -> (req: HttpRequest)
        ensures
            req@ == self.get_request_spec(name@),
    ;

    /// Edit a repository on the platform: the request for it.
    fn edit_request(&self, repo: &Repo) -> (req: HttpRequest)
        ensures
            req@ == self.edit_request_spec(repo@),
    ;

    /// Get all repositories from the platform: the request for one page.
    fn list_request(&self, page: usize) -> (req: HttpRequest)
        ensures
            req@ == self.list_request_spec(page as nat),
    ;

    /// Delete a repository from the platform: the request for it.
    fn delete_request(&self, name: &str) -> (req: HttpRequest)
        ensures
            req@ == self.delete_request_spec(name@),
    ;

    /// The name under which the platform looks `repo` up.
    fn lookup_key(&self, repo: &Repo) -> (key: String)
        ensures
            key@ == self.lookup_key_spec(repo@),
    ;

    /// `repo` as the platform holds it once it has created it: what a
    /// lookup is compared with, and what an update sends.
    fn as_stored(&self, repo: &Repo) -> (stored: Repo)
        ensures
            stored@ == self.as_stored_spec(repo@),
    ;

    /// The address to probe for git access.
    fn access_probe_url(&self) -> (url: String)
        ensures
            url@ == probe_url(self.model().host),
    {
        String::from_str("ssh://git@").concat(self.get_remote_url().as_str())
    }

    /// The git transport address of the repository at `path`.
    fn git_url(&self, path: &str) -> (url: String)
        ensures
            url@ == transport_url(self.model().host, self.model().username, path@),
    {
        String::from_str("ssh://git@").concat(self.get_remote_url().as_str()).concat("/").concat(
            self.get_username(),
        ).concat("/").concat(path).concat(".git")
    }

    /// Check git access: judges what the probe printed. The probe passes
    /// exactly when the user name occurs in one of the two streams, whatever
    /// the probe's exit status was.
    fn check_git_access(&self, stdout: &str, stderr: &str) -> (res: Result<(), GitMoverError>)
        ensures
            res is Ok <==> access_granted(self.model().username, stdout@, stderr@),
            res matches Err(e) ==> e@ == (GitMoverErrorView {
                kind: GitMoverErrorKind::AuthFailure,
                message: access_denied_text(self.model(), stdout@, stderr@),
                source: None,
            }),
    {
        if probe_passed(self.get_username(), stdout, stderr) {
            Ok(())
        } else {
            Err(
                access_refused(
                    self.access_probe_url().as_str(),
                    note_of("stdout", stdout).as_str(),
                    note_of("stderr", stderr).as_str(),
                    self.get_type(),
                ),
            )
        }
    }
}

} // verus!
