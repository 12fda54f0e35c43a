//! Requests to a platform's REST interface, and what its answers mean.
//!
//! A request is built here as plain data: method, address, headers, query
//! and body. Sending it is the caller's work, and so is reading JSON. What
//! a status code means is decided here.
use crate::codeberg::repo::{CodebergRepo, CodebergRepoView};
use crate::errors::{GitMoverError, GitMoverErrorKind, GitMoverErrorView};
use crate::gitlab::repo::{GitlabRepo, GitlabRepoEdition, GitlabRepoEditionView, GitlabRepoView};
use crate::utils::{Repo, RepoView};
use vstd::prelude::*;
use vstd::string::StringExecFns;
use vstd::utf8::encode_utf8;

verus! {

/// A byte that a percent-encoded text holds as it is: an ASCII letter or
/// digit, or one of `-`, `.`, `_`, `~`.
pub open spec fn is_unreserved(b: u8) -> bool {
    (0x30 <= b && b <= 0x39) || (0x41 <= b && b <= 0x5A) || (0x61 <= b && b <= 0x7A) || b == 0x2D
        || b == 0x2E || b == 0x5F || b == 0x7E
}

/// The upper-case hexadecimal digit of a value below 16.
pub open spec fn hex_digit(d: int) -> char {
    if d < 10 {
        crate::text::digit_char(d)
    } else if d == 10 {
        'A'
    } else if d == 11 {
        'B'
    } else if d == 12 {
        'C'
    } else if d == 13 {
        'D'
    } else if d == 14 {
        'E'
    } else {
        'F'
    }
}

/// One byte, percent-encoded.
pub open spec fn encoded_byte(b: u8) -> Seq<char> {
    if is_unreserved(b) {
        seq![b as char]
    } else {
        seq!['%', hex_digit(b as int / 16), hex_digit(b as int % 16)]
    }
}

/// A run of bytes, percent-encoded byte by byte.
pub open spec fn percent_encoded(bytes: Seq<u8>) -> Seq<char>
    decreases bytes.len(),
{
    if bytes.len() == 0 {
        Seq::empty()
    } else {
        percent_encoded(bytes.drop_last()) + encoded_byte(bytes.last())
    }
}

/// A text, percent-encoded: its UTF-8 bytes, each encoded by itself.
pub open spec fn url_encoded(text: Seq<char>) -> Seq<char> {
    percent_encoded(encode_utf8(text))
}

/// Calls `urlencoding::encode`, which percent-encodes every byte of the
/// UTF-8 form of its argument except ASCII letters and digits and `-`, `.`,
/// `_`, `~`, with upper-case hexadecimal digits. The contract states that
/// result in full.
#[verifier::external_body]
pub(crate) fn url_encode(text: &str) -> (res: String)
    ensures
        res@ == url_encoded(text@),
{
    urlencoding::encode(text).into_owned()
}

/// The method of a request.
#[derive(Debug, Clone, Copy, PartialEq, Eq, Structural)]
pub enum HttpMethod {
    Get,
    Post,
    Patch,
    Put,
    Delete,
}

/// A header or a query parameter.
#[derive(Debug)]
pub struct Pair {
    pub name: String,
    pub value: String,
}

/// Mathematical model of a [`Pair`].
pub struct PairView {
    pub name: Seq<char>,
    pub value: Seq<char>,
}

impl View for Pair {
    type V = PairView;

    open spec fn view(&self) -> PairView {
        PairView { name: self.name@, value: self.value@ }
    }
}

/// The models of a sequence of pairs, in the same order.
pub open spec fn pair_views(pairs: Seq<Pair>) -> Seq<PairView> {
    pairs.map_values(|p: Pair| p@)
}

/// The pair of `name` and `value`.
pub open spec fn pair_of(name: Seq<char>, value: Seq<char>) -> PairView {
    PairView { name, value }
}

/// Builds a pair.
pub fn pair(name: &str, value: &str) -> (p: Pair)
    ensures
        p@ == pair_of(name@, value@),
{
    Pair { name: String::from_str(name), value: String::from_str(value) }
}

/// Whether a status code reports success: 200 to 299.
pub open spec fn status_is_success(status: u16) -> bool {
    200 <= status && status < 300
}

/// What kind of failure a status code outside 200 to 299 reports.
pub open spec fn status_kind(status: u16) -> GitMoverErrorKind {
    if status == 404 {
        GitMoverErrorKind::NotFound
    } else if status == 409 {
        GitMoverErrorKind::Conflict
    } else if status == 401 || status == 403 {
        GitMoverErrorKind::AuthFailure
    } else {
        GitMoverErrorKind::Other
    }
}

/// Whether a status code reports success.
pub fn is_success(status: u16) -> (b: bool)
    ensures
        b == status_is_success(status),
{
    200 <= status && status < 300
}

/// What kind of failure a status code reports.
pub fn classify_status(status: u16) -> (kind: GitMoverErrorKind)
    ensures
        kind == status_kind(status),
{
    if status == 404 {
        GitMoverErrorKind::NotFound
    } else if status == 409 {
        GitMoverErrorKind::Conflict
    } else if status == 401 || status == 403 {
        GitMoverErrorKind::AuthFailure
    } else {
        GitMoverErrorKind::Other
    }
}

/// Judges an answer by its status. An answer with a status from 200 to 299
/// is accepted; any other is an error of the kind that the status reports,
/// whose message is the body of the answer.
pub fn check_response(status: u16, body: &str) -> (res: Result<(), GitMoverError>)
    ensures
        res is Ok <==> status_is_success(status),
        res matches Err(e) ==> e@ == (GitMoverErrorView {
            kind: status_kind(status),
            message: body@,
            source: None,
        }),
{
    if is_success(status) {
        Ok(())
    } else {
        Err(GitMoverError::with_kind(classify_status(status), String::from_str(body)))
    }
}

/// The error for an exchange that broke off before an answer came: kind
/// `Transport`, with the text of what went wrong as its message.
pub fn transport_error(text: &str) -> (e: GitMoverError)
    ensures
        e@ == (GitMoverErrorView {
            kind: GitMoverErrorKind::Transport,
            message: text@,
            source: None,
        }),
{
    GitMoverError::with_kind(GitMoverErrorKind::Transport, String::from_str(text))
}

/// What a request carries as its JSON body.
#[derive(Debug)]
pub enum RequestBody {
    /// Nothing.
    Empty,
    /// A repository in Codeberg's form.
    Codeberg(CodebergRepo),
    /// A repository as this crate holds it.
    Github(Repo),
    /// A project in Gitlab's form.
    Gitlab(GitlabRepo),
    /// The changes to a Gitlab project.
    GitlabEdition(GitlabRepoEdition),
}

/// Mathematical model of a [`RequestBody`].
pub enum RequestBodyView {
    Empty,
    Codeberg(CodebergRepoView),
    Github(RepoView),
    Gitlab(GitlabRepoView),
    GitlabEdition(GitlabRepoEditionView),
}

impl View for RequestBody {
    type V = RequestBodyView;

    open spec fn view(&self) -> RequestBodyView {
        match self {
            RequestBody::Empty => RequestBodyView::Empty,
            RequestBody::Codeberg(r) => RequestBodyView::Codeberg(r@),
            RequestBody::Github(r) => RequestBodyView::Github(r@),
            RequestBody::Gitlab(r) => RequestBodyView::Gitlab(r@),
            RequestBody::GitlabEdition(r) => RequestBodyView::GitlabEdition(r@),
        }
    }
}

/// A request to a platform's REST interface.
#[derive(Debug)]
pub struct HttpRequest {
    pub method: HttpMethod,
    pub url: String,
    pub headers: Vec<Pair>,
    pub query: Vec<Pair>,
    pub body: RequestBody,
}

/// Mathematical model of an [`HttpRequest`].
pub struct HttpRequestView {
    pub method: HttpMethod,
    pub url: Seq<char>,
    pub headers: Seq<PairView>,
    pub query: Seq<PairView>,
    pub body: RequestBodyView,
}

impl View for HttpRequest {
    type V = HttpRequestView;

    open spec fn view(&self) -> HttpRequestView {
        HttpRequestView {
            method: self.method,
            url: self.url@,
            headers: pair_views(self.headers@),
            query: pair_views(self.query@),
            body: self.body@,
        }
    }
}

/// Builds a list of two pairs.
pub fn pairs2(a: Pair, b: Pair) -> (v: Vec<Pair>)
    ensures
        pair_views(v@) == seq![a@, b@],
{
    let mut v: Vec<Pair> = Vec::new();
    v.push(a);
    v.push(b);
    assert(pair_views(v@) =~= seq![a@, b@]);
    v
}

/// Builds a list of three pairs.
pub fn pairs3(a: Pair, b: Pair, c: Pair) -> (v: Vec<Pair>)
    ensures
        pair_views(v@) == seq![a@, b@, c@],
{
    let mut v: Vec<Pair> = Vec::new();
    v.push(a);
    v.push(b);
    v.push(c);
    assert(pair_views(v@) =~= seq![a@, b@, c@]);
    v
}

/// Builds a list of four pairs.
pub fn pairs4(a: Pair, b: Pair, c: Pair, d: Pair) -> (v: Vec<Pair>)
    ensures
        pair_views(v@) == seq![a@, b@, c@, d@],
{
    let mut v: Vec<Pair> = Vec::new();
    v.push(a);
    v.push(b);
    v.push(c);
    v.push(d);
    assert(pair_views(v@) =~= seq![a@, b@, c@, d@]);
    v
}

/// Builds a list of one pair.
pub fn pairs1(a: Pair) -> (v: Vec<Pair>)
    ensures
        pair_views(v@) == seq![a@],
{
    let mut v: Vec<Pair> = Vec::new();
    v.push(a);
    assert(pair_views(v@) =~= seq![a@]);
    v
}

/// The empty list of pairs.
pub fn no_pairs() -> (v: Vec<Pair>)
    ensures
        pair_views(v@) == Seq::<PairView>::empty(),
{
    let v: Vec<Pair> = Vec::new();
    assert(pair_views(v@) =~= Seq::<PairView>::empty());
    v
}

} // verus!
