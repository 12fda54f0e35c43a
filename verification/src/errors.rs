//! Error handling for the git-mover crate.
use vstd::prelude::*;
use vstd::std_specs::convert::FromSpecImpl;
use vstd::string::StringExecFns;

verus! {

/// What went wrong, as far as a caller can act on it.
#[derive(Debug, Clone, Copy, PartialEq, Eq, Structural)]
pub enum GitMoverErrorKind {
    /// The resource does not exist on the platform.
    NotFound,
    /// The resource exists already, or its state forbids the operation.
    Conflict,
    /// The platform refused the credentials.
    AuthFailure,
    /// The platform could not be reached, or the exchange broke off.
    Transport,
    /// Anything else; the message says what.
    Other,
}

/// Mathematical model of a [`GitMoverError`].
pub struct GitMoverErrorView {
    pub kind: GitMoverErrorKind,
    pub message: Seq<char>,
    pub source: Option<Seq<char>>,
}

/// Error type for the git-mover crate.
#[derive(Debug)]
pub struct GitMoverError {
    /// What went wrong.
    kind: GitMoverErrorKind,
    /// Inner error.
    message: String,
    /// Text of the error that caused this one.
    source: Option<String>,
}

/// How an error reads: the message, then the cause after " - " if there is one.
pub open spec fn error_text(e: GitMoverErrorView) -> Seq<char> {
    match e.source {
        Some(cause) => e.message + " - "@ + cause,
        None => e.message,
    }
}

/// The model of an error that is blamed on another: it keeps the kind, reads
/// as the first error did, and names the text of the second as its cause.
pub open spec fn augmented(first: GitMoverErrorView, cause: GitMoverErrorView)
    -> GitMoverErrorView {
    GitMoverErrorView {
        kind: first.kind,
        message: error_text(first),
        source: Some(error_text(cause)),
    }
}

/// The model of an outcome that carries no value on success.
pub open spec fn outcome_view(r: Result<(), GitMoverError>) -> Result<(), GitMoverErrorView> {
    match r {
        Ok(()) => Ok(()),
        Err(e) => Err(e@),
    }
}

/// The model of an optional error.
pub open spec fn failure_view(failure: Option<GitMoverError>) -> Option<GitMoverErrorView> {
    match failure {
        Some(e) => Some(e@),
        None => None,
    }
}

/// The model of an error under a heading: it keeps the kind and reads as
/// the heading followed by the text of the error.
pub open spec fn headed(heading: Seq<char>, e: GitMoverErrorView) -> GitMoverErrorView {
    GitMoverErrorView { kind: e.kind, message: heading + error_text(e), source: None }
}

/// The model of a plain error: kind `Other`, no cause.
pub open spec fn plain_error(message: Seq<char>) -> GitMoverErrorView {
    GitMoverErrorView { kind: GitMoverErrorKind::Other, message, source: None }
}

impl View for GitMoverError {
    type V = GitMoverErrorView;

    closed spec fn view(&self) -> GitMoverErrorView {
        GitMoverErrorView {
            kind: self.kind,
            message: self.message@,
            source: match self.source {
                Some(s) => Some(s@),
                None => None,
            },
        }
    }
}

impl GitMoverError {
    /// Create a new error.
    pub fn new(message: String) -> (e: Self)
        ensures
            e@ == plain_error(message@),
    {
        Self { kind: GitMoverErrorKind::Other, message, source: None }
    }

    /// Create a new error that records the text of its cause.
    pub fn new_with_source(message: &str, from: &str) -> (e: Self)
        ensures
            e@ == (GitMoverErrorView {
                kind: GitMoverErrorKind::Other,
                message: message@,
                source: Some(from@),
            }),
    {
        Self {
            kind: GitMoverErrorKind::Other,
            message: String::from_str(message),
            source: Some(String::from_str(from)),
        }
    }

    /// Create a new error of a given kind.
    pub fn with_kind(kind: GitMoverErrorKind, message: String) -> (e: Self)
        ensures
            e@ == (GitMoverErrorView { kind, message: message@, source: None }),
    {
        Self { kind, message, source: None }
    }

    /// What went wrong.
    pub fn kind(&self) -> (k: GitMoverErrorKind)
        ensures
            k == self@.kind,
    {
        self.kind
    }

    /// The message, without the cause.
    pub fn message(&self) -> (m: &str)
        ensures
            m@ == self@.message,
    {
        self.message.as_str()
    }

    /// The text of the cause, if one was recorded.
    pub fn source_text(&self) -> (s: Option<&str>)
        ensures
            match s {
                Some(t) => self@.source == Some(t@),
                None => self@.source is None,
            },
    {
        match &self.source {
            Some(s) => Some(s.as_str()),
            None => None,
        }
    }

    /// This error, blamed on `cause`.
    pub fn with_cause(&self, cause: &GitMoverError) -> (e: Self)
        ensures
            e@ == augmented(self@, cause@),
    {
        Self { kind: self.kind, message: self.to_text(), source: Some(cause.to_text()) }
    }

    /// This error under a heading.
    pub fn under_heading(&self, heading: &str) -> (e: Self)
        ensures
            e@ == headed(heading@, self@),
    {
        Self {
            kind: self.kind,
            message: String::from_str(heading).concat(self.to_text().as_str()),
            source: None,
        }
    }

    /// The error as a line of text.
    pub fn to_text(&self) -> (s: String)
        ensures
            s@ == error_text(self@),
    {
        match &self.source {
            Some(cause) => self.message.clone().concat(" - ").concat(cause.as_str()),
            None => self.message.clone(),
        }
    }
}

impl Clone for GitMoverError {
    fn clone(&self) -> (e: Self)
        ensures
            e@ == self@,
    {
        Self {
            kind: self.kind,
            message: self.message.clone(),
            source: match &self.source {
                Some(s) => Some(s.clone()),
                None => None,
            },
        }
    }
}

impl From<String> for GitMoverError {
    fn from(e: String) -> (res: Self)
        ensures
            res@ == plain_error(e@),
    {
        Self { kind: GitMoverErrorKind::Other, message: e, source: None }
    }
}

impl FromSpecImpl<String> for GitMoverError {
    open spec fn obeys_from_spec() -> bool {
        true
    }

    closed spec fn from_spec(e: String) -> Self {
        GitMoverError { kind: GitMoverErrorKind::Other, message: e, source: None }
    }
}

} // verus!
