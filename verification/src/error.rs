//! The errors of the service and how each is answered.
use vstd::prelude::*;

verus! {

/// An error reported by libgit2, in plain values.
#[derive(Debug)]
pub struct GitError {
    /// Whether libgit2 reported that the object was not found.
    pub not_found: bool,
    /// The error as libgit2 renders it.
    pub message: String,
}

impl GitError {
    /// A generic error with only a message, as `git2::Error::from_str` makes.
    pub fn from_message(message: &str) -> (e: GitError)
        ensures
            !e.not_found,
            e.message@ == message@,
    {
        GitError { not_found: false, message: String::from_str(message) }
    }
}

/// What can go wrong while serving a request.
#[derive(Debug)]
pub enum Error {
    Git(GitError),
    IO(String),
    Axum(String),
    Envy(String),
    InvalidCommit(String),
    BranchExists(String),
    TokioTask(String),
    Json(String),
    BuffaDecode(String),
    Time(String),
}

/// The kind of answer given to a failed request.
#[derive(Clone, Copy, Debug, PartialEq, Eq, Structural)]
pub enum Code {
    InvalidArgument,
    NotFound,
    AlreadyExists,
    Internal,
}

/// A failed request's answer: its kind and its message.
#[derive(Debug)]
pub struct Status {
    pub code: Code,
    pub message: String,
}

/// The text of an error, as the service writes it in its logs.
pub open spec fn error_text(e: Error) -> Seq<char> {
    match e {
        Error::Git(g) => "git error "@ + g.message@,
        Error::IO(m) => "IO error "@ + m@,
        Error::Axum(m) => "Axum error "@ + m@,
        Error::Envy(m) => "Reading environment "@ + m@,
        Error::InvalidCommit(m) => "reference "@ + m@ + " is not a valid commit"@,
        Error::BranchExists(m) => "branch "@ + m@ + " already exists"@,
        Error::TokioTask(m) => "Tokio task error "@ + m@,
        Error::Json(m) => "JSON error "@ + m@,
        Error::BuffaDecode(m) => "Buffa decode error "@ + m@,
        Error::Time(m) => "time error "@ + m@,
    }
}

fn prefixed_text(prefix: &str, m: &String) -> (r: String)
    ensures
        r@ == prefix@ + m@,
{
    let mut r = String::from_str(prefix);
    r.append(m.as_str());
    r
}

fn wrapped_text(prefix: &str, m: &String, suffix: &str) -> (r: String)
    ensures
        r@ == prefix@ + m@ + suffix@,
{
    let mut r = prefixed_text(prefix, m);
    r.append(suffix);
    r
}

impl Error {
    /// The text of this error, as the service writes it in its logs.
    pub fn message(&self) -> (r: String)
        ensures
            r@ == error_text(*self),
    {
        match self {
            Error::Git(g) => prefixed_text("git error ", &g.message),
            Error::IO(m) => prefixed_text("IO error ", m),
            Error::Axum(m) => prefixed_text("Axum error ", m),
            Error::Envy(m) => prefixed_text("Reading environment ", m),
            Error::InvalidCommit(m) => wrapped_text("reference ", m, " is not a valid commit"),
            Error::BranchExists(m) => wrapped_text("branch ", m, " already exists"),
            Error::TokioTask(m) => prefixed_text("Tokio task error ", m),
            Error::Json(m) => prefixed_text("JSON error ", m),
            Error::BuffaDecode(m) => prefixed_text("Buffa decode error ", m),
            Error::Time(m) => prefixed_text("time error ", m),
        }
    }

    /// The answer to a request that failed with this error: a reference that
    /// is not a commit is the caller's mistake, an existing branch is a
    /// conflict, and anything else is the service's own failure.
    pub fn into_status(self) -> (s: Status)
        ensures
            match self {
                Error::InvalidCommit(m) => s.code == Code::InvalidArgument && s.message@ == m@,
                Error::BranchExists(m) => s.code == Code::AlreadyExists && s.message@ == m@,
                Error::Git(g) => s.code == Code::Internal && s.message@ == g.message@,
                Error::IO(m) => s.code == Code::Internal && s.message@ == m@,
                Error::Axum(m) => s.code == Code::Internal && s.message@ == m@,
                Error::Envy(m) => s.code == Code::Internal && s.message@ == m@,
                Error::TokioTask(m) => s.code == Code::Internal && s.message@ == m@,
                Error::BuffaDecode(m) => s.code == Code::Internal && s.message@ == m@,
                Error::Json(m) => s.code == Code::Internal && s.message@ == m@,
                Error::Time(m) => s.code == Code::Internal && s.message@ == m@,
            },
    {
        match self {
            Error::Git(g) => Status { code: Code::Internal, message: g.message },
            Error::IO(m) => Status { code: Code::Internal, message: m },
            Error::Axum(m) => Status { code: Code::Internal, message: m },
            Error::Envy(m) => Status { code: Code::Internal, message: m },
            Error::InvalidCommit(m) => Status { code: Code::InvalidArgument, message: m },
            Error::BranchExists(m) => Status { code: Code::AlreadyExists, message: m },
            Error::TokioTask(m) => Status { code: Code::Internal, message: m },
            Error::Json(e) => Status { code: Code::Internal, message: e },
            Error::BuffaDecode(m) => Status { code: Code::Internal, message: m },
            Error::Time(e) => Status { code: Code::Internal, message: e },
        }
    }
}

} // verus!
