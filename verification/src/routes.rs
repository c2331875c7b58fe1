//! What the handlers answer: the status and the shape of each reply.

use vstd::prelude::*;
use crate::auth::AuthError;
use crate::middlewares::Gate;
use crate::model::error::Error;

pub mod auth;
pub mod book;
pub mod borrowing;
pub mod category;
pub mod fine;
pub mod reservation;
pub mod review;
pub mod user;

verus! {

/// A reply to the caller, short of the data that it may carry.
#[derive(Debug, Clone, Copy, PartialEq, Eq)]
pub enum Reply {
    /// A failure: the object `{"error": error}` under `status`.
    Failure { status: u16, error: &'static str },
    /// A success without data: the object `{"message": message}` under `status`.
    Message { status: u16, message: &'static str },
    /// A success with data: an object that holds the data under `key`,
    /// sent under `status`.
    Payload { status: u16, key: &'static str },
    /// A success with data and a word: an object that holds `word` under
    /// `tag` and the data under `key`, sent under `status`.
    Tagged { status: u16, tag: &'static str, word: &'static str, key: &'static str },
    /// A finding: an object that holds `flag` under `status`, `message`
    /// under `message` and, where there is one, `count` under `count`,
    /// sent under `status`.
    Flagged { status: u16, flag: bool, message: &'static str, count: Option<i64> },
}

/// What a handler does to the store.
#[derive(Debug, Clone, Copy, PartialEq, Eq, Structural)]
pub enum Handler {
    /// It only reads: a failure of the store is unexpected.
    Reads,
    /// It adds or changes a row: the store may refuse what was sent.
    Writes,
}

impl Reply {
    /// The HTTP status of a reply.
    pub open spec fn spec_status(self) -> u16 {
        match self {
            Reply::Failure { status, .. } => status,
            Reply::Message { status, .. } => status,
            Reply::Payload { status, .. } => status,
            Reply::Tagged { status, .. } => status,
            Reply::Flagged { status, .. } => status,
        }
    }

    /// The HTTP status of a reply.
    pub fn status(&self) -> (r: u16)
        ensures
            r == self.spec_status(),
    {
        match self {
            Reply::Failure { status, .. } => *status,
            Reply::Message { status, .. } => *status,
            Reply::Payload { status, .. } => *status,
            Reply::Tagged { status, .. } => *status,
            Reply::Flagged { status, .. } => *status,
        }
    }
}

/// The reply to a failure `e` of a handler, whose own words for a
/// failure are `error`. A missing entity is always not found, under the
/// handler's words. What the store refuses of a handler that writes is
/// bad input, under the handler's words, which do not tell which
/// constraint was broken. Everything else is unexpected: a row-count
/// anomaly, a failed hash, and any failure of the store under a handler
/// that only reads are internal, and say nothing of the cause.
pub open spec fn failure(e: Error, handler: Handler, error: &'static str) -> Reply {
    match e {
        Error::EntityNotFound { .. } => Reply::Failure { status: 404, error },
        Error::CountFail => Reply::Failure { status: 500, error: "Something is not right" },
        Error::Hash(_) => Reply::Failure { status: 500, error: "Something is not right" },
        _ => match handler {
            Handler::Writes => Reply::Failure { status: 400, error },
            Handler::Reads => Reply::Failure { status: 500, error: "Something is not right" },
        },
    }
}

/// The reply to the outcome of a handler: `done` on success, and on
/// failure what [`failure`] makes of it.
pub open spec fn replied<T>(outcome: Result<T, Error>, done: Reply, handler: Handler, error: &'static str) -> Reply {
    match outcome {
        Ok(_) => done,
        Err(e) => failure(e, handler, error),
    }
}

/// Answers a failure of a handler.
pub fn refuse(e: &Error, handler: Handler, error: &'static str) -> (r: Reply)
    ensures
        r == failure(*e, handler, error),
{
    match e {
        Error::EntityNotFound { .. } => Reply::Failure { status: 404, error },
        Error::CountFail => Reply::Failure { status: 500, error: "Something is not right" },
        Error::Hash(_) => Reply::Failure { status: 500, error: "Something is not right" },
        _ => match handler {
            Handler::Writes => Reply::Failure { status: 400, error },
            Handler::Reads => Reply::Failure { status: 500, error: "Something is not right" },
        },
    }
}

/// Answers the outcome of a handler.
pub fn answer<T>(outcome: &Result<T, Error>, done: Reply, handler: Handler, error: &'static str) -> (r: Reply)
    ensures
        r == replied(*outcome, done, handler, error),
{
    match outcome {
        Ok(_) => done,
        Err(e) => refuse(e, handler, error),
    }
}

/// The reply to the greeting.
pub fn hello_world() -> (r: Reply)
    ensures
        r == (Reply::Payload { status: 200, key: "hello" }),
{
    Reply::Payload { status: 200, key: "hello" }
}

/// The reply to a request without a caller: unauthorized, with the reason.
pub fn auth_failure(e: AuthError) -> (r: Reply)
    ensures
        r == match e {
            AuthError::MissingCredentials => Reply::Failure {
                status: 401,
                error: "Missing credentials",
            },
            AuthError::InvalidToken => Reply::Failure { status: 401, error: "Invalid token" },
            AuthError::ExpiredToken => Reply::Failure {
                status: 401,
                error: "Expired token. Please login again",
            },
        },
{
    match e {
        AuthError::MissingCredentials => Reply::Failure { status: 401, error: "Missing credentials" },
        AuthError::InvalidToken => Reply::Failure { status: 401, error: "Invalid token" },
        AuthError::ExpiredToken => Reply::Failure {
            status: 401,
            error: "Expired token. Please login again",
        },
    }
}

/// The reply of a gate that turned the caller away; a gate that let the
/// caller pass sends none, and the handler answers.
pub fn gate_failure(gate: Gate) -> (r: Option<Reply>)
    ensures
        r == match gate {
            Gate::Allowed => None::<Reply>,
            Gate::Forbidden => Some(Reply::Failure { status: 403, error: "Forbidden" }),
            Gate::Unauthorized => Some(Reply::Failure { status: 401, error: "Unauthorized" }),
        },
{
    match gate {
        Gate::Allowed => None,
        Gate::Forbidden => Some(Reply::Failure { status: 403, error: "Forbidden" }),
        Gate::Unauthorized => Some(Reply::Failure { status: 401, error: "Unauthorized" }),
    }
}

/// The reply to an unknown path of the interface.
pub fn not_found() -> (r: Reply)
    ensures
        r == (Reply::Failure { status: 404, error: "Not found" }),
{
    Reply::Failure { status: 404, error: "Not found" }
}

/// Whether any user has been provisioned, as told to the caller.
#[derive(Debug, Clone, Copy, PartialEq, Eq)]
pub enum Provisioned {
    /// There are `count` users, at least one.
    Users { count: i64 },
    /// There is no user yet.
    NoUser,
    /// The users could not be counted.
    Unknown,
}

/// What a count of the users tells: users exist when the count is
/// positive, none when it is not, and nothing when counting failed.
pub fn user_exists(count: &Result<i64, Error>) -> (r: Provisioned)
    ensures
        r == match *count {
            Ok(n) => if n > 0 {
                Provisioned::Users { count: n }
            } else {
                Provisioned::NoUser
            },
            Err(_) => Provisioned::Unknown,
        },
{
    match count {
        Ok(n) => {
            if *n > 0 {
                Provisioned::Users { count: *n }
            } else {
                Provisioned::NoUser
            }
        },
        Err(_) => Provisioned::Unknown,
    }
}

impl Provisioned {
    /// The reply that tells it: both findings are successes and carry a
    /// flag and a message, the first the count too; a failed count is
    /// unexpected.
    pub fn reply(self) -> (r: Reply)
        ensures
            r == match self {
                Provisioned::Users { count } => Reply::Flagged {
                    status: 200,
                    flag: true,
                    message: "Users exists",
                    count: Some(count),
                },
                Provisioned::NoUser => Reply::Flagged {
                    status: 200,
                    flag: false,
                    message: "No user",
                    count: None,
                },
                Provisioned::Unknown => Reply::Failure { status: 500, error: "Something is not right" },
            },
    {
        match self {
            Provisioned::Users { count } => Reply::Flagged {
                status: 200,
                flag: true,
                message: "Users exists",
                count: Some(count),
            },
            Provisioned::NoUser => Reply::Flagged {
                status: 200,
                flag: false,
                message: "No user",
                count: None,
            },
            Provisioned::Unknown => Reply::Failure { status: 500, error: "Something is not right" },
        }
    }
}

} // verus!
