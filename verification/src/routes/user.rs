//! The replies of the handlers of users.

use vstd::prelude::*;
use crate::model::error::Error;
use crate::routes::{answer, replied, Handler, Reply};

verus! {

/// The reply to a request for one user: the user, or that there is none.
pub fn get_user<T>(outcome: &Result<T, Error>) -> (r: Reply)
    ensures
        r == replied(*outcome, Reply::Payload { status: 200, key: "user" }, Handler::Reads, "User not found"),
{
    answer(outcome, Reply::Payload { status: 200, key: "user" }, Handler::Reads, "User not found")
}

/// The reply to a caller's request for the caller's own user.
pub fn get_current_user<T>(outcome: &Result<T, Error>) -> (r: Reply)
    ensures
        r == replied(*outcome, Reply::Payload { status: 200, key: "user" }, Handler::Reads, "User not found"),
{
    answer(outcome, Reply::Payload { status: 200, key: "user" }, Handler::Reads, "User not found")
}

/// The reply to a request for every user.
pub fn get_users<T>(outcome: &Result<T, Error>) -> (r: Reply)
    ensures
        r == replied(*outcome, Reply::Payload { status: 200, key: "users" }, Handler::Reads, "User not found"),
{
    answer(outcome, Reply::Payload { status: 200, key: "users" }, Handler::Reads, "User not found")
}

/// The reply to a change of one user.
pub fn update_user<T>(outcome: &Result<T, Error>) -> (r: Reply)
    ensures
        r == replied(*outcome, Reply::Message { status: 200, message: "User updated" }, Handler::Writes, "User not found"),
{
    answer(outcome, Reply::Message { status: 200, message: "User updated" }, Handler::Writes, "User not found")
}

/// The reply to a caller's change of the caller's own user.
pub fn update_current_user<T>(outcome: &Result<T, Error>) -> (r: Reply)
    ensures
        r == replied(*outcome, Reply::Message { status: 200, message: "User updated" }, Handler::Writes, "User not found"),
{
    answer(outcome, Reply::Message { status: 200, message: "User updated" }, Handler::Writes, "User not found")
}

/// The reply to a caller's request for the caller's own reviews.
pub fn get_reviews<T>(outcome: &Result<T, Error>) -> (r: Reply)
    ensures
        r == replied(*outcome, Reply::Payload { status: 200, key: "reviews" }, Handler::Reads, "Review not found"),
{
    answer(outcome, Reply::Payload { status: 200, key: "reviews" }, Handler::Reads, "Review not found")
}

} // verus!
