//! The replies of the handlers of borrowings.

use vstd::prelude::*;
use crate::model::error::Error;
use crate::routes::{answer, replied, Handler, Reply};

verus! {

/// The reply to a request for one borrowing.
pub fn get_borrowing<T>(outcome: &Result<T, Error>) -> (r: Reply)
    ensures
        r == replied(*outcome, Reply::Payload { status: 200, key: "borrowing" }, Handler::Reads, "Borrowing not found"),
{
    answer(outcome, Reply::Payload { status: 200, key: "borrowing" }, Handler::Reads, "Borrowing not found")
}

/// The reply to a caller's request for the caller's own borrowings.
pub fn get_current_user_borrowings<T>(outcome: &Result<T, Error>) -> (r: Reply)
    ensures
        r == replied(*outcome, Reply::Payload { status: 200, key: "borrowings" }, Handler::Reads, "Borrowing not found"),
{
    answer(outcome, Reply::Payload { status: 200, key: "borrowings" }, Handler::Reads, "Borrowing not found")
}

/// The reply to a change of one borrowing.
pub fn update_borrowing<T>(outcome: &Result<T, Error>) -> (r: Reply)
    ensures
        r == replied(*outcome, Reply::Message { status: 200, message: "Borrowing updated" }, Handler::Writes, "Borrowing not found"),
{
    answer(outcome, Reply::Message { status: 200, message: "Borrowing updated" }, Handler::Writes, "Borrowing not found")
}

} // verus!
