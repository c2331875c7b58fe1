//! The replies of the handlers of fines.

use vstd::prelude::*;
use crate::model::error::Error;
use crate::routes::{answer, replied, Handler, Reply};

verus! {

/// The reply to a request for one fine.
pub fn get_fine<T>(outcome: &Result<T, Error>) -> (r: Reply)
    ensures
        r == replied(*outcome, Reply::Payload { status: 200, key: "fine" }, Handler::Reads, "Fine not found"),
{
    answer(outcome, Reply::Payload { status: 200, key: "fine" }, Handler::Reads, "Fine not found")
}

/// The reply to a change of one fine.
pub fn update_fine<T>(outcome: &Result<T, Error>) -> (r: Reply)
    ensures
        r == replied(*outcome, Reply::Message { status: 200, message: "Fine updated" }, Handler::Writes, "Fine not found"),
{
    answer(outcome, Reply::Message { status: 200, message: "Fine updated" }, Handler::Writes, "Fine not found")
}

/// The reply to a new fine.
pub fn create_fine<T>(outcome: &Result<T, Error>) -> (r: Reply)
    ensures
        r == replied(*outcome, Reply::Message { status: 201, message: "Fine added" }, Handler::Writes, "Fine could not be added"),
{
    answer(outcome, Reply::Message { status: 201, message: "Fine added" }, Handler::Writes, "Fine could not be added")
}

/// The reply to a request for every fine.
pub fn get_fines<T>(outcome: &Result<T, Error>) -> (r: Reply)
    ensures
        r == replied(*outcome, Reply::Payload { status: 200, key: "fines" }, Handler::Reads, "Fine not found"),
{
    answer(outcome, Reply::Payload { status: 200, key: "fines" }, Handler::Reads, "Fine not found")
}

} // verus!
