//! The replies of the handlers of reviews.

use vstd::prelude::*;
use crate::model::error::Error;
use crate::routes::{answer, replied, Handler, Reply};

verus! {

/// The reply to a request for one review.
pub fn get_review<T>(outcome: &Result<T, Error>) -> (r: Reply)
    ensures
        r == replied(*outcome, Reply::Payload { status: 200, key: "review" }, Handler::Reads, "Review not found"),
{
    answer(outcome, Reply::Payload { status: 200, key: "review" }, Handler::Reads, "Review not found")
}

/// The reply to a change of one review.
pub fn update_review<T>(outcome: &Result<T, Error>) -> (r: Reply)
    ensures
        r == replied(*outcome, Reply::Message { status: 200, message: "Review updated" }, Handler::Writes, "Review not found"),
{
    answer(outcome, Reply::Message { status: 200, message: "Review updated" }, Handler::Writes, "Review not found")
}

/// The reply to a new review.
pub fn create_review<T>(outcome: &Result<T, Error>) -> (r: Reply)
    ensures
        r == replied(*outcome, Reply::Message { status: 201, message: "Review added" }, Handler::Writes, "Review could not be added"),
{
    answer(outcome, Reply::Message { status: 201, message: "Review added" }, Handler::Writes, "Review could not be added")
}

/// The reply to a request for every review.
pub fn get_reviews<T>(outcome: &Result<T, Error>) -> (r: Reply)
    ensures
        r == replied(*outcome, Reply::Payload { status: 200, key: "reviews" }, Handler::Reads, "Review not found"),
{
    answer(outcome, Reply::Payload { status: 200, key: "reviews" }, Handler::Reads, "Review not found")
}

} // verus!
