//! The replies of the handlers of categories.

use vstd::prelude::*;
use crate::model::error::Error;
use crate::routes::{answer, replied, Handler, Reply};

verus! {

/// The reply to a request for one category.
pub fn get_category<T>(outcome: &Result<T, Error>) -> (r: Reply)
    ensures
        r == replied(*outcome, Reply::Payload { status: 200, key: "category" }, Handler::Reads, "Category not found"),
{
    answer(outcome, Reply::Payload { status: 200, key: "category" }, Handler::Reads, "Category not found")
}

/// The reply to a change of one category.
pub fn update_category<T>(outcome: &Result<T, Error>) -> (r: Reply)
    ensures
        r == replied(*outcome, Reply::Message { status: 200, message: "Category updated" }, Handler::Writes, "Category not found"),
{
    answer(outcome, Reply::Message { status: 200, message: "Category updated" }, Handler::Writes, "Category not found")
}

/// The reply to a new category.
pub fn create_category<T>(outcome: &Result<T, Error>) -> (r: Reply)
    ensures
        r == replied(*outcome, Reply::Message { status: 201, message: "Category added" }, Handler::Writes, "Category could not be added"),
{
    answer(outcome, Reply::Message { status: 201, message: "Category added" }, Handler::Writes, "Category could not be added")
}

/// The reply to a request for every category.
pub fn get_categories<T>(outcome: &Result<T, Error>) -> (r: Reply)
    ensures
        r == replied(*outcome, Reply::Payload { status: 200, key: "categories" }, Handler::Reads, "Category not found"),
{
    answer(outcome, Reply::Payload { status: 200, key: "categories" }, Handler::Reads, "Category not found")
}

} // verus!
