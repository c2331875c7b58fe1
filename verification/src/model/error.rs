//! What can go wrong between a field set and the store.

use vstd::prelude::*;
use vstd::string::StringExecFns;
use crate::text::{decimal, decimal_text};

verus! {

/// A failure of a data-access operation.
#[derive(Debug)]
pub enum Error {
    /// The store refused or failed the statement; the text is the store's own.
    Sqlx(String),
    /// The statement could not be built; the text is the builder's own.
    SeaQ(String),
    /// No row of `entity` has the id `id`.
    EntityNotFound { entity: &'static str, id: i64 },
    /// A statement keyed by id touched more than one row.
    CountFail,
    /// The password could not be hashed.
    Hash(String),
}

impl Error {
    /// The message of a failure: the cause's own text for a failure of
    /// the store or of the builder, and else what went wrong in words.
    pub open spec fn text(self) -> Seq<char> {
        match self {
            Error::Sqlx(s) => s@,
            Error::SeaQ(s) => s@,
            Error::EntityNotFound { entity, id } => decimal(id as int) + " not found in '"@
                + entity@ + "'"@,
            Error::CountFail => "Count failure"@,
            Error::Hash(s) => "Error hashing password "@ + s@,
        }
    }

    /// The message of a failure.
    pub fn message(&self) -> (r: String)
        ensures
            r@ == self.text(),
    {
        match self {
            Error::Sqlx(s) => s.clone(),
            Error::SeaQ(s) => s.clone(),
            Error::EntityNotFound { entity, id } => decimal_text(*id).concat(
                " not found in '",
            ).concat(entity).concat("'"),
            Error::CountFail => "Count failure".to_owned(),
            Error::Hash(s) => "Error hashing password ".to_owned().concat(s.as_str()),
        }
    }
}

} // verus!
