//! Failures of the credential functions.

use vstd::prelude::*;

verus! {

/// A failure of a credential function; each variant carries the text of
/// its cause.
#[derive(Debug)]
pub enum Error {
    /// A password could not be hashed, or a hash does not accept a password.
    Argon2(String),
    /// A token could not be signed.
    Jwt(String),
}

impl Error {
    /// The text of the cause.
    pub open spec fn text(self) -> Seq<char> {
        match self {
            Error::Argon2(s) => s@,
            Error::Jwt(s) => s@,
        }
    }

    /// The message of this failure: the text of its cause.
    pub fn message(&self) -> (r: String)
        ensures
            r@ == self.text(),
    {
        match self {
            Error::Argon2(s) => s.clone(),
            Error::Jwt(s) => s.clone(),
        }
    }
}

} // verus!
