//! Logging in, registering and logging out.

use vstd::prelude::*;
use crate::auth::{
    argon2_accepts, carried_by, carried_claims, generate_jwt, names_audience, read, signed_token,
    verify, Claims,
};
use crate::model::error::Error;
use crate::model::user::User;
use crate::routes::{answer, replied, Handler, Reply};

verus! {

/// How long a login lasts, in seconds.
pub const SESSION_SECONDS: usize = 3600;

/// What a login came to.
#[derive(Debug)]
pub enum Login {
    /// The credentials are right; this is the token, to be sent in the
    /// body and set as the `token` cookie.
    Granted { token: String },
    /// No such user, or the wrong password; the caller is not told which.
    Rejected,
    /// The credentials are right and no token could be signed.
    Failed,
}

/// The claims of a user who logs in at the second `now`: the user's id
/// and role, ending an hour later.
pub open spec fn session(user: User, now: i64) -> Claims {
    Claims { user_id: user.id, role: user.role, exp: (now + SESSION_SECONDS) as usize }
}

/// Makes the claims of a user who logs in at the second `now`.
pub fn session_claims(user: &User, now: i64) -> (r: Claims)
    requires
        0 <= now,
        now + SESSION_SECONDS <= usize::MAX,
    ensures
        r == session(*user, now),
{
    Claims { user_id: user.id, role: user.role, exp: now as usize + SESSION_SECONDS }
}

/// Decides a login. `user` is the stored user of the given username, if
/// there is one, `password` the password given, `now` the second of the
/// call. Without a user the login is rejected, and so it is when the
/// stored hash does not accept the password; otherwise a token with the
/// user's claims is signed under `jwt_secret`.
pub fn login(user: Option<User>, password: &str, now: i64, jwt_secret: &str) -> (r: Login)
    requires
        0 <= now,
        now + SESSION_SECONDS <= usize::MAX,
    ensures
        match r {
            Login::Granted { token } => user matches Some(u) && argon2_accepts(u.password@, password@)
                && signed_token(u.id, u.role.name(), session(u, now).exp, jwt_secret@) == Some(
                token@,
            ) && carried_claims(token@, jwt_secret@) == Some(carried_by(session(u, now))) && read(
                carried_by(session(u, now)),
            ) == Some(session(u, now)) && !names_audience(token@),
            Login::Rejected => user matches Some(u) ==> !argon2_accepts(u.password@, password@),
            Login::Failed => user matches Some(u) && argon2_accepts(u.password@, password@)
                && signed_token(u.id, u.role.name(), session(u, now).exp, jwt_secret@) is None,
        },
{
    match user {
        Some(u) => match verify(u.password.as_str(), password) {
            Ok(_) => {
                let claims = session_claims(&u, now);
                match generate_jwt(&claims, jwt_secret) {
                    Ok(token) => Login::Granted { token },
                    Err(_) => Login::Failed,
                }
            },
            Err(_) => Login::Rejected,
        },
        None => Login::Rejected,
    }
}

impl Login {
    /// The reply to a login: the token on success, one and the same
    /// refusal for an unknown user and a wrong password.
    pub fn reply(&self) -> (r: Reply)
        ensures
            r == match *self {
                Login::Granted { .. } => Reply::Payload { status: 200, key: "token" },
                Login::Rejected => Reply::Failure { status: 400, error: "Wrong username or password" },
                Login::Failed => Reply::Failure { status: 500, error: "Something is not right" },
            },
    {
        match self {
            Login::Granted { .. } => Reply::Payload { status: 200, key: "token" },
            Login::Rejected => Reply::Failure { status: 400, error: "Wrong username or password" },
            Login::Failed => Reply::Failure { status: 500, error: "Something is not right" },
        }
    }
}

/// The reply to a registration: the word of success and the new user's
/// id, or one and the same refusal for whatever the store refuses, so
/// that a taken username or address is not told apart.
pub fn register(created: &Result<i64, Error>) -> (r: Reply)
    ensures
        r == replied(
            *created,
            Reply::Tagged { status: 201, tag: "status", word: "Success", key: "user_id" },
            Handler::Writes,
            "Something doesn't look right",
        ),
{
    answer(
        created,
        Reply::Tagged { status: 201, tag: "status", word: "Success", key: "user_id" },
        Handler::Writes,
        "Something doesn't look right",
    )
}

/// The reply to a logout, after the `token` cookie has been removed.
pub fn logout() -> (r: Reply)
    ensures
        r == (Reply::Message { status: 200, message: "Logout success" }),
{
    Reply::Message { status: 200, message: "Logout success" }
}

} // verus!
