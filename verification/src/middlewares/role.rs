//! The two gates of the service: administrators only, and issuers or
//! administrators.

use vstd::prelude::*;
use crate::auth::Claims;
use crate::middlewares::Gate;
use crate::model::user::UserRole;

verus! {

/// The roles that may change books and users.
pub open spec fn admins() -> Seq<UserRole> {
    seq![UserRole::Admin]
}

/// The roles that may run the lending desk.
pub open spec fn staff() -> Seq<UserRole> {
    seq![UserRole::Admin, UserRole::Issuer]
}

/// Lets administrators pass and turns every other caller away as unauthorized.
pub fn require_admin_role(claims: &Claims) -> (r: Gate)
    ensures
        r == if admins().contains(claims.role) {
            Gate::Allowed
        } else {
            Gate::Unauthorized
        },
        r is Allowed <==> claims.role == UserRole::Admin,
{
    proof {
        assert(admins()[0] == UserRole::Admin);
    }
    match claims.role {
        UserRole::Admin => Gate::Allowed,
        _ => Gate::Unauthorized,
    }
}

/// Lets issuers and administrators pass and turns members away as unauthorized.
pub fn require_issuer_admin_role(claims: &Claims) -> (r: Gate)
    ensures
        r == if staff().contains(claims.role) {
            Gate::Allowed
        } else {
            Gate::Unauthorized
        },
        r is Allowed <==> claims.role != UserRole::Member,
{
    proof {
        assert(staff()[0] == UserRole::Admin);
        assert(staff()[1] == UserRole::Issuer);
    }
    match claims.role {
        UserRole::Admin => Gate::Allowed,
        UserRole::Issuer => Gate::Allowed,
        UserRole::Member => Gate::Unauthorized,
    }
}

} // verus!
