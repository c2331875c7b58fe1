//! Role gates: whether a caller may pass on to a handler.

use vstd::prelude::*;
use crate::auth::Claims;
use crate::model::user::UserRole;

pub mod role;

verus! {

/// What a gate decides.
#[derive(Debug, Clone, Copy, PartialEq, Eq, Structural)]
pub enum Gate {
    /// The request goes on to the handler.
    Allowed,
    /// The caller is known and may not pass; the handler is not run.
    Forbidden,
    /// The caller may not pass, or there is none; the handler is not run.
    Unauthorized,
}

impl Gate {
    /// The HTTP status of a rejection, and that of success for a pass.
    pub fn status(self) -> (r: u16)
        ensures
            r == match self {
                Gate::Allowed => 200u16,
                Gate::Forbidden => 403u16,
                Gate::Unauthorized => 401u16,
            },
    {
        match self {
            Gate::Allowed => 200,
            Gate::Forbidden => 403,
            Gate::Unauthorized => 401,
        }
    }

    /// The words of a rejection; a pass has none.
    pub fn message(self) -> (r: &'static str)
        ensures
            r@ == match self {
                Gate::Allowed => ""@,
                Gate::Forbidden => "Forbidden"@,
                Gate::Unauthorized => "Unauthorized"@,
            },
    {
        match self {
            Gate::Allowed => "",
            Gate::Forbidden => "Forbidden",
            Gate::Unauthorized => "Unauthorized",
        }
    }
}

/// Admits exactly the callers of one role: a caller of another role is
/// forbidden, a request without a caller is unauthorized.
pub fn require_role(role: UserRole, claims: Option<&Claims>) -> (r: Gate)
    ensures
        r == match claims {
            Some(c) => if c.role == role {
                Gate::Allowed
            } else {
                Gate::Forbidden
            },
            None => Gate::Unauthorized,
        },
{
    match claims {
        Some(c) => {
            if c.role == role {
                Gate::Allowed
            } else {
                Gate::Forbidden
            }
        },
        None => Gate::Unauthorized,
    }
}

/// Whether a caller of role `role` passes a gate that asks for one of `required`.
pub fn role_gate(role: UserRole, required: &Vec<UserRole>) -> (allowed: bool)
    ensures
        allowed == required@.contains(role),
{
    let mut i: usize = 0;
    while i < required.len()
        invariant
            i <= required@.len(),
            forall|j: int| 0 <= j < i ==> required@[j] != role,
        decreases required@.len() - i,
    {
        if required[i] == role {
            return true;
        }
        i = i + 1;
    }
    false
}

/// The first gate of a stack that rejects `role`: the gates before it let
/// the role pass, and nothing behind it is consulted.
pub open spec fn first_rejection_spec(role: UserRole, gates: Seq<Vec<UserRole>>) -> Option<int>
    decreases gates.len(),
{
    if gates.len() == 0 {
        None
    } else if !gates[0]@.contains(role) {
        Some(0)
    } else {
        match first_rejection_spec(role, gates.subrange(1, gates.len() as int)) {
            Some(i) => Some(i + 1),
            None => None,
        }
    }
}

/// A stack of gates rejects at index `i` exactly when gate `i` does not
/// hold the role and every gate before it does; it rejects nowhere
/// exactly when every gate holds the role.
pub proof fn first_rejection_is_first(role: UserRole, gates: Seq<Vec<UserRole>>)
    ensures
        match first_rejection_spec(role, gates) {
            Some(i) => 0 <= i < gates.len() && !gates[i]@.contains(role) && forall|j: int|
                0 <= j < i ==> gates[j]@.contains(role),
            None => forall|j: int| 0 <= j < gates.len() ==> gates[j]@.contains(role),
        },
    decreases gates.len(),
{
    if gates.len() > 0 && gates[0]@.contains(role) {
        let rest = gates.subrange(1, gates.len() as int);
        first_rejection_is_first(role, rest);
        match first_rejection_spec(role, rest) {
            Some(i) => {
                assert forall|j: int| 0 <= j < i + 1 implies gates[j]@.contains(role) by {
                    if j > 0 {
                        assert(gates[j] == rest[j - 1]);
                    }
                }
                assert(gates[i + 1] == rest[i]);
            },
            None => {
                assert forall|j: int| 0 <= j < gates.len() implies gates[j]@.contains(role) by {
                    if j > 0 {
                        assert(gates[j] == rest[j - 1]);
                    }
                }
            },
        }
    }
}

/// Runs a caller's role through a stack of gates, outermost first, and
/// stops at the first that rejects: its index, or `None` when all let
/// the role pass and the handler may run.
pub fn first_rejection(role: UserRole, gates: &Vec<Vec<UserRole>>) -> (r: Option<usize>)
    ensures
        match r {
            Some(i) => first_rejection_spec(role, gates@) == Some(i as int),
            None => first_rejection_spec(role, gates@) is None,
        },
{
    let mut i: usize = 0;
    while i < gates.len()
        invariant
            i <= gates@.len(),
            forall|j: int| 0 <= j < i ==> gates@[j]@.contains(role),
        decreases gates@.len() - i,
    {
        if !role_gate(role, &gates[i]) {
            proof {
                first_rejection_is_first(role, gates@);
            }
            return Some(i);
        }
        i = i + 1;
    }
    proof {
        first_rejection_is_first(role, gates@);
    }
    None
}

} // verus!
