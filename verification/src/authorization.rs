//! The authorization engine: a pure policy function from requester role and
//! operation to a decision. Delete-self is handled where the delete use case
//! knows both identities.

use vstd::prelude::*;
use crate::user::Role;

verus! {

/// The privileged operations on the user directory.
#[derive(Clone, Copy, Debug, PartialEq, Eq, Structural)]
pub enum Operation {
    ListUsers,
    CreateUser,
    UpdateUser,
    DeleteUser,
    UpdateUserStatus,
}

/// The policy table: which roles may perform which operation.
pub open spec fn allowed_spec(role: Role, op: Operation) -> bool {
    match op {
        Operation::ListUsers => role == Role::Admin || role == Role::SuperAdmin,
        Operation::CreateUser => role == Role::Admin || role == Role::SuperAdmin,
        Operation::UpdateUser => role == Role::SuperAdmin,
        Operation::DeleteUser => role == Role::SuperAdmin,
        Operation::UpdateUserStatus => role == Role::Admin || role == Role::SuperAdmin,
    }
}

/// Whether `role` may perform `op`, exactly as the policy table says.
pub fn is_allowed(role: Role, op: Operation) -> (r: bool)
    ensures
        r == allowed_spec(role, op),
{
    match op {
        Operation::ListUsers | Operation::CreateUser | Operation::UpdateUserStatus => match role {
            Role::Admin | Role::SuperAdmin => true,
            _ => false,
        },
        Operation::UpdateUser | Operation::DeleteUser => match role {
            Role::SuperAdmin => true,
            _ => false,
        },
    }
}

} // verus!
