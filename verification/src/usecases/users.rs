//! Listing the directory: Admin and SuperAdmin only.

use vstd::prelude::*;
use crate::authorization::{allowed_spec, is_allowed, Operation};
use crate::directory::UserDirectory;
use crate::dtos::{user_response, UserResponseDto};
use crate::errors::AppError;
use crate::user::Role;

verus! {

/// List every user as a public-safe projection.
pub struct GetUsersUseCase;

impl GetUsersUseCase {
    pub fn new() -> Self {
        GetUsersUseCase
    }

    /// Any role outside Admin and SuperAdmin is turned away with `Forbidden`.
    pub fn execute(&self, dir: &UserDirectory, role: Role) -> (r: Result<
        Vec<UserResponseDto>,
        AppError,
    >)
        requires
            dir.wf(),
        ensures
            !allowed_spec(role, Operation::ListUsers) ==> (r matches Err(e) && e
                == AppError::Forbidden),
            allowed_spec(role, Operation::ListUsers) ==> (r matches Ok(v) && v@.len() == dir@.len()
                && (forall|i: int|
                0 <= i < dir@.len() ==> (#[trigger] v@[i]).is_projection_of(dir@[i]))),
    {
        if !is_allowed(role, Operation::ListUsers) {
            return Err(AppError::Forbidden);
        }
        let users = dir.find_all();
        let n = users.len();
        let mut out: Vec<UserResponseDto> = Vec::new();
        let mut i: usize = 0;
        while i < n
            invariant
                n == users@.len(),
                users.deep_view() == dir@,
                i <= n,
                out@.len() == i,
                forall|k: int| 0 <= k < i ==> (#[trigger] out@[k]).is_projection_of(dir@[k]),
            decreases n - i,
        {
            out.push(user_response(&users[i]));
            i += 1;
        }
        Ok(out)
    }
}

} // verus!
