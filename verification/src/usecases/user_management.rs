//! Administrative operations on the directory: create, update, delete, and
//! suspend or activate users, each gated by the authorization engine.

use vstd::prelude::*;
use crate::authorization::{allowed_spec, is_allowed, Operation};
use crate::directory::{
    create_conflict, has_email, has_id, id_idx, update_conflict, with_status, UserDirectory,
};
use crate::dtos::{user_response, CreateUserDto, UpdateUserDto, UpdateUserStatusDto,
    UserResponseDto};
use crate::errors::AppError;
use crate::password::{hash_password, hashable, password_verifies};
use crate::token::new_uuid;
use crate::usecases::auth::new_password_user;
use crate::user::{Role, User, UserStatus, UserView};

verus! {

/// Create a user with a chosen role: Admin and SuperAdmin only.
pub struct CreateUserUseCase;

impl CreateUserUseCase {
    pub fn new() -> Self {
        CreateUserUseCase
    }

    /// Creation with the fresh id made explicit.
    pub fn execute_with_id(
        &self,
        dir: &mut UserDirectory,
        requester_role: Role,
        id: u128,
        dto: CreateUserDto,
    ) -> (r: Result<UserResponseDto, AppError>)
        requires
            old(dir).wf(),
        ensures
            final(dir).wf(),
            !allowed_spec(requester_role, Operation::CreateUser) ==> (r matches Err(e) && e
                == AppError::Forbidden && final(dir)@ == old(dir)@),
            r matches Ok(resp) ==> allowed_spec(requester_role, Operation::CreateUser) && exists|
                h: Seq<char>,
            |
                #[trigger] password_verifies(h, dto.password@) && ({
                    let u = new_password_user(
                        id,
                        dto.name@,
                        dto.phone.deep_view(),
                        dto.email@,
                        h,
                        dto.role,
                    );
                    &&& !create_conflict(old(dir)@, u)
                    &&& final(dir)@ == old(dir)@.push(u)
                    &&& resp.is_projection_of(u)
                }),
            allowed_spec(requester_role, Operation::CreateUser) ==> !(r matches Err(e) && e
                == AppError::Forbidden),
            (allowed_spec(requester_role, Operation::CreateUser) && (has_email(
                old(dir)@,
                dto.email@,
            ) || has_id(old(dir)@, id))) ==> r is Err,
            (allowed_spec(requester_role, Operation::CreateUser) && hashable(dto.password@) && (
            has_email(old(dir)@, dto.email@) || has_id(old(dir)@, id))) ==> (r matches Err(e) && e
                == AppError::EmailAlreadyExists),
            r matches Err(e) ==> (e == AppError::Forbidden || e == AppError::EmailAlreadyExists
                || e == AppError::PasswordHashingError) && final(dir)@ == old(dir)@,
            (r matches Err(e) && e == AppError::EmailAlreadyExists) ==> (has_email(
                old(dir)@,
                dto.email@,
            ) || has_id(old(dir)@, id)),
    {
        if !is_allowed(requester_role, Operation::CreateUser) {
            return Err(AppError::Forbidden);
        }
        let hash = match hash_password(dto.password.as_str()) {
            Ok(h) => h,
            Err(e) => {
                return Err(e);
            }
        };
        let user = User {
            id: id,
            name: dto.name,
            phone: dto.phone,
            email: dto.email,
            password_hash: Some(hash),
            role: dto.role,
            status: UserStatus::default(),
            github_id: None,
            google_id: None,
            avatar_url: None,
            created_at: None,
            updated_at: None,
        };
        let created = match dir.create(user) {
            Ok(u) => u,
            Err(e) => {
                return Err(e);
            }
        };
        Ok(user_response(&created))
    }

    /// Creation as the boundary calls it: a fresh id is drawn here.
    pub fn execute(
        &self,
        dir: &mut UserDirectory,
        requester_role: Role,
        dto: CreateUserDto,
    ) -> (r: Result<UserResponseDto, AppError>)
        requires
            old(dir).wf(),
        ensures
            final(dir).wf(),
            !allowed_spec(requester_role, Operation::CreateUser) ==> (r matches Err(e) && e
                == AppError::Forbidden && final(dir)@ == old(dir)@),
            r matches Ok(resp) ==> allowed_spec(requester_role, Operation::CreateUser) && ({
                let u = final(dir)@.last();
                &&& final(dir)@ == old(dir)@.push(u)
                &&& !create_conflict(old(dir)@, u)
                &&& u.name == dto.name@ && u.phone == dto.phone.deep_view() && u.email
                    == dto.email@
                &&& u.role == dto.role && u.status == UserStatus::Active
                &&& u.github_id is None && u.google_id is None && u.avatar_url is None
                &&& (u.password_hash matches Some(h) && password_verifies(h, dto.password@))
                &&& resp.is_projection_of(u)
            }),
            allowed_spec(requester_role, Operation::CreateUser) ==> !(r matches Err(e) && e
                == AppError::Forbidden),
            (allowed_spec(requester_role, Operation::CreateUser) && has_email(
                old(dir)@,
                dto.email@,
            )) ==> r is Err,
            (allowed_spec(requester_role, Operation::CreateUser) && hashable(dto.password@)
                && has_email(old(dir)@, dto.email@)) ==> (r matches Err(e) && e
                == AppError::EmailAlreadyExists),
            r matches Err(e) ==> (e == AppError::Forbidden || e == AppError::EmailAlreadyExists
                || e == AppError::PasswordHashingError) && final(dir)@ == old(dir)@,
    {
        let id = new_uuid();
        self.execute_with_id(dir, requester_role, id, dto)
    }
}

/// The record after an update request: present fields replace stored ones,
/// absent fields keep them.
pub open spec fn applied_update(
    u: UserView,
    name: Option<Seq<char>>,
    phone: Option<Seq<char>>,
    email: Option<Seq<char>>,
    role: Option<Role>,
) -> UserView {
    UserView {
        name: match name {
            Some(n) => n,
            None => u.name,
        },
        phone: match phone {
            Some(p) => Some(p),
            None => u.phone,
        },
        email: match email {
            Some(e) => e,
            None => u.email,
        },
        role: match role {
            Some(ro) => ro,
            None => u.role,
        },
        ..u
    }
}

/// Update a user's profile or role: SuperAdmin only.
pub struct UpdateUserUseCase;

impl UpdateUserUseCase {
    pub fn new() -> Self {
        UpdateUserUseCase
    }

    pub fn execute(
        &self,
        dir: &mut UserDirectory,
        requester_role: Role,
        user_id: u128,
        dto: UpdateUserDto,
    ) -> (r: Result<UserResponseDto, AppError>)
        requires
            old(dir).wf(),
        ensures
            final(dir).wf(),
            requester_role != Role::SuperAdmin ==> (r matches Err(e) && e == AppError::Forbidden
                && final(dir)@ == old(dir)@),
            (requester_role == Role::SuperAdmin && !has_id(old(dir)@, user_id)) ==> (r matches Err(e)
                && e == AppError::UserNotFound && final(dir)@ == old(dir)@),
            (requester_role == Role::SuperAdmin && has_id(old(dir)@, user_id)) ==> ({
                let i = id_idx(old(dir)@, user_id);
                let m = applied_update(
                    old(dir)@[i],
                    dto.name.deep_view(),
                    dto.phone.deep_view(),
                    dto.email.deep_view(),
                    dto.role,
                );
                if update_conflict(old(dir)@, i, m) {
                    r matches Err(e) && e == AppError::EmailAlreadyExists && final(dir)@ == old(dir)@
                } else {
                    r matches Ok(resp) && resp.is_projection_of(m) && final(dir)@ == old(dir)@.update(i, m)
                }
            }),
    {
        if !is_allowed(requester_role, Operation::UpdateUser) {
            return Err(AppError::Forbidden);
        }
        let stored = match dir.find_by_id(user_id) {
            Some(u) => u,
            None => {
                return Err(AppError::UserNotFound);
            }
        };
        let merged = User {
            id: stored.id,
            name: match dto.name {
                Some(n) => n,
                None => stored.name,
            },
            phone: match dto.phone {
                Some(p) => Some(p),
                None => stored.phone,
            },
            email: match dto.email {
                Some(e) => e,
                None => stored.email,
            },
            password_hash: stored.password_hash,
            role: match dto.role {
                Some(ro) => ro,
                None => stored.role,
            },
            status: stored.status,
            github_id: stored.github_id,
            google_id: stored.google_id,
            avatar_url: stored.avatar_url,
            created_at: stored.created_at,
            updated_at: stored.updated_at,
        };
        let updated = match dir.update(user_id, &merged) {
            Ok(u) => u,
            Err(e) => {
                return Err(e);
            }
        };
        Ok(user_response(&updated))
    }
}

/// Delete a user: SuperAdmin only, and never oneself.
pub struct DeleteUserUseCase;

impl DeleteUserUseCase {
    pub fn new() -> Self {
        DeleteUserUseCase
    }

    pub fn execute(
        &self,
        dir: &mut UserDirectory,
        requester_id: u128,
        requester_role: Role,
        user_id: u128,
    ) -> (r: Result<(), AppError>)
        requires
            old(dir).wf(),
        ensures
            final(dir).wf(),
            requester_role != Role::SuperAdmin ==> (r matches Err(e) && e == AppError::Forbidden
                && final(dir)@ == old(dir)@),
            (requester_role == Role::SuperAdmin && requester_id == user_id) ==> (r matches Err(e)
                && e == AppError::CannotDeleteSelf && final(dir)@ == old(dir)@),
            (requester_role == Role::SuperAdmin && requester_id != user_id && !has_id(
                old(dir)@,
                user_id,
            )) ==> (r matches Err(e) && e == AppError::UserNotFound && final(dir)@ == old(dir)@),
            (requester_role == Role::SuperAdmin && requester_id != user_id && has_id(
                old(dir)@,
                user_id,
            )) ==> r is Ok && final(dir)@ == old(dir)@.remove(id_idx(old(dir)@, user_id)),
    {
        if !is_allowed(requester_role, Operation::DeleteUser) {
            return Err(AppError::Forbidden);
        }
        if requester_id == user_id {
            return Err(AppError::CannotDeleteSelf);
        }
        match dir.find_by_id(user_id) {
            Some(_) => {}
            None => {
                return Err(AppError::UserNotFound);
            }
        }
        match dir.delete(user_id) {
            Ok(_) => Ok(()),
            Err(e) => Err(e),
        }
    }
}

/// Suspend or activate a user: Admin and SuperAdmin.
pub struct UpdateUserStatusUseCase;

impl UpdateUserStatusUseCase {
    pub fn new() -> Self {
        UpdateUserStatusUseCase
    }

    pub fn execute(
        &self,
        dir: &mut UserDirectory,
        requester_role: Role,
        user_id: u128,
        dto: UpdateUserStatusDto,
    ) -> (r: Result<UserResponseDto, AppError>)
        requires
            old(dir).wf(),
        ensures
            final(dir).wf(),
            !allowed_spec(requester_role, Operation::UpdateUserStatus) ==> (r matches Err(e) && e
                == AppError::Forbidden && final(dir)@ == old(dir)@),
            (allowed_spec(requester_role, Operation::UpdateUserStatus) && !has_id(
                old(dir)@,
                user_id,
            )) ==> (r matches Err(e) && e == AppError::UserNotFound && final(dir)@ == old(dir)@),
            (allowed_spec(requester_role, Operation::UpdateUserStatus) && has_id(
                old(dir)@,
                user_id,
            )) ==> ({
                let i = id_idx(old(dir)@, user_id);
                let m = with_status(old(dir)@[i], dto.status);
                r matches Ok(resp) && resp.is_projection_of(m) && final(dir)@ == old(dir)@.update(
                    i,
                    m,
                )
            }),
    {
        if !is_allowed(requester_role, Operation::UpdateUserStatus) {
            return Err(AppError::Forbidden);
        }
        let updated = match dir.update_status(user_id, dto.status) {
            Ok(u) => u,
            Err(e) => {
                return Err(e);
            }
        };
        Ok(user_response(&updated))
    }
}

} // verus!
