//! The request shapes the boundary hands in, and their validation rules.

use vstd::prelude::*;
use crate::errors::AppError;
use crate::user::{Role, UserStatus};
use vstd::string::StrSliceExecFns;

verus! {

/// Whether the validator crate accepts the string as an email address
/// (HTML5 rules); a pure function of the string.
pub uninterp spec fn is_valid_email(s: Seq<char>) -> bool;

/// Relies on validator's `ValidateEmail` for `str`: deterministic in the
/// string; an empty string is never a valid email.
#[verifier::external_body]
fn validate_email_str(s: &str) -> (r: bool)
    ensures
        r == is_valid_email(s@),
        s@.len() == 0 ==> !r,
{
    validator::ValidateEmail::validate_email(&s)
}

/// Registration request.
#[derive(Debug)]
pub struct RegisterRequest {
    pub name: String,
    pub phone: Option<String>,
    pub email: String,
    pub password: String,
}

impl RegisterRequest {
    /// The registration rules: a name, a phone of at least ten characters if
    /// given, a valid email, and a password of at least eight characters.
    pub open spec fn valid(&self) -> bool {
        &&& self.name@.len() >= 1
        &&& (self.phone matches Some(p) ==> p@.len() >= 10)
        &&& is_valid_email(self.email@)
        &&& self.password@.len() >= 8
    }

    pub fn validate(&self) -> (r: Result<(), AppError>)
        ensures
            r is Ok <==> self.valid(),
            r matches Err(e) ==> e matches AppError::ValidationError(_),
    {
        if self.name.as_str().unicode_len() < 1 {
            return Err(AppError::ValidationError(String::from_str("Name is required")));
        }
        match &self.phone {
            Some(p) => {
                if p.as_str().unicode_len() < 10 {
                    return Err(
                        AppError::ValidationError(
                            String::from_str("Phone must be at least 10 characters"),
                        ),
                    );
                }
            }
            None => {}
        }
        if !validate_email_str(self.email.as_str()) {
            return Err(AppError::ValidationError(String::from_str("Invalid email format")));
        }
        if self.password.as_str().unicode_len() < 8 {
            return Err(
                AppError::ValidationError(
                    String::from_str("Password must be at least 8 characters"),
                ),
            );
        }
        Ok(())
    }
}

/// Login request.
#[derive(Debug)]
pub struct LoginRequest {
    pub email: String,
    pub password: String,
}

impl LoginRequest {
    /// The login rules: a valid email and a non-empty password.
    pub open spec fn valid(&self) -> bool {
        &&& is_valid_email(self.email@)
        &&& self.password@.len() >= 1
    }

    pub fn validate(&self) -> (r: Result<(), AppError>)
        ensures
            r is Ok <==> self.valid(),
            r matches Err(e) ==> e matches AppError::ValidationError(_),
    {
        if !validate_email_str(self.email.as_str()) {
            return Err(AppError::ValidationError(String::from_str("Invalid email format")));
        }
        if self.password.as_str().unicode_len() < 1 {
            return Err(AppError::ValidationError(String::from_str("Password is required")));
        }
        Ok(())
    }
}

/// Token refresh request.
#[derive(Debug)]
pub struct RefreshRequest {
    pub refresh_token: String,
}

/// The query a provider redirects back with.
#[derive(Debug)]
pub struct OAuthCallbackQuery {
    pub code: String,
}

/// Administrative user-creation request.
#[derive(Debug)]
pub struct CreateUserRequest {
    pub name: String,
    pub phone: Option<String>,
    pub email: String,
    pub password: String,
    pub role: Role,
}

impl CreateUserRequest {
    /// The creation rules: a name, a valid email, and a password of at least
    /// eight characters; the phone is free-form here.
    pub open spec fn valid(&self) -> bool {
        &&& self.name@.len() >= 1
        &&& is_valid_email(self.email@)
        &&& self.password@.len() >= 8
    }

    pub fn validate(&self) -> (r: Result<(), AppError>)
        ensures
            r is Ok <==> self.valid(),
            r matches Err(e) ==> e matches AppError::ValidationError(_),
    {
        if self.name.as_str().unicode_len() < 1 {
            return Err(AppError::ValidationError(String::from_str("Name is required")));
        }
        if !validate_email_str(self.email.as_str()) {
            return Err(AppError::ValidationError(String::from_str("Invalid email format")));
        }
        if self.password.as_str().unicode_len() < 8 {
            return Err(
                AppError::ValidationError(
                    String::from_str("Password must be at least 8 characters"),
                ),
            );
        }
        Ok(())
    }
}

/// User update request; absent fields stay as stored.
#[derive(Debug)]
pub struct UpdateUserRequest {
    pub name: Option<String>,
    pub phone: Option<String>,
    pub email: Option<String>,
    pub role: Option<Role>,
}

/// Status change request.
#[derive(Debug)]
pub struct UpdateUserStatusRequest {
    pub status: UserStatus,
}

} // verus!
