//! The error taxonomy shared by every use case, with the boundary mapping
//! from each error kind to a fixed status code and human-readable message.

use vstd::prelude::*;
use vstd::string::StringExecFns;

verus! {

/// Every failure a use case can surface to the boundary layer.
#[derive(Clone, Debug, PartialEq, Eq)]
pub enum AppError {
    DatabaseError,
    UserNotFound,
    EmailAlreadyExists,
    InvalidCredentials,
    TokenCreationError,
    InvalidToken,
    PasswordHashingError,
    ValidationError(String),
    InternalServerError,
    Forbidden,
    CannotDeleteSelf,
    OAuthError(String),
}

impl AppError {
    /// The HTTP-style status code this error maps to at the boundary.
    pub fn status_code(&self) -> (code: u16)
        ensures
            code == self.status_code_spec(),
    {
        match self {
            AppError::DatabaseError => 500,
            AppError::UserNotFound => 404,
            AppError::EmailAlreadyExists => 409,
            AppError::InvalidCredentials => 401,
            AppError::TokenCreationError => 500,
            AppError::InvalidToken => 401,
            AppError::PasswordHashingError => 500,
            AppError::ValidationError(_) => 400,
            AppError::InternalServerError => 500,
            AppError::Forbidden => 403,
            AppError::CannotDeleteSelf => 400,
            AppError::OAuthError(_) => 400,
        }
    }

    pub open spec fn status_code_spec(&self) -> u16 {
        match self {
            AppError::DatabaseError => 500,
            AppError::UserNotFound => 404,
            AppError::EmailAlreadyExists => 409,
            AppError::InvalidCredentials => 401,
            AppError::TokenCreationError => 500,
            AppError::InvalidToken => 401,
            AppError::PasswordHashingError => 500,
            AppError::ValidationError(_) => 400,
            AppError::InternalServerError => 500,
            AppError::Forbidden => 403,
            AppError::CannotDeleteSelf => 400,
            AppError::OAuthError(_) => 400,
        }
    }

    /// The human-readable message this error maps to at the boundary.
    pub open spec fn message_spec(&self) -> Seq<char> {
        match self {
            AppError::DatabaseError => "Database error"@,
            AppError::UserNotFound => "User not found"@,
            AppError::EmailAlreadyExists => "Email already exists"@,
            AppError::InvalidCredentials => "Invalid credentials"@,
            AppError::TokenCreationError => "Token creation error"@,
            AppError::InvalidToken => "Invalid token"@,
            AppError::PasswordHashingError => "Password hashing error"@,
            AppError::ValidationError(m) => m@,
            AppError::InternalServerError => "Internal server error"@,
            AppError::Forbidden => "Forbidden"@,
            AppError::CannotDeleteSelf => "Cannot delete your own account"@,
            AppError::OAuthError(m) => "OAuth error: "@ + m@,
        }
    }

    pub fn message(&self) -> (m: String)
        ensures
            m@ == self.message_spec(),
    {
        match self {
            AppError::DatabaseError => String::from_str("Database error"),
            AppError::UserNotFound => String::from_str("User not found"),
            AppError::EmailAlreadyExists => String::from_str("Email already exists"),
            AppError::InvalidCredentials => String::from_str("Invalid credentials"),
            AppError::TokenCreationError => String::from_str("Token creation error"),
            AppError::InvalidToken => String::from_str("Invalid token"),
            AppError::PasswordHashingError => String::from_str("Password hashing error"),
            AppError::ValidationError(m) => m.clone(),
            AppError::InternalServerError => String::from_str("Internal server error"),
            AppError::Forbidden => String::from_str("Forbidden"),
            AppError::CannotDeleteSelf => String::from_str("Cannot delete your own account"),
            AppError::OAuthError(m) => String::from_str("OAuth error: ").concat(m.as_str()),
        }
    }
}

} // verus!
