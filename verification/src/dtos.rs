//! Data transfer objects crossing the library boundary, and the public-safe
//! projection of a user record.

use vstd::prelude::*;
use crate::user::{Role, User, UserStatus, UserView, clone_opt_string};

verus! {

/// Response DTO for user data. By construction it has no field for the
/// password credential, so no projection can leak it.
#[derive(Debug)]
pub struct UserResponseDto {
    pub name: String,
    pub phone: Option<String>,
    pub email: String,
    pub role: Role,
    pub avatar_url: Option<String>,
}

impl UserResponseDto {
    /// The projection shows exactly the public attributes of `u`.
    pub open spec fn is_projection_of(&self, u: UserView) -> bool {
        &&& self.name@ == u.name
        &&& self.phone.deep_view() == u.phone
        &&& self.email@ == u.email
        &&& self.role == u.role
        &&& self.avatar_url.deep_view() == u.avatar_url
    }
}

/// The public-safe projection of a user record: every public attribute,
/// and nothing else — in particular no password credential.
pub fn user_response(u: &User) -> (r: UserResponseDto)
    ensures
        r.is_projection_of(u@),
{
    UserResponseDto {
        name: u.name.clone(),
        phone: clone_opt_string(&u.phone),
        email: u.email.clone(),
        role: u.role,
        avatar_url: clone_opt_string(&u.avatar_url),
    }
}

/// Request DTO for user registration.
#[derive(Debug)]
pub struct RegisterUserDto {
    pub name: String,
    pub phone: Option<String>,
    pub email: String,
    pub password: String,
}

/// Response DTO for authentication with tokens.
#[derive(Debug)]
pub struct AuthResponseDto {
    pub access_token: String,
    pub refresh_token: String,
    pub token_type: String,
    pub expires_in: usize,
}

/// Request DTO for creating a user (Admin/SuperAdmin).
#[derive(Debug)]
pub struct CreateUserDto {
    pub name: String,
    pub phone: Option<String>,
    pub email: String,
    pub password: String,
    pub role: Role,
}

/// Request DTO for updating a user (SuperAdmin only).
#[derive(Debug)]
pub struct UpdateUserDto {
    pub name: Option<String>,
    pub phone: Option<String>,
    pub email: Option<String>,
    pub role: Option<Role>,
}

/// Request DTO for updating user status.
#[derive(Debug)]
pub struct UpdateUserStatusDto {
    pub status: UserStatus,
}

/// GitHub user info from the profile endpoint.
#[derive(Debug)]
pub struct GitHubUserInfo {
    pub id: i64,
    pub login: String,
    pub name: Option<String>,
    pub email: Option<String>,
    pub avatar_url: Option<String>,
}

/// GitHub access token response.
#[derive(Debug)]
pub struct GitHubTokenResponse {
    pub access_token: String,
    pub token_type: String,
    pub scope: String,
}

/// GitHub email entry (from the emails endpoint).
#[derive(Debug)]
pub struct GitHubEmail {
    pub email: String,
    pub primary: bool,
    pub verified: bool,
}

/// The mathematical shape of a GitHub email entry.
pub struct GitHubEmailView {
    pub email: Seq<char>,
    pub primary: bool,
    pub verified: bool,
}

impl View for GitHubEmail {
    type V = GitHubEmailView;

    open spec fn view(&self) -> GitHubEmailView {
        GitHubEmailView { email: self.email@, primary: self.primary, verified: self.verified }
    }
}

impl DeepView for GitHubEmail {
    type V = GitHubEmailView;

    open spec fn deep_view(&self) -> GitHubEmailView {
        self.view()
    }
}

/// Google access token response.
#[derive(Debug)]
pub struct GoogleTokenResponse {
    pub access_token: String,
    pub token_type: String,
    pub expires_in: Option<u64>,
    pub refresh_token: Option<String>,
    pub scope: Option<String>,
    pub id_token: Option<String>,
}

/// Google user info from the userinfo endpoint.
#[derive(Debug)]
pub struct GoogleUserInfo {
    pub id: String,
    pub email: Option<String>,
    pub name: Option<String>,
    pub picture: Option<String>,
    pub verified_email: Option<bool>,
}

} // verus!
