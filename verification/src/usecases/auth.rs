//! Registration, login, token refresh, and the OAuth callbacks.

use vstd::prelude::*;
use crate::directory::{
    create_conflict, has_email, has_id, user_by_email, user_by_id, UserDirectory,
};
use crate::dtos::{user_response, AuthResponseDto, GitHubUserInfo, GoogleUserInfo, RegisterUserDto,
    UserResponseDto};
use crate::dtos::GitHubEmail;
use crate::errors::AppError;
use crate::oauth::{has_primary_verified, is_primary_verified, select_primary_verified};
use crate::password::{hash_password, hashable, parses_as_phc, password_verifies, verify_password};
use crate::resolution::{
    github_resolution, google_resolution, resolve_github_user, resolve_google_user,
};
use crate::token::{
    issued_token, new_uuid, JwtService, TokenKind, ACCESS_TOKEN_EXPIRY_SECONDS,
    REFRESH_TOKEN_EXPIRY_SECONDS,
};
use crate::user::{Role, User, UserStatus, UserView};
use vstd::string::StringExecFns;

verus! {

/// An account holding a password credential, as registration and
/// administrative creation provision it.
pub open spec fn new_password_user(
    id: u128,
    name: Seq<char>,
    phone: Option<Seq<char>>,
    email: Seq<char>,
    hash: Seq<char>,
    role: Role,
) -> UserView {
    UserView {
        id: id,
        name: name,
        phone: phone,
        email: email,
        password_hash: Some(hash),
        role: role,
        status: UserStatus::Active,
        github_id: None,
        google_id: None,
        avatar_url: None,
        created_at: None,
        updated_at: None,
    }
}

/// A token pair and envelope fields issued for `u` at some instant.
pub open spec fn fresh_token_pair(
    resp: AuthResponseDto,
    secret: Seq<char>,
    u: UserView,
) -> bool {
    &&& resp.token_type@ == "Bearer"@
    &&& resp.expires_in == ACCESS_TOKEN_EXPIRY_SECONDS
    &&& exists|iat: u64|
        iat + REFRESH_TOKEN_EXPIRY_SECONDS <= u64::MAX && resp.access_token@
            == #[trigger] issued_token(
            secret,
            u,
            iat,
            (iat + ACCESS_TOKEN_EXPIRY_SECONDS) as u64,
            TokenKind::Access,
        ) && resp.refresh_token@ == issued_token(
            secret,
            u,
            iat,
            (iat + REFRESH_TOKEN_EXPIRY_SECONDS) as u64,
            TokenKind::Refresh,
        )
}

/// Build the Bearer envelope around a token pair.
fn auth_response(access_token: String, refresh_token: String) -> (resp: AuthResponseDto)
    ensures
        resp.access_token == access_token,
        resp.refresh_token == refresh_token,
        resp.token_type@ == "Bearer"@,
        resp.expires_in == ACCESS_TOKEN_EXPIRY_SECONDS,
{
    AuthResponseDto {
        access_token,
        refresh_token,
        token_type: String::from_str("Bearer"),
        expires_in: ACCESS_TOKEN_EXPIRY_SECONDS as usize,
    }
}

/// Register a new account: hash the password, build the record with role
/// `User` and status `Active`, persist it, and return the public projection.
pub struct RegisterUseCase;

impl RegisterUseCase {
    pub fn new() -> Self {
        RegisterUseCase
    }

    /// Registration with the fresh id made explicit.
    pub fn execute_with_id(
        &self,
        dir: &mut UserDirectory,
        id: u128,
        dto: RegisterUserDto,
    ) -> (r: Result<UserResponseDto, AppError>)
        requires
            old(dir).wf(),
        ensures
            final(dir).wf(),
            r matches Ok(resp) ==> exists|h: Seq<char>|
                #[trigger] password_verifies(h, dto.password@) && ({
                    let u = new_password_user(
                        id,
                        dto.name@,
                        dto.phone.deep_view(),
                        dto.email@,
                        h,
                        Role::User,
                    );
                    &&& !create_conflict(old(dir)@, u)
                    &&& final(dir)@ == old(dir)@.push(u)
                    &&& resp.is_projection_of(u)
                }),
            (has_email(old(dir)@, dto.email@) || has_id(old(dir)@, id)) ==> r is Err,
            (hashable(dto.password@) && (has_email(old(dir)@, dto.email@) || has_id(
                old(dir)@,
                id,
            ))) ==> (r matches Err(e) && e == AppError::EmailAlreadyExists),
            r matches Err(e) ==> (e == AppError::EmailAlreadyExists
                || e == AppError::PasswordHashingError) && final(dir)@ == old(dir)@,
            (r matches Err(e) && e == AppError::EmailAlreadyExists) ==> (has_email(
                old(dir)@,
                dto.email@,
            ) || has_id(old(dir)@, id)),
    {
        let hash = match hash_password(dto.password.as_str()) {
            Ok(h) => h,
            Err(e) => {
                return Err(e);
            }
        };
        let user = User {
            id: id,
            name: dto.name,
            phone: dto.phone,
            email: dto.email,
            password_hash: Some(hash),
            role: Role::User,
            status: UserStatus::default(),
            github_id: None,
            google_id: None,
            avatar_url: None,
            created_at: None,
            updated_at: None,
        };
        let created = match dir.create(user) {
            Ok(u) => u,
            Err(e) => {
                return Err(e);
            }
        };
        Ok(user_response(&created))
    }

    /// Registration as the boundary calls it: a fresh id is drawn here.
    pub fn execute(&self, dir: &mut UserDirectory, dto: RegisterUserDto) -> (r: Result<
        UserResponseDto,
        AppError,
    >)
        requires
            old(dir).wf(),
        ensures
            final(dir).wf(),
            r matches Ok(resp) ==> ({
                let u = final(dir)@.last();
                &&& final(dir)@ == old(dir)@.push(u)
                &&& !create_conflict(old(dir)@, u)
                &&& u.name == dto.name@ && u.phone == dto.phone.deep_view() && u.email
                    == dto.email@
                &&& u.role == Role::User && u.status == UserStatus::Active
                &&& u.github_id is None && u.google_id is None && u.avatar_url is None
                &&& (u.password_hash matches Some(h) && password_verifies(h, dto.password@))
                &&& resp.is_projection_of(u)
            }),
            has_email(old(dir)@, dto.email@) ==> r is Err,
            (hashable(dto.password@) && has_email(old(dir)@, dto.email@)) ==> (r matches Err(e)
                && e == AppError::EmailAlreadyExists),
            r matches Err(e) ==> (e == AppError::EmailAlreadyExists
                || e == AppError::PasswordHashingError) && final(dir)@ == old(dir)@,
    {
        let id = new_uuid();
        self.execute_with_id(dir, id, dto)
    }
}

/// Log in with email and password and receive a token pair.
pub struct LoginUseCase {
    pub jwt_service: JwtService,
}

impl LoginUseCase {
    pub fn new(jwt_service: JwtService) -> (s: Self)
        ensures
            s.jwt_service@ == jwt_service@,
    {
        LoginUseCase { jwt_service }
    }

    /// Look the account up by email; an unknown email, a missing password
    /// credential (an OAuth-only account), and a wrong password all fail with
    /// `InvalidCredentials` — and a matching password never does. Reads the
    /// directory only: no lockout state.
    pub fn execute(&self, dir: &UserDirectory, email: &String, password: &String) -> (r: Result<
        AuthResponseDto,
        AppError,
    >)
        requires
            dir.wf(),
        ensures
            !has_email(dir@, email@) ==> (r matches Err(e) && e == AppError::InvalidCredentials),
            (has_email(dir@, email@) && user_by_email(dir@, email@).password_hash is None) ==> (r
                matches Err(e) && e == AppError::InvalidCredentials),
            (has_email(dir@, email@) && (user_by_email(dir@, email@).password_hash matches Some(h)
                && !password_verifies(h, password@))) ==> (r matches Err(e) && (e
                == AppError::InvalidCredentials || e == AppError::PasswordHashingError)),
            (has_email(dir@, email@) && (user_by_email(dir@, email@).password_hash matches Some(h)
                && parses_as_phc(h) && !password_verifies(h, password@))) ==> (r matches Err(e)
                && e == AppError::InvalidCredentials),
            (has_email(dir@, email@) && (user_by_email(dir@, email@).password_hash matches Some(h)
                && password_verifies(h, password@))) ==> !(r matches Err(e) && e
                == AppError::InvalidCredentials),
            (has_email(dir@, email@) && (user_by_email(dir@, email@).password_hash matches Some(h)
                && parses_as_phc(h) && password_verifies(h, password@))) ==> (r is Ok || (r
                matches Err(e) && e == AppError::TokenCreationError)),
            r matches Ok(resp) ==> ({
                let u = user_by_email(dir@, email@);
                &&& has_email(dir@, email@)
                &&& (u.password_hash matches Some(h) && password_verifies(h, password@))
                &&& fresh_token_pair(resp, self.jwt_service@, u)
            }),
            r matches Err(e) ==> e == AppError::InvalidCredentials
                || e == AppError::PasswordHashingError || e == AppError::TokenCreationError,
    {
        let user = match dir.find_by_email(email) {
            Some(u) => u,
            None => {
                return Err(AppError::InvalidCredentials);
            }
        };
        let ok = match &user.password_hash {
            Some(h) => match verify_password(h.as_str(), password.as_str()) {
                Ok(b) => b,
                Err(e) => {
                    return Err(e);
                }
            },
            None => {
                return Err(AppError::InvalidCredentials);
            }
        };
        if !ok {
            return Err(AppError::InvalidCredentials);
        }
        let pair = match self.jwt_service.generate_tokens(&user) {
            Ok(p) => p,
            Err(e) => {
                return Err(e);
            }
        };
        Ok(auth_response(pair.0, pair.1))
    }
}

/// Exchange a refresh token for a fresh token pair.
pub struct RefreshTokenUseCase {
    pub jwt_service: JwtService,
}

impl RefreshTokenUseCase {
    pub fn new(jwt_service: JwtService) -> (s: Self)
        ensures
            s.jwt_service@ == jwt_service@,
    {
        RefreshTokenUseCase { jwt_service }
    }

    /// Verify the token, reject it unless its kind is `Refresh`, look the
    /// subject up, and rotate the pair. An access token is never accepted
    /// here.
    pub fn execute(&self, dir: &UserDirectory, refresh_token: &str) -> (r: Result<
        AuthResponseDto,
        AppError,
    >)
        requires
            dir.wf(),
        ensures
            forall|u: UserView, iat: u64, exp: u64|
                refresh_token@ == #[trigger] issued_token(
                    self.jwt_service@,
                    u,
                    iat,
                    exp,
                    TokenKind::Access,
                ) ==> (r matches Err(e) && e == AppError::InvalidToken),
            forall|u: UserView, iat: u64, exp: u64|
                (refresh_token@ == #[trigger] issued_token(
                    self.jwt_service@,
                    u,
                    iat,
                    exp,
                    TokenKind::Refresh,
                ) && !has_id(dir@, u.id)) ==> (r matches Err(e) && (e == AppError::InvalidToken || e
                    == AppError::UserNotFound)),
            forall|u: UserView, iat: u64, exp: u64|
                (refresh_token@ == #[trigger] issued_token(
                    self.jwt_service@,
                    u,
                    iat,
                    exp,
                    TokenKind::Refresh,
                ) && has_id(dir@, u.id)) ==> !(r matches Err(e) && e == AppError::UserNotFound),
            r matches Ok(resp) ==> ({
                &&& exists|id: u128|
                    #[trigger] has_id(dir@, id) && fresh_token_pair(
                        resp,
                        self.jwt_service@,
                        user_by_id(dir@, id),
                    )
                &&& forall|u: UserView, iat: u64, exp: u64|
                    refresh_token@ == #[trigger] issued_token(
                        self.jwt_service@,
                        u,
                        iat,
                        exp,
                        TokenKind::Refresh,
                    ) ==> has_id(dir@, u.id) && fresh_token_pair(
                        resp,
                        self.jwt_service@,
                        user_by_id(dir@, u.id),
                    )
            }),
            r matches Err(e) ==> e == AppError::InvalidToken || e == AppError::UserNotFound
                || e == AppError::TokenCreationError,
    {
        let claims = match self.jwt_service.verify_token(refresh_token) {
            Ok(c) => c,
            Err(_) => {
                return Err(AppError::InvalidToken);
            }
        };
        match claims.token_type {
            TokenKind::Refresh => {}
            TokenKind::Access => {
                return Err(AppError::InvalidToken);
            }
        }
        let user = match dir.find_by_id(claims.sub) {
            Some(u) => u,
            None => {
                return Err(AppError::UserNotFound);
            }
        };
        let pair = match self.jwt_service.generate_tokens(&user) {
            Ok(p) => p,
            Err(e) => {
                return Err(e);
            }
        };
        Ok(auth_response(pair.0, pair.1))
    }
}

/// The email GitHub resolution runs on: the public profile email, or else
/// some entry of the emails endpoint flagged both primary and verified.
pub open spec fn obtained_github_email(
    profile_email: Option<Seq<char>>,
    emails: Seq<crate::dtos::GitHubEmailView>,
    e: Seq<char>,
) -> bool {
    match profile_email {
        Some(pe) => e == pe,
        None => exists|i: int|
            0 <= i < emails.len() && is_primary_verified(#[trigger] emails[i]) && e
                == emails[i].email,
    }
}

/// The display name GitHub resolution runs on: the profile name, falling back
/// to the login.
pub open spec fn github_display_name(info: &GitHubUserInfo) -> Seq<char> {
    match info.name {
        Some(n) => n@,
        None => info.login@,
    }
}

/// Handle GitHub's callback: resolve the account the profile identifies and
/// issue a token pair for it.
pub struct GitHubCallbackUseCase {
    pub jwt_service: JwtService,
}

impl GitHubCallbackUseCase {
    pub fn new(jwt_service: JwtService) -> (s: Self)
        ensures
            s.jwt_service@ == jwt_service@,
    {
        GitHubCallbackUseCase { jwt_service }
    }

    /// The callback with the fresh id of the provisioning branch explicit.
    /// `emails` is what the emails endpoint returned when the profile hides
    /// its address; without a primary verified entry resolution fails.
    pub fn execute_with_id(
        &self,
        dir: &mut UserDirectory,
        info: GitHubUserInfo,
        emails: &Vec<GitHubEmail>,
        fresh_id: u128,
    ) -> (r: Result<AuthResponseDto, AppError>)
        requires
            old(dir).wf(),
        ensures
            final(dir).wf(),
            (info.email is None && !has_primary_verified(emails.deep_view())) ==> (r matches Err(e)
                && e matches AppError::OAuthError(_) && final(dir)@ == old(dir)@),
            (r matches Err(e) && e matches AppError::OAuthError(_)) ==> info.email is None
                && !has_primary_verified(emails.deep_view()) && final(dir)@ == old(dir)@,
            r matches Ok(resp) ==> exists|e: Seq<char>|
                #[trigger] obtained_github_email(info.email.deep_view(), emails.deep_view(), e)
                    && ({
                    let (d2, u) = github_resolution(
                        old(dir)@,
                        info.id,
                        github_display_name(&info),
                        e,
                        info.avatar_url.deep_view(),
                        fresh_id,
                    );
                    final(dir)@ == d2 && fresh_token_pair(resp, self.jwt_service@, u)
                }),
            (r matches Err(e) && e == AppError::DatabaseError) ==> has_id(old(dir)@, fresh_id)
                && final(dir)@ == old(dir)@,
            r matches Err(e) ==> e matches AppError::OAuthError(_) || e == AppError::DatabaseError
                || e == AppError::TokenCreationError,
    {
        let email = match &info.email {
            Some(e) => e.clone(),
            None => match select_primary_verified(emails) {
                Some(e) => e,
                None => {
                    return Err(
                        AppError::OAuthError(String::from_str("GitHub account has no email")),
                    );
                }
            },
        };
        let name = match &info.name {
            Some(n) => n.clone(),
            None => info.login.clone(),
        };
        proof {
            assert(obtained_github_email(info.email.deep_view(), emails.deep_view(), email@));
            assert(name@ == github_display_name(&info));
        }
        let user = match resolve_github_user(dir, info.id, &name, &email, &info.avatar_url, fresh_id) {
            Ok(u) => u,
            Err(e) => {
                return Err(e);
            }
        };
        let pair = match self.jwt_service.generate_tokens(&user) {
            Ok(p) => p,
            Err(e) => {
                return Err(e);
            }
        };
        Ok(auth_response(pair.0, pair.1))
    }

    /// The callback as the boundary calls it: a fresh id is drawn here.
    pub fn execute(
        &self,
        dir: &mut UserDirectory,
        info: GitHubUserInfo,
        emails: &Vec<GitHubEmail>,
    ) -> (r: Result<AuthResponseDto, AppError>)
        requires
            old(dir).wf(),
        ensures
            final(dir).wf(),
            (info.email is None && !has_primary_verified(emails.deep_view())) ==> (r matches Err(e)
                && e matches AppError::OAuthError(_) && final(dir)@ == old(dir)@),
            (r matches Err(e) && e matches AppError::OAuthError(_)) ==> info.email is None
                && !has_primary_verified(emails.deep_view()) && final(dir)@ == old(dir)@,
            r matches Ok(resp) ==> exists|e: Seq<char>, fresh_id: u128|
                #![trigger github_resolution(
                    old(dir)@,
                    info.id,
                    github_display_name(&info),
                    e,
                    info.avatar_url.deep_view(),
                    fresh_id,
                )]
                obtained_github_email(info.email.deep_view(), emails.deep_view(), e) && ({
                    let (d2, u) = github_resolution(
                        old(dir)@,
                        info.id,
                        github_display_name(&info),
                        e,
                        info.avatar_url.deep_view(),
                        fresh_id,
                    );
                    final(dir)@ == d2 && fresh_token_pair(resp, self.jwt_service@, u)
                }),
            (r matches Err(e) && e == AppError::DatabaseError) ==> final(dir)@ == old(dir)@,
            r matches Err(e) ==> e matches AppError::OAuthError(_) || e == AppError::DatabaseError
                || e == AppError::TokenCreationError,
    {
        let fresh_id = new_uuid();
        self.execute_with_id(dir, info, emails, fresh_id)
    }
}

/// The display name Google resolution runs on: the profile name, falling back
/// to the email itself.
pub open spec fn google_display_name(info: &GoogleUserInfo, email: Seq<char>) -> Seq<char> {
    match info.name {
        Some(n) => n@,
        None => email,
    }
}

/// Handle Google's callback: resolve the account the profile identifies and
/// issue a token pair for it.
pub struct GoogleCallbackUseCase {
    pub jwt_service: JwtService,
}

impl GoogleCallbackUseCase {
    pub fn new(jwt_service: JwtService) -> (s: Self)
        ensures
            s.jwt_service@ == jwt_service@,
    {
        GoogleCallbackUseCase { jwt_service }
    }

    /// The callback with the fresh id of the provisioning branch explicit.
    /// A profile without an email fails resolution.
    pub fn execute_with_id(
        &self,
        dir: &mut UserDirectory,
        info: GoogleUserInfo,
        fresh_id: u128,
    ) -> (r: Result<AuthResponseDto, AppError>)
        requires
            old(dir).wf(),
        ensures
            final(dir).wf(),
            info.email is None ==> (r matches Err(e) && e matches AppError::OAuthError(_) && final(dir)@ == old(dir)@),
            (r matches Err(e) && e matches AppError::OAuthError(_)) ==> info.email is None && final(dir)@ == old(dir)@,
            r matches Ok(resp) ==> info.email matches Some(e) && ({
                let (d2, u) = google_resolution(
                    old(dir)@,
                    info.id@,
                    google_display_name(&info, e@),
                    e@,
                    info.picture.deep_view(),
                    fresh_id,
                );
                final(dir)@ == d2 && fresh_token_pair(resp, self.jwt_service@, u)
            }),
            (r matches Err(e) && e == AppError::DatabaseError) ==> has_id(old(dir)@, fresh_id)
                && final(dir)@ == old(dir)@,
            r matches Err(e) ==> e matches AppError::OAuthError(_) || e == AppError::DatabaseError
                || e == AppError::TokenCreationError,
    {
        let email = match &info.email {
            Some(e) => e.clone(),
            None => {
                return Err(AppError::OAuthError(String::from_str("Google account has no email")));
            }
        };
        let name = match &info.name {
            Some(n) => n.clone(),
            None => email.clone(),
        };
        let user = match resolve_google_user(dir, &info.id, &name, &email, &info.picture, fresh_id) {
            Ok(u) => u,
            Err(e) => {
                return Err(e);
            }
        };
        let pair = match self.jwt_service.generate_tokens(&user) {
            Ok(p) => p,
            Err(e) => {
                return Err(e);
            }
        };
        Ok(auth_response(pair.0, pair.1))
    }

    /// The callback as the boundary calls it: a fresh id is drawn here.
    pub fn execute(&self, dir: &mut UserDirectory, info: GoogleUserInfo) -> (r: Result<
        AuthResponseDto,
        AppError,
    >)
        requires
            old(dir).wf(),
        ensures
            final(dir).wf(),
            info.email is None ==> (r matches Err(e) && e matches AppError::OAuthError(_) && final(dir)@ == old(dir)@),
            (r matches Err(e) && e matches AppError::OAuthError(_)) ==> info.email is None && final(dir)@ == old(dir)@,
            r matches Ok(resp) ==> info.email matches Some(e) && exists|fresh_id: u128|
                #![trigger google_resolution(
                    old(dir)@,
                    info.id@,
                    google_display_name(&info, e@),
                    e@,
                    info.picture.deep_view(),
                    fresh_id,
                )]
                ({
                    let (d2, u) = google_resolution(
                        old(dir)@,
                        info.id@,
                        google_display_name(&info, e@),
                        e@,
                        info.picture.deep_view(),
                        fresh_id,
                    );
                    final(dir)@ == d2 && fresh_token_pair(resp, self.jwt_service@, u)
                }),
            (r matches Err(e) && e == AppError::DatabaseError) ==> final(dir)@ == old(dir)@,
            r matches Err(e) ==> e matches AppError::OAuthError(_) || e == AppError::DatabaseError
                || e == AppError::TokenCreationError,
    {
        let fresh_id = new_uuid();
        self.execute_with_id(dir, info, fresh_id)
    }
}

} // verus!
