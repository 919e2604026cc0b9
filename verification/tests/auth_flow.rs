use auth_core::directory::UserDirectory;
use auth_core::dtos::{GitHubUserInfo, RegisterUserDto};
use auth_core::errors::AppError;
use auth_core::token::{JwtService, TokenKind};
use auth_core::usecases::auth::{GitHubCallbackUseCase, LoginUseCase, RefreshTokenUseCase, RegisterUseCase};
use auth_core::user::{Role, UserStatus};

fn ann_dto() -> RegisterUserDto {
    RegisterUserDto {
        name: "Ann".to_string(),
        phone: None,
        email: "ann@x.com".to_string(),
        password: "longenough1".to_string(),
    }
}

fn jwt() -> JwtService {
    JwtService::new("test-signing-secret".to_string())
}

#[test]
fn register_defaults_to_active_user() {
    let mut dir = UserDirectory::new();
    let resp = RegisterUseCase::new().execute(&mut dir, ann_dto()).unwrap();
    assert_eq!(resp.name, "Ann");
    assert_eq!(resp.email, "ann@x.com");
    assert_eq!(resp.role, Role::User);
    assert!(resp.avatar_url.is_none());
    let stored = dir.find_by_email(&"ann@x.com".to_string()).unwrap();
    assert_eq!(stored.status, UserStatus::Active);
    assert_eq!(stored.role, Role::User);
    assert!(stored.password_hash.is_some());
}

#[test]
fn register_duplicate_email_conflicts() {
    let mut dir = UserDirectory::new();
    RegisterUseCase::new().execute(&mut dir, ann_dto()).unwrap();
    let second = RegisterUseCase::new().execute(&mut dir, ann_dto());
    assert!(matches!(second, Err(AppError::EmailAlreadyExists)));
    assert_eq!(dir.len(), 1);
}

#[test]
fn registration_projection_has_no_credential() {
    let mut dir = UserDirectory::new();
    let resp = RegisterUseCase::new().execute(&mut dir, ann_dto()).unwrap();
    // The projection type has exactly these public fields; the password
    // credential is not among them.
    let _public_fields = (resp.name, resp.phone, resp.email, resp.role, resp.avatar_url);
}

#[test]
fn login_issues_bearer_pair() {
    let mut dir = UserDirectory::new();
    RegisterUseCase::new().execute(&mut dir, ann_dto()).unwrap();
    let login = LoginUseCase::new(jwt());
    let resp = login
        .execute(&dir, &"ann@x.com".to_string(), &"longenough1".to_string())
        .unwrap();
    assert_eq!(resp.token_type, "Bearer");
    assert_eq!(resp.expires_in, 900);
    assert!(!resp.access_token.is_empty());
    assert_ne!(resp.access_token, resp.refresh_token);
}

#[test]
fn login_unknown_email_fails() {
    let dir = UserDirectory::new();
    let login = LoginUseCase::new(jwt());
    let r = login.execute(&dir, &"ghost@x.com".to_string(), &"whatever1".to_string());
    assert!(matches!(r, Err(AppError::InvalidCredentials)));
}

#[test]
fn login_wrong_password_fails_consistently() {
    let mut dir = UserDirectory::new();
    RegisterUseCase::new().execute(&mut dir, ann_dto()).unwrap();
    let login = LoginUseCase::new(jwt());
    for _ in 0..3 {
        let r = login.execute(&dir, &"ann@x.com".to_string(), &"wrongpass1".to_string());
        assert!(matches!(r, Err(AppError::InvalidCredentials)));
    }
    // No lockout: the right password still works afterwards.
    let ok = login.execute(&dir, &"ann@x.com".to_string(), &"longenough1".to_string());
    assert!(ok.is_ok());
}

#[test]
fn token_roundtrip_recovers_subject_and_role() {
    let mut dir = UserDirectory::new();
    RegisterUseCase::new().execute(&mut dir, ann_dto()).unwrap();
    let stored = dir.find_by_email(&"ann@x.com".to_string()).unwrap();
    let service = jwt();
    let login = LoginUseCase::new(jwt());
    let resp = login
        .execute(&dir, &"ann@x.com".to_string(), &"longenough1".to_string())
        .unwrap();
    let claims = service.verify_token(&resp.access_token).unwrap();
    assert_eq!(claims.sub, stored.id);
    assert_eq!(claims.role, stored.role);
    assert_eq!(claims.email, "ann@x.com");
    assert_eq!(claims.name, "Ann");
    assert_eq!(claims.token_type, TokenKind::Access);
    assert_eq!(claims.exp - claims.iat, 900);
    let refresh_claims = service.verify_token(&resp.refresh_token).unwrap();
    assert_eq!(refresh_claims.token_type, TokenKind::Refresh);
    assert_eq!(refresh_claims.sub, stored.id);
    assert_eq!(refresh_claims.exp - refresh_claims.iat, 604800);
}

#[test]
fn access_token_rejected_where_refresh_required() {
    let mut dir = UserDirectory::new();
    RegisterUseCase::new().execute(&mut dir, ann_dto()).unwrap();
    let login = LoginUseCase::new(jwt());
    let resp = login
        .execute(&dir, &"ann@x.com".to_string(), &"longenough1".to_string())
        .unwrap();
    let refresh = RefreshTokenUseCase::new(jwt());
    let r = refresh.execute(&dir, &resp.access_token);
    assert!(matches!(r, Err(AppError::InvalidToken)));
}

#[test]
fn refresh_token_rejected_where_access_required() {
    let mut dir = UserDirectory::new();
    RegisterUseCase::new().execute(&mut dir, ann_dto()).unwrap();
    let login = LoginUseCase::new(jwt());
    let resp = login
        .execute(&dir, &"ann@x.com".to_string(), &"longenough1".to_string())
        .unwrap();
    let service = jwt();
    let r = service.verify_access_token(&resp.refresh_token);
    assert!(matches!(r, Err(AppError::InvalidToken)));
    assert!(service.verify_access_token(&resp.access_token).is_ok());
}

#[test]
fn refresh_rotates_the_pair() {
    let mut dir = UserDirectory::new();
    RegisterUseCase::new().execute(&mut dir, ann_dto()).unwrap();
    let stored = dir.find_by_email(&"ann@x.com".to_string()).unwrap();
    let login = LoginUseCase::new(jwt());
    let resp = login
        .execute(&dir, &"ann@x.com".to_string(), &"longenough1".to_string())
        .unwrap();
    let refresh = RefreshTokenUseCase::new(jwt());
    let rotated = refresh.execute(&dir, &resp.refresh_token).unwrap();
    assert_eq!(rotated.token_type, "Bearer");
    assert_eq!(rotated.expires_in, 900);
    let claims = jwt().verify_token(&rotated.access_token).unwrap();
    assert_eq!(claims.sub, stored.id);
}

#[test]
fn refresh_with_garbage_token_fails() {
    let dir = UserDirectory::new();
    let refresh = RefreshTokenUseCase::new(jwt());
    let r = refresh.execute(&dir, "not-a-token");
    assert!(matches!(r, Err(AppError::InvalidToken)));
}

#[test]
fn token_verification_needs_the_right_secret() {
    let mut dir = UserDirectory::new();
    RegisterUseCase::new().execute(&mut dir, ann_dto()).unwrap();
    let login = LoginUseCase::new(jwt());
    let resp = login
        .execute(&dir, &"ann@x.com".to_string(), &"longenough1".to_string())
        .unwrap();
    let other = JwtService::new("another-secret".to_string());
    assert!(matches!(
        other.verify_token(&resp.access_token),
        Err(AppError::InvalidToken)
    ));
}

#[test]
fn expired_token_is_rejected() {
    let user = auth_core::user::User {
        id: 7,
        name: "Ann".to_string(),
        phone: None,
        email: "ann@x.com".to_string(),
        password_hash: None,
        role: Role::User,
        status: UserStatus::Active,
        github_id: Some(1),
        google_id: None,
        avatar_url: None,
        created_at: None,
        updated_at: None,
    };
    let service = jwt();
    // Issued at the epoch: both tokens expired decades ago.
    let (access, refresh) = service.generate_tokens_at(&user, 1000).unwrap();
    assert!(matches!(service.verify_token(&access), Err(AppError::InvalidToken)));
    assert!(matches!(service.verify_token(&refresh), Err(AppError::InvalidToken)));
}

#[test]
fn tampered_token_is_rejected() {
    let mut dir = UserDirectory::new();
    RegisterUseCase::new().execute(&mut dir, ann_dto()).unwrap();
    let login = LoginUseCase::new(jwt());
    let resp = login
        .execute(&dir, &"ann@x.com".to_string(), &"longenough1".to_string())
        .unwrap();
    let mut tampered = resp.access_token.clone();
    let flipped = if tampered.ends_with('A') { 'B' } else { 'A' };
    tampered.pop();
    tampered.push(flipped);
    assert!(matches!(jwt().verify_token(&tampered), Err(AppError::InvalidToken)));
}

#[test]
fn oauth_only_account_cannot_password_login() {
    let mut dir = UserDirectory::new();
    let info = GitHubUserInfo {
        id: 77,
        login: "octo".to_string(),
        name: Some("Octo".to_string()),
        email: Some("octo@x.com".to_string()),
        avatar_url: None,
    };
    GitHubCallbackUseCase::new(jwt())
        .execute(&mut dir, info, &Vec::new())
        .unwrap();
    let login = LoginUseCase::new(jwt());
    let r = login.execute(&dir, &"octo@x.com".to_string(), &"anypassword1".to_string());
    assert!(matches!(r, Err(AppError::InvalidCredentials)));
}
