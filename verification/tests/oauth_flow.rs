use auth_core::directory::UserDirectory;
use auth_core::dtos::{GitHubEmail, GitHubUserInfo, GoogleUserInfo, RegisterUserDto};
use auth_core::errors::AppError;
use auth_core::oauth::{select_primary_verified, GitHubOAuthClient, GoogleOAuthClient};
use auth_core::token::JwtService;
use auth_core::usecases::auth::{GitHubCallbackUseCase, GoogleCallbackUseCase, RegisterUseCase};
use auth_core::user::Role;

fn jwt() -> JwtService {
    JwtService::new("test-signing-secret".to_string())
}

fn octo(email: Option<&str>) -> GitHubUserInfo {
    GitHubUserInfo {
        id: 4242,
        login: "octo".to_string(),
        name: Some("Octo Cat".to_string()),
        email: email.map(str::to_string),
        avatar_url: Some("https://avatars.example/octo".to_string()),
    }
}

#[test]
fn github_authorize_url_is_exact() {
    let c = GitHubOAuthClient::new(
        "cid".to_string(),
        "client-secret".to_string(),
        "https://app.example/cb".to_string(),
    );
    assert_eq!(
        c.get_authorize_url(),
        "https://github.com/login/oauth/authorize?client_id=cid&redirect_uri=https://app.example/cb&scope=user:email"
    );
}

#[test]
fn google_authorize_url_is_exact() {
    let c = GoogleOAuthClient::new(
        "cid".to_string(),
        "client-secret".to_string(),
        "https://app.example/cb".to_string(),
    );
    assert_eq!(
        c.get_authorize_url(),
        "https://accounts.google.com/o/oauth2/v2/auth?client_id=cid&redirect_uri=https://app.example/cb&response_type=code&scope=openid%20email%20profile&access_type=offline"
    );
}

#[test]
fn primary_verified_email_is_selected_first() {
    let emails = vec![
        GitHubEmail { email: "a@x.com".to_string(), primary: false, verified: true },
        GitHubEmail { email: "b@x.com".to_string(), primary: true, verified: true },
        GitHubEmail { email: "c@x.com".to_string(), primary: true, verified: true },
    ];
    assert_eq!(select_primary_verified(&emails), Some("b@x.com".to_string()));
}

#[test]
fn no_primary_verified_email_selects_none() {
    let emails = vec![
        GitHubEmail { email: "a@x.com".to_string(), primary: true, verified: false },
        GitHubEmail { email: "b@x.com".to_string(), primary: false, verified: true },
    ];
    assert_eq!(select_primary_verified(&emails), None);
}

#[test]
fn github_callback_without_usable_email_fails() {
    let mut dir = UserDirectory::new();
    let emails = vec![
        GitHubEmail { email: "a@x.com".to_string(), primary: true, verified: false },
        GitHubEmail { email: "b@x.com".to_string(), primary: false, verified: true },
    ];
    let r = GitHubCallbackUseCase::new(jwt()).execute(&mut dir, octo(None), &emails);
    assert!(matches!(r, Err(AppError::OAuthError(_))));
    assert_eq!(dir.len(), 0);
}

#[test]
fn github_callback_uses_emails_endpoint_fallback() {
    let mut dir = UserDirectory::new();
    let emails = vec![
        GitHubEmail { email: "hidden@x.com".to_string(), primary: true, verified: true },
    ];
    GitHubCallbackUseCase::new(jwt())
        .execute(&mut dir, octo(None), &emails)
        .unwrap();
    let stored = dir.find_by_email(&"hidden@x.com".to_string()).unwrap();
    assert_eq!(stored.github_id, Some(4242));
    assert_eq!(stored.role, Role::User);
    assert!(stored.password_hash.is_none());
}

#[test]
fn github_callback_twice_is_idempotent() {
    let mut dir = UserDirectory::new();
    let uc = GitHubCallbackUseCase::new(jwt());
    let first = uc.execute(&mut dir, octo(Some("octo@x.com")), &Vec::new()).unwrap();
    let len_after_first = dir.len();
    let second = uc.execute(&mut dir, octo(Some("octo@x.com")), &Vec::new()).unwrap();
    assert_eq!(dir.len(), len_after_first);
    let service = jwt();
    let c1 = service.verify_token(&first.access_token).unwrap();
    let c2 = service.verify_token(&second.access_token).unwrap();
    assert_eq!(c1.sub, c2.sub);
}

#[test]
fn github_callback_links_existing_account_by_email() {
    let mut dir = UserDirectory::new();
    RegisterUseCase::new()
        .execute(
            &mut dir,
            RegisterUserDto {
                name: "Octo Cat".to_string(),
                phone: None,
                email: "octo@x.com".to_string(),
                password: "longenough1".to_string(),
            },
        )
        .unwrap();
    let before = dir.find_by_email(&"octo@x.com".to_string()).unwrap();
    GitHubCallbackUseCase::new(jwt())
        .execute(&mut dir, octo(Some("octo@x.com")), &Vec::new())
        .unwrap();
    assert_eq!(dir.len(), 1);
    let after = dir.find_by_email(&"octo@x.com".to_string()).unwrap();
    assert_eq!(after.id, before.id);
    assert_eq!(after.github_id, Some(4242));
    assert_eq!(after.avatar_url, Some("https://avatars.example/octo".to_string()));
    // The linked account keeps its password credential.
    assert!(after.password_hash.is_some());
}

#[test]
fn google_callback_without_email_fails() {
    let mut dir = UserDirectory::new();
    let info = GoogleUserInfo {
        id: "g-123".to_string(),
        email: None,
        name: Some("Gee".to_string()),
        picture: None,
        verified_email: None,
    };
    let r = GoogleCallbackUseCase::new(jwt()).execute(&mut dir, info);
    assert!(matches!(r, Err(AppError::OAuthError(_))));
    assert_eq!(dir.len(), 0);
}

#[test]
fn google_callback_provisions_and_reuses() {
    let mut dir = UserDirectory::new();
    let uc = GoogleCallbackUseCase::new(jwt());
    let info = || GoogleUserInfo {
        id: "g-123".to_string(),
        email: Some("gee@x.com".to_string()),
        name: None,
        picture: Some("https://pics.example/g".to_string()),
        verified_email: Some(true),
    };
    uc.execute(&mut dir, info()).unwrap();
    assert_eq!(dir.len(), 1);
    let stored = dir.find_by_google_id(&"g-123".to_string()).unwrap();
    // Without a profile name the email is the display name.
    assert_eq!(stored.name, "gee@x.com");
    uc.execute(&mut dir, info()).unwrap();
    assert_eq!(dir.len(), 1);
}
