use auth_core::errors::AppError;
use auth_core::requests::{CreateUserRequest, LoginRequest, RegisterRequest};
use auth_core::response::Meta;
use auth_core::password::{hash_password, verify_password};
use auth_core::token::TokenKind;
use auth_core::user::Role;

fn register(name: &str, phone: Option<&str>, email: &str, password: &str) -> RegisterRequest {
    RegisterRequest {
        name: name.to_string(),
        phone: phone.map(str::to_string),
        email: email.to_string(),
        password: password.to_string(),
    }
}

#[test]
fn register_request_rules() {
    assert!(register("Ann", None, "ann@x.com", "longenough1").validate().is_ok());
    assert!(register("Ann", Some("0123456789"), "ann@x.com", "longenough1").validate().is_ok());
    let cases = [
        register("", None, "ann@x.com", "longenough1"),
        register("Ann", Some("012345678"), "ann@x.com", "longenough1"),
        register("Ann", None, "not-an-email", "longenough1"),
        register("Ann", None, "", "longenough1"),
        register("Ann", None, "ann@x.com", "short7c"),
    ];
    for c in cases {
        assert!(matches!(c.validate(), Err(AppError::ValidationError(_))));
    }
}

#[test]
fn login_request_rules() {
    let ok = LoginRequest { email: "ann@x.com".to_string(), password: "p".to_string() };
    assert!(ok.validate().is_ok());
    let bad_email = LoginRequest { email: "nope".to_string(), password: "p".to_string() };
    assert!(matches!(bad_email.validate(), Err(AppError::ValidationError(_))));
    let empty_password = LoginRequest { email: "ann@x.com".to_string(), password: String::new() };
    assert!(matches!(empty_password.validate(), Err(AppError::ValidationError(_))));
}

#[test]
fn create_user_request_rules() {
    let ok = CreateUserRequest {
        name: "M".to_string(),
        phone: None,
        email: "m@x.com".to_string(),
        password: "longenough1".to_string(),
        role: Role::Mentor,
    };
    assert!(ok.validate().is_ok());
    let bad = CreateUserRequest {
        name: String::new(),
        phone: None,
        email: "m@x.com".to_string(),
        password: "longenough1".to_string(),
        role: Role::Mentor,
    };
    assert!(matches!(bad.validate(), Err(AppError::ValidationError(_))));
}

#[test]
fn password_hash_roundtrip() {
    let hash = hash_password("longenough1").unwrap();
    assert_ne!(hash, "longenough1");
    assert!(hash.starts_with("$argon2"));
    assert_eq!(verify_password(&hash, "longenough1").unwrap(), true);
    assert_eq!(verify_password(&hash, "longenough2").unwrap(), false);
    assert!(matches!(
        verify_password("not-a-phc-string", "x"),
        Err(AppError::PasswordHashingError)
    ));
}

#[test]
fn error_status_codes_are_fixed() {
    let cases: [(AppError, u16); 12] = [
        (AppError::DatabaseError, 500),
        (AppError::UserNotFound, 404),
        (AppError::EmailAlreadyExists, 409),
        (AppError::InvalidCredentials, 401),
        (AppError::TokenCreationError, 500),
        (AppError::InvalidToken, 401),
        (AppError::PasswordHashingError, 500),
        (AppError::ValidationError("bad".to_string()), 400),
        (AppError::InternalServerError, 500),
        (AppError::Forbidden, 403),
        (AppError::CannotDeleteSelf, 400),
        (AppError::OAuthError("boom".to_string()), 400),
    ];
    for (e, code) in cases {
        assert_eq!(e.status_code(), code);
    }
}

#[test]
fn error_messages_are_fixed() {
    assert_eq!(AppError::UserNotFound.message(), "User not found");
    assert_eq!(AppError::EmailAlreadyExists.message(), "Email already exists");
    assert_eq!(AppError::InvalidCredentials.message(), "Invalid credentials");
    assert_eq!(AppError::CannotDeleteSelf.message(), "Cannot delete your own account");
    assert_eq!(AppError::ValidationError("Name is required".to_string()).message(), "Name is required");
    assert_eq!(AppError::OAuthError("boom".to_string()).message(), "OAuth error: boom");
}

#[test]
fn meta_builders_fill_status() {
    let ok = Meta::success("done".to_string());
    assert_eq!(ok.status, "success");
    assert_eq!(ok.message, "done");
    let bad = Meta::error("broken".to_string());
    assert_eq!(bad.status, "error");
    assert_eq!(bad.message, "broken");
}

#[test]
fn role_and_kind_names_roundtrip() {
    for role in [Role::Admin, Role::SuperAdmin, Role::User, Role::Mentor] {
        assert_eq!(Role::from_name(&role.as_str().to_string()), Some(role));
    }
    assert_eq!(Role::from_name(&"bogus".to_string()), None);
    for kind in [TokenKind::Access, TokenKind::Refresh] {
        assert_eq!(TokenKind::from_name(&kind.as_str().to_string()), Some(kind));
    }
    assert_eq!(TokenKind::from_name(&"other".to_string()), None);
}
