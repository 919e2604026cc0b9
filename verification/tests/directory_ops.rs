use auth_core::directory::UserDirectory;
use auth_core::errors::AppError;
use auth_core::user::{Role, User, UserStatus};

fn plain_user(id: u128, email: &str) -> User {
    User {
        id,
        name: "Person".to_string(),
        phone: None,
        email: email.to_string(),
        password_hash: Some("$fake$hash".to_string()),
        role: Role::User,
        status: UserStatus::Active,
        github_id: None,
        google_id: None,
        avatar_url: None,
        created_at: None,
        updated_at: None,
    }
}

#[test]
fn create_and_find_back() {
    let mut dir = UserDirectory::new();
    dir.create(plain_user(1, "a@x.com")).unwrap();
    assert_eq!(dir.len(), 1);
    assert_eq!(dir.find_by_email(&"a@x.com".to_string()).unwrap().id, 1);
    assert_eq!(dir.find_by_id(1).unwrap().email, "a@x.com");
    assert!(dir.find_by_id(2).is_none());
    assert!(dir.find_by_email(&"b@x.com".to_string()).is_none());
}

#[test]
fn create_duplicate_email_is_a_conflict() {
    let mut dir = UserDirectory::new();
    dir.create(plain_user(1, "a@x.com")).unwrap();
    let r = dir.create(plain_user(2, "a@x.com"));
    assert!(matches!(r, Err(AppError::EmailAlreadyExists)));
    assert_eq!(dir.len(), 1);
}

#[test]
fn create_duplicate_id_is_a_conflict() {
    let mut dir = UserDirectory::new();
    dir.create(plain_user(1, "a@x.com")).unwrap();
    let r = dir.create(plain_user(1, "b@x.com"));
    assert!(matches!(r, Err(AppError::EmailAlreadyExists)));
}

#[test]
fn update_rewrites_profile_but_not_credential() {
    let mut dir = UserDirectory::new();
    dir.create(plain_user(1, "a@x.com")).unwrap();
    let mut changed = plain_user(1, "new@x.com");
    changed.name = "Renamed".to_string();
    changed.password_hash = None;
    changed.role = Role::Mentor;
    let updated = dir.update(1, &changed).unwrap();
    assert_eq!(updated.name, "Renamed");
    assert_eq!(updated.email, "new@x.com");
    assert_eq!(updated.role, Role::Mentor);
    // The stored credential is kept even though the caller's copy had none.
    assert_eq!(updated.password_hash, Some("$fake$hash".to_string()));
}

#[test]
fn update_missing_user_is_not_found() {
    let mut dir = UserDirectory::new();
    let r = dir.update(9, &plain_user(9, "x@x.com"));
    assert!(matches!(r, Err(AppError::UserNotFound)));
}

#[test]
fn update_onto_taken_email_conflicts() {
    let mut dir = UserDirectory::new();
    dir.create(plain_user(1, "a@x.com")).unwrap();
    dir.create(plain_user(2, "b@x.com")).unwrap();
    let r = dir.update(2, &plain_user(2, "a@x.com"));
    assert!(matches!(r, Err(AppError::EmailAlreadyExists)));
    assert_eq!(dir.find_by_id(2).unwrap().email, "b@x.com");
}

#[test]
fn delete_removes_and_tolerates_absence() {
    let mut dir = UserDirectory::new();
    dir.create(plain_user(1, "a@x.com")).unwrap();
    assert!(dir.delete(1).is_ok());
    assert_eq!(dir.len(), 0);
    assert!(dir.delete(1).is_ok());
}

#[test]
fn update_status_suspends() {
    let mut dir = UserDirectory::new();
    dir.create(plain_user(1, "a@x.com")).unwrap();
    let u = dir.update_status(1, UserStatus::Suspended).unwrap();
    assert_eq!(u.status, UserStatus::Suspended);
    assert_eq!(dir.find_by_id(1).unwrap().status, UserStatus::Suspended);
    let r = dir.update_status(2, UserStatus::Active);
    assert!(matches!(r, Err(AppError::UserNotFound)));
}

#[test]
fn find_all_lists_in_storage_order() {
    let mut dir = UserDirectory::new();
    dir.create(plain_user(1, "a@x.com")).unwrap();
    dir.create(plain_user(2, "b@x.com")).unwrap();
    let all = dir.find_all();
    assert_eq!(all.len(), 2);
    assert_eq!(all[0].id, 1);
    assert_eq!(all[1].id, 2);
}

#[test]
fn upsert_github_refreshes_instead_of_duplicating() {
    let mut dir = UserDirectory::new();
    let mut u = plain_user(1, "a@x.com");
    u.github_id = Some(7);
    dir.create(u).unwrap();
    let mut again = plain_user(2, "other@x.com");
    again.github_id = Some(7);
    again.name = "Fresh Name".to_string();
    again.avatar_url = Some("https://pics.example/a".to_string());
    let merged = dir.upsert_github_user(&again).unwrap();
    assert_eq!(dir.len(), 1);
    assert_eq!(merged.id, 1);
    assert_eq!(merged.name, "Fresh Name");
    assert_eq!(merged.avatar_url, Some("https://pics.example/a".to_string()));
    assert_eq!(merged.email, "a@x.com");
}

#[test]
fn upsert_google_inserts_when_unlinked() {
    let mut dir = UserDirectory::new();
    let mut u = plain_user(1, "a@x.com");
    u.google_id = Some("g-9".to_string());
    dir.upsert_google_user(&u).unwrap();
    assert_eq!(dir.len(), 1);
    assert_eq!(dir.find_by_google_id(&"g-9".to_string()).unwrap().id, 1);
    assert!(dir.find_by_google_id(&"g-0".to_string()).is_none());
}

#[test]
fn find_by_github_id_distinguishes() {
    let mut dir = UserDirectory::new();
    let mut u = plain_user(1, "a@x.com");
    u.github_id = Some(7);
    dir.create(u).unwrap();
    assert_eq!(dir.find_by_github_id(7).unwrap().id, 1);
    assert!(dir.find_by_github_id(8).is_none());
}
