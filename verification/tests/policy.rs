use auth_core::authorization::{is_allowed, Operation};
use auth_core::directory::UserDirectory;
use auth_core::dtos::{CreateUserDto, UpdateUserDto, UpdateUserStatusDto};
use auth_core::errors::AppError;
use auth_core::usecases::user_management::{
    CreateUserUseCase, DeleteUserUseCase, UpdateUserStatusUseCase, UpdateUserUseCase,
};
use auth_core::usecases::users::GetUsersUseCase;
use auth_core::user::{Role, User, UserStatus};

fn seeded_dir() -> UserDirectory {
    let mut dir = UserDirectory::new();
    dir.create(User {
        id: 1,
        name: "Root".to_string(),
        phone: None,
        email: "root@x.com".to_string(),
        password_hash: Some("$fake$hash".to_string()),
        role: Role::SuperAdmin,
        status: UserStatus::Active,
        github_id: None,
        google_id: None,
        avatar_url: None,
        created_at: None,
        updated_at: None,
    })
    .unwrap();
    dir.create(User {
        id: 2,
        name: "Member".to_string(),
        phone: None,
        email: "member@x.com".to_string(),
        password_hash: Some("$fake$hash".to_string()),
        role: Role::User,
        status: UserStatus::Active,
        github_id: None,
        google_id: None,
        avatar_url: None,
        created_at: None,
        updated_at: None,
    })
    .unwrap();
    dir
}

#[test]
fn policy_table_is_exact() {
    assert!(is_allowed(Role::Admin, Operation::ListUsers));
    assert!(is_allowed(Role::SuperAdmin, Operation::ListUsers));
    assert!(!is_allowed(Role::User, Operation::ListUsers));
    assert!(!is_allowed(Role::Mentor, Operation::ListUsers));

    assert!(is_allowed(Role::Admin, Operation::CreateUser));
    assert!(is_allowed(Role::SuperAdmin, Operation::CreateUser));
    assert!(!is_allowed(Role::User, Operation::CreateUser));

    assert!(!is_allowed(Role::Admin, Operation::UpdateUser));
    assert!(is_allowed(Role::SuperAdmin, Operation::UpdateUser));

    assert!(!is_allowed(Role::Admin, Operation::DeleteUser));
    assert!(is_allowed(Role::SuperAdmin, Operation::DeleteUser));
    assert!(!is_allowed(Role::Mentor, Operation::DeleteUser));

    assert!(is_allowed(Role::Admin, Operation::UpdateUserStatus));
    assert!(is_allowed(Role::SuperAdmin, Operation::UpdateUserStatus));
    assert!(!is_allowed(Role::User, Operation::UpdateUserStatus));
}

#[test]
fn list_users_forbidden_for_ordinary_roles() {
    let dir = seeded_dir();
    let uc = GetUsersUseCase::new();
    assert!(matches!(uc.execute(&dir, Role::User), Err(AppError::Forbidden)));
    assert!(matches!(uc.execute(&dir, Role::Mentor), Err(AppError::Forbidden)));
    let listed = uc.execute(&dir, Role::Admin).unwrap();
    assert_eq!(listed.len(), 2);
    assert_eq!(listed[0].email, "root@x.com");
    assert_eq!(listed[1].email, "member@x.com");
}

#[test]
fn self_delete_is_always_rejected() {
    let mut dir = seeded_dir();
    let uc = DeleteUserUseCase::new();
    let r = uc.execute(&mut dir, 1, Role::SuperAdmin, 1);
    assert!(matches!(r, Err(AppError::CannotDeleteSelf)));
    assert_eq!(dir.len(), 2);
    // Even for an id that is not in the directory at all.
    let mut empty = UserDirectory::new();
    let r = DeleteUserUseCase::new().execute(&mut empty, 9, Role::SuperAdmin, 9);
    assert!(matches!(r, Err(AppError::CannotDeleteSelf)));
}

#[test]
fn delete_requires_superadmin() {
    let mut dir = seeded_dir();
    let uc = DeleteUserUseCase::new();
    let r = uc.execute(&mut dir, 1, Role::Admin, 2);
    assert!(matches!(r, Err(AppError::Forbidden)));
    let r = uc.execute(&mut dir, 1, Role::SuperAdmin, 3);
    assert!(matches!(r, Err(AppError::UserNotFound)));
    assert!(uc.execute(&mut dir, 1, Role::SuperAdmin, 2).is_ok());
    assert_eq!(dir.len(), 1);
}

#[test]
fn create_user_respects_policy_and_role_choice() {
    let mut dir = seeded_dir();
    let uc = CreateUserUseCase::new();
    let dto = || CreateUserDto {
        name: "Mentor M".to_string(),
        phone: None,
        email: "mentor@x.com".to_string(),
        password: "longenough1".to_string(),
        role: Role::Mentor,
    };
    let r = uc.execute(&mut dir, Role::Mentor, dto());
    assert!(matches!(r, Err(AppError::Forbidden)));
    let created = uc.execute(&mut dir, Role::Admin, dto()).unwrap();
    assert_eq!(created.role, Role::Mentor);
    let dup = uc.execute(&mut dir, Role::SuperAdmin, dto());
    assert!(matches!(dup, Err(AppError::EmailAlreadyExists)));
}

#[test]
fn update_user_is_superadmin_only_and_partial() {
    let mut dir = seeded_dir();
    let uc = UpdateUserUseCase::new();
    let dto = UpdateUserDto {
        name: Some("Renamed".to_string()),
        phone: Some("0123456789".to_string()),
        email: None,
        role: Some(Role::Mentor),
    };
    let r = uc.execute(
        &mut dir,
        Role::Admin,
        2,
        UpdateUserDto { name: None, phone: None, email: None, role: None },
    );
    assert!(matches!(r, Err(AppError::Forbidden)));
    let updated = uc.execute(&mut dir, Role::SuperAdmin, 2, dto).unwrap();
    assert_eq!(updated.name, "Renamed");
    assert_eq!(updated.phone, Some("0123456789".to_string()));
    assert_eq!(updated.email, "member@x.com");
    assert_eq!(updated.role, Role::Mentor);
    let missing = uc.execute(
        &mut dir,
        Role::SuperAdmin,
        42,
        UpdateUserDto { name: None, phone: None, email: None, role: None },
    );
    assert!(matches!(missing, Err(AppError::UserNotFound)));
}

#[test]
fn update_user_onto_taken_email_conflicts() {
    let mut dir = seeded_dir();
    let uc = UpdateUserUseCase::new();
    let r = uc.execute(
        &mut dir,
        Role::SuperAdmin,
        2,
        UpdateUserDto {
            name: None,
            phone: None,
            email: Some("root@x.com".to_string()),
            role: None,
        },
    );
    assert!(matches!(r, Err(AppError::EmailAlreadyExists)));
}

#[test]
fn suspend_and_activate_respect_policy() {
    let mut dir = seeded_dir();
    let uc = UpdateUserStatusUseCase::new();
    let r = uc.execute(&mut dir, Role::User, 2, UpdateUserStatusDto { status: UserStatus::Suspended });
    assert!(matches!(r, Err(AppError::Forbidden)));
    let suspended = uc
        .execute(&mut dir, Role::Admin, 2, UpdateUserStatusDto { status: UserStatus::Suspended })
        .unwrap();
    assert_eq!(suspended.email, "member@x.com");
    assert_eq!(dir.find_by_id(2).unwrap().status, UserStatus::Suspended);
    let missing = uc.execute(
        &mut dir,
        Role::SuperAdmin,
        42,
        UpdateUserStatusDto { status: UserStatus::Active },
    );
    assert!(matches!(missing, Err(AppError::UserNotFound)));
}
