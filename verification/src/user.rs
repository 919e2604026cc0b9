//! The user entity: roles, account status, and the identity record itself,
//! together with its mathematical view.

use vstd::prelude::*;

verus! {

/// The four fixed roles of the directory.
#[derive(Clone, Copy, Debug, PartialEq, Eq, Structural)]
pub enum Role {
    Admin,
    SuperAdmin,
    User,
    Mentor,
}

/// Whether an account may currently authenticate.
#[derive(Clone, Copy, Debug, PartialEq, Eq, Structural)]
pub enum UserStatus {
    Active,
    Suspended,
}

impl Default for UserStatus {
    /// A user is active unless explicitly suspended.
    fn default() -> (s: Self)
        ensures
            s == UserStatus::Active,
    {
        UserStatus::Active
    }
}

/// The name under which a role travels inside a token.
pub open spec fn role_str(role: Role) -> Seq<char> {
    match role {
        Role::Admin => "Admin"@,
        Role::SuperAdmin => "SuperAdmin"@,
        Role::User => "User"@,
        Role::Mentor => "Mentor"@,
    }
}

/// The role a token's role name stands for, if any.
pub open spec fn spec_role_from(s: Seq<char>) -> Option<Role> {
    if s == "Admin"@ {
        Some(Role::Admin)
    } else if s == "SuperAdmin"@ {
        Some(Role::SuperAdmin)
    } else if s == "User"@ {
        Some(Role::User)
    } else if s == "Mentor"@ {
        Some(Role::Mentor)
    } else {
        None
    }
}

impl Role {
    pub fn as_str(self) -> (r: &'static str)
        ensures
            r@ == role_str(self),
    {
        match self {
            Role::Admin => "Admin",
            Role::SuperAdmin => "SuperAdmin",
            Role::User => "User",
            Role::Mentor => "Mentor",
        }
    }

    pub fn from_name(s: &String) -> (r: Option<Role>)
        ensures
            r == spec_role_from(s@),
    {
        proof {
            reveal_strlit("Admin");
            reveal_strlit("SuperAdmin");
            reveal_strlit("User");
            reveal_strlit("Mentor");
        }
        if *s == String::from_str("Admin") {
            Some(Role::Admin)
        } else if *s == String::from_str("SuperAdmin") {
            Some(Role::SuperAdmin)
        } else if *s == String::from_str("User") {
            Some(Role::User)
        } else if *s == String::from_str("Mentor") {
            Some(Role::Mentor)
        } else {
            None
        }
    }
}

/// A role's token name always names that role back.
pub proof fn lemma_role_name_roundtrip(role: Role)
    ensures
        spec_role_from(role_str(role)) == Some(role),
{
    reveal_strlit("Admin");
    reveal_strlit("SuperAdmin");
    reveal_strlit("User");
    reveal_strlit("Mentor");
    assert("Admin"@.len() == 5);
    assert("SuperAdmin"@.len() == 10);
    assert("User"@.len() == 4);
    assert("Mentor"@.len() == 6);
}

/// A copy of an optional string whose view is the same.
pub fn clone_opt_string(o: &Option<String>) -> (r: Option<String>)
    ensures
        r.deep_view() == o.deep_view(),
{
    match o {
        Some(s) => Some(s.clone()),
        None => None,
    }
}

/// The identity record the directory stores.
#[derive(Debug)]
pub struct User {
    pub id: u128,
    pub name: String,
    pub phone: Option<String>,
    pub email: String,
    pub password_hash: Option<String>,
    pub role: Role,
    pub status: UserStatus,
    pub github_id: Option<i64>,
    pub google_id: Option<String>,
    pub avatar_url: Option<String>,
    pub created_at: Option<i64>,
    pub updated_at: Option<i64>,
}

/// The mathematical shape of a user record.
#[verifier::ext_equal]
pub struct UserView {
    pub id: u128,
    pub name: Seq<char>,
    pub phone: Option<Seq<char>>,
    pub email: Seq<char>,
    pub password_hash: Option<Seq<char>>,
    pub role: Role,
    pub status: UserStatus,
    pub github_id: Option<i64>,
    pub google_id: Option<Seq<char>>,
    pub avatar_url: Option<Seq<char>>,
    pub created_at: Option<i64>,
    pub updated_at: Option<i64>,
}

impl Clone for User {
    /// A clone carries exactly the same record.
    fn clone(&self) -> (r: Self)
        ensures
            r@ == self@,
    {
        User {
            id: self.id,
            name: self.name.clone(),
            phone: clone_opt_string(&self.phone),
            email: self.email.clone(),
            password_hash: clone_opt_string(&self.password_hash),
            role: self.role,
            status: self.status,
            github_id: self.github_id,
            google_id: clone_opt_string(&self.google_id),
            avatar_url: clone_opt_string(&self.avatar_url),
            created_at: self.created_at,
            updated_at: self.updated_at,
        }
    }
}

impl DeepView for User {
    type V = UserView;

    open spec fn deep_view(&self) -> UserView {
        self.view()
    }
}

impl View for User {
    type V = UserView;

    open spec fn view(&self) -> UserView {
        UserView {
            id: self.id,
            name: self.name@,
            phone: self.phone.deep_view(),
            email: self.email@,
            password_hash: self.password_hash.deep_view(),
            role: self.role,
            status: self.status,
            github_id: self.github_id,
            google_id: self.google_id.deep_view(),
            avatar_url: self.avatar_url.deep_view(),
            created_at: self.created_at,
            updated_at: self.updated_at,
        }
    }
}

} // verus!
