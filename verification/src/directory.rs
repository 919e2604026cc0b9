//! The user directory: the persistence contract of the system, realized as a
//! verified in-memory store. It maintains the record invariants — unique ids,
//! unique emails, and unique provider identities when present — and gives each
//! operation the exact contract the use cases rely on.

use vstd::prelude::*;
use crate::errors::AppError;
use crate::user::{User, UserStatus, UserView};

verus! {

/// Two records never share an id, an email, or a set provider identity.
pub open spec fn distinct_identity(a: UserView, b: UserView) -> bool {
    &&& a.id != b.id
    &&& a.email != b.email
    &&& (a.github_id is Some ==> a.github_id != b.github_id)
    &&& (a.google_id is Some ==> a.google_id != b.google_id)
}

/// The directory invariant over its mathematical contents.
pub open spec fn dir_wf(d: Seq<UserView>) -> bool {
    forall|i: int, j: int|
        0 <= i < d.len() && 0 <= j < d.len() && i != j ==> distinct_identity(
            #[trigger] d[i],
            #[trigger] d[j],
        )
}

pub open spec fn has_email(d: Seq<UserView>, e: Seq<char>) -> bool {
    exists|i: int| 0 <= i < d.len() && #[trigger] d[i].email == e
}

pub open spec fn email_idx(d: Seq<UserView>, e: Seq<char>) -> int {
    choose|i: int| 0 <= i < d.len() && #[trigger] d[i].email == e
}

pub open spec fn user_by_email(d: Seq<UserView>, e: Seq<char>) -> UserView {
    d[email_idx(d, e)]
}

pub open spec fn has_id(d: Seq<UserView>, id: u128) -> bool {
    exists|i: int| 0 <= i < d.len() && #[trigger] d[i].id == id
}

pub open spec fn id_idx(d: Seq<UserView>, id: u128) -> int {
    choose|i: int| 0 <= i < d.len() && #[trigger] d[i].id == id
}

pub open spec fn user_by_id(d: Seq<UserView>, id: u128) -> UserView {
    d[id_idx(d, id)]
}

pub open spec fn has_github(d: Seq<UserView>, g: i64) -> bool {
    exists|i: int| 0 <= i < d.len() && #[trigger] d[i].github_id == Some(g)
}

pub open spec fn github_idx(d: Seq<UserView>, g: i64) -> int {
    choose|i: int| 0 <= i < d.len() && #[trigger] d[i].github_id == Some(g)
}

pub open spec fn user_by_github(d: Seq<UserView>, g: i64) -> UserView {
    d[github_idx(d, g)]
}

pub open spec fn has_google(d: Seq<UserView>, g: Seq<char>) -> bool {
    exists|i: int| 0 <= i < d.len() && #[trigger] d[i].google_id == Some(g)
}

pub open spec fn google_idx(d: Seq<UserView>, g: Seq<char>) -> int {
    choose|i: int| 0 <= i < d.len() && #[trigger] d[i].google_id == Some(g)
}

pub open spec fn user_by_google(d: Seq<UserView>, g: Seq<char>) -> UserView {
    d[google_idx(d, g)]
}

/// A fresh record collides with the directory's unique keys.
pub open spec fn create_conflict(d: Seq<UserView>, u: UserView) -> bool {
    ||| has_id(d, u.id)
    ||| has_email(d, u.email)
    ||| (u.github_id matches Some(g) && has_github(d, g))
    ||| (u.google_id matches Some(g) && has_google(d, g))
}

/// The record at `i` rewritten with the fields an update may change;
/// identity, credential, status and timestamps stay as stored.
pub open spec fn updated_fields(stored: UserView, new: UserView) -> UserView {
    UserView {
        name: new.name,
        phone: new.phone,
        email: new.email,
        role: new.role,
        github_id: new.github_id,
        google_id: new.google_id,
        avatar_url: new.avatar_url,
        ..stored
    }
}

/// Record `b` collides with the unique keys of a rewrite `m`.
pub open spec fn clashes(b: UserView, m: UserView) -> bool {
    ||| b.email == m.email
    ||| (m.github_id is Some && b.github_id == m.github_id)
    ||| (m.google_id is Some && b.google_id == m.google_id)
}

/// An updated record collides with some other record's unique keys.
pub open spec fn update_conflict(d: Seq<UserView>, i: int, m: UserView) -> bool {
    exists|j: int| 0 <= j < d.len() && j != i && clashes(#[trigger] d[j], m)
}

/// What an upsert refreshes on an already-linked record: display name and
/// avatar only.
pub open spec fn provider_refreshed(stored: UserView, new: UserView) -> UserView {
    UserView { name: new.name, avatar_url: new.avatar_url, ..stored }
}

/// The record with only its status rewritten.
pub open spec fn with_status(stored: UserView, status: UserStatus) -> UserView {
    UserView { status: status, ..stored }
}

/// At most one record carries a given email.
pub proof fn lemma_email_at(d: Seq<UserView>, i: int, e: Seq<char>)
    requires
        dir_wf(d),
        0 <= i < d.len(),
        d[i].email == e,
    ensures
        has_email(d, e),
        email_idx(d, e) == i,
        user_by_email(d, e) == d[i],
{
    assert(has_email(d, e));
    let k = email_idx(d, e);
    assert(0 <= k < d.len() && d[k].email == e);
    if k != i {
        assert(distinct_identity(d[k], d[i]));
    }
}

/// At most one record carries a given id.
pub proof fn lemma_id_at(d: Seq<UserView>, i: int, id: u128)
    requires
        dir_wf(d),
        0 <= i < d.len(),
        d[i].id == id,
    ensures
        has_id(d, id),
        id_idx(d, id) == i,
        user_by_id(d, id) == d[i],
{
    assert(has_id(d, id));
    let k = id_idx(d, id);
    assert(0 <= k < d.len() && d[k].id == id);
    if k != i {
        assert(distinct_identity(d[k], d[i]));
    }
}

/// At most one record carries a given GitHub identity.
pub proof fn lemma_github_at(d: Seq<UserView>, i: int, g: i64)
    requires
        dir_wf(d),
        0 <= i < d.len(),
        d[i].github_id == Some(g),
    ensures
        has_github(d, g),
        github_idx(d, g) == i,
        user_by_github(d, g) == d[i],
{
    assert(has_github(d, g));
    let k = github_idx(d, g);
    assert(0 <= k < d.len() && d[k].github_id == Some(g));
    if k != i {
        assert(distinct_identity(d[k], d[i]));
    }
}

/// At most one record carries a given Google identity.
pub proof fn lemma_google_at(d: Seq<UserView>, i: int, g: Seq<char>)
    requires
        dir_wf(d),
        0 <= i < d.len(),
        d[i].google_id == Some(g),
    ensures
        has_google(d, g),
        google_idx(d, g) == i,
        user_by_google(d, g) == d[i],
{
    assert(has_google(d, g));
    let k = google_idx(d, g);
    assert(0 <= k < d.len() && d[k].google_id == Some(g));
    if k != i {
        assert(distinct_identity(d[k], d[i]));
    }
}

/// The user directory itself.
pub struct UserDirectory {
    users: Vec<User>,
}

impl View for UserDirectory {
    type V = Seq<UserView>;

    closed spec fn view(&self) -> Seq<UserView> {
        self.users.deep_view()
    }
}

impl UserDirectory {
    pub open spec fn wf(&self) -> bool {
        dir_wf(self@)
    }

    /// An empty directory.
    pub fn new() -> (d: Self)
        ensures
            d@ == Seq::<UserView>::empty(),
            d.wf(),
    {
        let d = UserDirectory { users: Vec::new() };
        proof {
            assert(d@ =~= Seq::<UserView>::empty());
        }
        d
    }

    pub fn len(&self) -> (n: usize)
        ensures
            n == self@.len(),
    {
        self.users.len()
    }

    fn index_of_email(&self, email: &String) -> (r: Option<usize>)
        ensures
            match r {
                Some(i) => 0 <= i < self@.len() && self@[i as int].email == email@,
                None => forall|k: int| 0 <= k < self@.len() ==> (#[trigger] self@[k]).email != email@,
            },
    {
        let n = self.users.len();
        let mut i: usize = 0;
        while i < n
            invariant
                n == self@.len(),
                i <= n,
                forall|k: int| 0 <= k < i ==> (#[trigger] self@[k]).email != email@,
            decreases n - i,
        {
            if self.users[i].email == *email {
                return Some(i);
            }
            i += 1;
        }
        None
    }

    fn index_of_id(&self, id: u128) -> (r: Option<usize>)
        ensures
            match r {
                Some(i) => 0 <= i < self@.len() && self@[i as int].id == id,
                None => forall|k: int| 0 <= k < self@.len() ==> (#[trigger] self@[k]).id != id,
            },
    {
        let n = self.users.len();
        let mut i: usize = 0;
        while i < n
            invariant
                n == self@.len(),
                i <= n,
                forall|k: int| 0 <= k < i ==> (#[trigger] self@[k]).id != id,
            decreases n - i,
        {
            if self.users[i].id == id {
                return Some(i);
            }
            i += 1;
        }
        None
    }

    fn index_of_github(&self, g: i64) -> (r: Option<usize>)
        ensures
            match r {
                Some(i) => 0 <= i < self@.len() && self@[i as int].github_id == Some(g),
                None => forall|k: int|
                    0 <= k < self@.len() ==> (#[trigger] self@[k]).github_id != Some(g),
            },
    {
        let n = self.users.len();
        let mut i: usize = 0;
        while i < n
            invariant
                n == self@.len(),
                i <= n,
                forall|k: int| 0 <= k < i ==> (#[trigger] self@[k]).github_id != Some(g),
            decreases n - i,
        {
            match self.users[i].github_id {
                Some(x) => {
                    if x == g {
                        return Some(i);
                    }
                }
                None => {}
            }
            i += 1;
        }
        None
    }

    fn index_of_google(&self, g: &String) -> (r: Option<usize>)
        ensures
            match r {
                Some(i) => 0 <= i < self@.len() && self@[i as int].google_id == Some(g@),
                None => forall|k: int|
                    0 <= k < self@.len() ==> (#[trigger] self@[k]).google_id != Some(g@),
            },
    {
        let n = self.users.len();
        let mut i: usize = 0;
        while i < n
            invariant
                n == self@.len(),
                i <= n,
                forall|k: int| 0 <= k < i ==> (#[trigger] self@[k]).google_id != Some(g@),
            decreases n - i,
        {
            match &self.users[i].google_id {
                Some(x) => {
                    if *x == *g {
                        return Some(i);
                    }
                }
                None => {}
            }
            i += 1;
        }
        None
    }

    /// Whether inserting `user` as a fresh record would violate a unique key.
    fn check_create_conflict(&self, user: &User) -> (r: bool)
        requires
            self.wf(),
        ensures
            r == create_conflict(self@, user@),
    {
        if self.index_of_id(user.id).is_some() {
            return true;
        }
        if self.index_of_email(&user.email).is_some() {
            return true;
        }
        match user.github_id {
            Some(g) => {
                if self.index_of_github(g).is_some() {
                    return true;
                }
            }
            None => {}
        }
        match &user.google_id {
            Some(g) => {
                if self.index_of_google(g).is_some() {
                    return true;
                }
            }
            None => {}
        }
        false
    }

    /// Insert a fresh record. Rejects any unique-key collision the way the
    /// storage layer surfaces it: as `EmailAlreadyExists`.
    pub fn create(&mut self, user: User) -> (r: Result<User, AppError>)
        requires
            old(self).wf(),
        ensures
            final(self).wf(),
            r matches Ok(u) ==> !create_conflict(old(self)@, user@) && u@ == user@ && final(self)@ == old(self)@.push(user@),
            r matches Err(e) ==> e == AppError::EmailAlreadyExists && create_conflict(
                old(self)@,
                user@,
            ) && final(self)@ == old(self)@,
    {
        if self.check_create_conflict(&user) {
            return Err(AppError::EmailAlreadyExists);
        }
        let copy = user.clone();
        let ghost d = self@;
        self.users.push(user);
        proof {
            assert(self@ =~= d.push(copy@));
            lemma_wf_push(d, copy@);
        }
        Ok(copy)
    }

    /// Look a user up by email.
    pub fn find_by_email(&self, email: &String) -> (r: Option<User>)
        requires
            self.wf(),
        ensures
            match r {
                Some(u) => has_email(self@, email@) && u@ == user_by_email(self@, email@),
                None => !has_email(self@, email@),
            },
    {
        match self.index_of_email(email) {
            Some(i) => {
                let u = self.users[i].clone();
                proof {
                    lemma_email_at(self@, i as int, email@);
                }
                Some(u)
            }
            None => None,
        }
    }

    /// Look a user up by id.
    pub fn find_by_id(&self, id: u128) -> (r: Option<User>)
        requires
            self.wf(),
        ensures
            match r {
                Some(u) => has_id(self@, id) && u@ == user_by_id(self@, id),
                None => !has_id(self@, id),
            },
    {
        match self.index_of_id(id) {
            Some(i) => {
                let u = self.users[i].clone();
                proof {
                    lemma_id_at(self@, i as int, id);
                }
                Some(u)
            }
            None => None,
        }
    }

    /// Every record, in storage order.
    pub fn find_all(&self) -> (r: Vec<User>)
        ensures
            r.deep_view() == self@,
    {
        let n = self.users.len();
        let mut out: Vec<User> = Vec::new();
        let mut i: usize = 0;
        while i < n
            invariant
                n == self@.len(),
                i <= n,
                out@.len() == i,
                forall|k: int| 0 <= k < i ==> (#[trigger] out@[k])@ == self@[k],
            decreases n - i,
        {
            out.push(self.users[i].clone());
            i += 1;
        }
        proof {
            assert(out.deep_view() =~= self@);
        }
        out
    }

    /// Rewrite the profile fields of the record with the given id.
    pub fn update(&mut self, id: u128, user: &User) -> (r: Result<User, AppError>)
        requires
            old(self).wf(),
        ensures
            final(self).wf(),
            !has_id(old(self)@, id) ==> r == Err::<User, AppError>(AppError::UserNotFound) && final(self)@ == old(self)@,
            has_id(old(self)@, id) ==> ({
                let i = id_idx(old(self)@, id);
                let m = updated_fields(old(self)@[i], user@);
                if update_conflict(old(self)@, i, m) {
                    r == Err::<User, AppError>(AppError::EmailAlreadyExists) && final(self)@ == old(
                        self,
                    )@
                } else {
                    r matches Ok(u) && u@ == m && final(self)@ == old(self)@.update(i, m)
                }
            }),
    {
        let idx = match self.index_of_id(id) {
            Some(i) => i,
            None => {
                return Err(AppError::UserNotFound);
            }
        };
        proof {
            lemma_id_at(self@, idx as int, id);
        }
        let stored = &self.users[idx];
        let merged = User {
            id: stored.id,
            name: user.name.clone(),
            phone: crate::user::clone_opt_string(&user.phone),
            email: user.email.clone(),
            password_hash: crate::user::clone_opt_string(&stored.password_hash),
            role: user.role,
            status: stored.status,
            github_id: user.github_id,
            google_id: crate::user::clone_opt_string(&user.google_id),
            avatar_url: crate::user::clone_opt_string(&user.avatar_url),
            created_at: stored.created_at,
            updated_at: stored.updated_at,
        };
        assert(merged@ == updated_fields(self@[idx as int], user@));
        if self.check_update_conflict(idx, &merged) {
            return Err(AppError::EmailAlreadyExists);
        }
        let copy = merged.clone();
        let ghost d = self@;
        self.users.set(idx, merged);
        proof {
            assert(self@ =~= d.update(idx as int, copy@));
            lemma_wf_update(d, idx as int, copy@);
        }
        Ok(copy)
    }

    /// Whether rewriting record `i` to `m` would violate a unique key.
    fn check_update_conflict(&self, i: usize, m: &User) -> (r: bool)
        requires
            i < self@.len(),
        ensures
            r == update_conflict(self@, i as int, m@),
    {
        let n = self.users.len();
        let mut j: usize = 0;
        while j < n
            invariant
                n == self@.len(),
                i < self@.len(),
                j <= n,
                forall|k: int| 0 <= k < j && k != i as int ==> !clashes(#[trigger] self@[k], m@),
            decreases n - j,
        {
            if j != i {
                if self.users[j].email == m.email {
                    assert(clashes(self@[j as int], m@));
                    return true;
                }
                match m.github_id {
                    Some(g) => {
                        match self.users[j].github_id {
                            Some(h) => {
                                if g == h {
                                    assert(clashes(self@[j as int], m@));
                                    return true;
                                }
                            }
                            None => {}
                        }
                    }
                    None => {}
                }
                match &m.google_id {
                    Some(g) => {
                        match &self.users[j].google_id {
                            Some(h) => {
                                if *g == *h {
                                    assert(clashes(self@[j as int], m@));
                                    return true;
                                }
                            }
                            None => {}
                        }
                    }
                    None => {}
                }
            }
            j += 1;
        }
        false
    }

    /// Remove the record with the given id; removing an absent id is a no-op.
    pub fn delete(&mut self, id: u128) -> (r: Result<(), AppError>)
        requires
            old(self).wf(),
        ensures
            final(self).wf(),
            r is Ok,
            has_id(old(self)@, id) ==> final(self)@ == old(self)@.remove(id_idx(old(self)@, id)),
            !has_id(old(self)@, id) ==> final(self)@ == old(self)@,
    {
        match self.index_of_id(id) {
            Some(i) => {
                proof {
                    lemma_id_at(self@, i as int, id);
                }
                let ghost d = self@;
                self.users.remove(i);
                proof {
                    assert(self@ =~= d.remove(i as int));
                    lemma_wf_remove(d, i as int);
                }
                Ok(())
            }
            None => Ok(()),
        }
    }

    /// Rewrite only the status of the record with the given id.
    pub fn update_status(&mut self, id: u128, status: UserStatus) -> (r: Result<User, AppError>)
        requires
            old(self).wf(),
        ensures
            final(self).wf(),
            !has_id(old(self)@, id) ==> r == Err::<User, AppError>(AppError::UserNotFound) && final(self)@ == old(self)@,
            has_id(old(self)@, id) ==> ({
                let i = id_idx(old(self)@, id);
                let m = with_status(old(self)@[i], status);
                r matches Ok(u) && u@ == m && final(self)@ == old(self)@.update(i, m)
            }),
    {
        let idx = match self.index_of_id(id) {
            Some(i) => i,
            None => {
                return Err(AppError::UserNotFound);
            }
        };
        proof {
            lemma_id_at(self@, idx as int, id);
        }
        let stored = &self.users[idx];
        let merged = User {
            id: stored.id,
            name: stored.name.clone(),
            phone: crate::user::clone_opt_string(&stored.phone),
            email: stored.email.clone(),
            password_hash: crate::user::clone_opt_string(&stored.password_hash),
            role: stored.role,
            status: status,
            github_id: stored.github_id,
            google_id: crate::user::clone_opt_string(&stored.google_id),
            avatar_url: crate::user::clone_opt_string(&stored.avatar_url),
            created_at: stored.created_at,
            updated_at: stored.updated_at,
        };
        assert(merged@ == with_status(self@[idx as int], status));
        let copy = merged.clone();
        let ghost d = self@;
        self.users.set(idx, merged);
        proof {
            assert(self@ =~= d.update(idx as int, copy@));
            lemma_wf_update_identity(d, idx as int, copy@);
        }
        Ok(copy)
    }

    /// Look a user up by GitHub identity.
    pub fn find_by_github_id(&self, github_id: i64) -> (r: Option<User>)
        requires
            self.wf(),
        ensures
            match r {
                Some(u) => has_github(self@, github_id) && u@ == user_by_github(self@, github_id),
                None => !has_github(self@, github_id),
            },
    {
        match self.index_of_github(github_id) {
            Some(i) => {
                let u = self.users[i].clone();
                proof {
                    lemma_github_at(self@, i as int, github_id);
                }
                Some(u)
            }
            None => None,
        }
    }

    /// Look a user up by Google identity.
    pub fn find_by_google_id(&self, google_id: &String) -> (r: Option<User>)
        requires
            self.wf(),
        ensures
            match r {
                Some(u) => has_google(self@, google_id@) && u@ == user_by_google(
                    self@,
                    google_id@,
                ),
                None => !has_google(self@, google_id@),
            },
    {
        match self.index_of_google(google_id) {
            Some(i) => {
                let u = self.users[i].clone();
                proof {
                    lemma_google_at(self@, i as int, google_id@);
                }
                Some(u)
            }
            None => None,
        }
    }

    /// Insert keyed on the GitHub identity: if a record already carries it,
    /// refresh that record's name and avatar instead of inserting.
    pub fn upsert_github_user(&mut self, user: &User) -> (r: Result<User, AppError>)
        requires
            old(self).wf(),
        ensures
            final(self).wf(),
            (user@.github_id is Some && has_github(old(self)@, user@.github_id->0)) ==> ({
                let i = github_idx(old(self)@, user@.github_id->0);
                let m = provider_refreshed(old(self)@[i], user@);
                r matches Ok(u) && u@ == m && final(self)@ == old(self)@.update(i, m)
            }),
            !(user@.github_id is Some && has_github(old(self)@, user@.github_id->0)) ==> (if create_conflict(
                old(self)@,
                user@,
            ) {
                r == Err::<User, AppError>(AppError::DatabaseError) && final(self)@ == old(self)@
            } else {
                r matches Ok(u) && u@ == user@ && final(self)@ == old(self)@.push(user@)
            }),
    {
        let linked = match user.github_id {
            Some(g) => self.index_of_github(g),
            None => None,
        };
        match linked {
            Some(i) => {
                proof {
                    lemma_github_at(self@, i as int, user.github_id->0);
                }
                self.refresh_at(i, user)
            }
            None => {
                if self.check_create_conflict(user) {
                    return Err(AppError::DatabaseError);
                }
                let copy = user.clone();
                let copy2 = user.clone();
                let ghost d = self@;
                self.users.push(copy);
                proof {
                    assert(self@ =~= d.push(copy2@));
                    lemma_wf_push(d, copy2@);
                }
                Ok(copy2)
            }
        }
    }

    /// Insert keyed on the Google identity: if a record already carries it,
    /// refresh that record's name and avatar instead of inserting.
    pub fn upsert_google_user(&mut self, user: &User) -> (r: Result<User, AppError>)
        requires
            old(self).wf(),
        ensures
            final(self).wf(),
            (user@.google_id is Some && has_google(old(self)@, user@.google_id->0)) ==> ({
                let i = google_idx(old(self)@, user@.google_id->0);
                let m = provider_refreshed(old(self)@[i], user@);
                r matches Ok(u) && u@ == m && final(self)@ == old(self)@.update(i, m)
            }),
            !(user@.google_id is Some && has_google(old(self)@, user@.google_id->0)) ==> (if create_conflict(
                old(self)@,
                user@,
            ) {
                r == Err::<User, AppError>(AppError::DatabaseError) && final(self)@ == old(self)@
            } else {
                r matches Ok(u) && u@ == user@ && final(self)@ == old(self)@.push(user@)
            }),
    {
        let linked = match &user.google_id {
            Some(g) => self.index_of_google(g),
            None => None,
        };
        match linked {
            Some(i) => {
                proof {
                    lemma_google_at(self@, i as int, user@.google_id->0);
                }
                self.refresh_at(i, user)
            }
            None => {
                if self.check_create_conflict(user) {
                    return Err(AppError::DatabaseError);
                }
                let copy = user.clone();
                let copy2 = user.clone();
                let ghost d = self@;
                self.users.push(copy);
                proof {
                    assert(self@ =~= d.push(copy2@));
                    lemma_wf_push(d, copy2@);
                }
                Ok(copy2)
            }
        }
    }

    /// Rewrite record `i`'s name and avatar from `user`.
    fn refresh_at(&mut self, i: usize, user: &User) -> (r: Result<User, AppError>)
        requires
            old(self).wf(),
            i < old(self)@.len(),
        ensures
            final(self).wf(),
            ({
                let m = provider_refreshed(old(self)@[i as int], user@);
                r matches Ok(u) && u@ == m && final(self)@ == old(self)@.update(i as int, m)
            }),
    {
        let stored = &self.users[i];
        let merged = User {
            id: stored.id,
            name: user.name.clone(),
            phone: crate::user::clone_opt_string(&stored.phone),
            email: stored.email.clone(),
            password_hash: crate::user::clone_opt_string(&stored.password_hash),
            role: stored.role,
            status: stored.status,
            github_id: stored.github_id,
            google_id: crate::user::clone_opt_string(&stored.google_id),
            avatar_url: crate::user::clone_opt_string(&user.avatar_url),
            created_at: stored.created_at,
            updated_at: stored.updated_at,
        };
        assert(merged@ == provider_refreshed(self@[i as int], user@));
        let copy = merged.clone();
        let ghost d = self@;
        self.users.set(i, merged);
        proof {
            assert(self@ =~= d.update(i as int, copy@));
            lemma_wf_update_identity(d, i as int, copy@);
        }
        Ok(copy)
    }
}

/// Pushing a record that collides with no unique key preserves the invariant.
pub proof fn lemma_wf_push(d: Seq<UserView>, u: UserView)
    requires
        dir_wf(d),
        !create_conflict(d, u),
    ensures
        dir_wf(d.push(u)),
{
    let d2 = d.push(u);
    assert forall|i: int, j: int|
        0 <= i < d2.len() && 0 <= j < d2.len() && i != j implies distinct_identity(d2[i], d2[j]) by {
        if i < d.len() && j < d.len() {
            assert(distinct_identity(d[i], d[j]));
        } else if i < d.len() && j == d.len() {
            assert(d2[j] == u);
            assert(d[i].id != u.id) by {
                if d[i].id == u.id {
                    assert(has_id(d, u.id));
                }
            }
            assert(d[i].email != u.email) by {
                if d[i].email == u.email {
                    assert(has_email(d, u.email));
                }
            }
            assert(d[i].github_id is Some ==> d[i].github_id != u.github_id) by {
                if u.github_id is Some && d[i].github_id == u.github_id {
                    assert(has_github(d, u.github_id->0));
                }
            }
            assert(d[i].google_id is Some ==> d[i].google_id != u.google_id) by {
                if u.google_id is Some && d[i].google_id == u.google_id {
                    assert(has_google(d, u.google_id->0));
                }
            }
        } else if j < d.len() && i == d.len() {
            assert(d2[i] == u);
            assert(u.id != d[j].id) by {
                if d[j].id == u.id {
                    assert(has_id(d, u.id));
                }
            }
            assert(u.email != d[j].email) by {
                if d[j].email == u.email {
                    assert(has_email(d, u.email));
                }
            }
            assert(u.github_id is Some ==> u.github_id != d[j].github_id) by {
                if u.github_id is Some && d[j].github_id == u.github_id {
                    assert(has_github(d, u.github_id->0));
                }
            }
            assert(u.google_id is Some ==> u.google_id != d[j].google_id) by {
                if u.google_id is Some && d[j].google_id == u.google_id {
                    assert(has_google(d, u.google_id->0));
                }
            }
        }
    }
}

/// Rewriting a record without creating a key collision preserves the invariant.
pub proof fn lemma_wf_update(d: Seq<UserView>, i: int, m: UserView)
    requires
        dir_wf(d),
        0 <= i < d.len(),
        m.id == d[i].id,
        !update_conflict(d, i, m),
    ensures
        dir_wf(d.update(i, m)),
{
    let d2 = d.update(i, m);
    assert forall|p: int, q: int|
        0 <= p < d2.len() && 0 <= q < d2.len() && p != q implies distinct_identity(d2[p], d2[q]) by {
        if p != i && q != i {
            assert(distinct_identity(d[p], d[q]));
        } else if p == i {
            assert(d2[p] == m && d2[q] == d[q]);
            assert(distinct_identity(d[i], d[q]));
            assert(!clashes(d[q], m));
        } else {
            assert(d2[q] == m && d2[p] == d[p]);
            assert(distinct_identity(d[p], d[i]));
            assert(!clashes(d[p], m));
            assert(d[p].github_id is Some ==> d[p].github_id != m.github_id) by {
                if d[p].github_id is Some && d[p].github_id == m.github_id {
                    assert(m.github_id is Some && d[p].github_id == m.github_id);
                }
            }
            assert(d[p].google_id is Some ==> d[p].google_id != m.google_id) by {
                if d[p].google_id is Some && d[p].google_id == m.google_id {
                    assert(m.google_id is Some && d[p].google_id == m.google_id);
                }
            }
        }
    }
}

/// Rewriting a record without touching id, email or provider identities
/// preserves the invariant.
proof fn lemma_wf_update_identity(d: Seq<UserView>, i: int, m: UserView)
    requires
        dir_wf(d),
        0 <= i < d.len(),
        m.id == d[i].id,
        m.email == d[i].email,
        m.github_id == d[i].github_id,
        m.google_id == d[i].google_id,
    ensures
        dir_wf(d.update(i, m)),
{
    let d2 = d.update(i, m);
    assert forall|p: int, q: int|
        0 <= p < d2.len() && 0 <= q < d2.len() && p != q implies distinct_identity(d2[p], d2[q]) by {
        if p != i && q != i {
            assert(distinct_identity(d[p], d[q]));
        } else if p == i {
            assert(distinct_identity(d[i], d[q]));
        } else {
            assert(distinct_identity(d[p], d[i]));
        }
    }
}

/// Removing a record preserves the invariant.
proof fn lemma_wf_remove(d: Seq<UserView>, i: int)
    requires
        dir_wf(d),
        0 <= i < d.len(),
    ensures
        dir_wf(d.remove(i)),
{
    let d2 = d.remove(i);
    assert forall|p: int, q: int|
        0 <= p < d2.len() && 0 <= q < d2.len() && p != q implies distinct_identity(d2[p], d2[q]) by {
        let p0 = if p < i {
            p
        } else {
            p + 1
        };
        let q0 = if q < i {
            q
        } else {
            q + 1
        };
        assert(d2[p] == d[p0] && d2[q] == d[q0]);
        assert(distinct_identity(d[p0], d[q0]));
    }
}

} // verus!
