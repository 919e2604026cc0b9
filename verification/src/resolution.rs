//! The account resolution engine: given a normalized OAuth profile, reuse the
//! account already linked to the provider identity, link the account sharing
//! the verified email, or provision a fresh account — in that order.

use vstd::prelude::*;
use crate::directory::{
    clashes, create_conflict, dir_wf, distinct_identity, email_idx, has_email, has_github,
    github_idx, google_idx, has_google, has_id, lemma_email_at, lemma_github_at, lemma_google_at, lemma_id_at,
    lemma_wf_push, lemma_wf_update, update_conflict, user_by_email, user_by_github,
    user_by_google, UserDirectory,
};
use crate::errors::AppError;
use crate::user::{clone_opt_string, Role, User, UserStatus, UserView};

verus! {

/// A record after linking a GitHub identity: the identity is set and the
/// avatar refreshed; everything else stays.
pub open spec fn linked_github(stored: UserView, gid: i64, avatar: Option<Seq<char>>) -> UserView {
    UserView { github_id: Some(gid), avatar_url: avatar, ..stored }
}

/// A record after linking a Google identity.
pub open spec fn linked_google(
    stored: UserView,
    gid: Seq<char>,
    avatar: Option<Seq<char>>,
) -> UserView {
    UserView { google_id: Some(gid), avatar_url: avatar, ..stored }
}

/// A freshly provisioned GitHub account: no password credential, default role
/// and status, only the GitHub identity set.
pub open spec fn new_github_user(
    fresh: u128,
    name: Seq<char>,
    email: Seq<char>,
    gid: i64,
    avatar: Option<Seq<char>>,
) -> UserView {
    UserView {
        id: fresh,
        name: name,
        phone: None,
        email: email,
        password_hash: None,
        role: Role::User,
        status: UserStatus::Active,
        github_id: Some(gid),
        google_id: None,
        avatar_url: avatar,
        created_at: None,
        updated_at: None,
    }
}

/// A freshly provisioned Google account.
pub open spec fn new_google_user(
    fresh: u128,
    name: Seq<char>,
    email: Seq<char>,
    gid: Seq<char>,
    avatar: Option<Seq<char>>,
) -> UserView {
    UserView {
        id: fresh,
        name: name,
        phone: None,
        email: email,
        password_hash: None,
        role: Role::User,
        status: UserStatus::Active,
        github_id: None,
        google_id: Some(gid),
        avatar_url: avatar,
        created_at: None,
        updated_at: None,
    }
}

/// The three-way resolution decision for a GitHub identity: the directory
/// afterwards, and the resolved record.
pub open spec fn github_resolution(
    d: Seq<UserView>,
    gid: i64,
    name: Seq<char>,
    email: Seq<char>,
    avatar: Option<Seq<char>>,
    fresh: u128,
) -> (Seq<UserView>, UserView) {
    if has_github(d, gid) {
        (d, user_by_github(d, gid))
    } else if has_email(d, email) {
        let i = email_idx(d, email);
        let m = linked_github(d[i], gid, avatar);
        (d.update(i, m), m)
    } else {
        let u = new_github_user(fresh, name, email, gid, avatar);
        (d.push(u), u)
    }
}

/// The three-way resolution decision for a Google identity.
pub open spec fn google_resolution(
    d: Seq<UserView>,
    gid: Seq<char>,
    name: Seq<char>,
    email: Seq<char>,
    avatar: Option<Seq<char>>,
    fresh: u128,
) -> (Seq<UserView>, UserView) {
    if has_google(d, gid) {
        (d, user_by_google(d, gid))
    } else if has_email(d, email) {
        let i = email_idx(d, email);
        let m = linked_google(d[i], gid, avatar);
        (d.update(i, m), m)
    } else {
        let u = new_google_user(fresh, name, email, gid, avatar);
        (d.push(u), u)
    }
}

/// Resolve a GitHub identity against the directory, linking or provisioning
/// as needed. Fails only when the fresh id of the provisioning branch is
/// already taken.
pub fn resolve_github_user(
    dir: &mut UserDirectory,
    github_id: i64,
    name: &String,
    email: &String,
    avatar_url: &Option<String>,
    fresh_id: u128,
) -> (r: Result<User, AppError>)
    requires
        old(dir).wf(),
    ensures
        final(dir).wf(),
        r matches Ok(u) ==> ({
            let (d2, ru) = github_resolution(
                old(dir)@,
                github_id,
                name@,
                email@,
                avatar_url.deep_view(),
                fresh_id,
            );
            final(dir)@ == d2 && u@ == ru
        }),
        r is Err <==> !has_github(old(dir)@, github_id) && !has_email(old(dir)@, email@) && has_id(
            old(dir)@,
            fresh_id,
        ),
        r matches Err(e) ==> e == AppError::DatabaseError && final(dir)@ == old(dir)@,
{
    let ghost d = dir@;
    match dir.find_by_github_id(github_id) {
        Some(u) => Ok(u),
        None => {
            match dir.find_by_email(email) {
                Some(existing) => {
                    proof {
                        lemma_email_at(d, email_idx(d, email@), email@);
                    }
                    let mut linked = existing;
                    linked.github_id = Some(github_id);
                    linked.avatar_url = clone_opt_string(avatar_url);
                    let ghost i = email_idx(d, email@);
                    let ghost m = linked_github(d[i], github_id, avatar_url.deep_view());
                    assert(linked@ == m);
                    proof {
                        lemma_id_at(d, i, d[i].id);
                        assert(!update_conflict(d, i, m)) by {
                            assert forall|j: int|
                                0 <= j < d.len() && j != i implies !clashes(#[trigger] d[j], m) by {
                                assert(distinct_identity(d[j], d[i]));
                                if d[j].github_id == Some(github_id) {
                                    assert(has_github(d, github_id));
                                }
                            }
                        }
                    }
                    let linked_id = linked.id;
                    // The record was found by email, so the id exists and the
                    // rewrite collides with no unique key: the update cannot
                    // fail, which the assertion below establishes.
                    let _updated = match dir.update(linked_id, &linked) {
                        Ok(u) => u,
                        Err(_) => {
                            proof {
                                assert(false);
                            }
                            return Err(AppError::InternalServerError);
                        }
                    };
                    proof {
                        lemma_github_at(dir@, i, github_id);
                    }
                    // The just-linked record is always found back by its
                    // provider identity; a miss would be a consistency
                    // violation, which the invariant rules out.
                    match dir.find_by_github_id(github_id) {
                        Some(canonical) => Ok(canonical),
                        None => Err(AppError::InternalServerError),
                    }
                }
                None => {
                    let new_user = User {
                        id: fresh_id,
                        name: name.clone(),
                        phone: None,
                        email: email.clone(),
                        password_hash: None,
                        role: Role::User,
                        status: UserStatus::default(),
                        github_id: Some(github_id),
                        google_id: None,
                        avatar_url: clone_opt_string(avatar_url),
                        created_at: None,
                        updated_at: None,
                    };
                    match dir.upsert_github_user(&new_user) {
                        Ok(u) => Ok(u),
                        Err(_) => Err(AppError::DatabaseError),
                    }
                }
            }
        }
    }
}

/// Resolve a Google identity against the directory, linking or provisioning
/// as needed. Fails only when the fresh id of the provisioning branch is
/// already taken.
pub fn resolve_google_user(
    dir: &mut UserDirectory,
    google_id: &String,
    name: &String,
    email: &String,
    avatar_url: &Option<String>,
    fresh_id: u128,
) -> (r: Result<User, AppError>)
    requires
        old(dir).wf(),
    ensures
        final(dir).wf(),
        r matches Ok(u) ==> ({
            let (d2, ru) = google_resolution(
                old(dir)@,
                google_id@,
                name@,
                email@,
                avatar_url.deep_view(),
                fresh_id,
            );
            final(dir)@ == d2 && u@ == ru
        }),
        r is Err <==> !has_google(old(dir)@, google_id@) && !has_email(old(dir)@, email@)
            && has_id(old(dir)@, fresh_id),
        r matches Err(e) ==> e == AppError::DatabaseError && final(dir)@ == old(dir)@,
{
    let ghost d = dir@;
    match dir.find_by_google_id(google_id) {
        Some(u) => Ok(u),
        None => {
            match dir.find_by_email(email) {
                Some(existing) => {
                    proof {
                        lemma_email_at(d, email_idx(d, email@), email@);
                    }
                    let mut linked = existing;
                    linked.google_id = Some(google_id.clone());
                    linked.avatar_url = clone_opt_string(avatar_url);
                    let ghost i = email_idx(d, email@);
                    let ghost m = linked_google(d[i], google_id@, avatar_url.deep_view());
                    assert(linked@ == m);
                    proof {
                        lemma_id_at(d, i, d[i].id);
                        assert(!update_conflict(d, i, m)) by {
                            assert forall|j: int|
                                0 <= j < d.len() && j != i implies !clashes(#[trigger] d[j], m) by {
                                assert(distinct_identity(d[j], d[i]));
                                if d[j].google_id == Some(google_id@) {
                                    assert(has_google(d, google_id@));
                                }
                            }
                        }
                    }
                    let linked_id = linked.id;
                    // As in the GitHub path: the linking rewrite cannot fail.
                    let _updated = match dir.update(linked_id, &linked) {
                        Ok(u) => u,
                        Err(_) => {
                            proof {
                                assert(false);
                            }
                            return Err(AppError::InternalServerError);
                        }
                    };
                    proof {
                        lemma_google_at(dir@, i, google_id@);
                    }
                    // The just-linked record is always found back by its
                    // provider identity; a miss would be a consistency
                    // violation, which the invariant rules out.
                    match dir.find_by_google_id(google_id) {
                        Some(canonical) => Ok(canonical),
                        None => Err(AppError::InternalServerError),
                    }
                }
                None => {
                    let new_user = User {
                        id: fresh_id,
                        name: name.clone(),
                        phone: None,
                        email: email.clone(),
                        password_hash: None,
                        role: Role::User,
                        status: UserStatus::default(),
                        github_id: None,
                        google_id: Some(google_id.clone()),
                        avatar_url: clone_opt_string(avatar_url),
                        created_at: None,
                        updated_at: None,
                    };
                    match dir.upsert_google_user(&new_user) {
                        Ok(u) => Ok(u),
                        Err(_) => Err(AppError::DatabaseError),
                    }
                }
            }
        }
    }
}

/// Resolving the same GitHub identity a second time returns the same local
/// user and leaves the directory exactly as it was: no duplicate row.
/// The fresh id handed to the first resolution must not be taken already —
/// the provisioning branch cannot insert a record under a taken id.
pub proof fn lemma_github_resolution_idempotent(
    d: Seq<UserView>,
    gid: i64,
    name: Seq<char>,
    email: Seq<char>,
    avatar: Option<Seq<char>>,
    fresh1: u128,
    fresh2: u128,
)
    requires
        dir_wf(d),
        !has_id(d, fresh1),
    ensures
        ({
            let (d1, u1) = github_resolution(d, gid, name, email, avatar, fresh1);
            let (d2, u2) = github_resolution(d1, gid, name, email, avatar, fresh2);
            d2 == d1 && u2 == u1 && u1.github_id == Some(gid)
        }),
{
    let (d1, u1) = github_resolution(d, gid, name, email, avatar, fresh1);
    if has_github(d, gid) {
        let i = github_idx(d, gid);
        assert(0 <= i < d.len() && d[i].github_id == Some(gid));
        lemma_github_at(d, i, gid);
    } else if has_email(d, email) {
        let i = email_idx(d, email);
        assert(0 <= i < d.len() && d[i].email == email);
        let m = linked_github(d[i], gid, avatar);
        assert(!update_conflict(d, i, m)) by {
            assert forall|j: int| 0 <= j < d.len() && j != i implies !clashes(#[trigger] d[j], m) by {
                assert(distinct_identity(d[j], d[i]));
                if d[j].github_id == Some(gid) {
                    assert(has_github(d, gid));
                }
            }
        }
        lemma_wf_update(d, i, m);
        assert(d1[i] == m);
        lemma_github_at(d1, i, gid);
    } else {
        let u = new_github_user(fresh1, name, email, gid, avatar);
        assert(!create_conflict(d, u));
        lemma_wf_push(d, u);
        assert(d1[d.len() as int] == u);
        lemma_github_at(d1, d.len() as int, gid);
    }
    assert(has_github(d1, gid) && user_by_github(d1, gid) == u1);
}

/// Resolving the same Google identity a second time returns the same local
/// user and leaves the directory exactly as it was: no duplicate row.
pub proof fn lemma_google_resolution_idempotent(
    d: Seq<UserView>,
    gid: Seq<char>,
    name: Seq<char>,
    email: Seq<char>,
    avatar: Option<Seq<char>>,
    fresh1: u128,
    fresh2: u128,
)
    requires
        dir_wf(d),
        !has_id(d, fresh1),
    ensures
        ({
            let (d1, u1) = google_resolution(d, gid, name, email, avatar, fresh1);
            let (d2, u2) = google_resolution(d1, gid, name, email, avatar, fresh2);
            d2 == d1 && u2 == u1 && u1.google_id == Some(gid)
        }),
{
    let (d1, u1) = google_resolution(d, gid, name, email, avatar, fresh1);
    if has_google(d, gid) {
        let i = google_idx(d, gid);
        assert(0 <= i < d.len() && d[i].google_id == Some(gid));
        lemma_google_at(d, i, gid);
    } else if has_email(d, email) {
        let i = email_idx(d, email);
        assert(0 <= i < d.len() && d[i].email == email);
        let m = linked_google(d[i], gid, avatar);
        assert(!update_conflict(d, i, m)) by {
            assert forall|j: int| 0 <= j < d.len() && j != i implies !clashes(#[trigger] d[j], m) by {
                assert(distinct_identity(d[j], d[i]));
                if d[j].google_id == Some(gid) {
                    assert(has_google(d, gid));
                }
            }
        }
        lemma_wf_update(d, i, m);
        assert(d1[i] == m);
        lemma_google_at(d1, i, gid);
    } else {
        let u = new_google_user(fresh1, name, email, gid, avatar);
        assert(!create_conflict(d, u));
        lemma_wf_push(d, u);
        assert(d1[d.len() as int] == u);
        lemma_google_at(d1, d.len() as int, gid);
    }
    assert(has_google(d1, gid) && user_by_google(d1, gid) == u1);
}

} // verus!
