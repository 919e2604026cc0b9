//! Password credentials, treated as an opaque one-way function with a verify
//! counterpart, provided by the argon2 crate.

use vstd::prelude::*;
use crate::errors::AppError;
use argon2::password_hash::rand_core::OsRng;
use argon2::password_hash::{PasswordHash, PasswordHasher, PasswordVerifier, SaltString};
use argon2::Argon2;

verus! {

/// Whether argon2 accepts `password` against the PHC-encoded `hash`.
/// Verification recomputes the hash from the parameters and salt embedded in
/// the string, so the outcome is a pure function of the two strings.
pub uninterp spec fn password_verifies(hash: Seq<char>, password: Seq<char>) -> bool;

/// Whether the string parses as a PHC-encoded hash, as `PasswordHash::new`
/// decides; parsing is a pure function of the string.
pub uninterp spec fn parses_as_phc(hash: Seq<char>) -> bool;

/// Passwords argon2 is sure to accept: its only limit on the password is
/// 2^32 - 1 bytes, and a character is at most four bytes.
pub open spec fn hashable(password: Seq<char>) -> bool {
    4 * password.len() <= 0xFFFFFFFF
}

/// Relies on argon2's `PasswordHasher::hash_password`: the PHC string it
/// returns parses back and verifies against the password it was derived
/// from. With the default parameters and a generated salt of the recommended
/// length, the call rejects only an oversized password, so it succeeds on
/// every `hashable` input.
#[verifier::external_body]
pub fn hash_password(password: &str) -> (r: Result<String, AppError>)
    ensures
        r matches Ok(h) ==> password_verifies(h@, password@) && parses_as_phc(h@),
        hashable(password@) ==> r is Ok,
        r matches Err(e) ==> e == AppError::PasswordHashingError,
{
    let salt = SaltString::generate(&mut OsRng);
    match Argon2::default().hash_password(password.as_bytes(), &salt) {
        Ok(h) => Ok(h.to_string()),
        Err(_) => Err(AppError::PasswordHashingError),
    }
}

/// Relies on argon2's `PasswordVerifier::verify_password`, deterministic in
/// the hash string and the password. It errs exactly when the hash string is
/// not a PHC string; once parsed, any verification failure — a mismatch
/// included — comes back as `Ok(false)`.
#[verifier::external_body]
pub fn verify_password(hash: &str, password: &str) -> (r: Result<bool, AppError>)
    ensures
        r is Ok <==> parses_as_phc(hash@),
        r matches Ok(b) ==> b == password_verifies(hash@, password@),
        r matches Err(e) ==> e == AppError::PasswordHashingError,
{
    match PasswordHash::new(hash) {
        Ok(parsed) => Ok(Argon2::default().verify_password(password.as_bytes(), &parsed).is_ok()),
        Err(_) => Err(AppError::PasswordHashingError),
    }
}

} // verus!
