//! Password hashes: checking a password against a stored hash, and hashing a
//! new password under a fresh salt.

use vstd::prelude::*;

verus! {

/// Whether `password_hash::PasswordHash::new` reads a text as a hash in the
/// PHC string format.
pub uninterp spec fn phc_parses(stored: Seq<char>) -> bool;

/// Whether `verify_password` of `argon2::Argon2::default()` accepts a
/// password for the hash that `PasswordHash::new` reads from `stored`;
/// `false` where the text is no such hash.
pub uninterp spec fn argon2_verifies(password: Seq<char>, stored: Seq<char>) -> bool;

/// Calls `password_hash::PasswordHash::new` and tells whether it read a
/// hash. The contract names the answer.
#[verifier::external_body]
fn is_phc_string(stored: &str) -> (readable: bool)
    ensures
        readable == phc_parses(stored@),
{
    argon2::password_hash::PasswordHash::new(stored).is_ok()
}

/// Calls `verify_password` of `argon2::Argon2::default()` on the bytes of
/// the password and the hash read from `stored`. The answer is a function
/// of the two texts; the contract names it.
#[verifier::external_body]
fn argon2_accepts(password: &str, stored: &str) -> (accepted: bool)
    ensures
        accepted == argon2_verifies(password@, stored@),
{
    match argon2::password_hash::PasswordHash::new(stored) {
        Ok(parsed) => argon2::PasswordVerifier::verify_password(
            &argon2::Argon2::default(),
            password.as_bytes(),
            &parsed,
        ).is_ok(),
        Err(_) => false,
    }
}

/// Calls `hash_password` of `argon2::Argon2::default()` under a salt that
/// `SaltString::generate` draws from the system's random source, and writes
/// the hash as a PHC string. The hash differs from call to call; of every
/// hash the contract claims what the crate documents: that it can be read
/// back and that the default verifier accepts the password for it.
#[verifier::external_body]
pub(crate) fn hash_password(password: &str) -> (hash: Option<String>)
    ensures
        hash matches Some(text) ==> phc_parses(text@) && argon2_verifies(password@, text@),
{
    let salt = argon2::password_hash::SaltString::generate(
        &mut argon2::password_hash::rand_core::OsRng,
    );
    argon2::PasswordHasher::hash_password(&argon2::Argon2::default(), password.as_bytes(), &salt)
        .ok().map(|hash| hash.to_string())
}

/// How a password fares against a stored hash.
#[derive(Clone, Copy, Debug, PartialEq, Eq, Structural)]
pub enum PasswordCheck {
    /// The password is the one that was hashed.
    Verified,
    /// The password is another one.
    Rejected,
    /// The stored text is no password hash.
    Unreadable,
}

/// How `password` fares against `stored`.
pub open spec fn password_check(password: Seq<char>, stored: Seq<char>) -> PasswordCheck {
    if !phc_parses(stored) {
        PasswordCheck::Unreadable
    } else if argon2_verifies(password, stored) {
        PasswordCheck::Verified
    } else {
        PasswordCheck::Rejected
    }
}

/// Checks a password against a stored hash.
pub fn verify_password(password: &str, stored: &str) -> (outcome: PasswordCheck)
    ensures
        outcome == password_check(password@, stored@),
{
    if !is_phc_string(stored) {
        PasswordCheck::Unreadable
    } else if argon2_accepts(password, stored) {
        PasswordCheck::Verified
    } else {
        PasswordCheck::Rejected
    }
}

/// A password is verified against a hash exactly when the hash can be read
/// and the verifier accepts the password for it.
pub proof fn law_verified_means_accepted(password: Seq<char>, stored: Seq<char>)
    ensures
        password_check(password, stored) == PasswordCheck::Verified <==> phc_parses(stored)
            && argon2_verifies(password, stored),
{
}

} // verus!
