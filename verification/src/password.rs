//! Password hashing and verification, through Argon2.

use argon2::password_hash::{PasswordHasher, PasswordVerifier};
use vstd::prelude::*;

verus! {

/// What Argon2 verification of `password` against the PHC hash string
/// `hash` yields: `Some(true)` when the hash parses and the password
/// matches, `Some(false)` when the hash parses and the password does not,
/// `None` when the hash string is unusable. The outcome is a function of the
/// two strings alone: salt and parameters live inside the PHC string, and
/// the Argon2 computation is deterministic.
pub uninterp spec fn password_check(hash: Seq<char>, password: Seq<char>) -> Option<bool>;

/// What verifying a password against a stored hash produced.
#[derive(Clone, Copy, Debug, PartialEq, Eq, Structural)]
pub enum VerifyOutcome {
    /// The password matches the hash.
    Match,
    /// The hash is well-formed but the password does not match.
    WrongPassword,
    /// The stored hash could not be used.
    BadHash,
}

/// Hash a password with Argon2id under a fresh random salt.
///
/// Relies on `Argon2::hash_password` (argon2 crate): a freshly produced hash
/// verifies against the password it was produced from, whatever salt was
/// drawn.
#[verifier::external_body]
pub fn hash_password(password: &String) -> (r: Result<String, ()>)
    ensures
        r matches Ok(h) ==> password_check(h@, password@) == Some(true),
{
    match argon2::Argon2::default().hash_password(password.as_bytes()) {
        Ok(h) => Ok(h.to_string()),
        Err(_) => Err(()),
    }
}

/// Verify a password against a stored PHC hash string.
///
/// Relies on `Argon2::verify_password` (argon2 crate): it returns `Ok` when
/// the password matches the hash, `Err(PasswordInvalid)` when the hash
/// parses but the password does not match, and another error when the hash
/// cannot be used; each outcome is determined by the two inputs.
#[verifier::external_body]
pub fn verify_password(hash: &String, password: &String) -> (r: VerifyOutcome)
    ensures
        (r is Match) == (password_check(hash@, password@) == Some(true)),
        (r is WrongPassword) == (password_check(hash@, password@) == Some(false)),
        (r is BadHash) == (password_check(hash@, password@) is None),
{
    match argon2::Argon2::default().verify_password(password.as_bytes(), hash.as_str()) {
        Ok(()) => VerifyOutcome::Match,
        Err(argon2::password_hash::Error::PasswordInvalid) => VerifyOutcome::WrongPassword,
        Err(_) => VerifyOutcome::BadHash,
    }
}

} // verus!
