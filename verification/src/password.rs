//! Password hashing and checking, done by the `bcrypt` crate.
//!
//! A hash is salted from the system's randomness, so hashing is no function
//! of the password: two hashes of one password differ. Checking a password
//! against a given hash is a function of the two, and has a name here.

use crate::error::AuthError;
use vstd::prelude::*;

verus! {

/// The error type of `bcrypt`. Its contents are not looked at.
#[verifier::external_type_specification]
#[verifier::external_body]
pub struct ExHashError(bcrypt::BcryptError);

/// What `bcrypt::verify` returns for `password` and `hash`: whether the
/// password matches the hash, or `None` where it returns an error, as it
/// does for a string that is no bcrypt hash.
pub uninterp spec fn bcrypt_verdict(password: Seq<char>, hash: Seq<char>) -> Option<bool>;

/// Calls `bcrypt::hash` with `bcrypt::DEFAULT_COST`.
///
/// Trusted: a hash that is returned matches the password it was made from,
/// in the sense of `bcrypt::verify` (which splits the hash into cost and
/// salt, hashes the password again with them and compares). Nothing else is
/// said of the hash, which depends on a random salt.
#[verifier::external_body]
fn bcrypt_hash(password: &str) -> (r: Result<String, bcrypt::BcryptError>)
    ensures
        r matches Ok(hash) ==> bcrypt_verdict(password@, hash@) == Some(true),
{
    bcrypt::hash(password, bcrypt::DEFAULT_COST)
}

/// Calls `bcrypt::verify`.
#[verifier::external_body]
fn bcrypt_verify(password: &str, hash: &str) -> (r: Result<bool, bcrypt::BcryptError>)
    ensures
        match r {
            Ok(matches) => bcrypt_verdict(password@, hash@) == Some(matches),
            Err(_) => bcrypt_verdict(password@, hash@) is None,
        },
{
    bcrypt::verify(password, hash)
}

/// Hashes `password` with a fresh salt at the fixed cost.
///
/// The result is `None` where hashing failed (no randomness was to be had).
/// A hash that is returned matches `password`.
pub fn hash_password(password: &str) -> (hash: Option<String>)
    ensures
        hash matches Some(h) ==> bcrypt_verdict(password@, h@) == Some(true),
{
    hash_of(bcrypt_hash(password))
}

/// What is kept of an attempt to hash a password: the hash where there is
/// one, and nothing where hashing failed, whatever the failure was.
pub fn hash_of(outcome: Result<String, bcrypt::BcryptError>) -> (hash: Option<String>)
    ensures
        match outcome {
            Ok(h) => hash == Some(h),
            Err(_) => hash is None,
        },
{
    match outcome {
        Ok(h) => Some(h),
        Err(_) => None,
    }
}

/// Checks `password` against a stored `hash`: whether it matches, or `None`
/// where the stored string is no hash that can be checked.
pub fn check_password(password: &str, hash: &str) -> (verdict: Option<bool>)
    ensures
        verdict == bcrypt_verdict(password@, hash@),
{
    match bcrypt_verify(password, hash) {
        Ok(matches) => Some(matches),
        Err(_) => None,
    }
}

/// What a sign-in makes of a password check: a match lets it proceed, a
/// mismatch is [`AuthError::InvalidCredentials`], and a stored hash that
/// could not be checked is [`AuthError::StorageError`].
pub open spec fn verdict_outcome(verdict: Option<bool>) -> Result<(), AuthError> {
    match verdict {
        Some(true) => Ok(()),
        Some(false) => Err(AuthError::InvalidCredentials),
        None => Err(AuthError::StorageError),
    }
}

/// Turns the verdict of a password check into the decision of a sign-in.
pub fn judge_verdict(verdict: Option<bool>) -> (r: Result<(), AuthError>)
    ensures
        r == verdict_outcome(verdict),
{
    match verdict {
        Some(true) => Ok(()),
        Some(false) => Err(AuthError::InvalidCredentials),
        None => Err(AuthError::StorageError),
    }
}

} // verus!
