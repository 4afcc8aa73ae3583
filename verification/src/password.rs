//! Passwords and identifiers: what the library takes on trust from the
//! `argon2` and `uuid` crates, and the password rule built on it.

use vstd::prelude::*;
use argon2::password_hash::{PasswordHash, PasswordHasher, PasswordVerifier, SaltString};
use argon2::Argon2;
use rand_core::OsRng;
use uuid::Uuid;

verus! {

/// Whether `stored` parses as a password hash in PHC format and Argon2,
/// with the settings and the salt that `stored` itself names, computes that
/// hash from `password`.
pub uninterp spec fn argon2_accepts(stored: Seq<char>, password: Seq<char>) -> bool;

/// `PasswordHash::new` and `Argon2::verify_password`. Taken on trust: the
/// answer depends on the stored hash and the password alone, and
/// [`argon2_accepts`] is its name.
#[verifier::external_body]
pub(crate) fn password_accepted(stored: &str, password: &str) -> (accepted: bool)
    ensures
        accepted == argon2_accepts(stored@, password@),
{
    match PasswordHash::new(stored) {
        Ok(parsed) => Argon2::default().verify_password(password.as_bytes(), &parsed).is_ok(),
        Err(_) => false,
    }
}

/// `SaltString::generate` and `Argon2::hash_password`: the hash of
/// `password` under a salt drawn at random, or the text of the hasher's
/// error. Nothing is claimed of either.
#[verifier::external_body]
pub(crate) fn hash_password(password: &str) -> (hashed: Result<String, String>) {
    let salt = SaltString::generate(&mut OsRng);
    match Argon2::default().hash_password(password.as_bytes(), &salt) {
        Ok(hash) => Ok(hash.to_string()),
        Err(error) => Err(error.to_string()),
    }
}

/// `Uuid::new_v4`: a random identifier as text. Nothing is claimed of it.
#[verifier::external_body]
pub(crate) fn new_id() -> (id: String) {
    Uuid::new_v4().to_string()
}

/// Why a password did not open a protected item.
#[derive(Clone, Copy, Debug, PartialEq, Eq, Structural)]
pub enum PasswordError {
    /// The item is protected and the request brought no password.
    Missing,
    /// The password is not the item's.
    Incorrect,
}

/// What a password check comes to. An item without a stored hash is open to
/// everyone; a protected one asks for the password that its hash accepts.
pub open spec fn password_verdict(stored: Option<Seq<char>>, provided: Option<Seq<char>>) -> Result<
    (),
    PasswordError,
> {
    match stored {
        None => Ok(()),
        Some(hash) => match provided {
            None => Err(PasswordError::Missing),
            Some(password) => if argon2_accepts(hash, password) {
                Ok(())
            } else {
                Err(PasswordError::Incorrect)
            },
        },
    }
}

/// The stored hash as plain text, if there is one.
pub open spec fn hash_view(stored: Option<String>) -> Option<Seq<char>> {
    match stored {
        Some(hash) => Some(hash@),
        None => None,
    }
}

/// The password of a request as plain text, if it brought one.
pub open spec fn provided_view(provided: Option<&str>) -> Option<Seq<char>> {
    match provided {
        Some(password) => Some(password@),
        None => None,
    }
}

/// Checks the password of a request against the stored hash of an item.
pub fn check_password(stored: &Option<String>, provided: Option<&str>) -> (verdict: Result<
    (),
    PasswordError,
>)
    ensures
        verdict == password_verdict(hash_view(*stored), provided_view(provided)),
{
    match stored {
        None => Ok(()),
        Some(hash) => match provided {
            None => Err(PasswordError::Missing),
            Some(password) => if password_accepted(hash.as_str(), password) {
                Ok(())
            } else {
                Err(PasswordError::Incorrect)
            },
        },
    }
}

} // verus!
