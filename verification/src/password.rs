//! Password hashes. Hashing and checking are argon2's; this file holds
//! what the library takes on trust about them.

use argon2::password_hash::PasswordHash;
use argon2::password_hash::PasswordHasher;
use argon2::password_hash::PasswordVerifier;
use argon2::password_hash::SaltString;
use argon2::Argon2;
use rand_core::OsRng;
use vstd::prelude::*;

verus! {

/// `password_hash::SaltString`, a salt in its text form. Nothing is said of
/// what it holds.
#[verifier::external_type_specification]
#[verifier::external_body]
pub struct ExSaltString(argon2::password_hash::SaltString);

/// Whether `PasswordHash::new` accepts a text as a PHC string.
pub uninterp spec fn is_phc_string(text: Seq<char>) -> bool;

/// Whether `verify_password` of argon2's default instance accepts a
/// password for a stored PHC string: whether the password, hashed with the
/// salt and the parameters that the stored text names, gives the hash that
/// it holds.
pub uninterp spec fn password_verifies(password: Seq<char>, stored: Seq<char>) -> bool;

/// Calls `PasswordHash::new` on the stored text and, where that parses,
/// `verify_password` of argon2's default instance on the password and the
/// parsed hash. `None` stands for the error of the parsing, which depends
/// on the stored text alone; otherwise the result says whether the
/// password was accepted, which depends on the password and the stored
/// text alone.
#[verifier::external_body]
pub(crate) fn check_password(password: &str, stored: &str) -> (outcome: Option<bool>)
    ensures
        outcome is Some <==> is_phc_string(stored@),
        outcome matches Some(accepted) ==> accepted == password_verifies(password@, stored@),
{
    match PasswordHash::new(stored) {
        Ok(parsed) => Some(Argon2::default().verify_password(password.as_bytes(), &parsed).is_ok()),
        Err(_) => None,
    }
}

/// Calls `SaltString::generate` with the system's random number generator.
/// The salt is random, so nothing is claimed of it.
#[verifier::external_body]
pub(crate) fn fresh_salt() -> (salt: SaltString) {
    SaltString::generate(&mut OsRng)
}

/// Calls `hash_password` on argon2's default instance and writes the hash
/// out as a PHC string; `None` stands for its error. Nothing is claimed of
/// the text.
#[verifier::external_body]
pub(crate) fn hash_with_salt(password: &str, salt: &SaltString) -> (hash: Option<String>) {
    match Argon2::default().hash_password(password.as_bytes(), salt) {
        Ok(hash) => Some(hash.to_string()),
        Err(_) => None,
    }
}

} // verus!
