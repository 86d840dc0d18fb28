//! The password hasher: a salted, memory-hard one-way hash and its check.

use vstd::prelude::*;

verus! {

/// The salt of `password-hash`, `argon2::password_hash::SaltString`. It is
/// only carried from the generator to the hasher; nothing is claimed of what
/// it holds.
#[verifier::external_type_specification]
#[verifier::external_body]
pub struct ExSaltString(argon2::password_hash::SaltString);

/// The error of `password-hash`, `argon2::password_hash::Error`. Nothing is
/// claimed of what it holds.
#[verifier::external_type_specification]
#[verifier::external_body]
pub struct ExHashFault(argon2::password_hash::Error);

/// Whether the stored text parses as a password hash
/// (`argon2::password_hash::PasswordHash::new`) and Argon2 with default
/// settings accepts the password against it (`verify_password`).
pub uninterp spec fn password_matches(password: Seq<u8>, stored: Seq<char>) -> bool;

/// Whether a stored text is a hash that a password, given as text, matches.
pub open spec fn accepts(password: Seq<char>, stored: Seq<char>) -> bool {
    password_matches(vstd::utf8::encode_utf8(password), stored)
}

/// Calls `SaltString::generate` on the operating system's random source.
/// Nothing is claimed of the salt.
#[verifier::external_body]
fn fresh_salt() -> (salt: argon2::password_hash::SaltString) {
    argon2::password_hash::SaltString::generate(&mut rand::rngs::OsRng)
}

/// Calls `Argon2::default().hash_password` and renders the hash as text.
///
/// Trusted: a hash that was produced is one that the same password matches.
#[verifier::external_body]
fn hash_with_salt(password: &[u8], salt: &argon2::password_hash::SaltString) -> (r: Result<
    String,
    argon2::password_hash::Error,
>)
    ensures
        r matches Ok(h) ==> password_matches(password@, h@),
{
    let hash = argon2::PasswordHasher::hash_password(&argon2::Argon2::default(), password, salt)?;
    Ok(hash.to_string())
}

/// Calls `PasswordHash::new` on the stored text and, where it parses,
/// `Argon2::default().verify_password`.
///
/// Trusted: the result is the named one.
#[verifier::external_body]
fn matches_stored(password: &[u8], stored: &str) -> (ok: bool)
    ensures
        ok == password_matches(password@, stored@),
{
    match argon2::password_hash::PasswordHash::new(stored) {
        Ok(parsed) => argon2::PasswordVerifier::verify_password(
            &argon2::Argon2::default(),
            password,
            &parsed,
        ).is_ok(),
        Err(_) => false,
    }
}

/// Keeps the text of a hashing outcome and drops the hasher's own error.
pub fn hash_outcome(outcome: Result<String, argon2::password_hash::Error>) -> (hash: Option<String>)
    ensures
        match outcome {
            Ok(h) => hash == Some(h),
            Err(_) => hash is None,
        },
{
    match outcome {
        Ok(h) => Some(h),
        Err(_) => None,
    }
}

/// Hashes a password under a fresh random salt. Two calls on one password
/// give different texts; each is one that the password matches. `None` where
/// the hasher fails.
pub fn hash_password(password: &str) -> (hash: Option<String>)
    ensures
        hash matches Some(h) ==> accepts(password@, h@),
{
    let salt = fresh_salt();
    hash_outcome(hash_with_salt(password.as_bytes(), &salt))
}

/// Checks a password against a stored hash. A stored text that is no
/// well-formed hash matches no password.
pub fn verify_password(password: &str, stored: &str) -> (ok: bool)
    ensures
        ok == accepts(password@, stored@),
{
    matches_stored(password.as_bytes(), stored)
}

} // verus!
