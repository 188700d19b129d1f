use vstd::prelude::*;
use argon2::password_hash::{PasswordHash, PasswordHasher, PasswordVerifier, SaltString};
use argon2::Argon2;

verus! {

/// Whether Argon2 verification of `password` against the PHC hash
/// string `hash` succeeds: the check reads the algorithm, parameters
/// and salt embedded in `hash`, recomputes the derived key from
/// `password`, and compares.  For a malformed hash string it is false.
pub uninterp spec fn password_verifies(hash: Seq<char>, password: Seq<char>) -> bool;

/// Whether the hasher accepts a password: its UTF-8 byte length must
/// fit in 32 bits, the input bound Argon2 imposes.
pub open spec fn hashable(password: Seq<char>) -> bool {
    vstd::utf8::encode_utf8(password).len() <= 0xFFFF_FFFF
}

/// Derives a salted Argon2id PHC hash string from a plaintext
/// password, with a fresh random salt on every call.  `None` reports
/// a password beyond the hasher's input bound.
///
/// Relies on argon2::Argon2::hash_password with the default parameters
/// and a salt from SaltString::generate: the returned string embeds
/// algorithm, parameters, salt and derived key, and verifying the same
/// password against that string recomputes the same key.  With a valid
/// generated salt and the default parameters the call fails only when
/// the password exceeds 2^32 - 1 bytes.  The salt is random, so
/// nothing ties the result to one particular string.
#[verifier::external_body]
pub fn hash_password(password: &str) -> (r: Option<String>)
    ensures
        match r {
            Some(h) => password_verifies(h@, password@),
            None => !hashable(password@),
        },
{
    let salt = SaltString::generate(&mut rand::thread_rng());
    match Argon2::default().hash_password(password.as_bytes(), &salt) {
        Ok(h) => Some(h.to_string()),
        Err(_) => None,
    }
}

/// Checks a plaintext password against a stored PHC hash string,
/// failing closed on a malformed hash string.
///
/// Relies on argon2::password_hash::PasswordHash::new to parse the
/// string and on Argon2::verify_password to recompute and compare the
/// derived key; the outcome is a function of the two arguments alone.
#[verifier::external_body]
pub fn verify_password(hash: &str, password: &str) -> (r: bool)
    ensures
        r == password_verifies(hash@, password@),
{
    match PasswordHash::new(hash) {
        Ok(parsed) => Argon2::default().verify_password(password.as_bytes(), &parsed).is_ok(),
        Err(_) => false,
    }
}

/// A hash derived from a password always verifies against that same
/// password: checking a freshly derived hash is provably true for
/// every password the hasher accepts.  (That a *different* password
/// fails to verify is a property of Argon2 itself and is exercised by
/// tests.)
pub fn hash_then_check(password: &str) -> (r: bool)
    ensures
        hashable(password@) ==> r,
{
    match hash_password(password) {
        Some(hash) => verify_password(hash.as_str(), password),
        None => false,
    }
}

} // verus!
