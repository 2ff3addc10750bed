//! Password hasher: one-way salted hashing and verification.
//!
//! [`hash`] derives a memory-hard hash with a fresh random salt and returns
//! a self-describing encoded string (algorithm, parameters, salt, digest),
//! so later verification needs no external parameter store. [`verify`]
//! parses such a string, recomputes, and compares in constant time; a
//! malformed stored string counts as verification failure, never as a
//! propagated error, so a caller cannot tell a damaged record from a wrong
//! password.

use vstd::prelude::*;

use argon2::PasswordHasher;
use argon2::PasswordVerifier;

use crate::errors::ApiError;

verus! {

/// Whether `verify` accepts `password` against the encoded string `encoded`.
///
/// This is exactly the (deterministic) outcome of argon2's
/// `PasswordVerifier::verify_password` on the two arguments; it is false
/// whenever `encoded` is not a well-formed PHC string.
pub uninterp spec fn hash_matches(password: Seq<char>, encoded: Seq<char>) -> bool;

/// Relies on argon2's `PasswordHasher::hash_password`: it salts with fresh
/// randomness and derives a PHC-encoded hash, and the hash it returns
/// verifies (via `PasswordVerifier::verify_password`) against the password
/// it was derived from.
#[verifier::external_body]
fn argon2_hash(password: &str) -> (r: Result<String, String>)
    ensures
        r matches Ok(h) ==> hash_matches(password@, h@),
{
    match argon2::Argon2::default().hash_password(password.as_bytes()) {
        Ok(h) => Ok(h.to_string()),
        Err(e) => Err(e.to_string()),
    }
}

/// Relies on argon2's `PasswordVerifier::verify_password`: a deterministic
/// check of the password against the PHC-encoded string, false for a
/// malformed string.
#[verifier::external_body]
fn argon2_verify(password: &str, encoded: &str) -> (r: bool)
    ensures
        r == hash_matches(password@, encoded@),
{
    argon2::Argon2::default().verify_password(password.as_bytes(), encoded).is_ok()
}

/// Hash a plaintext password with a fresh random salt.
///
/// The result is an encoded string that [`verify`] accepts together with
/// the same plaintext. Fails only if the hasher itself fails; the cause is
/// carried for the operator.
pub fn hash(password: &str) -> (r: Result<String, ApiError>)
    ensures
        r matches Ok(h) ==> hash_matches(password@, h@),
        r matches Err(e) ==> e matches ApiError::HashFailure(_),
{
    match argon2_hash(password) {
        Ok(h) => Ok(h),
        Err(cause) => Err(ApiError::HashFailure(cause)),
    }
}

/// Check a plaintext password against a stored encoded hash.
///
/// True exactly when the encoded string is well formed and was derived from
/// this password; a malformed string is reported as a mismatch.
pub fn verify(password: &str, encoded: &str) -> (r: bool)
    ensures
        r == hash_matches(password@, encoded@),
{
    argon2_verify(password, encoded)
}

} // verus!
