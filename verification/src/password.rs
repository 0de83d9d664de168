use vstd::prelude::*;
use crate::envelope::AuthError;

verus! {

/// What `bcrypt::verify` decides for a password/hash pair: true exactly when
/// verification returns `Ok(true)`. The decision re-derives the hash from the
/// password and the salt and cost embedded in the hash string, so it depends
/// on the two arguments alone.
pub uninterp spec fn bcrypt_matches(password: Seq<char>, stored_hash: Seq<char>) -> bool;

/// The error type of the bcrypt crate, opaque to this library.
#[verifier::external_type_specification]
#[verifier::external_body]
pub struct ExBcryptError(bcrypt::BcryptError);

/// Relies on `bcrypt::hash`: a hash produced from `password` under the
/// default cost re-verifies against that same password (`bcrypt::verify`
/// parses the salt and cost back out of the produced string, recomputes the
/// digest, and finds it equal).
#[verifier::external_body]
fn bcrypt_hash_call(password: &str) -> (r: Result<String, bcrypt::BcryptError>)
    ensures
        r matches Ok(h) ==> bcrypt_matches(password@, h@),
{
    bcrypt::hash(password, bcrypt::DEFAULT_COST)
}

/// Relies on `bcrypt::verify`: deterministic in the password and the hash
/// string; `Ok(b)` reports whether the pair verifies, and `Err` means the
/// hash string is not a well-formed bcrypt hash, so the pair cannot verify.
#[verifier::external_body]
fn bcrypt_verify_call(password: &str, stored_hash: &str) -> (r: Result<bool, bcrypt::BcryptError>)
    ensures
        r matches Ok(b) ==> b == bcrypt_matches(password@, stored_hash@),
        r is Err ==> !bcrypt_matches(password@, stored_hash@),
{
    bcrypt::verify(password, stored_hash)
}

/// Hashes a plaintext password for storage with a salted, computationally
/// expensive one-way function. The plaintext itself is never stored. A fault
/// of the hashing function is reported as `HashingFailure`.
pub fn hash_password(password: &str) -> (r: Result<String, AuthError>)
    ensures
        r matches Ok(h) ==> bcrypt_matches(password@, h@),
        r matches Err(e) ==> e == AuthError::HashingFailure,
{
    match bcrypt_hash_call(password) {
        Ok(h) => Ok(h),
        Err(_) => Err(AuthError::HashingFailure),
    }
}

/// Checks a plaintext password against a stored hash. Fails safe: a fault of
/// the verification function (for example a malformed stored hash) counts as
/// a mismatch, never as a match.
pub fn verify_password(password: &str, stored_hash: &str) -> (r: bool)
    ensures
        r == bcrypt_matches(password@, stored_hash@),
{
    match bcrypt_verify_call(password, stored_hash) {
        Ok(b) => b,
        Err(_) => false,
    }
}

} // verus!
