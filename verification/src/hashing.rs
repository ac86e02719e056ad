use vstd::prelude::*;

verus! {

/// What `bcrypt::verify` decides for a password and a stored hash string:
/// `true` exactly when the call returns `Ok(true)`. The cost and the salt
/// are read back out of the hash string itself, so the decision is a
/// function of these two arguments alone.
pub uninterp spec fn bcrypt_matches(password: Seq<char>, hash: Seq<char>) -> bool;

/// Relies on `bcrypt::hash`: it produces a salted hash of the password at
/// the given cost, in the standard sixty-character format, and
/// `bcrypt::verify` accepts the same password against that hash.
#[verifier::external_body]
pub(crate) fn hash_password(password: &str, cost: u32) -> (r: Result<String, String>)
    ensures
        r matches Ok(h) ==> bcrypt_matches(password@, h@),
{
    bcrypt::hash(password, cost).map_err(|e| e.to_string())
}

/// Relies on `bcrypt::verify`: it re-derives the hash of the password with
/// the cost and salt taken from the stored hash string and compares in
/// constant time; it errs only on a malformed hash string, on which it can
/// never return `Ok(true)`.
#[verifier::external_body]
pub(crate) fn verify_password(password: &str, hash: &str) -> (r: Result<bool, String>)
    ensures
        r matches Ok(b) ==> b == bcrypt_matches(password@, hash@),
        r is Err ==> !bcrypt_matches(password@, hash@),
{
    bcrypt::verify(password, hash).map_err(|e| e.to_string())
}

} // verus!
