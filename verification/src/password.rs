//! Password digests, as `bcrypt` computes them.
//!
//! Nothing in this file is proved. Each item states what is taken on trust
//! of the crate.

use vstd::prelude::*;

verus! {

/// The error type of `bcrypt`.
#[verifier::external_type_specification]
#[verifier::external_body]
pub struct ExBcryptFailure(bcrypt::BcryptError);

/// What `bcrypt::verify` returns for this password and this digest:
/// `Some(true)` where they match, `Some(false)` where they do not, `None`
/// where it returns an error (the digest is malformed).
pub uninterp spec fn bcrypt_verdict(password: Seq<char>, hash: Seq<char>) -> Option<bool>;

/// Whether `hash` is a digest of `password`.
pub open spec fn password_matches(password: Seq<char>, hash: Seq<char>) -> bool {
    bcrypt_verdict(password, hash) == Some(true)
}

/// A digest of `password` under a fresh random salt.
///
/// Calls `bcrypt::hash` with `bcrypt::DEFAULT_COST`. The digest itself is
/// not named, since the salt is random.
///
/// Trusted: whatever digest comes back, `bcrypt::verify` accepts the same
/// password against it. In the crate, `verify` reads the cost and the salt
/// back from the digest (`split_hash`), hashes the password again with them
/// as `hash` did (`_hash_password`), and compares the two results.
#[verifier::external_body]
pub(crate) fn bcrypt_hash(password: &str) -> (r: Result<String, bcrypt::BcryptError>)
    ensures
        r matches Ok(hash) ==> bcrypt_verdict(password@, hash@) == Some(true),
{
    bcrypt::hash(password, bcrypt::DEFAULT_COST)
}

/// Whether `hash` is a digest of `password`.
///
/// Calls `bcrypt::verify`, which compares in constant time. Trusted: the
/// result is the one named by [`bcrypt_verdict`].
#[verifier::external_body]
pub(crate) fn bcrypt_verify(password: &str, hash: &str) -> (r: Result<bool, bcrypt::BcryptError>)
    ensures
        match r {
            Ok(same) => bcrypt_verdict(password@, hash@) == Some(same),
            Err(_) => bcrypt_verdict(password@, hash@) is None,
        },
{
    bcrypt::verify(password, hash)
}

} // verus!
