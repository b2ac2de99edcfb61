//! Password checks for signing up and logging in, through bcrypt.
use vstd::prelude::*;

verus! {

#[verifier::external_type_specification]
#[verifier::external_body]
pub struct ExBcryptError(bcrypt::BcryptError);

/// What `bcrypt::verify` reports for `password` against the stored `hash`:
/// whether they match, or nothing when it fails (a malformed hash).
pub uninterp spec fn bcrypt_verdict(password: Seq<char>, hash: Seq<char>) -> Option<bool>;

/// Relies on `bcrypt::verify`: it rehashes the password with the salt and
/// cost read from `hash` and compares, so its answer depends on its
/// arguments alone; a hash it cannot read gives an error.
#[verifier::external_body]
fn bcrypt_verify(password: &str, hash: &str) -> (r: Result<bool, bcrypt::BcryptError>)
    ensures
        match r {
            Ok(b) => bcrypt_verdict(password@, hash@) == Some(b),
            Err(_) => bcrypt_verdict(password@, hash@) is None,
        },
{
    bcrypt::verify(password, hash)
}

/// Relies on `bcrypt::hash` at `bcrypt::DEFAULT_COST` (12): the salt is
/// drawn at random, so only the shape of the result is known, the 60
/// characters `$2b$12$`, 22 of salt and 31 of hash.
#[verifier::external_body]
fn bcrypt_hash(password: &str) -> (r: Result<String, bcrypt::BcryptError>)
    ensures
        r matches Ok(h) ==> h@.len() == 60,
{
    bcrypt::hash(password, bcrypt::DEFAULT_COST)
}

/// Whether `password` matches the stored `hash`; a hash bcrypt cannot read
/// matches nothing.
pub fn password_matches(password: &str, hash: &str) -> (r: bool)
    ensures
        r == (bcrypt_verdict(password@, hash@) == Some(true)),
{
    match bcrypt_verify(password, hash) {
        Ok(b) => b,
        Err(_) => false,
    }
}

/// The hash to store from the outcome of hashing a password: the hash, or
/// the empty string when hashing failed.
pub fn stored_hash(hashed: Result<String, bcrypt::BcryptError>) -> (r: String)
    ensures
        match hashed {
            Ok(h) => r@ == h@,
            Err(_) => r@ == Seq::<char>::empty(),
        },
{
    match hashed {
        Ok(h) => h,
        Err(_) => String::new(),
    }
}

/// A fresh salted hash of `password` to store, or the empty string when
/// hashing failed.
pub fn hash_password(password: &str) -> (r: String)
    ensures
        r@.len() == 60 || r@.len() == 0,
{
    stored_hash(bcrypt_hash(password))
}

} // verus!
