//! Password hashing, done by `bcrypt`.

use vstd::prelude::*;

verus! {

/// The work factor every password is hashed with.
pub const HASH_COST: u32 = 10;

#[verifier::external_type_specification]
#[verifier::external_body]
pub struct ExBcryptError(bcrypt::BcryptError);

/// What `bcrypt` answers when a password is held against a stored hash:
/// whether they match, or nothing where it cannot read the hash.
pub uninterp spec fn password_matches(password: Seq<char>, hash: Seq<char>) -> Option<bool>;

/// `bcrypt::hash`. The salt is random, so the hash is not determined by the
/// password; what the crate shows of every hash it hands out is that
/// `bcrypt::verify` accepts the same password against it.
#[verifier::external_body]
fn bcrypt_hash(password: &str, cost: u32) -> (hashed: Result<String, bcrypt::BcryptError>)
    ensures
        hashed matches Ok(hash) ==> password_matches(password@, hash@) == Some(true),
{
    bcrypt::hash(password, cost)
}

/// `bcrypt::verify`. The answer depends on the two texts alone: it re-hashes
/// the password with the salt and cost read from the stored hash and
/// compares, and reports an error where the stored hash is malformed.
#[verifier::external_body]
fn bcrypt_verify(password: &str, hash: &str) -> (answer: Result<bool, bcrypt::BcryptError>)
    ensures
        match answer {
            Ok(same) => password_matches(password@, hash@) == Some(same),
            Err(_) => password_matches(password@, hash@) is None,
        },
{
    bcrypt::verify(password, hash)
}

/// What is kept of the hasher's answer: the hash where it gave one, and
/// nothing where it failed.
pub fn stored_hash(answer: Result<String, bcrypt::BcryptError>) -> (hashed: Option<String>)
    ensures
        hashed == (match answer {
            Ok(hash) => Some(hash),
            Err(_) => None::<String>,
        }),
{
    match answer {
        Ok(hash) => Some(hash),
        Err(_) => None,
    }
}

/// Hashes a password for storage, at the cost `HASH_COST`. Whether there is
/// a hash is for the hasher's source of random salt to decide, for every
/// password alike: `None` where it fails. A hash that is handed out is one
/// the same password is accepted against.
pub fn hash_password(password: &str) -> (hashed: Option<String>)
    ensures
        hashed matches Some(hash) ==> password_matches(password@, hash@) == Some(true),
{
    stored_hash(bcrypt_hash(password, HASH_COST))
}

/// Holds a password against a stored hash.
pub fn verify_password(password: &str, hash: &str) -> (answer: Option<bool>)
    ensures
        answer == password_matches(password@, hash@),
{
    match bcrypt_verify(password, hash) {
        Ok(same) => Some(same),
        Err(_) => None,
    }
}

} // verus!
