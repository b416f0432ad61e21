//! Hashing: SHA-256 digests of access tokens and Argon2 password hashes in
//! PHC string format.

use vstd::prelude::*;
use argon2::password_hash::rand_core::OsRng;
use argon2::password_hash::SaltString;
use argon2::{Argon2, PasswordHash, PasswordHasher, PasswordVerifier};
use sha2::{Digest, Sha256};

verus! {

/// The SHA-256 digest of a byte string.
pub uninterp spec fn sha256_digest(data: Seq<u8>) -> Seq<u8>;

/// Whether `argon2::PasswordHash::new` accepts the text as a PHC string.
pub uninterp spec fn phc_parses(phc: Seq<char>) -> bool;

/// What Argon2 password verification answers for a password against a PHC
/// string that parses: `Some(true)` for a match, `Some(false)` for a wrong
/// password, `None` for any other failure.
pub uninterp spec fn argon2_verdict(password: Seq<u8>, phc: Seq<char>) -> Option<bool>;

/// `<Sha256 as Digest>::digest`: the 32-byte SHA-256 digest of `data`.
/// Claims that the result is the digest of exactly these bytes and that it is
/// 32 bytes long.
#[verifier::external_body]
pub(crate) fn sha256(data: &[u8]) -> (r: Vec<u8>)
    ensures
        r@ == sha256_digest(data@),
        r@.len() == 32,
{
    Sha256::digest(data).to_vec()
}

/// `argon2::PasswordHash::new`: whether the stored text is a PHC string.
/// Claims only that the answer is the same for the same text.
#[verifier::external_body]
pub(crate) fn phc_is_well_formed(phc: &str) -> (ok: bool)
    ensures
        ok == phc_parses(phc@),
{
    PasswordHash::new(phc).is_ok()
}

/// `<Argon2 as PasswordVerifier>::verify_password` with default Argon2
/// settings, against a PHC string that parses (the string is parsed again to
/// hand it over). Claims that the verdict is a function of the password and
/// the PHC text, and that a wrong password and other failures are told apart.
#[verifier::external_body]
pub(crate) fn argon2_verify(password: &[u8], phc: &str) -> (r: Option<bool>)
    requires
        phc_parses(phc@),
    ensures
        r == argon2_verdict(password@, phc@),
{
    match PasswordHash::new(phc) {
        Ok(hash) => match Argon2::default().verify_password(password, &hash) {
            Ok(()) => Some(true),
            Err(argon2::password_hash::Error::Password) => Some(false),
            Err(_) => None,
        },
        Err(_) => None,
    }
}

/// `<Argon2 as PasswordHasher>::hash_password` with default settings and a
/// fresh random salt from the operating system, written as a PHC string.
/// The salt is random, so the string itself is not claimed; what is claimed
/// is what the crate's documentation shows of every such string: it parses
/// as a PHC string, and verifying the same password against it succeeds.
#[verifier::external_body]
pub(crate) fn argon2_hash_with_fresh_salt(password: &[u8]) -> (r: Option<String>)
    ensures
        r matches Some(h) ==> phc_parses(h@) && argon2_verdict(password@, h@) == Some(true),
{
    match Argon2::default().hash_password(password, &SaltString::generate(&mut OsRng)) {
        Ok(hash) => Some(hash.to_string()),
        Err(_) => None,
    }
}

} // verus!
