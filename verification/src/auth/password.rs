//! One-way password hashing and verification with Argon2.

use crate::status::Status;
use vstd::prelude::*;

verus! {

/// The error type of the `password-hash` crate, carried through unread.
#[verifier::external_type_specification]
#[verifier::external_body]
pub struct ExPasswordHashError(argon2::password_hash::Error);

/// What Argon2 makes of a stored hash string and a candidate password:
/// `None` where the string is not a password hash in PHC form, `Some(true)`
/// where the password recomputes to the digest that the string holds, and
/// `Some(false)` otherwise. The string carries algorithm, parameters and
/// salt, so the answer depends on nothing else.
pub uninterp spec fn argon2_verdict(hash: Seq<char>, password: Seq<char>) -> Option<bool>;

/// The most characters of a password that Argon2 is sure to take: it refuses
/// a password of more than 0xFFFF_FFFF bytes, and a character has at most
/// four.
pub const LONGEST_PASSWORD: usize = 0x3FFF_FFFF;

/// Hashes with `argon2::Argon2::default().hash_password`, under a salt that
/// `SaltString::generate` draws from the operating system. The salt differs
/// from call to call, so nothing is said of the string itself, only that it
/// verifies against the password it was made from: verification recomputes
/// the digest with the parameters and the salt that the string records.
/// Whether hashing succeeds does not depend on the salt, which always has 16
/// bytes: under the default parameters Argon2 refuses nothing but a password
/// of more than 0xFFFF_FFFF bytes.
#[verifier::external_body]
fn argon2_hash(password: &str) -> (hashed: Result<String, argon2::password_hash::Error>)
    ensures
        password@.len() <= LONGEST_PASSWORD ==> hashed is Ok,
        hashed matches Ok(hash) ==> argon2_verdict(hash@, password@) == Some(true),
{
    let salt = argon2::password_hash::SaltString::generate(
        &mut argon2::password_hash::rand_core::OsRng,
    );
    argon2::PasswordHasher::hash_password(&argon2::Argon2::default(), password.as_bytes(), &salt)
        .map(|hash| hash.to_string())
}

/// Parses with `argon2::PasswordHash::new` and verifies with
/// `argon2::Argon2::default().verify_password`.
#[verifier::external_body]
fn argon2_verify(hash: &str, password: &str) -> (verdict: Option<bool>)
    ensures
        verdict == argon2_verdict(hash@, password@),
{
    match argon2::PasswordHash::new(hash) {
        Ok(parsed) => Some(
            argon2::PasswordVerifier::verify_password(
                &argon2::Argon2::default(),
                password.as_bytes(),
                &parsed,
            ).is_ok(),
        ),
        Err(_) => None,
    }
}

/// The outcome of holding a candidate password against a stored hash.
#[derive(Clone, Copy, Debug, PartialEq, Eq, Structural)]
pub enum PasswordVerdict {
    /// The password is the one that the hash was made from.
    Accepted,
    /// The hash is well formed and the password does not match it.
    Rejected,
    /// The stored string is not a password hash at all.
    Malformed,
}

impl PasswordVerdict {
    /// The verdict that stands for an answer of Argon2.
    pub open spec fn of(answer: Option<bool>) -> PasswordVerdict {
        match answer {
            Some(true) => PasswordVerdict::Accepted,
            Some(false) => PasswordVerdict::Rejected,
            None => PasswordVerdict::Malformed,
        }
    }

    /// What the caller of a login is told. A stored hash that cannot be read
    /// is a failed authentication like any other: the caller never learns
    /// why a check failed.
    pub open spec fn outcome(self) -> Result<(), Status> {
        match self {
            PasswordVerdict::Accepted => Ok(()),
            PasswordVerdict::Rejected => Err(Status::Unauthorized),
            PasswordVerdict::Malformed => Err(Status::Unauthorized),
        }
    }

    /// Turns a verdict into the answer that a login gives.
    pub fn into_result(self) -> (result: Result<(), Status>)
        ensures
            result == self.outcome(),
    {
        match self {
            PasswordVerdict::Accepted => Ok(()),
            PasswordVerdict::Rejected => Err(Status::Unauthorized),
            PasswordVerdict::Malformed => Err(Status::Unauthorized),
        }
    }
}

/// Whether `password` is the password that the stored string `hash` was made from.
pub open spec fn password_matches(hash: Seq<char>, password: Seq<char>) -> bool {
    argon2_verdict(hash, password) == Some(true)
}

/// Hashes a password under a fresh random salt. The string that comes back
/// names algorithm, parameters, salt and digest, and verifies against
/// `password`. Every password of up to `LONGEST_PASSWORD` characters is
/// hashed; Argon2 refusing a longer one is reported as an internal error.
pub fn hash_password(password: &str) -> (hashed: Result<String, Status>)
    ensures
        password@.len() <= LONGEST_PASSWORD ==> hashed is Ok,
        hashed matches Ok(hash) ==> password_matches(hash@, password@),
        hashed matches Err(status) ==> status == Status::InternalServerError,
{
    match argon2_hash(password) {
        Ok(hash) => Ok(hash),
        Err(_) => Err(Status::InternalServerError),
    }
}

/// Holds a candidate password against a stored hash and says which of the
/// three cases holds.
pub fn check_password(hash: &str, password: &str) -> (verdict: PasswordVerdict)
    ensures
        verdict == PasswordVerdict::of(argon2_verdict(hash@, password@)),
{
    match argon2_verify(hash, password) {
        Some(true) => PasswordVerdict::Accepted,
        Some(false) => PasswordVerdict::Rejected,
        None => PasswordVerdict::Malformed,
    }
}

/// Compares a password hash to an unhashed password for verification.
/// Succeeds exactly when the password matches; a mismatch and a malformed
/// hash are both `Unauthorized`.
pub fn verify_password(hash: &str, password: &str) -> (result: Result<(), Status>)
    ensures
        result == PasswordVerdict::of(argon2_verdict(hash@, password@)).outcome(),
        result is Ok <==> password_matches(hash@, password@),
{
    check_password(hash, password).into_result()
}

/// A password verifies against every hash that `hash_password` made from it.
pub proof fn lemma_hashed_password_verifies(hash: Seq<char>, password: Seq<char>)
    requires
        password_matches(hash, password),
    ensures
        PasswordVerdict::of(argon2_verdict(hash, password)).outcome() == Ok::<(), Status>(()),
{
}

} // verus!
