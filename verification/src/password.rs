//! Credential hasher: Argon2id password hashes in PHC string form.

use argon2::password_hash::rand_core::OsRng;
use argon2::password_hash::{PasswordHash, PasswordHasher, PasswordVerifier, SaltString};
use argon2::Argon2;
use vstd::prelude::*;

verus! {

/// Why a password could not be hashed or checked.
#[derive(Debug, Clone, Copy, PartialEq, Eq, Structural)]
pub enum HashError {
    /// The key derivation did not complete.
    Hashing,
    /// The stored hash is not a PHC string.
    MalformedHash,
}

/// The PHC string that Argon2id with its default parameters derives from
/// `password` under the salt written as `salt`; `None` where the salt or the
/// derivation is refused.
pub uninterp spec fn argon2_phc(password: Seq<char>, salt: Seq<char>) -> Option<Seq<char>>;

/// Whether `text` parses as a PHC string.
pub uninterp spec fn phc_well_formed(text: Seq<char>) -> bool;

/// Whether Argon2, run on `password` with the algorithm, parameters and salt
/// that the PHC string `phc` records, reproduces the digest that `phc` records.
pub uninterp spec fn argon2_accepts(password: Seq<char>, phc: Seq<char>) -> bool;

/// What hashing yields once the derivation has answered.
pub open spec fn hashing_outcome(derived: Option<Seq<char>>) -> Result<Seq<char>, HashError> {
    match derived {
        Some(phc) => Ok(phc),
        None => Err(HashError::Hashing),
    }
}

/// What checking `password` against `stored` yields.
pub open spec fn verification_outcome(password: Seq<char>, stored: Seq<char>) -> Result<
    bool,
    HashError,
> {
    verdict(phc_well_formed(stored), argon2_accepts(password, stored))
}

/// The verdict on a stored hash that did or did not parse and, where it
/// parsed, did or did not match.
pub open spec fn verdict(well_formed: bool, accepted: bool) -> Result<bool, HashError> {
    if well_formed {
        Ok(accepted)
    } else {
        Err(HashError::MalformedHash)
    }
}

/// The text of a hashing result.
pub open spec fn hashed_text(r: Result<String, HashError>) -> Result<Seq<char>, HashError> {
    match r {
        Ok(phc) => Ok(phc@),
        Err(e) => Err(e),
    }
}

/// Calls `SaltString::generate` of `password-hash` on the operating system's
/// random generator and hands the salt out as text. The salt is random, so
/// nothing is claimed of it.
#[verifier::external_body]
fn fresh_salt() -> String {
    SaltString::generate(&mut OsRng).as_str().to_owned()
}

/// Calls `Argon2::default().hash_password` on the bytes of `password` and the
/// salt read back from `salt` by `SaltString::from_b64`. The contract claims
/// that the outcome is a function of the two texts alone, and that a hash
/// which comes out parses as a PHC string and is accepted for the same
/// password: verification recomputes the digest from the parameters and the
/// salt that the string records.
#[verifier::external_body]
fn derive_phc(password: &str, salt: &str) -> (r: Option<String>)
    ensures
        match r {
            Some(phc) => argon2_phc(password@, salt@) == Some(phc@),
            None => argon2_phc(password@, salt@) is None,
        },
        r matches Some(phc) ==> phc_well_formed(phc@) && argon2_accepts(password@, phc@),
{
    let salt = SaltString::from_b64(salt).ok()?;
    let hash = Argon2::default().hash_password(password.as_bytes(), &salt).ok()?;
    Some(hash.to_string())
}

/// Calls `PasswordHash::new` on `text` and reports whether it parsed.
#[verifier::external_body]
fn parses_as_phc(text: &str) -> (r: bool)
    ensures
        r == phc_well_formed(text@),
{
    PasswordHash::new(text).is_ok()
}

/// Calls `Argon2::default().verify_password` on the bytes of `password` and
/// the parsed form of `phc`, and reports whether it returned `Ok`. Any error
/// of the verifier counts as a refusal.
#[verifier::external_body]
fn accepts(password: &str, phc: &str) -> (r: bool)
    requires
        phc_well_formed(phc@),
    ensures
        r == argon2_accepts(password@, phc@),
{
    match PasswordHash::new(phc) {
        Ok(parsed) => Argon2::default().verify_password(password.as_bytes(), &parsed).is_ok(),
        Err(_) => false,
    }
}

/// Turns the answer of the key derivation into the result of hashing.
pub fn hashing_result(derived: Option<String>) -> (r: Result<String, HashError>)
    ensures
        match derived {
            Some(phc) => r matches Ok(out) && out == phc,
            None => r matches Err(e) && e == HashError::Hashing,
        },
{
    match derived {
        Some(phc) => Ok(phc),
        None => Err(HashError::Hashing),
    }
}

/// Turns the two answers about a stored hash into the result of a check: a
/// hash that did not parse is reported as malformed, whatever `accepted` says.
pub fn verification_result(well_formed: bool, accepted: bool) -> (r: Result<bool, HashError>)
    ensures
        r == verdict(well_formed, accepted),
{
    if well_formed {
        Ok(accepted)
    } else {
        Err(HashError::MalformedHash)
    }
}

/// Hashes `plaintext` under the given salt.
pub fn hash_with_salt(plaintext: &str, salt: &str) -> (r: Result<String, HashError>)
    ensures
        hashed_text(r) == hashing_outcome(argon2_phc(plaintext@, salt@)),
        r matches Ok(phc) ==> verification_outcome(plaintext@, phc@) == verdict(true, true),
{
    hashing_result(derive_phc(plaintext, salt))
}

/// Hashes `plaintext` under a salt drawn afresh for this call. The result is a
/// self-describing PHC string that `verify_password` accepts for `plaintext`.
pub fn hash_password(plaintext: &str) -> (r: Result<String, HashError>)
    ensures
        exists|salt: Seq<char>| hashed_text(r) == hashing_outcome(#[trigger] argon2_phc(plaintext@, salt)),
        r matches Ok(phc) ==> verification_outcome(plaintext@, phc@) == verdict(true, true),
{
    let salt = fresh_salt();
    hash_with_salt(plaintext, salt.as_str())
}

/// Checks `plaintext` against `stored_hash`: an error where the stored hash
/// does not parse, else whether the recomputed digest matches.
pub fn verify_password(plaintext: &str, stored_hash: &str) -> (r: Result<bool, HashError>)
    ensures
        r == verification_outcome(plaintext@, stored_hash@),
{
    let well_formed = parses_as_phc(stored_hash);
    if well_formed {
        verification_result(true, accepts(plaintext, stored_hash))
    } else {
        verification_result(false, false)
    }
}

} // verus!
