//! Password hashing and verification with Argon2.
//!
//! The hash itself is computed by the `argon2` crate. What it returns is
//! named, not modelled: the contracts here say which named result each
//! function hands back and how a failure of the primitive is told apart
//! from a password that does not match.

use argon2::password_hash::rand_core::{OsRng, RngCore};
use argon2::password_hash::{Error, PasswordHash, PasswordHasher, PasswordVerifier, Salt, SaltString};
use argon2::Argon2;
use vstd::prelude::*;
use vstd::utf8::encode_utf8;
use crate::domain::errors::{HashFailure, InnerError};

verus! {

/// The PHC string that Argon2, with its default parameters, computes from a
/// password and a B64 salt; `None` where the salt is not valid or the
/// primitive errors.
pub uninterp spec fn argon2_phc(password: Seq<u8>, salt: Seq<char>) -> Option<Seq<char>>;

/// Whether Argon2 finds that a password matches a PHC string; `None` where
/// the string cannot be parsed or the primitive errors.
pub uninterp spec fn argon2_verdict(password: Seq<u8>, hash: Seq<char>) -> Option<bool>;

/// The text of a hash, if there is one.
pub open spec fn hashed_text(hashed: Result<String, HashFailure>) -> Option<Seq<char>> {
    match hashed {
        Ok(hash) => Some(hash@),
        Err(_) => None,
    }
}

/// The verdict of a check, if there is one.
pub open spec fn verdict_of(checked: Result<bool, HashFailure>) -> Option<bool> {
    match checked {
        Ok(matches) => Some(matches),
        Err(_) => None,
    }
}

/// The least parallelism that stored hashes may not name. Argon2 allows
/// far less; from here on the crate cannot even compare the value.
pub const PARALLELISM_LIMIT: u64 = 0x2000_0000;

pub const LETTER_P: u8 = 0x70;

pub const EQUALS_SIGN: u8 = 0x3d;

pub const DIGIT_ZERO: u8 = 0x30;

pub const DIGIT_NINE: u8 = 0x39;

pub open spec fn is_digit(byte: u8) -> bool {
    DIGIT_ZERO <= byte <= DIGIT_NINE
}

/// The number that `read` grows to when the decimal digits of `bytes`
/// from `from` on are appended to it, up to the first byte that is no
/// digit.
pub open spec fn number_from(bytes: Seq<u8>, from: int, read: nat) -> nat
    decreases bytes.len() - from,
{
    if 0 <= from < bytes.len() && is_digit(bytes[from]) {
        number_from(bytes, from + 1, read * 10 + (bytes[from] - DIGIT_ZERO) as nat)
    } else {
        read
    }
}

/// The decimal number that stands in `bytes` at `from`; 0 where none does.
pub open spec fn leading_number(bytes: Seq<u8>, from: int) -> nat {
    number_from(bytes, from, 0)
}

/// Wherever `p=` stands in the bytes, the number behind it is below the
/// limit.
pub open spec fn parallelism_in_range(bytes: Seq<u8>) -> bool {
    forall|at: int|
        0 <= at && at + 1 < bytes.len() && bytes[at] == LETTER_P && #[trigger] bytes[at + 1]
            == EQUALS_SIGN ==> leading_number(bytes, at + 2) < PARALLELISM_LIMIT
}

/// Whether a stored hash names only costs that Argon2 can take in: in its
/// UTF-8 bytes, every parallelism is below the limit.
pub open spec fn costs_in_range(hash: Seq<char>) -> bool {
    parallelism_in_range(encode_utf8(hash))
}

/// Appending digits never makes the number smaller.
proof fn lemma_number_grows(bytes: Seq<u8>, from: int, read: nat)
    ensures
        number_from(bytes, from, read) >= read,
    decreases bytes.len() - from,
{
    if 0 <= from < bytes.len() && is_digit(bytes[from]) {
        lemma_number_grows(bytes, from + 1, read * 10 + (bytes[from] - DIGIT_ZERO) as nat);
    }
}

/// Whether the decimal number at `from` is below the limit.
fn number_below_limit(bytes: &[u8], from: usize) -> (r: bool)
    requires
        from <= bytes@.len(),
    ensures
        r == (leading_number(bytes@, from as int) < PARALLELISM_LIMIT),
{
    let mut read: u64 = 0;
    let mut at: usize = from;
    while at < bytes.len() && DIGIT_ZERO <= bytes[at] && bytes[at] <= DIGIT_NINE
        invariant
            from <= at <= bytes@.len(),
            read < PARALLELISM_LIMIT,
            number_from(bytes@, at as int, read as nat) == leading_number(bytes@, from as int),
        decreases bytes@.len() - at,
    {
        let digit: u64 = (bytes[at] - DIGIT_ZERO) as u64;
        read = read * 10 + digit;
        at += 1;
        if read >= PARALLELISM_LIMIT {
            proof {
                lemma_number_grows(bytes@, at as int, read as nat);
            }
            return false;
        }
    }
    true
}

/// Tests a stored hash before it is handed to Argon2.
pub fn costs_checked(hash: &str) -> (r: bool)
    ensures
        r == costs_in_range(hash@),
{
    let bytes = hash.as_bytes();
    let mut at: usize = 0;
    while at < bytes.len() && at + 1 < bytes.len()
        invariant
            bytes@ == encode_utf8(hash@),
            forall|before: int|
                0 <= before < at && before + 1 < bytes@.len() && bytes@[before] == LETTER_P
                    && #[trigger] bytes@[before + 1] == EQUALS_SIGN ==> leading_number(
                    bytes@,
                    before + 2,
                ) < PARALLELISM_LIMIT,
        decreases bytes@.len() - at,
    {
        if bytes[at] == LETTER_P && bytes[at + 1] == EQUALS_SIGN {
            if !number_below_limit(bytes, at + 2) {
                return false;
            }
        }
        at += 1;
    }
    true
}

/// Draws a salt of the recommended length from the operating system's
/// random source with `OsRng::try_fill_bytes`, and encodes it with
/// `SaltString::encode_b64`. Trusted; nothing is claimed of the salt, which
/// differs from call to call.
#[verifier::external_body]
fn fresh_salt() -> (r: Result<String, HashFailure>) {
    let mut bytes = [0u8; Salt::RECOMMENDED_LENGTH];
    if let Err(error) = OsRng.try_fill_bytes(&mut bytes) {
        return Err(HashFailure { detail: error.to_string() });
    }
    match SaltString::encode_b64(&bytes) {
        Ok(salt) => Ok(salt.as_str().to_owned()),
        Err(error) => Err(HashFailure { detail: error.to_string() }),
    }
}

/// Calls `PasswordHasher::hash_password` on `Argon2::default()`, after
/// parsing the salt with `SaltString::from_b64`. Trusted: the result is the
/// PHC string that the crate computes from these two arguments, or an error
/// where it returns one.
#[verifier::external_body]
fn argon2_hash(password: &[u8], salt: &str) -> (r: Result<String, HashFailure>)
    ensures
        hashed_text(r) == argon2_phc(password@, salt@),
{
    let salt = match SaltString::from_b64(salt) {
        Ok(salt) => salt,
        Err(error) => return Err(HashFailure { detail: error.to_string() }),
    };
    match Argon2::default().hash_password(password, &salt) {
        Ok(hash) => Ok(hash.to_string()),
        Err(error) => Err(HashFailure { detail: error.to_string() }),
    }
}

/// Calls `PasswordVerifier::verify_password` on `Argon2::default()`, after
/// parsing the stored hash with `PasswordHash::new`. Trusted: `Ok(true)`
/// where the crate accepts the password, `Ok(false)` where it answers
/// `Error::Password`, and an error for every other answer. A parallelism
/// at or above the limit is left out: the crate multiplies it before it
/// tests it, and the product does not fit. The crate allocates the memory
/// that the stored hash asks for: a hash that was not written by this
/// service may ask for more than the machine has.
#[verifier::external_body]
fn argon2_verify(password: &[u8], hash: &str) -> (r: Result<bool, HashFailure>)
    requires
        costs_in_range(hash@),
    ensures
        verdict_of(r) == argon2_verdict(password@, hash@),
{
    let parsed = match PasswordHash::new(hash) {
        Ok(parsed) => parsed,
        Err(error) => return Err(HashFailure { detail: error.to_string() }),
    };
    match Argon2::default().verify_password(password, &parsed) {
        Ok(()) => Ok(true),
        Err(Error::Password) => Ok(false),
        Err(error) => Err(HashFailure { detail: error.to_string() }),
    }
}

/// What hashing replies, given what the primitive returned: the hash, or a
/// hashing error that carries the primitive's failure.
pub fn hashing_reply(hashed: Result<String, HashFailure>) -> (r: Result<String, InnerError>)
    ensures
        r == match hashed {
            Ok(hash) => Ok::<String, InnerError>(hash),
            Err(error_source) => Err(InnerError::PasswordHashingError { error_source }),
        },
{
    match hashed {
        Ok(hash) => Ok(hash),
        Err(error_source) => Err(InnerError::PasswordHashingError { error_source }),
    }
}

/// What verification replies, given what the primitive returned: whether
/// the password matches, or a hashing error. A mismatch is no error.
pub fn verification_reply(checked: Result<bool, HashFailure>) -> (r: Result<bool, InnerError>)
    ensures
        r == match checked {
            Ok(matches) => Ok::<bool, InnerError>(matches),
            Err(error_source) => Err(InnerError::PasswordHashingError { error_source }),
        },
{
    match checked {
        Ok(matches) => Ok(matches),
        Err(error_source) => Err(InnerError::PasswordHashingError { error_source }),
    }
}

/// Whether `reply` is what hashing owes for the named result `phc`: the
/// hash where there is one, a hashing error where there is none.
pub open spec fn hashing_agrees(reply: Result<String, InnerError>, phc: Option<Seq<char>>) -> bool {
    match phc {
        Some(text) => reply matches Ok(hash) && hash@ == text,
        None => reply matches Err(InnerError::PasswordHashingError { .. }),
    }
}

/// Whether `reply` is what verification owes for the named result
/// `verdict`.
pub open spec fn verification_agrees(reply: Result<bool, InnerError>, verdict: Option<bool>) -> bool {
    match verdict {
        Some(matches) => reply == Ok::<bool, InnerError>(matches),
        None => reply matches Err(InnerError::PasswordHashingError { .. }),
    }
}

/// Hashes a password with a given salt.
pub fn hash_password_with_salt(password: &str, salt: &str) -> (r: Result<String, InnerError>)
    ensures
        hashing_agrees(r, argon2_phc(encode_utf8(password@), salt@)),
{
    hashing_reply(argon2_hash(password.as_bytes(), salt))
}

/// Hashes a password with a fresh random salt. Whatever salt was drawn, the
/// reply is the hash for that salt, or a hashing error.
pub fn hash_and_salt_password(password: String) -> (r: Result<String, InnerError>)
    ensures
        r matches Ok(hash) ==> exists|salt: Seq<char>|
            #[trigger] argon2_phc(encode_utf8(password@), salt) == Some(hash@),
        r matches Err(error) ==> error is PasswordHashingError,
{
    match fresh_salt() {
        Ok(salt) => hash_password_with_salt(password.as_str(), salt.as_str()),
        Err(error_source) => Err(InnerError::PasswordHashingError { error_source }),
    }
}

/// Whether `reply` is what checking `password` against the stored `hash`
/// owes: a hashing error for a hash whose costs are out of range, and
/// else what Argon2 says.
pub open spec fn verification_owed(
    reply: Result<bool, InnerError>,
    password: Seq<char>,
    hash: Seq<char>,
) -> bool {
    if costs_in_range(hash) {
        verification_agrees(reply, argon2_verdict(encode_utf8(password), hash))
    } else {
        reply matches Err(InnerError::PasswordHashingError { .. })
    }
}

/// Checks a password against a stored hash. A hash whose costs are out of
/// range is refused before Argon2 sees it.
pub fn verify_password(password: &str, password_hash: &str) -> (r: Result<bool, InnerError>)
    ensures
        verification_owed(r, password@, password_hash@),
{
    if costs_checked(password_hash) {
        verification_reply(argon2_verify(password.as_bytes(), password_hash))
    } else {
        Err(
            InnerError::PasswordHashingError {
                error_source: HashFailure { detail: String::from("parallelism out of range") },
            },
        )
    }
}

} // verus!
