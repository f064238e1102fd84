//! Password hashing and verification with Argon2 (PHC strings).
use vstd::prelude::*;
use argon2::password_hash::rand_core::OsRng;
use argon2::password_hash::SaltString;
use argon2::{PasswordHasher, PasswordVerifier};
use crate::outcome::{ApiError, INTERNAL_SERVER_ERROR};

verus! {

/// Whether `argon2::PasswordHash::new` accepts `phc` as a PHC string.
pub uninterp spec fn phc_string_parses(phc: Seq<char>) -> bool;

/// Whether `Argon2::verify_password` accepts the UTF-8 bytes of `password`
/// against the hash that the PHC string `phc` parses to.
pub uninterp spec fn argon2_verifies(password: Seq<char>, phc: Seq<char>) -> bool;

/// How a password compares with a stored PHC string.
#[derive(Clone, Copy, Debug, PartialEq, Eq, Structural)]
pub enum PasswordCheck {
    /// The stored string parses and the password verifies against it.
    Accepted,
    /// The stored string parses and the password does not verify against it.
    Rejected,
    /// The stored string is not a PHC string.
    Malformed,
}

/// Parses the stored string with `argon2::PasswordHash::new` and, when that
/// succeeds, verifies the password's bytes with `Argon2::default().verify_password`
/// (which takes the algorithm and parameters from the parsed hash). The outcome
/// is given by the two named results above.
#[verifier::external_body]
pub fn check_password(password: &str, stored: &str) -> (res: PasswordCheck)
    ensures
        (res == PasswordCheck::Malformed) == !phc_string_parses(stored@),
        (res == PasswordCheck::Accepted) == (phc_string_parses(stored@) && argon2_verifies(
            password@,
            stored@,
        )),
{
    match argon2::PasswordHash::new(stored) {
        Err(_) => PasswordCheck::Malformed,
        Ok(hash) => match argon2::Argon2::default().verify_password(password.as_bytes(), &hash) {
            Ok(()) => PasswordCheck::Accepted,
            Err(_) => PasswordCheck::Rejected,
        },
    }
}

/// The start of every PHC string that Argon2 with its defaults produces
/// (Argon2id, version 19).
pub open spec fn argon2id_prefix() -> Seq<char> {
    seq!['$', 'a', 'r', 'g', 'o', 'n', '2', 'i', 'd', '$', 'v', '=', '1', '9', '$']
}

/// Length in bytes of a text's UTF-8 encoding.
pub open spec fn utf8_len(text: Seq<char>) -> nat {
    vstd::utf8::encode_utf8(text).len()
}

/// The longest password, in bytes, that Argon2 hashes (`argon2::MAX_PWD_LEN`).
pub open spec fn max_password_bytes() -> nat {
    0xFFFF_FFFF
}

/// Hashes the password's bytes with `Argon2::default().hash_password` and a
/// salt drawn by `SaltString::generate` from the operating system's generator,
/// and renders the hash as its PHC string. What is stated holds of every salt:
/// hashing fails only for a password longer than `argon2::MAX_PWD_LEN` bytes
/// (the generated 16-byte salt and the default parameters pass every other
/// check); the string starts with `$argon2id$v=19$`, parses with
/// `PasswordHash::new`, and the same password verifies against it. Which string
/// comes out depends on the random salt and is not stated.
#[verifier::external_body]
fn hash_with_fresh_salt(password: &str) -> (res: Option<String>)
    ensures
        utf8_len(password@) <= max_password_bytes() ==> res is Some,
        res matches Some(h) ==> argon2id_prefix().is_prefix_of(h@) && phc_string_parses(h@)
            && argon2_verifies(password@, h@),
{
    let salt = SaltString::generate(&mut OsRng);
    match argon2::Argon2::default().hash_password(password.as_bytes(), &salt) {
        Ok(hash) => Some(hash.to_string()),
        Err(_) => None,
    }
}

/// Hashes a new account's password with a fresh random salt into the PHC string
/// that is stored; it succeeds for every password that Argon2 accepts (at most
/// `argon2::MAX_PWD_LEN` bytes), and a failure of the hasher is
/// `500 failed to hash password`.
pub fn hash_new_password(password: &str) -> (res: Result<String, ApiError>)
    ensures
        utf8_len(password@) <= max_password_bytes() ==> res is Ok,
        match res {
            Ok(h) => argon2id_prefix().is_prefix_of(h@) && phc_string_parses(h@) && argon2_verifies(
                password@,
                h@,
            ),
            Err(e) => e@ == (INTERNAL_SERVER_ERROR, "failed to hash password"@),
        },
{
    match hash_with_fresh_salt(password) {
        Some(h) => Ok(h),
        None => Err(ApiError::new(INTERNAL_SERVER_ERROR, "failed to hash password")),
    }
}

} // verus!
