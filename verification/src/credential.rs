//! The credential verifier: whether a password is the one behind a stored
//! hash. A stored hash names its own algorithm, parameters and salt, so
//! hashes made under other parameters keep verifying.

use vstd::prelude::*;
use crate::errors::AccessModelError;
use vstd::utf8::encode_utf8;

verus! {

#[verifier::external_type_specification]
#[verifier::external_body]
pub struct ExHashError(argon2::Error);

/// The encoded Argon2i hash of `password` under `salt`, with the parameters
/// that `hash_password` uses; `None` where Argon2 takes no such input.
pub uninterp spec fn argon2_encoded(password: Seq<u8>, salt: Seq<u8>) -> Option<Seq<char>>;

/// Whether Argon2 finds `password` behind the encoded hash; `None` where it
/// cannot read the hash or refuses the parameters it names.
pub uninterp spec fn argon2_verified(encoded: Seq<char>, password: Seq<u8>) -> Option<bool>;

/// Hashes with `argon2::hash_encoded` under `argon2::Config::original()`:
/// Argon2i, version 0x13, 4096 KiB, 3 passes, 1 lane, 32 bytes, no secret.
/// The contract gives the result its name, a function of password and salt,
/// and claims what the crate is for: `verify_encoded` finds the password
/// behind the hash that `hash_encoded` made of it.
#[verifier::external_body]
pub(crate) fn argon2_hash(password: &[u8], salt: &[u8]) -> (r: Result<String, argon2::Error>)
    ensures
        match r {
            Ok(encoded) => argon2_encoded(password@, salt@) == Some(encoded@) && argon2_verified(
                encoded@,
                password@,
            ) == Some(true),
            Err(_) => argon2_encoded(password@, salt@).is_none(),
        },
{
    argon2::hash_encoded(password, salt, &argon2::Config::original())
}

/// Verifies with `argon2::verify_encoded`, which reads algorithm, parameters
/// and salt out of the encoded hash, hashes the password anew and compares
/// in constant time. The contract only gives the result its name. The crate
/// is built without its threads, so every hash is worked out in this thread,
/// and the work grows with the memory and the passes that the encoded hash
/// asks for.
#[verifier::external_body]
pub(crate) fn argon2_verify(encoded: &str, password: &[u8]) -> (r: Result<bool, argon2::Error>)
    ensures
        match r {
            Ok(found) => argon2_verified(encoded@, password@) == Some(found),
            Err(_) => argon2_verified(encoded@, password@).is_none(),
        },
{
    argon2::verify_encoded(encoded, password)
}

/// Whether a stored hash accepts a password. A hash that cannot be read
/// accepts none.
pub open spec fn accepts(stored: Seq<char>, password: Seq<u8>) -> bool {
    argon2_verified(stored, password) == Some(true)
}

/// What a verification means: only a clean `true` counts.
pub fn accepted(outcome: Result<bool, argon2::Error>) -> (ok: bool)
    ensures
        ok == (outcome matches Ok(found) && found),
{
    match outcome {
        Ok(found) => found,
        Err(_) => false,
    }
}

/// Whether `stored` accepts `password`.
pub fn password_matches(stored: &str, password: &str) -> (ok: bool)
    ensures
        ok == accepts(stored@, encode_utf8(password@)),
{
    accepted(argon2_verify(stored, password.as_bytes()))
}

/// What a hashing attempt means to the store: a hash to keep, or a fatal
/// error where Argon2 refused the input.
pub fn hashed(outcome: Result<String, argon2::Error>) -> (r: Result<String, AccessModelError>)
    ensures
        match outcome {
            Ok(encoded) => r == Ok::<String, AccessModelError>(encoded),
            Err(_) => r == Err::<String, AccessModelError>(AccessModelError::FatalError),
        },
{
    match outcome {
        Ok(encoded) => Ok(encoded),
        Err(_) => Err(AccessModelError::FatalError),
    }
}

/// The hash to store for a password, salted with `salt`; it accepts the
/// password. `FatalError` exactly when Argon2 refuses the input, as it does
/// a salt of under eight bytes.
pub fn hash_password(password: &str, salt: &[u8]) -> (r: Result<String, AccessModelError>)
    ensures
        match argon2_encoded(encode_utf8(password@), salt@) {
            Some(encoded) => r.is_ok() && r.unwrap()@ == encoded && accepts(
                encoded,
                encode_utf8(password@),
            ),
            None => r == Err::<String, AccessModelError>(AccessModelError::FatalError),
        },
{
    hashed(argon2_hash(password.as_bytes(), salt))
}

/// The verdict on one user's credential: the user's id where the user is
/// enabled and the stored hash accepts the password, else `NotFoundError`,
/// which does not tell a disabled user from a wrong password.
pub fn check_credential(user_id: i32, enabled: bool, stored: &str, password: &str) -> (r: Result<
    i32,
    AccessModelError,
>)
    ensures
        enabled && accepts(stored@, encode_utf8(password@)) ==> r == Ok::<i32, AccessModelError>(
            user_id,
        ),
        !(enabled && accepts(stored@, encode_utf8(password@))) ==> r == Err::<i32, AccessModelError>(
            AccessModelError::NotFoundError,
        ),
{
    if enabled && password_matches(stored, password) {
        Ok(user_id)
    } else {
        Err(AccessModelError::NotFoundError)
    }
}

} // verus!
