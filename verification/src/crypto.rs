//! Hashing of tokens and passwords: SHA-256 (`sha2`), URL-safe base64 without
//! padding (`base64`), and Argon2 password hashes (`argon2`).
use vstd::prelude::*;
use vstd::utf8::encode_utf8;

use crate::ids::{new_random_id, uuid_string, uuid_text};
use crate::user_error::{ApiError, is_internal};

use base64::Engine as _;
use sha2::Digest as _;
use argon2::PasswordHasher as _;
use argon2::PasswordVerifier as _;

verus! {

/// The SHA-256 digest of `data`.
pub uninterp spec fn sha256_spec(data: Seq<u8>) -> Seq<u8>;

/// The URL-safe base64 text of `data`, without `=` padding.
pub uninterp spec fn base64_url_no_pad_spec(data: Seq<u8>) -> Seq<char>;

/// Whether `hash` is a well-formed PHC password-hash string.
pub uninterp spec fn password_hash_parses(hash: Seq<char>) -> bool;

/// Whether the Argon2 check of `password` against the PHC string `hash`
/// succeeds.
pub uninterp spec fn password_verifies(password: Seq<char>, hash: Seq<char>) -> bool;

/// The stored form of a secret token: base64 (URL-safe, unpadded) of the
/// SHA-256 of its UTF-8 bytes.
pub open spec fn token_digest(token: Seq<char>) -> Seq<char> {
    base64_url_no_pad_spec(sha256_spec(encode_utf8(token)))
}

/// SHA-256 of `data`.
///
/// Calls `sha2::Sha256::digest`. The digest is named by `sha256_spec`; the
/// contract adds its documented size, 32 bytes.
#[verifier::external_body]
pub fn sha256(data: &[u8]) -> (r: Vec<u8>)
    ensures
        r@ == sha256_spec(data@),
        r@.len() == 32,
{
    sha2::Sha256::digest(data).to_vec()
}

/// URL-safe base64 of `data`, without padding.
///
/// Calls `base64::engine::general_purpose::URL_SAFE_NO_PAD.encode`. The text
/// is named by `base64_url_no_pad_spec`; inputs long enough to overflow the
/// length computation (where `encode` panics) are excluded.
#[verifier::external_body]
pub fn base64_url_no_pad(data: &[u8]) -> (r: String)
    requires
        data@.len() <= usize::MAX / 2,
    ensures
        r@ == base64_url_no_pad_spec(data@),
{
    base64::engine::general_purpose::URL_SAFE_NO_PAD.encode(data)
}

/// The stored form of a secret token (its digest), as refresh tokens and
/// authorization codes are kept and looked up.
pub fn hash_token(token: &str) -> (r: String)
    ensures
        r@ == token_digest(token@),
{
    let digest: Vec<u8> = sha256(token.as_bytes());
    base64_url_no_pad(digest.as_slice())
}

/// A fresh random token: the hyphenated text of a random UUID.
pub fn generate_token() -> (r: String)
    ensures
        exists|id: u128| r@ == uuid_text(id),
{
    let id: u128 = new_random_id();
    uuid_string(id)
}

/// The error type of the `password-hash` crate.
#[verifier::external_type_specification]
#[verifier::external_body]
pub struct ExPasswordHashError(argon2::password_hash::Error);

/// An Argon2 hash (PHC string, random salt) of `password`.
///
/// Calls `SaltString::generate` with the operating-system RNG and
/// `Argon2::default().hash_password`. The salt is random, so the hash is not
/// named; the contract states what the crate documents for every outcome
/// that succeeds: the string parses back and `password` verifies against it.
#[verifier::external_body]
fn argon2_hash(password: &str) -> (r: Result<String, argon2::password_hash::Error>)
    ensures
        r matches Ok(h) ==> password_hash_parses(h@) && password_verifies(password@, h@),
{
    let salt = argon2::password_hash::SaltString::generate(
        &mut argon2::password_hash::rand_core::OsRng,
    );
    match argon2::Argon2::default().hash_password(password.as_bytes(), &salt) {
        Ok(h) => Ok(h.to_string()),
        Err(e) => Err(e),
    }
}

/// Checks `password` against a PHC hash string.
///
/// Calls `PasswordHash::new` (which fails exactly when the string does not
/// parse) and then `Argon2::default().verify_password`, whose success is
/// returned as a boolean.
#[verifier::external_body]
fn argon2_check(password: &str, hash: &str) -> (r: Result<bool, argon2::password_hash::Error>)
    ensures
        r is Ok <==> password_hash_parses(hash@),
        r matches Ok(b) ==> b == password_verifies(password@, hash@),
{
    match argon2::PasswordHash::new(hash) {
        Ok(parsed) => Ok(argon2::Argon2::default().verify_password(password.as_bytes(), &parsed).is_ok()),
        Err(e) => Err(e),
    }
}

/// An Argon2 hash of `password` with a fresh random salt; a failure of the
/// hasher is answered as the internal error "password hash error".
pub fn hash_password(password: &str) -> (r: Result<String, ApiError>)
    ensures
        r matches Ok(h) ==> password_hash_parses(h@) && password_verifies(password@, h@),
        r matches Err(e) ==> is_internal(e.0, "password hash error"@),
{
    match argon2_hash(password) {
        Ok(h) => Ok(h),
        Err(_) => Err(ApiError::password_hash_failure()),
    }
}

/// Whether `password` matches the stored hash; a stored hash that does not
/// parse is answered as the internal error "password hash error".
pub fn verify_password(password: &str, hash: &str) -> (r: Result<bool, ApiError>)
    ensures
        r is Ok <==> password_hash_parses(hash@),
        r matches Ok(b) ==> b == password_verifies(password@, hash@),
        r matches Err(e) ==> is_internal(e.0, "password hash error"@),
{
    match argon2_check(password, hash) {
        Ok(b) => Ok(b),
        Err(_) => Err(ApiError::password_hash_failure()),
    }
}

} // verus!
