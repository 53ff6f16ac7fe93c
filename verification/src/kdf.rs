//! Deterministic key derivation from a password and salt, and salt
//! generation from the secure entropy source.

use vstd::prelude::*;

use crate::errors::CryptoError;
use crate::rand_source::random_bytes;

verus! {

/// Length in bytes of a derived symmetric key.
pub const KEY_LEN: usize = 32;

/// Length in bytes of a vault salt.
pub const SALT_LEN: usize = 16;

/// Iteration count of the password-hashing function. Raising it makes
/// each password guess proportionally more expensive.
pub const PBKDF2_ITERATIONS: u32 = 100_000;

/// What PBKDF2-HMAC-SHA256 returns for this iteration count, output
/// length, salt and secret.
pub uninterp spec fn pbkdf2_of(iterations: int, out_len: int, salt: Seq<u8>, secret: Seq<u8>) -> Seq<u8>;

/// Relies on ring::pbkdf2::derive with PBKDF2_HMAC_SHA256: fills the
/// output buffer with bytes that are a function of the iteration count,
/// output length, salt and secret alone.
#[verifier::external_body]
fn pbkdf2_derive(iterations: u32, salt: &[u8], secret: &[u8], out_len: usize) -> (r: Vec<u8>)
    requires
        1 <= iterations,
        salt@.len() <= 0x1000_0000_0000,
        secret@.len() <= 0x1000_0000_0000,
        1 <= out_len <= 1024,
    ensures
        r@ == pbkdf2_of(iterations as int, out_len as int, salt@, secret@),
        r@.len() == out_len,
{
    let mut out = vec![0u8; out_len];
    ring::pbkdf2::derive(
        ring::pbkdf2::PBKDF2_HMAC_SHA256,
        core::num::NonZeroU32::new(iterations).unwrap(),
        salt,
        secret,
        &mut out,
    );
    out
}

/// The 32-byte key this library derives from a password and salt.
pub open spec fn spec_derived_key(password: Seq<u8>, salt: Seq<u8>) -> Seq<u8> {
    pbkdf2_of(PBKDF2_ITERATIONS as int, KEY_LEN as int, salt, password)
}

/// Derives the vault's 32-byte symmetric key from a password and salt.
///
/// Deterministic: the result is a pure function of the two inputs, so
/// identical (password, salt) pairs always yield the identical key.
pub fn derive_key(password: &[u8], salt: &[u8]) -> (r: Vec<u8>)
    requires
        password@.len() <= 0x1000_0000_0000,
        salt@.len() <= 0x1000_0000_0000,
    ensures
        r@ == spec_derived_key(password@, salt@),
        r@.len() == KEY_LEN,
{
    pbkdf2_derive(PBKDF2_ITERATIONS, salt, password, KEY_LEN)
}

/// Draws a fresh 16-byte salt from the secure entropy source; an entropy
/// failure is a typed error, never a silent fallback.
pub fn generate_salt() -> (r: Result<Vec<u8>, CryptoError>)
    ensures
        r matches Ok(v) ==> v@.len() == SALT_LEN,
        r matches Err(e) ==> e is RandomError,
{
    match random_bytes(SALT_LEN) {
        Some(v) => Ok(v),
        None => Err(CryptoError::RandomError),
    }
}

} // verus!
