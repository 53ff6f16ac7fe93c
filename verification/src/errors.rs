//! Typed errors for the cryptography and vault-protocol operations.

use vstd::prelude::*;

verus! {

/// Failure of a field encryption or decryption operation.
#[derive(Debug, Clone)]
pub enum CryptoError {
    /// The plaintext handed to encryption was empty.
    EmptyField,
    /// Authentication succeeded but the plaintext bytes are not valid text.
    InvalidUtf8,
    /// Authentication failed: wrong key, corrupted data, or tampering.
    DecryptionFailed(String),
    /// The encoded field or the persisted salt is malformed.
    InvalidFormat(String),
    /// The entropy source failed while drawing a nonce.
    NonceGenerationFailed,
    /// The entropy source failed while drawing a salt.
    RandomError,
}

/// Failure of a vault-protocol or session operation.
#[derive(Debug, Clone)]
pub enum AuthError {
    /// No vault record exists yet.
    NotInitialized,
    /// A vault record already exists.
    AlreadyExists,
    /// The supplied password does not match the stored artifact.
    InvalidPassword,
    /// No session is active.
    NotLoggedIn,
    /// A cryptographic step failed.
    Crypto(CryptoError),
    /// The session slot's guard failed.
    Session(String),
}

} // verus!
