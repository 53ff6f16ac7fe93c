//! Vault cryptography and session core.
//!
//! This library provides password-based key derivation, authenticated
//! field-level encryption with a versioned wire format, the vault
//! create/unlock/change-password protocol over a single persisted
//! (salt, verification artifact) record, and a single-slot in-memory
//! session-key store. Persistence and UI plumbing live outside; the
//! cryptographic calls go through contracted wrappers around the
//! `ring`, `hex` and `base64` crates.

pub mod accounts;
pub mod aead;
pub mod b64codec;
pub mod cipher;
pub mod db_models;
pub mod errors;
pub mod groups;
pub mod hexcodec;
pub mod kdf;
pub mod rand_source;
pub mod records;
pub mod session;
pub mod sha;
pub mod tags;
pub mod textnum;
pub mod textutil;
pub mod vault;
