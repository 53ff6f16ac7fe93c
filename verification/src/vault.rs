//! The vault protocol: create, unlock, change password, logout.
//!
//! The persisted state is a single optional record, the salt as
//! hexadecimal text beside a verification artifact
//! (`vault1:` + hex(SHA-256(key ‖ marker))). The artifact is one-way: it
//! proves that a supplied password re-derives the creation key without
//! storing password or key. `spec_unlock` is the protocol's prescribed
//! outcome for any store and password, and every operation's contract is
//! stated against it; `lemma_unlock_with_creation_password` is the law
//! that the credentials a create (or password change) persisted unlock
//! to exactly the key it returned.

use vstd::prelude::*;

use crate::errors::{AuthError, CryptoError};
use crate::hexcodec::{
    hex_decode, hex_encode, lemma_hex_encode_is_hex, lemma_hex_round_trip, spec_hex_decode,
    spec_hex_encode, spec_is_hex,
};
use crate::kdf::{derive_key, generate_salt, spec_derived_key, KEY_LEN, SALT_LEN};
use crate::session::SessionManager;
use crate::sha::{sha256, sha256_of};
use vstd::slice::slice_to_vec;
use vstd::string::{StrSliceExecFns, StringExecFns, StringSliceAdditionalSpecFns};
use vstd::utf8::encode_utf8;

verus! {

/// The single persisted vault record.
pub struct VaultRecord {
    /// The salt, persisted as lowercase hexadecimal text.
    pub salt_hex: String,
    /// The verification artifact.
    pub verification: String,
}

/// The persisted vault state as this core sees it: at most one record,
/// behind the minimal exists/load/save contract. The embedding program
/// moves the record between this value and its durable store.
pub struct VaultStore {
    record: Option<VaultRecord>,
}

impl View for VaultStore {
    type V = Option<(Seq<char>, Seq<char>)>;

    closed spec fn view(&self) -> Option<(Seq<char>, Seq<char>)> {
        match self.record {
            Some(ref r) => Some((r.salt_hex@, r.verification@)),
            None => None,
        }
    }
}

impl VaultStore {
    /// An empty store: no vault has been created.
    pub fn new() -> (r: VaultStore)
        ensures
            r@ is None,
    {
        VaultStore { record: None }
    }

    /// A store already holding a persisted record.
    pub fn from_record(salt_hex: String, verification: String) -> (r: VaultStore)
        ensures
            r@ == Some((salt_hex@, verification@)),
    {
        VaultStore { record: Some(VaultRecord { salt_hex, verification }) }
    }

    /// Whether a vault record exists.
    pub fn vault_exists(&self) -> (r: bool)
        ensures
            r == (self@ is Some),
    {
        match &self.record {
            Some(_) => true,
            None => false,
        }
    }

    /// The persisted record, if any.
    pub fn load_vault(&self) -> (r: Option<&VaultRecord>)
        ensures
            self@ matches Some(p) ==> (r matches Some(rec) && rec.salt_hex@ == p.0
                && rec.verification@ == p.1),
            self@ is None ==> r is None,
    {
        match &self.record {
            Some(rec) => Some(rec),
            None => None,
        }
    }

    /// Replaces the record: a single-row insert-or-update.
    pub fn save_vault(&mut self, salt_hex: String, verification: String)
        ensures
            final(self)@ == Some((salt_hex@, verification@)),
    {
        self.record = Some(VaultRecord { salt_hex, verification });
    }
}

/// The marker text whose keyed hash is the verification artifact.
pub open spec fn spec_marker_text() -> Seq<char> {
    "GManagerVaultVerification"@
}

/// The bytes hashed into the artifact: the key, then the marker.
pub open spec fn spec_artifact_input(key: Seq<u8>) -> Seq<u8> {
    key + encode_utf8(spec_marker_text())
}

/// The verification artifact for a key.
pub open spec fn spec_artifact(key: Seq<u8>) -> Seq<char> {
    "vault1:"@ + spec_hex_encode(sha256_of(spec_artifact_input(key)))
}

/// Whether stored text is a well-formed artifact that matches this key.
pub open spec fn spec_artifact_matches(key: Seq<u8>, stored: Seq<char>) -> bool {
    &&& stored.len() >= 7
    &&& stored.subrange(0, 7) == "vault1:"@
    &&& spec_is_hex(stored.subrange(7, stored.len() as int))
    &&& spec_hex_decode(stored.subrange(7, stored.len() as int)) == sha256_of(
        spec_artifact_input(key),
    )
}

/// The protocol's prescribed outcome of checking a password against one
/// persisted record.
pub enum UnlockOutcome {
    /// No record exists.
    NoVault,
    /// The persisted salt is not sixteen bytes of hexadecimal.
    CorruptSalt,
    /// The derived key does not match the artifact.
    WrongPassword,
    /// The derived key matches; it becomes the working key.
    Granted(Seq<u8>),
}

/// Checking a password against a record: corrupt salt is detected first,
/// then the re-derived key is held against the artifact.
pub open spec fn spec_check(salt_hex: Seq<char>, stored: Seq<char>, password: Seq<char>) -> UnlockOutcome {
    if !(spec_is_hex(salt_hex) && salt_hex.len() == 2 * (SALT_LEN as int)) {
        UnlockOutcome::CorruptSalt
    } else {
        let key = spec_derived_key(encode_utf8(password), spec_hex_decode(salt_hex));
        if spec_artifact_matches(key, stored) {
            UnlockOutcome::Granted(key)
        } else {
            UnlockOutcome::WrongPassword
        }
    }
}

/// The prescribed outcome of unlocking a store with a password.
pub open spec fn spec_unlock(store: Option<(Seq<char>, Seq<char>)>, password: Seq<char>) -> UnlockOutcome {
    match store {
        None => UnlockOutcome::NoVault,
        Some(p) => spec_check(p.0, p.1, password),
    }
}

/// The record that creating a vault (or changing to a password) with
/// this salt persists: the salt as hexadecimal text, and the artifact of
/// the key the password and salt derive.
pub open spec fn spec_created_record(password: Seq<char>, salt: Seq<u8>) -> (Seq<char>, Seq<char>) {
    (spec_hex_encode(salt), spec_artifact(spec_derived_key(encode_utf8(password), salt)))
}

/// The bytes hashed into the artifact: the key, then the marker text's
/// encoding.
fn artifact_input(key: &[u8]) -> (r: Vec<u8>)
    requires
        key@.len() == KEY_LEN,
    ensures
        r@ == spec_artifact_input(key@),
        r@.len() <= key@.len() + 100,
{
    let mut data: Vec<u8> = slice_to_vec(key);
    let marker = "GManagerVaultVerification";
    proof {
        reveal_strlit("GManagerVaultVerification");
        crate::cipher::lemma_encode_utf8_len(marker@);
    }
    data.extend_from_slice(marker.as_bytes());
    data
}

/// Computes the verification artifact for a key: the `vault1:` prefix,
/// then the hexadecimal SHA-256 of key and marker.
pub fn generate_verification_hash(key: &[u8]) -> (r: String)
    requires
        key@.len() == KEY_LEN,
    ensures
        r@ == spec_artifact(key@),
{
    let data = artifact_input(key);
    let digest = sha256(data.as_slice());
    let hex_text = hex_encode(digest.as_slice());
    let mut out = String::from_str("vault1:");
    out.append(hex_text.as_str());
    assert(out@ == spec_artifact(key@));
    out
}

/// Whether text begins with the artifact version prefix.
fn has_vault_prefix(s: &str) -> (r: bool)
    ensures
        r == (s@.len() >= 7 && s@.subrange(0, 7) == "vault1:"@),
{
    proof {
        reveal_strlit("vault1:");
    }
    let n = s.unicode_len();
    if n < 7 {
        return false;
    }
    let r = s.get_char(0) == 'v' && s.get_char(1) == 'a' && s.get_char(2) == 'u' && s.get_char(3)
        == 'l' && s.get_char(4) == 't' && s.get_char(5) == '1' && s.get_char(6) == ':';
    proof {
        if r {
            assert(s@.subrange(0, 7) =~= "vault1:"@);
        } else {
            if s@.subrange(0, 7) == "vault1:"@ {
                assert(s@.subrange(0, 7)[0] == 'v');
                assert(s@.subrange(0, 7)[1] == 'a');
                assert(s@.subrange(0, 7)[2] == 'u');
                assert(s@.subrange(0, 7)[3] == 'l');
                assert(s@.subrange(0, 7)[4] == 't');
                assert(s@.subrange(0, 7)[5] == '1');
                assert(s@.subrange(0, 7)[6] == ':');
            }
        }
    }
    r
}

/// Holds a derived key against a stored artifact.
///
/// The content comparison runs over every byte without short-circuiting
/// (an accumulated XOR), so a mismatch's position leaks nothing through
/// timing; only a length mismatch may return early.
pub fn verify_password(key: &[u8], stored_hash: &str) -> (r: bool)
    requires
        key@.len() == KEY_LEN,
    ensures
        r == spec_artifact_matches(key@, stored_hash@),
{
    if !has_vault_prefix(stored_hash) {
        return false;
    }
    let n = stored_hash.unicode_len();
    let rest = stored_hash.substring_char(7, n);
    let decoded = match hex_decode(rest) {
        Some(v) => v,
        None => {
            return false;
        },
    };
    let data = artifact_input(key);
    let expected = sha256(data.as_slice());
    if decoded.len() != expected.len() {
        return false;
    }
    let m = decoded.len();
    let mut acc: u8 = 0;
    let mut i: usize = 0;
    while i < m
        invariant
            i <= m,
            m == decoded@.len(),
            m == expected@.len(),
            (acc == 0) <==> (forall|j: int| 0 <= j < i ==> decoded@[j] == expected@[j]),
        decreases m - i,
    {
        let a = decoded[i];
        let b = expected[i];
        proof {
            assert((acc | (a ^ b)) == 0 <==> (acc == 0 && a == b)) by (bit_vector);
        }
        acc = acc | (a ^ b);
        i = i + 1;
    }
    proof {
        if acc == 0 {
            assert(decoded@ =~= expected@);
        }
    }
    acc == 0
}

/// Creates the vault: draws a fresh salt, derives the key, persists the
/// salt and artifact as the single record, and returns the key for the
/// caller to install into the session store.
///
/// Fails with `AlreadyExists` on an initialized store, leaving it
/// untouched; an entropy failure is reported and also leaves the store
/// untouched. On success the persisted record is exactly the
/// (hex salt, artifact) pair of the returned key, so an existence check
/// now reports true and a second create fails.
pub fn create_vault(store: &mut VaultStore, password: &str) -> (r: Result<Vec<u8>, AuthError>)
    requires
        password@.len() <= 0x100_0000,
    ensures
        old(store)@ is Some ==> (r matches Err(e) && e is AlreadyExists) && final(store)@ == old(
            store,
        )@,
        old(store)@ is None && r is Err ==> final(store)@ == old(store)@ && (r matches Err(e)
            && e matches AuthError::Crypto(c) && c is RandomError),
        r matches Ok(k) ==> old(store)@ is None && k@.len() == KEY_LEN && (exists|salt: Seq<u8>|
            salt.len() == SALT_LEN && k@ == spec_derived_key(encode_utf8(password@), salt)
                && final(store)@ == Some(spec_created_record(password@, salt))),
{
    if store.vault_exists() {
        return Err(AuthError::AlreadyExists);
    }
    let salt = match generate_salt() {
        Ok(v) => v,
        Err(e) => {
            return Err(AuthError::Crypto(e));
        },
    };
    proof {
        crate::cipher::lemma_encode_utf8_len(password@);
    }
    let key = derive_key(password.as_bytes(), salt.as_slice());
    let artifact = generate_verification_hash(key.as_slice());
    let salt_hex = hex_encode(salt.as_slice());
    store.save_vault(salt_hex, artifact);
    Ok(key)
}

/// Checks a password against one loaded record and, when it matches,
/// returns the re-derived key.
fn check_password(salt_hex: &str, stored: &str, password: &str) -> (r: Result<Vec<u8>, AuthError>)
    requires
        password@.len() <= 0x100_0000,
    ensures
        spec_check(salt_hex@, stored@, password@) is CorruptSalt ==> (r matches Err(e)
            && e matches AuthError::Crypto(c) && c is InvalidFormat),
        spec_check(salt_hex@, stored@, password@) is WrongPassword ==> (r matches Err(e)
            && e is InvalidPassword),
        spec_check(salt_hex@, stored@, password@) matches UnlockOutcome::Granted(k) ==> (
        r matches Ok(v) && v@ == k && k.len() == KEY_LEN),
{
    let salt = match hex_decode(salt_hex) {
        Some(v) => v,
        None => {
            return Err(
                AuthError::Crypto(
                    CryptoError::InvalidFormat(String::from_str("Invalid salt encoding")),
                ),
            );
        },
    };
    if salt.len() != SALT_LEN {
        return Err(
            AuthError::Crypto(CryptoError::InvalidFormat(String::from_str("Invalid salt length"))),
        );
    }
    proof {
        crate::cipher::lemma_encode_utf8_len(password@);
    }
    let key = derive_key(password.as_bytes(), salt.as_slice());
    if !verify_password(key.as_slice(), stored) {
        return Err(AuthError::InvalidPassword);
    }
    Ok(key)
}

/// Unlocks the vault: re-derives a key from the password and the
/// persisted salt, holds it against the artifact, and installs it into
/// the session store.
///
/// Before any create this fails with `NotInitialized`; a corrupt
/// persisted salt is `InvalidFormat`; a mismatch is `InvalidPassword`
/// with the session left exactly as it was — no session is created.
pub fn unlock_vault(store: &VaultStore, password: &str, session: &mut SessionManager) -> (r:
    Result<Vec<u8>, AuthError>)
    requires
        password@.len() <= 0x100_0000,
    ensures
        spec_unlock(store@, password@) is NoVault ==> (r matches Err(e) && e is NotInitialized)
            && final(session)@ == old(session)@,
        spec_unlock(store@, password@) is CorruptSalt ==> (r matches Err(e)
            && e matches AuthError::Crypto(c) && c is InvalidFormat) && final(session)@ == old(
            session,
        )@,
        spec_unlock(store@, password@) is WrongPassword ==> (r matches Err(e)
            && e is InvalidPassword) && final(session)@ == old(session)@,
        spec_unlock(store@, password@) matches UnlockOutcome::Granted(k) ==> (r matches Ok(v)
            && v@ == k && final(session)@ == Some(k)),
{
    let rec = match store.load_vault() {
        Some(rec) => rec,
        None => {
            return Err(AuthError::NotInitialized);
        },
    };
    let key = match check_password(rec.salt_hex.as_str(), rec.verification.as_str(), password) {
        Ok(k) => k,
        Err(e) => {
            return Err(e);
        },
    };
    let key_copy = slice_to_vec(key.as_slice());
    let _ = session.store_session(key_copy);
    Ok(key)
}

/// Changes the master password: verifies the old password exactly as
/// unlock would, with no side effect on failure; on success draws a
/// brand-new salt, persists the new (salt, artifact) record, and — only
/// if a session is active — replaces the session's key with the new one.
/// The previous key is retained nowhere.
pub fn change_password(
    store: &mut VaultStore,
    old_password: &str,
    new_password: &str,
    session: &mut SessionManager,
) -> (r: Result<(), AuthError>)
    requires
        old_password@.len() <= 0x100_0000,
        new_password@.len() <= 0x100_0000,
    ensures
        spec_unlock(old(store)@, old_password@) is NoVault ==> (r matches Err(e)
            && e is NotInitialized) && final(store)@ == old(store)@ && final(session)@ == old(
            session,
        )@,
        spec_unlock(old(store)@, old_password@) is CorruptSalt ==> (r matches Err(e)
            && e matches AuthError::Crypto(c) && c is InvalidFormat) && final(store)@ == old(
            store,
        )@ && final(session)@ == old(session)@,
        spec_unlock(old(store)@, old_password@) is WrongPassword ==> (r matches Err(e)
            && e is InvalidPassword) && final(store)@ == old(store)@ && final(session)@ == old(
            session,
        )@,
        spec_unlock(old(store)@, old_password@) is Granted && r is Err ==> (r matches Err(e)
            && e matches AuthError::Crypto(c) && c is RandomError) && final(store)@ == old(
            store,
        )@ && final(session)@ == old(session)@,
        spec_unlock(old(store)@, old_password@) is Granted && r is Ok ==> (exists|
            new_salt: Seq<u8>,
        |
            new_salt.len() == SALT_LEN && final(store)@ == Some(
                spec_created_record(new_password@, new_salt),
            ) && (old(session)@ is Some ==> final(session)@ == Some(
                spec_derived_key(encode_utf8(new_password@), new_salt),
            )) && (old(session)@ is None ==> final(session)@ is None)),
{
    let (salt_hex, stored_ver) = match store.load_vault() {
        Some(rec) => (rec.salt_hex.clone(), rec.verification.clone()),
        None => {
            return Err(AuthError::NotInitialized);
        },
    };
    let _old_key = match check_password(salt_hex.as_str(), stored_ver.as_str(), old_password) {
        Ok(k) => k,
        Err(e) => {
            return Err(e);
        },
    };
    let new_salt = match generate_salt() {
        Ok(v) => v,
        Err(e) => {
            return Err(AuthError::Crypto(e));
        },
    };
    proof {
        crate::cipher::lemma_encode_utf8_len(new_password@);
    }
    let new_key = derive_key(new_password.as_bytes(), new_salt.as_slice());
    let new_artifact = generate_verification_hash(new_key.as_slice());
    let new_salt_hex = hex_encode(new_salt.as_slice());
    store.save_vault(new_salt_hex, new_artifact);
    if session.has_active_session() {
        let _ = session.store_session(new_key);
    }
    Ok(())
}

/// Logs out: delegates to the session store's clear.
pub fn logout(session: &mut SessionManager) -> (r: Result<(), AuthError>)
    ensures
        final(session)@ is None,
        r is Ok,
{
    session.clear_session()
}

/// The active session key, or `NotLoggedIn`.
pub fn get_session_key(session: &SessionManager) -> (r: Result<Vec<u8>, AuthError>)
    ensures
        session@ matches Some(k) ==> (r matches Ok(v) && v@ == k),
        session@ is None ==> (r matches Err(e) && e is NotLoggedIn),
{
    session.get_session_key()
}

/// Whether a vault has been initialized; the non-failing probe the
/// embedding program uses to choose setup or login.
pub fn check_has_vault(store: &VaultStore) -> (r: Result<bool, AuthError>)
    ensures
        r matches Ok(b) && b == (store@ is Some),
{
    Ok(store.vault_exists())
}

/// An artifact always matches the key it was generated from.
pub proof fn lemma_artifact_self_match(key: Seq<u8>)
    ensures
        spec_artifact_matches(key, spec_artifact(key)),
{
    reveal_strlit("vault1:");
    let h = sha256_of(spec_artifact_input(key));
    lemma_hex_encode_is_hex(h);
    lemma_hex_round_trip(h);
    let a = spec_artifact(key);
    assert(a.subrange(0, 7) =~= "vault1:"@);
    assert(a.subrange(7, a.len() as int) =~= spec_hex_encode(h));
}

/// The record that creating (or changing to) a password persists unlocks
/// with that password to exactly the key that was returned — and, the
/// derivation being deterministic, to the bit-identical key on every
/// later unlock.
pub proof fn lemma_unlock_with_creation_password(password: Seq<char>, salt: Seq<u8>)
    requires
        salt.len() == SALT_LEN,
    ensures
        spec_unlock(Some(spec_created_record(password, salt)), password) == UnlockOutcome::Granted(
            spec_derived_key(encode_utf8(password), salt),
        ),
{
    let key = spec_derived_key(encode_utf8(password), salt);
    lemma_hex_encode_is_hex(salt);
    lemma_hex_round_trip(salt);
    lemma_artifact_self_match(key);
}

} // verus!
