//! Encryption and decryption of an account's sensitive fields.
//!
//! Absent optional values stay absent, an explicitly present-but-empty
//! value passes through unencrypted (the stored form of "user cleared
//! this field"), and every non-empty sensitive value is encrypted. The
//! non-sensitive fields pass through unchanged.

use vstd::prelude::*;

use crate::aead::seal_of;
use crate::cipher::{
    decrypt_field, encrypt_field, spec_encrypted_text, spec_opened, spec_wire_ok,
};
use crate::errors::CryptoError;
use crate::kdf::KEY_LEN;
use vstd::string::StrSliceExecFns;
use vstd::utf8::{decode_utf8, encode_utf8, valid_utf8};

verus! {

/// An account as the encryption layer sees it: the sensitive attributes
/// (email, password, recovery email, TOTP secret, notes) beside the
/// plain ones.
pub struct AccountFields {
    /// Unique identifier for the account.
    pub id: String,
    /// Reference to the raw import this account came from.
    pub raw_import_id: Option<String>,
    /// The primary email address (sensitive).
    pub email: Option<String>,
    /// The password (sensitive).
    pub password: Option<String>,
    /// The recovery email address (sensitive).
    pub recovery_email: Option<String>,
    /// The TOTP second-factor secret (sensitive).
    pub totp_secret: Option<String>,
    /// The year associated with the account (plain).
    pub year: Option<String>,
    /// Additional notes (sensitive).
    pub notes: Option<String>,
    /// The group this account belongs to (plain).
    pub group_id: Option<String>,
    /// Timestamp when the account was created (plain).
    pub created_at: String,
    /// Timestamp when the account was last updated (plain).
    pub updated_at: String,
}

/// The text of an optional string value.
pub open spec fn opt_text(o: Option<String>) -> Option<Seq<char>> {
    match o {
        Some(s) => Some(s@),
        None => None,
    }
}

/// How one stored optional value relates to its plaintext under
/// encryption: absent stays absent, explicitly empty passes through
/// unencrypted, and a non-empty value becomes some encrypted text of it
/// (whose sealed bytes carry the 16-byte tag behind the plaintext's
/// encoding, the fact the decrypting side needs to re-parse it).
pub open spec fn spec_enc_opt_rel(plain: Option<Seq<char>>, stored: Option<Seq<char>>, key: Seq<u8>) -> bool {
    match plain {
        None => stored is None,
        Some(p) => if p.len() == 0 {
            stored == Some(p)
        } else {
            stored matches Some(s) && (exists|nonce: Seq<u8>|
                nonce.len() == 12 && seal_of(key, nonce, encode_utf8(p)).len() == encode_utf8(
                    p,
                ).len() + 16 && s == spec_encrypted_text(p, key, nonce))
        },
    }
}

/// Whether decrypting one stored optional value succeeds under a key.
pub open spec fn spec_dec_opt_succeeds(stored: Option<Seq<char>>, key: Seq<u8>) -> bool {
    match stored {
        None => true,
        Some(s) => if s.len() == 0 {
            true
        } else {
            spec_wire_ok(s) && (spec_opened(s, key) matches Some(b) && valid_utf8(b))
        },
    }
}

/// What decrypting one stored optional value yields on success.
pub open spec fn spec_dec_opt_rel(stored: Option<Seq<char>>, out: Option<Seq<char>>, key: Seq<u8>) -> bool {
    match stored {
        None => out is None,
        Some(s) => if s.len() == 0 {
            out == Some(s)
        } else {
            out matches Some(t) && spec_opened(s, key) matches Some(b) && t == decode_utf8(b)
        },
    }
}

/// Length bound under which a field value can be encrypted.
pub open spec fn spec_opt_bounded(o: Option<String>) -> bool {
    o matches Some(s) ==> s@.len() <= 0x100_0000
}

/// Encrypts an optional field value: `None` stays `None`, an empty
/// string passes through unencrypted, and anything else is encrypted.
pub fn encrypt_optional_field(field: &Option<String>, key: &[u8]) -> (r: Result<
    Option<String>,
    CryptoError,
>)
    requires
        key@.len() == KEY_LEN,
        spec_opt_bounded(*field),
    ensures
        r matches Ok(o) ==> spec_enc_opt_rel(opt_text(*field), opt_text(o), key@),
        r is Err ==> (r matches Err(e) && e is NonceGenerationFailed),
        r is Err ==> (*field matches Some(s) && s@.len() > 0),
{
    match field {
        None => Ok(None),
        Some(s) => {
            if s.as_str().unicode_len() == 0 {
                Ok(Some(s.clone()))
            } else {
                match encrypt_field(s.as_str(), key) {
                    Ok(enc) => Ok(Some(enc)),
                    Err(e) => Err(e),
                }
            }
        },
    }
}

/// Decrypts an optional field value: `None` stays `None`, an empty
/// string passes through, and anything else is decrypted.
pub fn decrypt_optional_field(field: &Option<String>, key: &[u8]) -> (r: Result<
    Option<String>,
    CryptoError,
>)
    requires
        key@.len() == KEY_LEN,
    ensures
        r is Ok <==> spec_dec_opt_succeeds(opt_text(*field), key@),
        r matches Ok(o) ==> spec_dec_opt_rel(opt_text(*field), opt_text(o), key@),
        r matches Err(e) ==> (e is InvalidFormat || e is DecryptionFailed || e is InvalidUtf8),
        forall|p: Option<Seq<char>>|
            #[trigger] spec_enc_opt_rel(p, opt_text(*field), key@) ==> (r matches Ok(o)
                && opt_text(o) == p),
{
    proof {
        reveal_strlit("enc1:");
    }
    match field {
        None => Ok(None),
        Some(s) => {
            if s.as_str().unicode_len() == 0 {
                Ok(Some(s.clone()))
            } else {
                match decrypt_field(s.as_str(), key) {
                    Ok(plain) => Ok(Some(plain)),
                    Err(e) => Err(e),
                }
            }
        },
    }
}

/// The non-sensitive fields pass through unchanged.
pub open spec fn spec_unchanged_meta(a: AccountFields, b: AccountFields) -> bool {
    &&& b.id@ == a.id@
    &&& opt_text(b.raw_import_id) == opt_text(a.raw_import_id)
    &&& opt_text(b.year) == opt_text(a.year)
    &&& opt_text(b.group_id) == opt_text(a.group_id)
    &&& b.created_at@ == a.created_at@
    &&& b.updated_at@ == a.updated_at@
}

/// How an encrypted account relates to its plaintext account.
pub open spec fn spec_account_encrypted(a: AccountFields, b: AccountFields, key: Seq<u8>) -> bool {
    &&& spec_unchanged_meta(a, b)
    &&& spec_enc_opt_rel(opt_text(a.email), opt_text(b.email), key)
    &&& spec_enc_opt_rel(opt_text(a.password), opt_text(b.password), key)
    &&& spec_enc_opt_rel(opt_text(a.recovery_email), opt_text(b.recovery_email), key)
    &&& spec_enc_opt_rel(opt_text(a.totp_secret), opt_text(b.totp_secret), key)
    &&& spec_enc_opt_rel(opt_text(a.notes), opt_text(b.notes), key)
}

/// Whether decrypting every sensitive field of an account succeeds.
pub open spec fn spec_account_dec_succeeds(a: AccountFields, key: Seq<u8>) -> bool {
    &&& spec_dec_opt_succeeds(opt_text(a.email), key)
    &&& spec_dec_opt_succeeds(opt_text(a.password), key)
    &&& spec_dec_opt_succeeds(opt_text(a.recovery_email), key)
    &&& spec_dec_opt_succeeds(opt_text(a.totp_secret), key)
    &&& spec_dec_opt_succeeds(opt_text(a.notes), key)
}

/// How a decrypted account relates to its stored account.
pub open spec fn spec_account_decrypted(a: AccountFields, b: AccountFields, key: Seq<u8>) -> bool {
    &&& spec_unchanged_meta(a, b)
    &&& spec_dec_opt_rel(opt_text(a.email), opt_text(b.email), key)
    &&& spec_dec_opt_rel(opt_text(a.password), opt_text(b.password), key)
    &&& spec_dec_opt_rel(opt_text(a.recovery_email), opt_text(b.recovery_email), key)
    &&& spec_dec_opt_rel(opt_text(a.totp_secret), opt_text(b.totp_secret), key)
    &&& spec_dec_opt_rel(opt_text(a.notes), opt_text(b.notes), key)
}

/// Whether any sensitive field is present and non-empty — the only
/// inputs on which encrypting an account draws entropy and so may fail.
pub open spec fn spec_account_has_secret(a: AccountFields) -> bool {
    ||| (a.email matches Some(s) && s@.len() > 0)
    ||| (a.password matches Some(s) && s@.len() > 0)
    ||| (a.recovery_email matches Some(s) && s@.len() > 0)
    ||| (a.totp_secret matches Some(s) && s@.len() > 0)
    ||| (a.notes matches Some(s) && s@.len() > 0)
}

/// Length bound under which an account can be encrypted.
pub open spec fn spec_account_bounded(a: AccountFields) -> bool {
    &&& spec_opt_bounded(a.email)
    &&& spec_opt_bounded(a.password)
    &&& spec_opt_bounded(a.recovery_email)
    &&& spec_opt_bounded(a.totp_secret)
    &&& spec_opt_bounded(a.notes)
}

/// Encrypts an account's sensitive fields, leaving the rest unchanged.
pub fn encrypt_account_fields(account: &AccountFields, key: &[u8]) -> (r: Result<
    AccountFields,
    CryptoError,
>)
    requires
        key@.len() == KEY_LEN,
        spec_account_bounded(*account),
    ensures
        r matches Ok(out) ==> spec_account_encrypted(*account, out, key@),
        r is Err ==> (r matches Err(e) && e is NonceGenerationFailed),
        r is Err ==> spec_account_has_secret(*account),
{
    let email = match encrypt_optional_field(&account.email, key) {
        Ok(v) => v,
        Err(e) => {
            return Err(e);
        },
    };
    let password = match encrypt_optional_field(&account.password, key) {
        Ok(v) => v,
        Err(e) => {
            return Err(e);
        },
    };
    let recovery_email = match encrypt_optional_field(&account.recovery_email, key) {
        Ok(v) => v,
        Err(e) => {
            return Err(e);
        },
    };
    let totp_secret = match encrypt_optional_field(&account.totp_secret, key) {
        Ok(v) => v,
        Err(e) => {
            return Err(e);
        },
    };
    let notes = match encrypt_optional_field(&account.notes, key) {
        Ok(v) => v,
        Err(e) => {
            return Err(e);
        },
    };
    Ok(
        AccountFields {
            id: account.id.clone(),
            raw_import_id: account.raw_import_id.clone(),
            email,
            password,
            recovery_email,
            totp_secret,
            year: account.year.clone(),
            notes,
            group_id: account.group_id.clone(),
            created_at: account.created_at.clone(),
            updated_at: account.updated_at.clone(),
        },
    )
}

/// Decrypts an account's sensitive fields, leaving the rest unchanged.
pub fn decrypt_account_fields(account: &AccountFields, key: &[u8]) -> (r: Result<
    AccountFields,
    CryptoError,
>)
    requires
        key@.len() == KEY_LEN,
    ensures
        r is Ok <==> spec_account_dec_succeeds(*account, key@),
        r matches Ok(out) ==> spec_account_decrypted(*account, out, key@),
        r matches Err(e) ==> (e is InvalidFormat || e is DecryptionFailed || e is InvalidUtf8),
        forall|plain: AccountFields|
            #[trigger] spec_account_encrypted(plain, *account, key@) ==> (r matches Ok(out)
                && opt_text(out.email) == opt_text(plain.email) && opt_text(out.password)
                == opt_text(plain.password) && opt_text(out.recovery_email) == opt_text(
                plain.recovery_email,
            ) && opt_text(out.totp_secret) == opt_text(plain.totp_secret) && opt_text(out.notes)
                == opt_text(plain.notes)),
{
    let email = match decrypt_optional_field(&account.email, key) {
        Ok(v) => v,
        Err(e) => {
            return Err(e);
        },
    };
    let password = match decrypt_optional_field(&account.password, key) {
        Ok(v) => v,
        Err(e) => {
            return Err(e);
        },
    };
    let recovery_email = match decrypt_optional_field(&account.recovery_email, key) {
        Ok(v) => v,
        Err(e) => {
            return Err(e);
        },
    };
    let totp_secret = match decrypt_optional_field(&account.totp_secret, key) {
        Ok(v) => v,
        Err(e) => {
            return Err(e);
        },
    };
    let notes = match decrypt_optional_field(&account.notes, key) {
        Ok(v) => v,
        Err(e) => {
            return Err(e);
        },
    };
    Ok(
        AccountFields {
            id: account.id.clone(),
            raw_import_id: account.raw_import_id.clone(),
            email,
            password,
            recovery_email,
            totp_secret,
            year: account.year.clone(),
            notes,
            group_id: account.group_id.clone(),
            created_at: account.created_at.clone(),
            updated_at: account.updated_at.clone(),
        },
    )
}

/// Encrypts many accounts under one key, stopping at the first failure.
pub fn encrypt_accounts(accounts: Vec<AccountFields>, key: &[u8]) -> (r: Result<
    Vec<AccountFields>,
    CryptoError,
>)
    requires
        key@.len() == KEY_LEN,
        forall|i: int| 0 <= i < accounts@.len() ==> spec_account_bounded(#[trigger] accounts@[i]),
    ensures
        r matches Ok(out) ==> out@.len() == accounts@.len() && (forall|i: int|
            0 <= i < accounts@.len() ==> spec_account_encrypted(
                accounts@[i],
                #[trigger] out@[i],
                key@,
            )),
        r is Err ==> (r matches Err(e) && e is NonceGenerationFailed),
        r is Err ==> exists|i: int|
            0 <= i < accounts@.len() && spec_account_has_secret(#[trigger] accounts@[i]),
{
    let mut out: Vec<AccountFields> = Vec::new();
    let n = accounts.len();
    let mut i: usize = 0;
    while i < n
        invariant
            i <= n,
            n == accounts@.len(),
            out@.len() == i,
            key@.len() == KEY_LEN,
            forall|j: int| 0 <= j < n ==> spec_account_bounded(#[trigger] accounts@[j]),
            forall|j: int|
                0 <= j < i ==> spec_account_encrypted(accounts@[j], #[trigger] out@[j], key@),
        decreases n - i,
    {
        let enc = match encrypt_account_fields(&accounts[i], key) {
            Ok(v) => v,
            Err(e) => {
                return Err(e);
            },
        };
        out.push(enc);
        i = i + 1;
    }
    Ok(out)
}

/// Decrypts many accounts under one key, stopping at the first failure.
pub fn decrypt_accounts(accounts: Vec<AccountFields>, key: &[u8]) -> (r: Result<
    Vec<AccountFields>,
    CryptoError,
>)
    requires
        key@.len() == KEY_LEN,
    ensures
        r matches Ok(out) ==> out@.len() == accounts@.len() && (forall|i: int|
            0 <= i < accounts@.len() ==> spec_account_decrypted(
                accounts@[i],
                #[trigger] out@[i],
                key@,
            )),
        r is Err ==> exists|i: int|
            0 <= i < accounts@.len() && !spec_account_dec_succeeds(#[trigger] accounts@[i], key@),
        r matches Err(e) ==> (e is InvalidFormat || e is DecryptionFailed || e is InvalidUtf8),
{
    let mut out: Vec<AccountFields> = Vec::new();
    let n = accounts.len();
    let mut i: usize = 0;
    while i < n
        invariant
            i <= n,
            n == accounts@.len(),
            out@.len() == i,
            key@.len() == KEY_LEN,
            forall|j: int|
                0 <= j < i ==> spec_account_decrypted(accounts@[j], #[trigger] out@[j], key@),
        decreases n - i,
    {
        let dec = match decrypt_account_fields(&accounts[i], key) {
            Ok(v) => v,
            Err(e) => {
                return Err(e);
            },
        };
        out.push(dec);
        i = i + 1;
    }
    Ok(out)
}

} // verus!
