//! Account values as the user interface exchanges them — decrypted
//! representations, creation and update payloads, search filters and
//! batch requests — and the conversions between them and the persisted
//! model: decryption with identifier rendering on the way out,
//! validation, encryption and identifier parsing on the way in.

use vstd::prelude::*;

use crate::aead::seal_of;
use crate::cipher::{decrypt_field, encrypt_field, spec_encrypted_text, spec_opened, spec_wire_ok};
use crate::db_models::{Account as DbAccount, CreateAccount, Tag as DbTag, UpdateAccount};
use crate::errors::CryptoError;
use crate::kdf::KEY_LEN;
use crate::records::opt_text;
use crate::textnum::{i32_to_string, i64_to_string, parse_i32, parse_i64, spec_i64_text, spec_parse_in_range};
use crate::textutil::{join_comma, spec_join_comma};
use vstd::string::StrSliceExecFns;
use vstd::utf8::{decode_utf8, encode_utf8, valid_utf8};

verus! {

/// An account as the user interface sees it, every sensitive field
/// decrypted.
pub struct Account {
    pub id: String,
    pub raw_import_id: Option<String>,
    pub email: String,
    pub password: String,
    pub recovery_email: Option<String>,
    pub totp_secret: Option<String>,
    pub year: Option<String>,
    pub notes: Option<String>,
    pub group_id: Option<String>,
    pub created_at: String,
    pub updated_at: String,
    pub tags: Vec<Tag>,
}

/// A tag as the user interface sees it, beside an account.
pub struct Tag {
    pub id: String,
    pub name: String,
    pub color: String,
    pub created_at: String,
}

/// Account creation payload from the user interface, all fields
/// plaintext.
pub struct CreateAccountPayload {
    pub raw_import_id: Option<String>,
    pub email: String,
    pub password: String,
    pub recovery_email: Option<String>,
    pub totp_secret: Option<String>,
    pub year: Option<String>,
    pub notes: Option<String>,
    pub group_id: Option<String>,
    pub field_order: Option<Vec<String>>,
}

/// Account update payload from the user interface.
pub struct UpdateAccountPayload {
    pub id: String,
    pub email: Option<String>,
    pub password: Option<String>,
    pub recovery_email: Option<String>,
    pub totp_secret: Option<String>,
    pub year: Option<String>,
    pub notes: Option<String>,
    pub group_id: Option<String>,
    pub field_order: Option<Vec<String>>,
}

/// Search filters for accounts.
pub struct AccountSearchParams {
    pub query: Option<String>,
    pub group_id: Option<String>,
    pub tag_id: Option<String>,
    pub year: Option<String>,
    pub offset: Option<i64>,
    pub limit: Option<i64>,
}

/// A batch delete request.
pub struct BatchDeleteRequest {
    pub ids: Vec<String>,
}

/// A batch update request: one update applied to many accounts.
pub struct BatchUpdateRequest {
    pub ids: Vec<String>,
    pub updates: UpdateAccountPayload,
}

/// Statistics about accounts.
pub struct AccountStats {
    pub total_accounts: i64,
    pub total_groups: i64,
    pub total_tags: i64,
    pub accounts_by_year: Vec<(String, i64)>,
    pub accounts_per_group: Vec<(String, String, i64)>,
}

/// Failure of an account conversion.
#[derive(Debug, Clone)]
pub enum AccountError {
    /// No active session.
    NotLoggedIn,
    /// A cryptographic step failed.
    Crypto(CryptoError),
    /// The payload is not acceptable.
    InvalidInput(String),
    /// No account with the requested identifier exists.
    NotFound(String),
}

/// Whether one stored value decrypts under a key.
pub open spec fn spec_dec_req_ok(s: Seq<char>, key: Seq<u8>) -> bool {
    spec_wire_ok(s) && (spec_opened(s, key) matches Some(b) && valid_utf8(b))
}

/// What one stored value decrypts to on success.
pub open spec fn spec_dec_req_value(s: Seq<char>, key: Seq<u8>) -> Seq<char> {
    decode_utf8(spec_opened(s, key).unwrap())
}

/// Whether an optional stored value, decrypted whenever present,
/// decrypts under a key.
pub open spec fn spec_dec_present_ok(o: Option<String>, key: Seq<u8>) -> bool {
    match o {
        None => true,
        Some(s) => spec_dec_req_ok(s@, key),
    }
}

/// What an optional stored value decrypts to on success.
pub open spec fn spec_dec_present_value(o: Option<String>, key: Seq<u8>) -> Option<Seq<char>> {
    match o {
        None => None,
        Some(s) => Some(spec_dec_req_value(s@, key)),
    }
}

/// An optional 64-bit identifier as decimal text.
pub open spec fn opt_i64_text(v: Option<i64>) -> Option<Seq<char>> {
    match v {
        None => None,
        Some(x) => Some(spec_i64_text(x as int)),
    }
}

/// An optional 32-bit number as decimal text.
pub open spec fn opt_i32_text(v: Option<i32>) -> Option<Seq<char>> {
    match v {
        None => None,
        Some(x) => Some(spec_i64_text(x as int)),
    }
}

/// Converts a persisted account to its user-interface form: every
/// sensitive field is decrypted, every numeric identifier becomes
/// decimal text, and the attached tags are converted alongside.
///
/// Succeeds exactly when every present sensitive field decrypts; the
/// first failure is reported as the cryptographic error it is.
pub fn db_to_frontend_account(db_account: DbAccount, key: &[u8]) -> (r: Result<
    Account,
    AccountError,
>)
    requires
        key@.len() == KEY_LEN,
    ensures
        r is Ok <==> spec_dec_req_ok(db_account.email@, key@) && spec_dec_req_ok(
            db_account.password@,
            key@,
        ) && spec_dec_present_ok(db_account.recovery_email, key@) && spec_dec_present_ok(
            db_account.totp_secret,
            key@,
        ) && spec_dec_present_ok(db_account.notes, key@),
        r matches Ok(out) ==> out.id@ == spec_i64_text(db_account.id as int) && opt_text(
            out.raw_import_id,
        ) == opt_i64_text(db_account.raw_import_id) && out.email@ == spec_dec_req_value(
            db_account.email@,
            key@,
        ) && out.password@ == spec_dec_req_value(db_account.password@, key@) && opt_text(
            out.recovery_email,
        ) == spec_dec_present_value(db_account.recovery_email, key@) && opt_text(out.totp_secret)
            == spec_dec_present_value(db_account.totp_secret, key@) && opt_text(out.notes)
            == spec_dec_present_value(db_account.notes, key@) && opt_text(out.year) == opt_i32_text(
            db_account.year,
        ) && opt_text(out.group_id) == opt_i64_text(db_account.group_id) && out.created_at@
            == db_account.created_at@ && out.updated_at@ == db_account.updated_at@
            && out.tags@.len() == db_account.tags@.len() && (forall|i: int|
            0 <= i < db_account.tags@.len() ==> (#[trigger] out.tags@[i]).id@ == spec_i64_text(
                db_account.tags@[i].id as int,
            ) && out.tags@[i].name@ == db_account.tags@[i].name@ && out.tags@[i].color@
                == db_account.tags@[i].color@ && out.tags@[i].created_at@
                == db_account.tags@[i].created_at@),
        r matches Err(e) ==> e is Crypto,
{
    let email = match decrypt_field(db_account.email.as_str(), key) {
        Ok(v) => v,
        Err(e) => {
            return Err(AccountError::Crypto(e));
        },
    };
    let password = match decrypt_field(db_account.password.as_str(), key) {
        Ok(v) => v,
        Err(e) => {
            return Err(AccountError::Crypto(e));
        },
    };
    let recovery_email = match &db_account.recovery_email {
        Some(enc) => match decrypt_field(enc.as_str(), key) {
            Ok(v) => Some(v),
            Err(e) => {
                return Err(AccountError::Crypto(e));
            },
        },
        None => None,
    };
    let totp_secret = match &db_account.totp_secret {
        Some(enc) => match decrypt_field(enc.as_str(), key) {
            Ok(v) => Some(v),
            Err(e) => {
                return Err(AccountError::Crypto(e));
            },
        },
        None => None,
    };
    let notes = match &db_account.notes {
        Some(enc) => match decrypt_field(enc.as_str(), key) {
            Ok(v) => Some(v),
            Err(e) => {
                return Err(AccountError::Crypto(e));
            },
        },
        None => None,
    };
    let mut tags: Vec<Tag> = Vec::new();
    let tag_count = db_account.tags.len();
    let mut i: usize = 0;
    while i < tag_count
        invariant
            i <= tag_count,
            tag_count == db_account.tags@.len(),
            tags@.len() == i,
            forall|j: int|
                0 <= j < i ==> (#[trigger] tags@[j]).id@ == spec_i64_text(
                    db_account.tags@[j].id as int,
                ) && tags@[j].name@ == db_account.tags@[j].name@ && tags@[j].color@
                    == db_account.tags@[j].color@ && tags@[j].created_at@
                    == db_account.tags@[j].created_at@,
        decreases tag_count - i,
    {
        let t: &DbTag = &db_account.tags[i];
        tags.push(
            Tag {
                id: i64_to_string(t.id),
                name: t.name.clone(),
                color: t.color.clone(),
                created_at: t.created_at.clone(),
            },
        );
        i = i + 1;
    }
    let raw_import_id = match db_account.raw_import_id {
        Some(v) => Some(i64_to_string(v)),
        None => None,
    };
    let year = match db_account.year {
        Some(y) => Some(i32_to_string(y)),
        None => None,
    };
    let group_id = match db_account.group_id {
        Some(v) => Some(i64_to_string(v)),
        None => None,
    };
    Ok(
        Account {
            id: i64_to_string(db_account.id),
            raw_import_id,
            email,
            password,
            recovery_email,
            totp_secret,
            year,
            notes,
            group_id,
            created_at: db_account.created_at,
            updated_at: db_account.updated_at,
            tags,
        },
    )
}

/// Whether stored wire text is some encryption of this plaintext under
/// this key; the sealed bytes carry the 16-byte tag behind the
/// plaintext's encoding, the fact the decrypting side needs.
pub open spec fn spec_enc_req(p: Seq<char>, s: Seq<char>, key: Seq<u8>) -> bool {
    exists|nonce: Seq<u8>|
        nonce.len() == 12 && seal_of(key, nonce, encode_utf8(p)).len() == encode_utf8(p).len() + 16
            && s == spec_encrypted_text(p, key, nonce)
}

/// How an optional payload value is stored: absent or explicitly empty
/// becomes absent, anything else is encrypted.
pub open spec fn spec_enc_opt_skip_empty(plain: Option<String>, stored: Option<Seq<char>>, key: Seq<u8>) -> bool {
    match plain {
        None => stored is None,
        Some(p) => if p@.len() == 0 {
            stored is None
        } else {
            stored matches Some(s) && spec_enc_req(p@, s, key)
        },
    }
}

/// What parsing an optional decimal identifier yields.
pub open spec fn spec_parsed_i64_opt(o: Option<String>) -> Option<int> {
    match o {
        None => None,
        Some(s) => spec_parse_in_range(s@, i64::MIN as int, i64::MAX as int),
    }
}

/// What parsing an optional decimal year yields.
pub open spec fn spec_parsed_i32_opt(o: Option<String>) -> Option<int> {
    match o {
        None => None,
        Some(s) => spec_parse_in_range(s@, i32::MIN as int, i32::MAX as int),
    }
}

/// Whether a stored optional number is the parse's outcome.
pub open spec fn opt_i64_matches(v: Option<i64>, e: Option<int>) -> bool {
    match (v, e) {
        (None, None) => true,
        (Some(a), Some(b)) => a as int == b,
        _ => false,
    }
}

/// Whether a stored optional 32-bit number is the parse's outcome.
pub open spec fn opt_i32_matches(v: Option<i32>, e: Option<int>) -> bool {
    match (v, e) {
        (None, None) => true,
        (Some(a), Some(b)) => a as int == b,
        _ => false,
    }
}

/// The comma-joined text of an optional field-order list.
pub open spec fn spec_field_order_text(o: Option<Vec<String>>) -> Option<Seq<char>> {
    match o {
        None => None,
        Some(v) => Some(spec_join_comma(v.deep_view())),
    }
}

/// Length bound under which an optional payload value can be encrypted.
pub open spec fn spec_payload_opt_bounded(o: Option<String>) -> bool {
    o matches Some(s) ==> s@.len() <= 0x100_0000
}

/// Whether an optional payload value is present and non-empty.
pub open spec fn spec_opt_present_nonempty(o: Option<String>) -> bool {
    o matches Some(s) && s@.len() > 0
}

/// Whether an update payload carries any sensitive value to encrypt —
/// the only case in which converting it draws entropy and so may fail.
pub open spec fn spec_update_has_secret(p: UpdateAccountPayload) -> bool {
    ||| spec_opt_present_nonempty(p.email)
    ||| spec_opt_present_nonempty(p.password)
    ||| spec_opt_present_nonempty(p.recovery_email)
    ||| spec_opt_present_nonempty(p.totp_secret)
    ||| spec_opt_present_nonempty(p.notes)
}

/// Encrypts one optional payload value, storing absent for an absent or
/// explicitly empty value.
fn encrypt_payload_field(field: &Option<String>, key: &[u8]) -> (r: Result<
    Option<String>,
    CryptoError,
>)
    requires
        key@.len() == KEY_LEN,
        spec_payload_opt_bounded(*field),
    ensures
        r matches Ok(o) ==> spec_enc_opt_skip_empty(*field, opt_text(o), key@),
        r matches Err(e) ==> e is NonceGenerationFailed,
        r is Err ==> (*field matches Some(s) && s@.len() > 0),
{
    match field {
        Some(val) => {
            if val.as_str().unicode_len() > 0 {
                match encrypt_field(val.as_str(), key) {
                    Ok(enc) => Ok(Some(enc)),
                    Err(e) => Err(e),
                }
            } else {
                Ok(None)
            }
        },
        None => Ok(None),
    }
}

/// Converts a creation payload to the persisted form: a non-empty email
/// and password are required and encrypted, the optional sensitive
/// values are encrypted or dropped when empty, the identifiers are
/// parsed (unparsable ones become absent), and the field order is
/// joined with commas.
pub fn frontend_to_db_create(payload: CreateAccountPayload, key: &[u8]) -> (r: Result<
    CreateAccount,
    AccountError,
>)
    requires
        key@.len() == KEY_LEN,
        payload.email@.len() <= 0x100_0000,
        payload.password@.len() <= 0x100_0000,
        spec_payload_opt_bounded(payload.recovery_email),
        spec_payload_opt_bounded(payload.totp_secret),
        spec_payload_opt_bounded(payload.notes),
    ensures
        payload.email@.len() == 0 ==> (r matches Err(e) && e is InvalidInput),
        payload.email@.len() > 0 && payload.password@.len() == 0 ==> (r matches Err(e)
            && e is InvalidInput),
        r matches Ok(out) ==> payload.email@.len() > 0 && payload.password@.len() > 0
            && spec_enc_req(payload.email@, out.email@, key@) && spec_enc_req(
            payload.password@,
            out.password@,
            key@,
        ) && spec_enc_opt_skip_empty(payload.recovery_email, opt_text(out.recovery_email), key@)
            && spec_enc_opt_skip_empty(payload.totp_secret, opt_text(out.totp_secret), key@)
            && spec_enc_opt_skip_empty(payload.notes, opt_text(out.notes), key@)
            && opt_i64_matches(out.raw_import_id, spec_parsed_i64_opt(payload.raw_import_id))
            && opt_i64_matches(out.group_id, spec_parsed_i64_opt(payload.group_id))
            && opt_i32_matches(out.year, spec_parsed_i32_opt(payload.year)) && opt_text(
            out.field_order,
        ) == spec_field_order_text(payload.field_order),
        r is Err && payload.email@.len() > 0 && payload.password@.len() > 0 ==> (r matches Err(e)
            && e matches AccountError::Crypto(c) && c is NonceGenerationFailed),
{
    if payload.email.as_str().unicode_len() == 0 {
        return Err(AccountError::InvalidInput(String::from_str("Email is required")));
    }
    if payload.password.as_str().unicode_len() == 0 {
        return Err(AccountError::InvalidInput(String::from_str("Password is required")));
    }
    let email = match encrypt_field(payload.email.as_str(), key) {
        Ok(v) => v,
        Err(e) => {
            return Err(AccountError::Crypto(e));
        },
    };
    let password = match encrypt_field(payload.password.as_str(), key) {
        Ok(v) => v,
        Err(e) => {
            return Err(AccountError::Crypto(e));
        },
    };
    let recovery_email = match encrypt_payload_field(&payload.recovery_email, key) {
        Ok(v) => v,
        Err(e) => {
            return Err(AccountError::Crypto(e));
        },
    };
    let totp_secret = match encrypt_payload_field(&payload.totp_secret, key) {
        Ok(v) => v,
        Err(e) => {
            return Err(AccountError::Crypto(e));
        },
    };
    let notes = match encrypt_payload_field(&payload.notes, key) {
        Ok(v) => v,
        Err(e) => {
            return Err(AccountError::Crypto(e));
        },
    };
    let raw_import_id = match &payload.raw_import_id {
        Some(s) => parse_i64(s.as_str()),
        None => None,
    };
    let group_id = match &payload.group_id {
        Some(s) => parse_i64(s.as_str()),
        None => None,
    };
    let year = match &payload.year {
        Some(s) => parse_i32(s.as_str()),
        None => None,
    };
    let field_order = match &payload.field_order {
        Some(v) => Some(join_comma(v)),
        None => None,
    };
    Ok(
        CreateAccount {
            raw_import_id,
            email,
            password,
            recovery_email,
            totp_secret,
            year,
            notes,
            group_id,
            field_order,
        },
    )
}

/// Converts an update payload to the persisted form: the identifier
/// must parse, and only the provided non-empty sensitive values are
/// encrypted; the rest stay unset.
pub fn frontend_to_db_update(payload: UpdateAccountPayload, key: &[u8]) -> (r: Result<
    UpdateAccount,
    AccountError,
>)
    requires
        key@.len() == KEY_LEN,
        spec_payload_opt_bounded(payload.email),
        spec_payload_opt_bounded(payload.password),
        spec_payload_opt_bounded(payload.recovery_email),
        spec_payload_opt_bounded(payload.totp_secret),
        spec_payload_opt_bounded(payload.notes),
    ensures
        spec_parse_in_range(payload.id@, i64::MIN as int, i64::MAX as int) is None ==> (
        r matches Err(e) && e is InvalidInput),
        r matches Ok(out) ==> spec_parse_in_range(payload.id@, i64::MIN as int, i64::MAX as int)
            == Some(out.id as int) && spec_enc_opt_skip_empty(
            payload.email,
            opt_text(out.email),
            key@,
        ) && spec_enc_opt_skip_empty(payload.password, opt_text(out.password), key@)
            && spec_enc_opt_skip_empty(payload.recovery_email, opt_text(out.recovery_email), key@)
            && spec_enc_opt_skip_empty(payload.totp_secret, opt_text(out.totp_secret), key@)
            && spec_enc_opt_skip_empty(payload.notes, opt_text(out.notes), key@)
            && opt_i64_matches(out.group_id, spec_parsed_i64_opt(payload.group_id))
            && opt_i32_matches(out.year, spec_parsed_i32_opt(payload.year)) && opt_text(
            out.field_order,
        ) == spec_field_order_text(payload.field_order),
        r is Err && spec_parse_in_range(payload.id@, i64::MIN as int, i64::MAX as int) is Some
            ==> (r matches Err(e) && e matches AccountError::Crypto(c)
            && c is NonceGenerationFailed) && spec_update_has_secret(payload),
{
    let id = match parse_i64(payload.id.as_str()) {
        Some(v) => v,
        None => {
            return Err(AccountError::InvalidInput(String::from_str("Invalid account ID")));
        },
    };
    let email = match encrypt_payload_field(&payload.email, key) {
        Ok(v) => v,
        Err(e) => {
            return Err(AccountError::Crypto(e));
        },
    };
    let password = match encrypt_payload_field(&payload.password, key) {
        Ok(v) => v,
        Err(e) => {
            return Err(AccountError::Crypto(e));
        },
    };
    let recovery_email = match encrypt_payload_field(&payload.recovery_email, key) {
        Ok(v) => v,
        Err(e) => {
            return Err(AccountError::Crypto(e));
        },
    };
    let totp_secret = match encrypt_payload_field(&payload.totp_secret, key) {
        Ok(v) => v,
        Err(e) => {
            return Err(AccountError::Crypto(e));
        },
    };
    let notes = match encrypt_payload_field(&payload.notes, key) {
        Ok(v) => v,
        Err(e) => {
            return Err(AccountError::Crypto(e));
        },
    };
    let group_id = match &payload.group_id {
        Some(s) => parse_i64(s.as_str()),
        None => None,
    };
    let year = match &payload.year {
        Some(s) => parse_i32(s.as_str()),
        None => None,
    };
    let field_order = match &payload.field_order {
        Some(v) => Some(join_comma(v)),
        None => None,
    };
    Ok(
        UpdateAccount {
            id,
            email,
            password,
            recovery_email,
            totp_secret,
            year,
            notes,
            group_id,
            field_order,
        },
    )
}

} // verus!
