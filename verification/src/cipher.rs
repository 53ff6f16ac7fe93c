//! Authenticated field-level encryption with a versioned wire format.
//!
//! A non-empty plaintext is sealed under AES-256-GCM with a fresh random
//! 12-byte nonce; the wire text is the version prefix `enc1:` followed by
//! the base64 encoding of nonce, ciphertext and 16-byte tag. Decryption
//! validates the prefix, the base64 text and the minimum length before it
//! authenticates, and tells format errors, authentication failures and
//! invalid text apart. The round-trip law — decrypting an encryption
//! under the same key gives back the plaintext — is part of
//! `decrypt_field`'s contract.

use vstd::prelude::*;

use crate::aead::{aead_open, aead_seal, open_of, seal_of, NONCE_LEN, TAG_LEN};
use crate::b64codec::{b64_decode, b64_decode_of, b64_encode, b64_of};
use crate::errors::CryptoError;
use crate::kdf::KEY_LEN;
use crate::rand_source::random_bytes;
use vstd::slice::slice_subrange;
use vstd::string::{StrSliceExecFns, StringExecFns, StringSliceAdditionalSpecFns};
use vstd::utf8::{decode_utf8, encode_utf8, encode_utf8_decode_utf8, encode_utf8_valid_utf8, valid_utf8};

verus! {

/// The version prefix in front of every encrypted field.
pub open spec fn spec_enc_prefix() -> Seq<char> {
    "enc1:"@
}

/// The wire text that encrypting this plaintext under this key with this
/// nonce produces.
pub open spec fn spec_encrypted_text(plaintext: Seq<char>, key: Seq<u8>, nonce: Seq<u8>) -> Seq<char> {
    spec_enc_prefix() + b64_of(nonce + seal_of(key, nonce, encode_utf8(plaintext)))
}

/// Whether wire text begins with the version prefix.
pub open spec fn spec_has_prefix(s: Seq<char>) -> bool {
    s.len() >= 5 && s.subrange(0, 5) == spec_enc_prefix()
}

/// The text behind the version prefix.
pub open spec fn spec_payload(s: Seq<char>) -> Seq<char> {
    s.subrange(5, s.len() as int)
}

/// The bytes the payload's base64 text denotes, if it is valid.
pub open spec fn spec_wire_data(s: Seq<char>) -> Option<Seq<u8>> {
    b64_decode_of(spec_payload(s))
}

/// Whether wire text is well-formed: prefixed, valid base64, and long
/// enough to hold a nonce and a tag.
pub open spec fn spec_wire_ok(s: Seq<char>) -> bool {
    &&& spec_has_prefix(s)
    &&& spec_wire_data(s) is Some
    &&& spec_wire_data(s).unwrap().len() >= NONCE_LEN + TAG_LEN
}

/// What authenticating well-formed wire text under a key yields.
pub open spec fn spec_opened(s: Seq<char>, key: Seq<u8>) -> Option<Seq<u8>>
    recommends
        spec_wire_ok(s),
{
    let data = spec_wire_data(s).unwrap();
    open_of(key, data.subrange(0, NONCE_LEN as int), data.subrange(NONCE_LEN as int, data.len() as int))
}

/// A UTF-8 encoding is between one and four bytes per character.
pub proof fn lemma_encode_utf8_len(chars: Seq<char>)
    ensures
        chars.len() <= encode_utf8(chars).len() <= 4 * chars.len(),
    decreases chars.len(),
{
    if chars.len() > 0 {
        lemma_encode_utf8_len(chars.drop_first());
    }
}

/// Encrypted wire text parses back into its parts: it carries the prefix,
/// and its payload is the base64 text of nonce and sealed bytes.
pub proof fn lemma_encrypted_text_parses(plaintext: Seq<char>, key: Seq<u8>, nonce: Seq<u8>)
    ensures
        spec_has_prefix(spec_encrypted_text(plaintext, key, nonce)),
        spec_payload(spec_encrypted_text(plaintext, key, nonce))
            == b64_of(nonce + seal_of(key, nonce, encode_utf8(plaintext))),
{
    reveal_strlit("enc1:");
    let body = b64_of(nonce + seal_of(key, nonce, encode_utf8(plaintext)));
    let s = spec_encrypted_text(plaintext, key, nonce);
    assert(s.subrange(0, 5) =~= spec_enc_prefix());
    assert(s.subrange(5, s.len() as int) =~= body);
}

/// Relies on String::from_utf8: succeeds exactly on valid UTF-8 and
/// returns the text those bytes encode.
#[verifier::external_body]
fn bytes_to_string(bytes: Vec<u8>) -> (r: Option<String>)
    ensures
        r is Some <==> valid_utf8(bytes@),
        r matches Some(s) ==> s@ == decode_utf8(bytes@),
{
    match String::from_utf8(bytes) {
        Ok(s) => Some(s),
        Err(_) => None,
    }
}

/// Reports whether a stored value carries the encrypted-field version
/// prefix.
pub fn is_encrypted(value: &str) -> (r: bool)
    ensures
        r == spec_has_prefix(value@),
{
    proof {
        reveal_strlit("enc1:");
    }
    let n = value.unicode_len();
    if n < 5 {
        return false;
    }
    let r = value.get_char(0) == 'e' && value.get_char(1) == 'n' && value.get_char(2) == 'c'
        && value.get_char(3) == '1' && value.get_char(4) == ':';
    proof {
        if r {
            assert(value@.subrange(0, 5) =~= spec_enc_prefix());
        } else {
            if value@.subrange(0, 5) == spec_enc_prefix() {
                assert(value@.subrange(0, 5)[0] == 'e');
                assert(value@.subrange(0, 5)[1] == 'n');
                assert(value@.subrange(0, 5)[2] == 'c');
                assert(value@.subrange(0, 5)[3] == '1');
                assert(value@.subrange(0, 5)[4] == ':');
            }
        }
    }
    r
}

/// Checks that a key has the length this library derives.
pub fn validate_key(key: &[u8]) -> (r: Result<(), CryptoError>)
    ensures
        r is Ok <==> key@.len() == KEY_LEN,
        r matches Err(e) ==> e is InvalidFormat,
{
    if key.len() == KEY_LEN {
        Ok(())
    } else {
        Err(CryptoError::InvalidFormat(String::from_str("Invalid key size")))
    }
}

/// Encrypts one non-empty field value under a 32-byte key.
///
/// A fresh random nonce is drawn for every call, so two encryptions of
/// one plaintext differ; each success is some `spec_encrypted_text` of
/// the plaintext, which `decrypt_field` maps back to it. Empty plaintext
/// is rejected; the only other failure is the entropy source's.
pub fn encrypt_field(plaintext: &str, key: &[u8]) -> (r: Result<String, CryptoError>)
    requires
        key@.len() == KEY_LEN,
        plaintext@.len() <= 0x100_0000,
    ensures
        plaintext@.len() == 0 ==> (r matches Err(e) && e is EmptyField),
        r is Err && plaintext@.len() > 0 ==> (r matches Err(e) && e is NonceGenerationFailed),
        r matches Ok(s) ==> plaintext@.len() > 0 && (exists|nonce: Seq<u8>|
            nonce.len() == NONCE_LEN
                && seal_of(key@, nonce, encode_utf8(plaintext@)).len() == encode_utf8(
                plaintext@,
            ).len() + TAG_LEN && s@ == spec_encrypted_text(plaintext@, key@, nonce)),
{
    if plaintext.unicode_len() == 0 {
        return Err(CryptoError::EmptyField);
    }
    let nonce = match random_bytes(NONCE_LEN) {
        Some(v) => v,
        None => {
            return Err(CryptoError::NonceGenerationFailed);
        },
    };
    let ghost n0 = nonce@;
    proof {
        lemma_encode_utf8_len(plaintext@);
    }
    let pt_bytes = plaintext.as_bytes();
    let mut data = nonce;
    let mut sealed = aead_seal(key, data.as_slice(), pt_bytes);
    data.append(&mut sealed);
    let encoded = b64_encode(data.as_slice());
    let mut out = String::from_str("enc1:");
    out.append(encoded.as_str());
    proof {
        reveal_strlit("enc1:");
        assert(out@ =~= spec_encrypted_text(plaintext@, key@, n0));
    }
    Ok(out)
}

/// Decrypts a field value produced by `encrypt_field`.
///
/// Malformed wire text — missing prefix, invalid base64, or fewer bytes
/// than a nonce and tag — is `InvalidFormat`; an authentication failure
/// (wrong key or tampering) is the opaque `DecryptionFailed`; bytes that
/// authenticate but are not valid text are `InvalidUtf8`. The final
/// clause is the round-trip law: text that encrypting `p` under this key
/// produced decrypts to `p`.
pub fn decrypt_field(encrypted: &str, key: &[u8]) -> (r: Result<String, CryptoError>)
    requires
        key@.len() == KEY_LEN,
    ensures
        !spec_wire_ok(encrypted@) ==> (r matches Err(e) && e is InvalidFormat),
        spec_wire_ok(encrypted@) && spec_opened(encrypted@, key@) is None ==> (r matches Err(e)
            && e is DecryptionFailed),
        spec_wire_ok(encrypted@) && spec_opened(encrypted@, key@) is Some && !valid_utf8(
            spec_opened(encrypted@, key@).unwrap(),
        ) ==> (r matches Err(e) && e is InvalidUtf8),
        spec_wire_ok(encrypted@) && spec_opened(encrypted@, key@) is Some && valid_utf8(
            spec_opened(encrypted@, key@).unwrap(),
        ) ==> (r matches Ok(s) && s@ == decode_utf8(spec_opened(encrypted@, key@).unwrap())),
        forall|p: Seq<char>, nonce: Seq<u8>|
            p.len() > 0 && nonce.len() == NONCE_LEN && seal_of(key@, nonce, encode_utf8(p)).len()
                == encode_utf8(p).len() + TAG_LEN && encrypted@ == spec_encrypted_text(
                p,
                key@,
                nonce,
            ) ==> (r matches Ok(s) && s@ == p),
{
    broadcast use encode_utf8_valid_utf8, encode_utf8_decode_utf8;

    if !is_encrypted(encrypted) {
        proof {
            assert forall|p: Seq<char>, nonce: Seq<u8>|
                nonce.len() == NONCE_LEN && encrypted@ == spec_encrypted_text(
                    p,
                    key@,
                    nonce,
                ) implies false by {
                lemma_encrypted_text_parses(p, key@, nonce);
            }
        }
        return Err(CryptoError::InvalidFormat(String::from_str("Missing version prefix")));
    }
    let n = encrypted.unicode_len();
    let payload = encrypted.substring_char(5, n);
    assert(payload@ == spec_payload(encrypted@));
    let data = match b64_decode(payload) {
        Some(d) => d,
        None => {
            proof {
                assert forall|p: Seq<char>, nonce: Seq<u8>|
                    nonce.len() == NONCE_LEN && encrypted@ == spec_encrypted_text(
                        p,
                        key@,
                        nonce,
                    ) implies false by {
                    lemma_encrypted_text_parses(p, key@, nonce);
                }
            }
            return Err(CryptoError::InvalidFormat(String::from_str("Invalid base64")));
        },
    };
    if data.len() < NONCE_LEN + TAG_LEN {
        proof {
            assert forall|p: Seq<char>, nonce: Seq<u8>|
                p.len() > 0 && nonce.len() == NONCE_LEN && seal_of(
                    key@,
                    nonce,
                    encode_utf8(p),
                ).len() == encode_utf8(p).len() + TAG_LEN && encrypted@ == spec_encrypted_text(
                    p,
                    key@,
                    nonce,
                ) implies false by {
                lemma_encrypted_text_parses(p, key@, nonce);
                lemma_encode_utf8_len(p);
                assert(data@ == nonce + seal_of(key@, nonce, encode_utf8(p)));
            }
        }
        return Err(CryptoError::InvalidFormat(String::from_str("Encrypted data too short")));
    }
    let nonce_part = slice_subrange(data.as_slice(), 0, NONCE_LEN);
    let body_part = slice_subrange(data.as_slice(), NONCE_LEN, data.len());
    let opened = match aead_open(key, nonce_part, body_part) {
        Some(v) => v,
        None => {
            proof {
                assert forall|p: Seq<char>, nonce: Seq<u8>|
                    p.len() > 0 && nonce.len() == NONCE_LEN && seal_of(
                        key@,
                        nonce,
                        encode_utf8(p),
                    ).len() == encode_utf8(p).len() + TAG_LEN && encrypted@
                        == spec_encrypted_text(p, key@, nonce) implies false by {
                    lemma_encrypted_text_parses(p, key@, nonce);
                    assert(data@ == nonce + seal_of(key@, nonce, encode_utf8(p)));
                    assert(nonce_part@ =~= nonce);
                    assert(body_part@ =~= seal_of(key@, nonce, encode_utf8(p)));
                }
            }
            return Err(
                CryptoError::DecryptionFailed(String::from_str("authentication failed")),
            );
        },
    };
    let ghost opened_view = opened@;
    match bytes_to_string(opened) {
        Some(s) => {
            proof {
                assert forall|p: Seq<char>, nonce: Seq<u8>|
                    p.len() > 0 && nonce.len() == NONCE_LEN && seal_of(
                        key@,
                        nonce,
                        encode_utf8(p),
                    ).len() == encode_utf8(p).len() + TAG_LEN && encrypted@
                        == spec_encrypted_text(p, key@, nonce) implies s@ == p by {
                    lemma_encrypted_text_parses(p, key@, nonce);
                    assert(data@ == nonce + seal_of(key@, nonce, encode_utf8(p)));
                    assert(nonce_part@ =~= nonce);
                    assert(body_part@ =~= seal_of(key@, nonce, encode_utf8(p)));
                    assert(opened_view == encode_utf8(p));
                }
            }
            Ok(s)
        },
        None => {
            proof {
                assert forall|p: Seq<char>, nonce: Seq<u8>|
                    p.len() > 0 && nonce.len() == NONCE_LEN && seal_of(
                        key@,
                        nonce,
                        encode_utf8(p),
                    ).len() == encode_utf8(p).len() + TAG_LEN && encrypted@
                        == spec_encrypted_text(p, key@, nonce) implies false by {
                    lemma_encrypted_text_parses(p, key@, nonce);
                    assert(data@ == nonce + seal_of(key@, nonce, encode_utf8(p)));
                    assert(nonce_part@ =~= nonce);
                    assert(body_part@ =~= seal_of(key@, nonce, encode_utf8(p)));
                    assert(opened_view == encode_utf8(p));
                    assert(valid_utf8(opened_view));
                }
            }
            Err(CryptoError::InvalidUtf8)
        },
    }
}

} // verus!
