//! Authenticated encryption of byte strings with AES-256-GCM, as `ring`
//! computes it: seal appends a 16-byte tag, open authenticates before it
//! returns a byte of plaintext.

use vstd::prelude::*;

verus! {

/// Length in bytes of the random nonce in front of each ciphertext.
pub const NONCE_LEN: usize = 12;

/// Length in bytes of the authentication tag behind each ciphertext.
pub const TAG_LEN: usize = 16;

/// What AES-256-GCM seal returns (ciphertext with trailing tag) for this
/// key, nonce and plaintext.
pub uninterp spec fn seal_of(key: Seq<u8>, nonce: Seq<u8>, plaintext: Seq<u8>) -> Seq<u8>;

/// What AES-256-GCM open returns for this key, nonce and
/// ciphertext-with-tag: the plaintext, or nothing where authentication
/// fails.
pub uninterp spec fn open_of(key: Seq<u8>, nonce: Seq<u8>, data: Seq<u8>) -> Option<Seq<u8>>;

/// Relies on ring's AES-256-GCM seal_in_place_append_tag: the ciphertext
/// plus 16-byte tag is a function of key, nonce and plaintext alone, and
/// is 16 bytes longer than the plaintext.
#[verifier::external_body]
pub(crate) fn aead_seal(key: &[u8], nonce: &[u8], plaintext: &[u8]) -> (r: Vec<u8>)
    requires
        key@.len() == 32,
        nonce@.len() == 12,
        plaintext@.len() <= 0xFFFF_FFFF,
    ensures
        r@ == seal_of(key@, nonce@, plaintext@),
        r@.len() == plaintext@.len() + 16,
{
    let unbound = ring::aead::UnboundKey::new(&ring::aead::AES_256_GCM, key).unwrap();
    let sealing = ring::aead::LessSafeKey::new(unbound);
    let n = ring::aead::Nonce::try_assume_unique_for_key(nonce).unwrap();
    let mut buf = plaintext.to_vec();
    sealing.seal_in_place_append_tag(n, ring::aead::Aad::empty(), &mut buf).unwrap();
    buf
}

/// Relies on ring's AES-256-GCM open_in_place: authenticates and, only on
/// success, returns the plaintext; opening what seal produced under the
/// same key and nonce gives back exactly the sealed plaintext.
#[verifier::external_body]
pub(crate) fn aead_open(key: &[u8], nonce: &[u8], data: &[u8]) -> (r: Option<Vec<u8>>)
    requires
        key@.len() == 32,
        nonce@.len() == 12,
    ensures
        r is Some <==> open_of(key@, nonce@, data@) is Some,
        r matches Some(v) ==> open_of(key@, nonce@, data@) == Some(v@),
        r is None ==> forall|p: Seq<u8>| data@ != seal_of(key@, nonce@, p),
        r matches Some(v) ==> forall|p: Seq<u8>| data@ == seal_of(key@, nonce@, p) ==> v@ == p,
{
    let unbound = ring::aead::UnboundKey::new(&ring::aead::AES_256_GCM, key).unwrap();
    let opening = ring::aead::LessSafeKey::new(unbound);
    let n = ring::aead::Nonce::try_assume_unique_for_key(nonce).unwrap();
    let mut buf = data.to_vec();
    match opening.open_in_place(n, ring::aead::Aad::empty(), &mut buf) {
        Ok(plain) => {
            let plain_len = plain.len();
            buf.truncate(plain_len);
            Some(buf)
        }
        Err(_) => None,
    }
}

} // verus!
