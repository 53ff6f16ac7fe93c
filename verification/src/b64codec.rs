//! Base64 encoding of byte strings, as the `base64` crate's standard
//! padded engine computes it.
//!
//! The exact text of an encoding is named rather than re-specified
//! (`b64_of`, `b64_decode_of`); the wrappers' contracts carry the one
//! documented fact the callers need, that decoding an encoding gives the
//! bytes back.

use vstd::prelude::*;

use base64::Engine;

verus! {

/// What the standard padded base64 encoding returns for these bytes.
pub uninterp spec fn b64_of(bytes: Seq<u8>) -> Seq<char>;

/// What the standard padded base64 decoding returns for this text:
/// the decoded bytes, or nothing where the text is not a valid encoding.
pub uninterp spec fn b64_decode_of(s: Seq<char>) -> Option<Seq<u8>>;

/// Relies on base64's STANDARD engine encode: the output text is a
/// function of the input bytes alone.
#[verifier::external_body]
pub fn b64_encode(bytes: &[u8]) -> (r: String)
    requires
        bytes@.len() <= 0x1000_0000,
    ensures
        r@ == b64_of(bytes@),
{
    base64::engine::general_purpose::STANDARD.encode(bytes)
}

/// Relies on base64's STANDARD engine decode: the outcome is a function
/// of the input text alone, and decoding what encode produced gives back
/// exactly the encoded bytes. The crate reads the text's bytes; those
/// are a function of its characters, so naming the outcome over
/// characters is sound.
#[verifier::external_body]
pub fn b64_decode(s: &str) -> (r: Option<Vec<u8>>)
    ensures
        r is Some <==> b64_decode_of(s@) is Some,
        r matches Some(v) ==> b64_decode_of(s@) == Some(v@),
        r is None ==> forall|b: Seq<u8>| s@ != b64_of(b),
        r matches Some(v) ==> forall|b: Seq<u8>| s@ == b64_of(b) ==> v@ == b,
{
    match base64::engine::general_purpose::STANDARD.decode(s) {
        Ok(v) => Some(v),
        Err(_) => None,
    }
}

} // verus!
