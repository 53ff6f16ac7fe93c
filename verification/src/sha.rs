//! SHA-256, as `ring::digest` computes it.

use vstd::prelude::*;

verus! {

/// What SHA-256 returns for this input.
pub uninterp spec fn sha256_of(data: Seq<u8>) -> Seq<u8>;

/// Relies on ring::digest::digest with SHA-256: a 32-byte digest that is
/// a function of the input bytes alone.
#[verifier::external_body]
pub fn sha256(data: &[u8]) -> (r: Vec<u8>)
    requires
        data@.len() <= 0x1000_0000_0000,
    ensures
        r@ == sha256_of(data@),
        r@.len() == 32,
{
    let digest = ring::digest::digest(&ring::digest::SHA256, data);
    digest.as_ref().to_vec()
}

} // verus!
