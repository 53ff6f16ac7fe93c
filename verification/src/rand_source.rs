//! The system's secure entropy source, behind one contracted wrapper.

use vstd::prelude::*;

verus! {

/// Relies on ring::rand::SystemRandom::fill: on success the buffer holds
/// bytes from the operating system's secure entropy source. Nothing is
/// promised about their values; a failure of the source is reported, not
/// masked.
#[verifier::external_body]
pub fn random_bytes(n: usize) -> (r: Option<Vec<u8>>)
    ensures
        r matches Some(v) ==> v@.len() == n,
{
    let mut buf = vec![0u8; n];
    let rng = ring::rand::SystemRandom::new();
    match ring::rand::SecureRandom::fill(&rng, &mut buf) {
        Ok(()) => Some(buf),
        Err(_) => None,
    }
}

} // verus!
