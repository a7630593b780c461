//! Random bytes drawn from the thread-local generator of `rand`.
use vstd::prelude::*;

verus! {

/// A uniformly random byte (`rand::random`); nothing is known of its value.
#[verifier::external_body]
pub(crate) fn random_byte() -> u8 {
    rand::random()
}

/// `n` random bytes from the thread-local generator (`RngCore::fill_bytes`
/// on `rand::rng()`); only their number is known.
#[verifier::external_body]
pub(crate) fn random_bytes(n: usize) -> (r: Vec<u8>)
    ensures
        r@.len() == n,
{
    let mut bytes = vec![0u8; n];
    rand::RngCore::fill_bytes(&mut rand::rng(), &mut bytes);
    bytes
}

} // verus!
