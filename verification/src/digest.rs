//! The Keccak-256 hash, computed by the `sha3` crate.

use sha3::Digest;
use vstd::prelude::*;

verus! {

/// The Keccak-256 hash of `data`: what `sha3::Keccak256` computes. It is a
/// function of the input bytes alone and always 32 bytes long.
pub uninterp spec fn keccak256(data: Seq<u8>) -> Seq<u8>;

/// `sha3::Keccak256::digest`: the 32-byte Keccak-256 hash of `data`.
#[verifier::external_body]
pub(crate) fn keccak256_digest(data: &[u8]) -> (r: Vec<u8>)
    ensures
        r@ == keccak256(data@),
        r@.len() == 32,
{
    sha3::Keccak256::digest(data).to_vec()
}

} // verus!
