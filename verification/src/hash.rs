//! SHA-256 digests, delegated to the host's hashing primitive.

use vstd::prelude::*;

verus! {

/// The SHA-256 digest of a byte sequence. The digest function itself is not
/// modeled; contracts relate digests only by equality of their inputs.
pub uninterp spec fn sha256_of(b: Seq<u8>) -> Seq<u8>;

/// Relies on anchor_lang::solana_program::hash::hash: the SHA-256 digest of
/// the input, a 32-byte value determined by the input bytes alone.
#[verifier::external_body]
pub(crate) fn sha256(input: &[u8]) -> (r: Vec<u8>)
    ensures
        r@ == sha256_of(input@),
        r@.len() == 32,
{
    anchor_lang::solana_program::hash::hash(input).to_bytes().to_vec()
}

} // verus!
