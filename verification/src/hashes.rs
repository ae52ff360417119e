//! The two digests used by address derivation, as named external primitives.

use vstd::prelude::*;

verus! {

/// What the HASH160 digest (RIPEMD-160 of SHA-256) returns for the input
/// bytes; a function of the bytes alone.
pub uninterp spec fn hash160_of(s: Seq<u8>) -> Seq<u8>;

/// What the SHA-256 digest returns for the input bytes; a function of the
/// bytes alone.
pub uninterp spec fn sha256_of(s: Seq<u8>) -> Seq<u8>;

/// Relies on bitcoin_hashes `hash160::Hash::hash`: a 20-byte digest,
/// determined by the input bytes alone.
#[verifier::external_body]
pub(crate) fn hash160(b: &[u8]) -> (r: Vec<u8>)
    ensures
        r@ == hash160_of(b@),
        r@.len() == 20,
{
    let h = <bitcoin::hashes::hash160::Hash as bitcoin::hashes::Hash>::hash(b);
    <bitcoin::hashes::hash160::Hash as bitcoin::hashes::Hash>::into_inner(h).to_vec()
}

/// Relies on bitcoin_hashes `sha256::Hash::hash`: a 32-byte digest,
/// determined by the input bytes alone.
#[verifier::external_body]
pub(crate) fn sha256(b: &[u8]) -> (r: Vec<u8>)
    ensures
        r@ == sha256_of(b@),
        r@.len() == 32,
{
    let h = <bitcoin::hashes::sha256::Hash as bitcoin::hashes::Hash>::hash(b);
    <bitcoin::hashes::sha256::Hash as bitcoin::hashes::Hash>::into_inner(h).to_vec()
}

} // verus!
