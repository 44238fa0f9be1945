//! Randomness derivation: the pure hash composition that produces the final
//! 32-byte outcome from the committed material.

use vstd::prelude::*;
use vstd::bytes::spec_u32_to_le_bytes;

verus! {

/// The 32-byte digest the hash primitive returns for the given bytes. The
/// digest depends on the input alone; nothing shorter than the primitive
/// itself states which bytes come out.
pub uninterp spec fn digest_of(data: Seq<u8>) -> Seq<u8>;

/// Relies on `solana_program::hash::hash`: the SHA-256 digest of the input,
/// 32 bytes long, a function of the input alone.
#[verifier::external_body]
pub(crate) fn sha256(data: &[u8]) -> (r: [u8; 32])
    ensures
        r@ == digest_of(data@),
{
    solana_program::hash::hash(data).to_bytes()
}

/// The outcome bound to a revealed secret: the digest of the secret, then the
/// entropy anchor, then the little-endian seed, concatenated in that order.
pub open spec fn spec_randomness(secret: Seq<u8>, anchor: Seq<u8>, seed: u32) -> Seq<u8> {
    digest_of(secret + anchor + spec_u32_to_le_bytes(seed))
}

/// Computes the preimage-commitment outcome: `hash(secret ++ anchor ++ le(seed))`.
pub fn derive_randomness(secret: &[u8; 32], anchor: &[u8; 32], seed: u32) -> (r: [u8; 32])
    ensures
        r@ == spec_randomness(secret@, anchor@, seed),
{
    let mut buf: Vec<u8> = Vec::new();
    buf.extend_from_slice(secret.as_slice());
    buf.extend_from_slice(anchor.as_slice());
    let le = vstd::bytes::u32_to_le_bytes(seed);
    buf.extend_from_slice(le.as_slice());
    proof {
        assert(buf@ =~= secret@ + anchor@ + spec_u32_to_le_bytes(seed));
    }
    sha256(buf.as_slice())
}

/// Recomputing the outcome from identical inputs gives the identical digest:
/// the derivation is deterministic in the secret, the anchor, and the seed.
pub proof fn lemma_randomness_deterministic(
    secret1: Seq<u8>,
    anchor1: Seq<u8>,
    seed1: u32,
    secret2: Seq<u8>,
    anchor2: Seq<u8>,
    seed2: u32,
)
    requires
        secret1 == secret2,
        anchor1 == anchor2,
        seed1 == seed2,
    ensures
        spec_randomness(secret1, anchor1, seed1) == spec_randomness(secret2, anchor2, seed2),
{
}

} // verus!
