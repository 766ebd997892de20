use vstd::prelude::*;
use crate::party::PartyId;

verus! {

/// The Keccak-256 digest of a byte sequence, as computed by the host's
/// hashing primitive. The digest is a function of the input bytes alone; it
/// is left uninterpreted here, and contracts relate the results of the
/// hashing wrappers below to this name.
pub uninterp spec fn keccak256(data: Seq<u8>) -> Seq<u8>;

/// The little-endian 8-byte encoding of a 64-bit integer.
pub open spec fn u64_le_bytes(x: u64) -> Seq<u8> {
    seq![
        (x & 0xff) as u8,
        ((x >> 8) & 0xff) as u8,
        ((x >> 16) & 0xff) as u8,
        ((x >> 24) & 0xff) as u8,
        ((x >> 32) & 0xff) as u8,
        ((x >> 40) & 0xff) as u8,
        ((x >> 48) & 0xff) as u8,
        ((x >> 56) & 0xff) as u8,
    ]
}

/// The leaf digest committing one eligible (party, amount) pair: the hash of
/// the party's identity bytes followed by the amount in little-endian
/// encoding. Binding the amount into the leaf is what keeps a claimant with
/// a valid membership proof from requesting a different amount.
pub open spec fn leaf_hash(party: Seq<u8>, amount: u64) -> Seq<u8> {
    keccak256(party + u64_le_bytes(amount))
}

/// The digest of an ordered pair of digests, used to combine two Merkle
/// siblings into their parent.
pub open spec fn pair_hash(left: Seq<u8>, right: Seq<u8>) -> Seq<u8> {
    keccak256(left + right)
}

/// Relies on `solana_keccak_hasher::hashv` (reached as
/// `anchor_lang::solana_program::keccak::hashv`): it returns the Keccak-256
/// digest of the concatenation of the given byte slices — here, the party's
/// identity bytes followed by `amount.to_le_bytes()`.
#[verifier::external_body]
#[allow(deprecated)]
pub(crate) fn hash_leaf(party: &PartyId, amount: u64) -> (r: [u8; 32])
    ensures
        r@ == keccak256(party@ + u64_le_bytes(amount)),
{
    let digest = anchor_lang::solana_program::keccak::hashv(&[
        &party.bytes,
        &amount.to_le_bytes(),
    ]);
    digest.0
}

/// Relies on `solana_keccak_hasher::hashv` (reached as
/// `anchor_lang::solana_program::keccak::hashv`): it returns the Keccak-256
/// digest of the concatenation of the given byte slices — here, `a`
/// followed by `b`.
#[verifier::external_body]
#[allow(deprecated)]
pub(crate) fn hash_pair(a: &[u8; 32], b: &[u8; 32]) -> (r: [u8; 32])
    ensures
        r@ == keccak256(a@ + b@),
{
    let digest = anchor_lang::solana_program::keccak::hashv(&[a, b]);
    digest.0
}

} // verus!
