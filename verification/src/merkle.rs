use vstd::prelude::*;
use crate::hash::{hash_pair, pair_hash};
use crate::party::bytes32_eq;

verus! {

/// Lexicographic order on byte sequences, compared from position `i` on.
pub open spec fn lex_le_from(a: Seq<u8>, b: Seq<u8>, i: int) -> bool
    decreases a.len() - i,
{
    if i < 0 || i >= a.len() {
        true
    } else if i >= b.len() {
        false
    } else if a[i] < b[i] {
        true
    } else if a[i] > b[i] {
        false
    } else {
        lex_le_from(a, b, i + 1)
    }
}

/// Lexicographic "less than or equal" on byte sequences.
pub open spec fn lex_le(a: Seq<u8>, b: Seq<u8>) -> bool {
    lex_le_from(a, b, 0)
}

/// The canonical, order-insensitive combination of two sibling digests: the
/// pair is ordered lexicographically before hashing, so the combiner gives
/// the same parent whichever of the two stood left in the tree.
pub open spec fn combine(x: Seq<u8>, y: Seq<u8>) -> Seq<u8> {
    if lex_le(x, y) {
        pair_hash(x, y)
    } else {
        pair_hash(y, x)
    }
}

/// The digest reached from `node` by folding in the sibling digests of
/// `proof` from position `i` on.
pub open spec fn fold_from(node: Seq<u8>, proof: Seq<Seq<u8>>, i: int) -> Seq<u8>
    decreases proof.len() - i,
{
    if i < 0 || i >= proof.len() {
        node
    } else {
        fold_from(combine(node, proof[i]), proof, i + 1)
    }
}

/// The digest reached by folding a whole proof (ordered leaf-to-root) into a
/// leaf.
pub open spec fn merkle_fold(leaf: Seq<u8>, proof: Seq<Seq<u8>>) -> Seq<u8> {
    fold_from(leaf, proof, 0)
}

/// A sequence of 32-byte digests, seen as a sequence of byte sequences.
pub open spec fn digests_of(v: Seq<[u8; 32]>) -> Seq<Seq<u8>> {
    v.map_values(|d: [u8; 32]| d@)
}

/// Membership: the proof folds the leaf up to exactly the trusted root.
pub open spec fn proof_verifies(proof: Seq<Seq<u8>>, root: Seq<u8>, leaf: Seq<u8>) -> bool {
    merkle_fold(leaf, proof) == root
}

/// The lexicographic order is total on sequences of equal length: of any two,
/// one is less than or equal to the other.
proof fn lemma_lex_le_total(a: Seq<u8>, b: Seq<u8>, i: int)
    requires
        a.len() == b.len(),
        0 <= i <= a.len(),
    ensures
        lex_le_from(a, b, i) || lex_le_from(b, a, i),
    decreases a.len() - i,
{
    if i < a.len() && a[i] == b[i] {
        lemma_lex_le_total(a, b, i + 1);
    }
}

/// The lexicographic order is antisymmetric on sequences of equal length:
/// two sequences each less than or equal to the other agree pointwise.
proof fn lemma_lex_le_antisymmetric(a: Seq<u8>, b: Seq<u8>, i: int)
    requires
        a.len() == b.len(),
        0 <= i <= a.len(),
        lex_le_from(a, b, i),
        lex_le_from(b, a, i),
    ensures
        forall|j: int| i <= j < a.len() ==> a[j] == b[j],
    decreases a.len() - i,
{
    if i < a.len() {
        lemma_lex_le_antisymmetric(a, b, i + 1);
    }
}

/// The combiner is symmetric: two sibling digests of equal length give the
/// same parent whichever of them stood left in the tree, since the pair is
/// put into lexicographic order before hashing.
pub proof fn lemma_combine_symmetric(x: Seq<u8>, y: Seq<u8>)
    requires
        x.len() == y.len(),
    ensures
        combine(x, y) == combine(y, x),
{
    lemma_lex_le_total(x, y, 0);
    if lex_le(x, y) && lex_le(y, x) {
        lemma_lex_le_antisymmetric(x, y, 0);
        assert(x =~= y);
    }
}

/// Decides the lexicographic order of two 32-byte values.
pub fn lex_le_bytes(a: &[u8; 32], b: &[u8; 32]) -> (r: bool)
    ensures
        r == lex_le(a@, b@),
{
    let mut i: usize = 0;
    while i < 32
        invariant
            0 <= i <= 32,
            lex_le(a@, b@) == lex_le_from(a@, b@, i as int),
        decreases 32 - i,
    {
        if a[i] < b[i] {
            return true;
        }
        if a[i] > b[i] {
            return false;
        }
        i = i + 1;
    }
    true
}

/// Verifies a Merkle membership proof: folds the sibling digests of `proof`
/// (ordered leaf-to-root) into `leaf` with the canonical pairwise hash and
/// compares the result against `root`. Pure and deterministic; it never
/// fails — a proof of the wrong shape or length simply folds to a different
/// digest and is rejected.
pub fn verify(proof: Vec<[u8; 32]>, root: [u8; 32], leaf: [u8; 32]) -> (r: bool)
    ensures
        r == proof_verifies(digests_of(proof@), root@, leaf@),
{
    let ghost all = digests_of(proof@);
    let mut node: [u8; 32] = leaf;
    let mut i: usize = 0;
    while i < proof.len()
        invariant
            0 <= i <= proof@.len(),
            all == digests_of(proof@),
            fold_from(node@, all, i as int) == merkle_fold(leaf@, all),
        decreases proof@.len() - i,
    {
        let sibling = proof[i];
        proof {
            assert(all[i as int] == sibling@);
        }
        if lex_le_bytes(&node, &sibling) {
            node = hash_pair(&node, &sibling);
        } else {
            node = hash_pair(&sibling, &node);
        }
        i = i + 1;
    }
    bytes32_eq(&node, &root)
}

} // verus!
