use vstd::prelude::*;
use crate::ErrorCode;
use crate::hash::leaf_hash;
use crate::merkle::{merkle_fold, proof_verifies};
use crate::party::PartyId;
use crate::state::State;
use crate::whitelist::Whitelist;

verus! {

/// No double claim, within one state: a party that already stands in the
/// claim record is refused with `AlreadyClaimed` whatever amount or proof it
/// presents, whenever its request passes the eligibility gate at all.
pub proof fn lemma_already_claimed_refused(
    s: State,
    w: Whitelist,
    party: Seq<u8>,
    amount: u64,
    proof: Seq<Seq<u8>>,
)
    requires
        s.ledger.spec_claimed(party),
        s.spec_effective_amount(w, party, amount, proof) is Ok,
    ensures
        s.spec_claim_result(w, party, amount, proof) == Err::<u64, ErrorCode>(
            ErrorCode::AlreadyClaimed,
        ),
{
}

/// No double claim, across two sequential requests: when a claim by `party`
/// succeeds and commits (the claim record grows by that party), any further
/// request by the same party that passes the eligibility gate is refused
/// with `AlreadyClaimed` against the new state — so at most one request per
/// party ever results in a transfer.
pub proof fn lemma_no_double_claim(
    s0: State,
    s1: State,
    w: Whitelist,
    party: PartyId,
    first_amount: u64,
    first_proof: Seq<Seq<u8>>,
    again_amount: u64,
    again_proof: Seq<Seq<u8>>,
)
    requires
        s0.spec_claim_result(w, party@, first_amount, first_proof) is Ok,
        s1.ledger.claimed@ == s0.ledger.claimed@.push(party),
        s1.spec_effective_amount(w, party@, again_amount, again_proof) is Ok,
    ensures
        s1.spec_claim_result(w, party@, again_amount, again_proof) == Err::<u64, ErrorCode>(
            ErrorCode::AlreadyClaimed,
        ),
{
    let n = s0.ledger.claimed@.len() as int;
    assert(s1.ledger.claimed@[n]@ == party@);
    assert(s1.ledger.spec_claimed(party@));
}

/// Eligibility gate: under the whitelist modes a party absent from the
/// registry is always refused with `NotEligible`, and under the Merkle mode
/// a request whose (party, amount) leaf does not fold to the root is always
/// refused with `InvalidProof`. (That either refusal changes nothing and
/// moves nothing is the `claim` contract's error clause.)
pub proof fn lemma_eligibility_gate(
    s: State,
    w: Whitelist,
    party: Seq<u8>,
    amount: u64,
    proof: Seq<Seq<u8>>,
)
    requires
        s.mode is FixedAmount || s.mode is PerPartyAmount ==> !w.contains_party(party),
        s.mode is MerkleGated ==> !proof_verifies(proof, s.merkle_root@, leaf_hash(party, amount)),
    ensures
        s.mode is FixedAmount || s.mode is PerPartyAmount ==> s.spec_claim_result(
            w,
            party,
            amount,
            proof,
        ) == Err::<u64, ErrorCode>(ErrorCode::NotEligible),
        s.mode is MerkleGated ==> s.spec_claim_result(w, party, amount, proof) == Err::<
            u64,
            ErrorCode,
        >(ErrorCode::InvalidProof),
{
}

/// Amount binding: the Merkle gate accepts exactly the amount bound into the
/// leaf it verifies. A proof valid for `(party, bound_amount)` is refused
/// with `InvalidProof` when presented with a different amount, provided the
/// two leaves fold to different digests — which is exactly collision-freedom
/// of the digest on this pair, a fact about the outside hash that nothing in
/// this library interprets, so it stands here as a hypothesis.
pub proof fn lemma_amount_binding(
    s: State,
    w: Whitelist,
    party: Seq<u8>,
    bound_amount: u64,
    other_amount: u64,
    proof: Seq<Seq<u8>>,
)
    requires
        s.mode is MerkleGated,
        proof_verifies(proof, s.merkle_root@, leaf_hash(party, bound_amount)),
        merkle_fold(leaf_hash(party, other_amount), proof) != merkle_fold(
            leaf_hash(party, bound_amount),
            proof,
        ),
    ensures
        s.spec_claim_result(w, party, other_amount, proof) == Err::<u64, ErrorCode>(
            ErrorCode::InvalidProof,
        ),
{
}

/// Aggregate-cap enforcement: a request that passed the eligibility gate and
/// is no replay, with a free record slot, is still refused with
/// `AggregateCapExceeded` once its amount would push `total_amount_claimed`
/// over `max_total_claim`, or once `num_claimants_served` has reached
/// `max_num_claimants` — the latter regardless of the remaining pool
/// balance.
pub proof fn lemma_cap_enforcement(
    s: State,
    w: Whitelist,
    party: Seq<u8>,
    amount: u64,
    proof: Seq<Seq<u8>>,
    effective: u64,
)
    requires
        s.spec_effective_amount(w, party, amount, proof) == Ok::<u64, ErrorCode>(effective),
        !s.ledger.spec_claimed(party),
        (match s.ledger.capacity {
            Some(c) => s.ledger.num_claimants_served < c,
            None => true,
        }),
        s.ledger.total_amount_claimed + effective > s.ledger.max_total_claim
            || s.ledger.num_claimants_served >= s.ledger.max_num_claimants,
    ensures
        s.spec_claim_result(w, party, amount, proof) == Err::<u64, ErrorCode>(
            ErrorCode::AggregateCapExceeded,
        ),
{
}

/// Duplicate registration rejected: after a party is registered (the
/// registry grows by exactly that party and its allocation), registering it
/// again must be refused with `AlreadyListed`, and the registry still
/// answers lookups for the party with the first allocation.
pub proof fn lemma_duplicate_registration(
    w0: Whitelist,
    w1: Whitelist,
    address: PartyId,
    first_allocation: u64,
)
    requires
        w0.wf(),
        !w0.contains_party(address@),
        w1.addresses@ == w0.addresses@.push(address),
        w1.claim_amounts@ == w0.claim_amounts@.push(first_allocation),
    ensures
        w1.spec_add_result(address@) == Err::<(), ErrorCode>(ErrorCode::AlreadyListed),
        w1.allocation_of(address@) == Some(first_allocation),
{
    let n = w0.addresses@.len() as int;
    assert(w1.addresses@[n]@ == address@);
    assert(w1.contains_party(address@));
    let k = w1.index_of(address@);
    assert(0 <= k < w1.addresses@.len() && w1.addresses@[k]@ == address@);
    if k != n {
        assert(w0.addresses@[k]@ == address@);
        assert(w0.contains_party(address@));
    }
}

/// Registration never alters published allocations: registering a fresh
/// party leaves every other party's registration — presence and allocation
/// alike — exactly as it was, so an advertised entitlement cannot change
/// under a claimant between publication and claim.
pub proof fn lemma_registration_preserves_allocations(
    w0: Whitelist,
    w1: Whitelist,
    address: PartyId,
    allocation: u64,
    other: Seq<u8>,
)
    requires
        w0.wf(),
        !w0.contains_party(address@),
        w1.addresses@ == w0.addresses@.push(address),
        w1.claim_amounts@ == w0.claim_amounts@.push(allocation),
        other != address@,
    ensures
        w1.contains_party(other) == w0.contains_party(other),
        w1.allocation_of(other) == w0.allocation_of(other),
{
    let n = w0.addresses@.len() as int;
    if w0.contains_party(other) {
        let k0 = w0.index_of(other);
        assert(0 <= k0 < n && w0.addresses@[k0]@ == other);
        assert(w1.addresses@[k0]@ == other);
        assert(w1.contains_party(other));
        let k1 = w1.index_of(other);
        assert(0 <= k1 <= n && w1.addresses@[k1]@ == other);
        if k1 == n {
            assert(w1.addresses@[k1]@ == address@);
        } else {
            assert(w0.addresses@[k1]@ == other);
            if k0 != k1 {
                assert(w0.addresses@[k0]@ != w0.addresses@[k1]@);
            }
        }
    } else {
        if w1.contains_party(other) {
            let k1 = w1.index_of(other);
            assert(0 <= k1 <= n && w1.addresses@[k1]@ == other);
            if k1 < n {
                assert(w0.addresses@[k1]@ == other);
                assert(w0.contains_party(other));
            } else {
                assert(w1.addresses@[k1]@ == address@);
            }
        }
    }
}

/// Funding conservation: in every well-formed state the custody pool holds
/// exactly what was ever funded minus the sum of all amounts claimed, so
/// after a distribution is initialized with some funding and any number of
/// successful claims are served, the balance is that funding less their sum.
pub proof fn lemma_funding_conservation(s: State)
    requires
        s.wf(),
    ensures
        s.pool_balance as int == s.funded_total as int - s.ledger.total_amount_claimed as int,
{
}

} // verus!
