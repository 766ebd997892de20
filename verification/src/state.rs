use vstd::prelude::*;
use crate::ErrorCode;
use crate::hash::{hash_leaf, leaf_hash};
use crate::ledger::ClaimLedger;
use crate::merkle::{digests_of, proof_verifies, verify};
use crate::party::PartyId;
use crate::whitelist::Whitelist;

verus! {

/// How a distribution decides who may claim, and how much.
#[derive(Clone, Copy, Debug, PartialEq, Eq, Structural)]
pub enum Eligibility {
    /// Presence on the whitelist entitles a party to the distribution's
    /// fixed `claim_amount`; the requested amount is implied, not asked.
    FixedAmount,
    /// The whitelist carries a per-party allocation; the claimant asks for
    /// an amount, which must not exceed it.
    PerPartyAmount,
    /// A Merkle membership proof against `merkle_root` entitles the party to
    /// exactly the amount bound into the proven leaf.
    MerkleGated,
}

/// One distribution instance: its configuration, its claim ledger, and the
/// custody pool it draws from. The custody account itself is external; the
/// pool balance recorded here mirrors it, and every successful claim moves
/// the same amount out of both as one atomic step.
pub struct State {
    /// How eligibility and the claim amount are determined.
    pub mode: Eligibility,
    /// Fixed per-claim amount; read only under `Eligibility::FixedAmount`.
    pub claim_amount: u64,
    /// Trusted commitment to the eligibility set; read only under
    /// `Eligibility::MerkleGated`.
    pub merkle_root: [u8; 32],
    /// The record of claims served, with the aggregate caps.
    pub ledger: ClaimLedger,
    /// Tokens currently held in custody for this distribution.
    pub pool_balance: u64,
    /// Total tokens ever put into custody for this distribution.
    pub funded_total: u64,
    /// Audit trail of `set_claim_amount`: every value the fixed per-claim
    /// amount was ever set to, in order, the current one last.
    pub claim_amount_log: Vec<u64>,
}

impl State {
    /// The ledger is well formed and the custody pool conserves funding:
    /// what was ever funded equals what is left plus what was claimed.
    pub open spec fn wf(&self) -> bool {
        &&& self.ledger.wf()
        &&& self.funded_total as int == self.pool_balance as int
            + self.ledger.total_amount_claimed as int
    }

    /// Decides well-formedness, so that a state read back from storage can
    /// be validated before it is trusted.
    pub fn check_wf(&self) -> (r: bool)
        ensures
            r == self.wf(),
    {
        let conserved = match self.pool_balance.checked_add(self.ledger.total_amount_claimed) {
            Some(sum) => sum == self.funded_total,
            None => false,
        };
        self.ledger.check_wf() && conserved
    }

    /// The amount a claim request is entitled to, or the error refusing it
    /// (eligibility first, then the allocation bound).
    pub open spec fn spec_effective_amount(
        &self,
        whitelist: Whitelist,
        party: Seq<u8>,
        amount: u64,
        proof: Seq<Seq<u8>>,
    ) -> Result<u64, ErrorCode> {
        match self.mode {
            Eligibility::FixedAmount => if whitelist.contains_party(party) {
                Ok(self.claim_amount)
            } else {
                Err(ErrorCode::NotEligible)
            },
            Eligibility::PerPartyAmount => match whitelist.allocation_of(party) {
                Some(allocation) => if amount <= allocation {
                    Ok(amount)
                } else {
                    Err(ErrorCode::AmountExceedsAllocation)
                },
                None => Err(ErrorCode::NotEligible),
            },
            Eligibility::MerkleGated => if proof_verifies(
                proof,
                self.merkle_root@,
                leaf_hash(party, amount),
            ) {
                Ok(amount)
            } else {
                Err(ErrorCode::InvalidProof)
            },
        }
    }

    /// The outcome one claim request must have: the amount transferred on
    /// success, or the first error met, checking in order eligibility,
    /// allocation, replay, record capacity, aggregate caps, and transfer
    /// feasibility.
    pub open spec fn spec_claim_result(
        &self,
        whitelist: Whitelist,
        party: Seq<u8>,
        amount: u64,
        proof: Seq<Seq<u8>>,
    ) -> Result<u64, ErrorCode> {
        match self.spec_effective_amount(whitelist, party, amount, proof) {
            Err(e) => Err(e),
            Ok(effective) => match self.ledger.spec_check(party, effective) {
                Err(e) => Err(e),
                Ok(_) => if self.pool_balance < effective {
                    Err(ErrorCode::TransferFailure)
                } else {
                    Ok(effective)
                },
            },
        }
    }
}

/// Creates a distribution: fixes the eligibility mode and its parameters,
/// zeroes the counters, and places `initial_funding` tokens in custody.
///
/// Funder authorization, and the custody transfer that actually moves the
/// initial funding, are the host layer's responsibility.
pub fn initialize(
    mode: Eligibility,
    claim_amount: u64,
    merkle_root: [u8; 32],
    max_total_claim: u64,
    max_num_claimants: u64,
    capacity: Option<u64>,
    initial_funding: u64,
) -> (r: State)
    ensures
        r.wf(),
        r.mode == mode,
        r.claim_amount == claim_amount,
        r.merkle_root@ == merkle_root@,
        r.ledger.max_total_claim == max_total_claim,
        r.ledger.max_num_claimants == max_num_claimants,
        r.ledger.capacity == capacity,
        r.ledger.total_amount_claimed == 0,
        r.ledger.num_claimants_served == 0,
        r.ledger.claimed@.len() == 0,
        r.pool_balance == initial_funding,
        r.funded_total == initial_funding,
        r.claim_amount_log@ == seq![claim_amount],
{
    let mut claim_amount_log: Vec<u64> = Vec::new();
    claim_amount_log.push(claim_amount);
    State {
        mode,
        claim_amount,
        merkle_root,
        ledger: ClaimLedger::new(max_total_claim, max_num_claimants, capacity),
        pool_balance: initial_funding,
        funded_total: initial_funding,
        claim_amount_log,
    }
}

/// Processes one claim end-to-end: resolves the effective amount (fixed,
/// registry-provided, or proof-verified), checks the ledger and the custody
/// balance, and only then commits the ledger update and the transfer
/// bookkeeping as one step. On success the effective amount is returned for
/// the host to move out of custody; on any error the state is unchanged.
///
/// `claimer` is the authenticated identity of the caller: the host layer
/// must have verified its signature. The exclusive borrow of the state spans
/// the whole check-then-commit sequence, which is the serialization that
/// interleaved claim attempts need: however requests are ordered, each sees
/// the commits of all earlier ones.
pub fn claim(
    state: &mut State,
    whitelist: &Whitelist,
    claimer: PartyId,
    amount: u64,
    merkle_proof: Vec<[u8; 32]>,
) -> (r: Result<u64, ErrorCode>)
    requires
        old(state).wf(),
        whitelist.wf(),
    ensures
        final(state).wf(),
        r == old(state).spec_claim_result(*whitelist, claimer@, amount, digests_of(merkle_proof@)),
        r is Err ==> *final(state) == *old(state),
        r matches Ok(effective) ==> {
            &&& final(state).ledger.claimed@ == old(state).ledger.claimed@.push(claimer)
            &&& final(state).ledger.total_amount_claimed == old(state).ledger.total_amount_claimed
                + effective
            &&& final(state).ledger.num_claimants_served == old(state).ledger.num_claimants_served
                + 1
            &&& final(state).pool_balance + effective == old(state).pool_balance
            &&& final(state).funded_total == old(state).funded_total
            &&& final(state).mode == old(state).mode
            &&& final(state).claim_amount == old(state).claim_amount
            &&& final(state).merkle_root == old(state).merkle_root
            &&& final(state).ledger.max_total_claim == old(state).ledger.max_total_claim
            &&& final(state).ledger.max_num_claimants == old(state).ledger.max_num_claimants
            &&& final(state).ledger.capacity == old(state).ledger.capacity
            &&& final(state).claim_amount_log@ == old(state).claim_amount_log@
        },
{
    let effective: u64 = match state.mode {
        Eligibility::FixedAmount => {
            match whitelist.lookup(&claimer) {
                Some(_) => state.claim_amount,
                None => {
                    return Err(ErrorCode::NotEligible);
                },
            }
        },
        Eligibility::PerPartyAmount => {
            match whitelist.lookup(&claimer) {
                Some(allocation) => {
                    if amount <= allocation {
                        amount
                    } else {
                        return Err(ErrorCode::AmountExceedsAllocation);
                    }
                },
                None => {
                    return Err(ErrorCode::NotEligible);
                },
            }
        },
        Eligibility::MerkleGated => {
            let leaf = hash_leaf(&claimer, amount);
            if verify(merkle_proof, state.merkle_root, leaf) {
                amount
            } else {
                return Err(ErrorCode::InvalidProof);
            }
        },
    };
    match state.ledger.check_claim(&claimer, effective) {
        Ok(_) => {},
        Err(e) => {
            return Err(e);
        },
    }
    if state.pool_balance < effective {
        return Err(ErrorCode::TransferFailure);
    }
    // The atomic commit: the claim record and the custody bookkeeping move
    // together; feasibility was checked just above, so neither can fail.
    state.ledger.record_claim(claimer, effective);
    state.pool_balance = state.pool_balance - effective;
    Ok(effective)
}

/// Registers a party in the whitelist with its allocation; refused with
/// `AlreadyListed` when the party is already present.
///
/// Admin authorization is the caller's responsibility.
pub fn add_whitelisted(whitelist: &mut Whitelist, address: PartyId, claim_amount: u64) -> (r:
    Result<(), ErrorCode>)
    requires
        old(whitelist).wf(),
    ensures
        final(whitelist).wf(),
        r == old(whitelist).spec_add_result(address@),
        r is Err ==> *final(whitelist) == *old(whitelist),
        r is Ok ==> final(whitelist).addresses@ == old(whitelist).addresses@.push(address)
            && final(whitelist).claim_amounts@ == old(whitelist).claim_amounts@.push(claim_amount)
            && final(whitelist).allocation_of(address@) == Some(claim_amount),
{
    whitelist.add_whitelisted(address, claim_amount)
}

/// Tops the custody pool up by `amount`. Callable any number of times; no
/// ledger interaction. Fails with `TransferFailure`, changing nothing, when
/// the custody balance cannot represent the new total.
///
/// Funder authorization, and the custody transfer that actually moves the
/// tokens, are the host layer's responsibility.
pub fn fund_contract(state: &mut State, amount: u64) -> (r: Result<(), ErrorCode>)
    requires
        old(state).wf(),
    ensures
        final(state).wf(),
        r == (if old(state).funded_total + amount <= u64::MAX {
            Ok::<(), ErrorCode>(())
        } else {
            Err::<(), ErrorCode>(ErrorCode::TransferFailure)
        }),
        r is Err ==> *final(state) == *old(state),
        r is Ok ==> {
            &&& final(state).pool_balance == old(state).pool_balance + amount
            &&& final(state).funded_total == old(state).funded_total + amount
            &&& final(state).ledger == old(state).ledger
            &&& final(state).mode == old(state).mode
            &&& final(state).claim_amount == old(state).claim_amount
            &&& final(state).merkle_root == old(state).merkle_root
            &&& final(state).claim_amount_log@ == old(state).claim_amount_log@
        },
{
    if amount <= u64::MAX - state.funded_total {
        state.funded_total = state.funded_total + amount;
        state.pool_balance = state.pool_balance + amount;
        Ok(())
    } else {
        Err(ErrorCode::TransferFailure)
    }
}

/// Sets the fixed per-claim amount and appends the new value to the audit
/// trail. The change is not retroactive: claims already recorded keep the
/// amounts they were served with, and the ledger is untouched.
///
/// Admin authorization is the caller's responsibility.
pub fn set_claim_amount(state: &mut State, new_amount: u64)
    requires
        old(state).wf(),
    ensures
        final(state).wf(),
        final(state).claim_amount == new_amount,
        final(state).claim_amount_log@ == old(state).claim_amount_log@.push(new_amount),
        final(state).mode == old(state).mode,
        final(state).merkle_root == old(state).merkle_root,
        final(state).ledger == old(state).ledger,
        final(state).pool_balance == old(state).pool_balance,
        final(state).funded_total == old(state).funded_total,
{
    state.claim_amount = new_amount;
    state.claim_amount_log.push(new_amount);
}

} // verus!
