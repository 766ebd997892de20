use token_distribution::party::PartyId;
use token_distribution::state::{
    add_whitelisted, claim, fund_contract, initialize, set_claim_amount, Eligibility, State,
};
use token_distribution::ledger::ClaimLedger;
use token_distribution::whitelist::Whitelist;
use token_distribution::ErrorCode;

fn pid(b: u8) -> PartyId {
    PartyId::new([b; 32])
}

#[allow(deprecated)]
fn leaf(party: &PartyId, amount: u64) -> [u8; 32] {
    anchor_lang::solana_program::keccak::hashv(&[&party.bytes, &amount.to_le_bytes()]).0
}

#[allow(deprecated)]
fn parent(a: &[u8; 32], b: &[u8; 32]) -> [u8; 32] {
    if a <= b {
        anchor_lang::solana_program::keccak::hashv(&[a, b]).0
    } else {
        anchor_lang::solana_program::keccak::hashv(&[b, a]).0
    }
}

fn fixed_state(claim_amount: u64, funding: u64) -> State {
    initialize(
        Eligibility::FixedAmount,
        claim_amount,
        [0u8; 32],
        u64::MAX,
        u64::MAX,
        None,
        funding,
    )
}

#[test]
fn fixed_amount_whitelist_scenario() {
    // Fixed-amount variant: claim_amount = 50, whitelist holds Alice only.
    let alice = pid(1);
    let bob = pid(2);
    let mut whitelist = Whitelist::new();
    assert_eq!(whitelist.add_whitelisted(alice, 0), Ok(()));
    let mut state = fixed_state(50, 1000);

    assert_eq!(claim(&mut state, &whitelist, alice, 0, Vec::new()), Ok(50));
    assert_eq!(state.pool_balance, 950);
    assert_eq!(state.ledger.total_amount_claimed, 50);
    assert_eq!(state.ledger.num_claimants_served, 1);

    assert_eq!(
        claim(&mut state, &whitelist, alice, 0, Vec::new()),
        Err(ErrorCode::AlreadyClaimed)
    );
    assert_eq!(state.pool_balance, 950);

    assert_eq!(
        claim(&mut state, &whitelist, bob, 0, Vec::new()),
        Err(ErrorCode::NotEligible)
    );
    assert_eq!(state.pool_balance, 950);
}

#[test]
fn capacity_two_slots_scenario() {
    // Capacity-bounded variant: a 2-slot claim record; three distinct
    // eligible parties; the third claim fails regardless of eligibility.
    let mut whitelist = Whitelist::new();
    let parties = [pid(1), pid(2), pid(3)];
    for p in parties.iter() {
        assert_eq!(whitelist.add_whitelisted(*p, 10), Ok(()));
    }
    let mut state = initialize(
        Eligibility::PerPartyAmount,
        0,
        [0u8; 32],
        u64::MAX,
        u64::MAX,
        Some(2),
        1000,
    );
    assert_eq!(claim(&mut state, &whitelist, parties[0], 10, Vec::new()), Ok(10));
    assert_eq!(claim(&mut state, &whitelist, parties[1], 10, Vec::new()), Ok(10));
    assert_eq!(
        claim(&mut state, &whitelist, parties[2], 10, Vec::new()),
        Err(ErrorCode::CapacityExceeded)
    );
    assert_eq!(state.ledger.num_claimants_served, 2);
    assert_eq!(state.pool_balance, 980);
}

#[test]
fn merkle_two_leaves_scenario() {
    // Merkle variant: the root commits to hash(Carol, 30) and hash(Dave, 70).
    let carol = pid(3);
    let dave = pid(4);
    let leaf_carol = leaf(&carol, 30);
    let leaf_dave = leaf(&dave, 70);
    let root = parent(&leaf_carol, &leaf_dave);
    let whitelist = Whitelist::new();
    let mut state = initialize(Eligibility::MerkleGated, 0, root, 100, 10, None, 1000);

    // A valid proof for (Carol, 30) succeeds.
    assert_eq!(
        claim(&mut state, &whitelist, carol, 30, vec![leaf_dave]),
        Ok(30)
    );
    assert_eq!(state.pool_balance, 970);

    // Carol's 30-proof presented with a different amount is refused.
    let mut fresh = initialize(Eligibility::MerkleGated, 0, root, 100, 10, None, 1000);
    assert_eq!(
        claim(&mut fresh, &whitelist, carol, 70, vec![leaf_dave]),
        Err(ErrorCode::InvalidProof)
    );
    assert_eq!(fresh.pool_balance, 1000);

    // Dave's own proof works for his bound amount.
    assert_eq!(
        claim(&mut state, &whitelist, dave, 70, vec![leaf_carol]),
        Ok(70)
    );
    assert_eq!(state.pool_balance, 900);
}

#[test]
fn merkle_verify_four_leaves_and_malformed_proofs() {
    let leaves: Vec<[u8; 32]> = (0u8..4).map(|i| leaf(&pid(i + 10), 5 * i as u64)).collect();
    let n01 = parent(&leaves[0], &leaves[1]);
    let n23 = parent(&leaves[2], &leaves[3]);
    let root = parent(&n01, &n23);

    // The well-formed proofs verify, from either side of the tree.
    assert!(token_distribution::merkle::verify(
        vec![leaves[3], n01],
        root,
        leaves[2]
    ));
    assert!(token_distribution::merkle::verify(
        vec![leaves[1], n23],
        root,
        leaves[0]
    ));
    // A truncated proof folds to a different digest and is rejected.
    assert!(!token_distribution::merkle::verify(vec![leaves[3]], root, leaves[2]));
    // A padded proof is rejected too.
    assert!(!token_distribution::merkle::verify(
        vec![leaves[3], n01, n23],
        root,
        leaves[2]
    ));
    // A proof ordered root-to-leaf instead of leaf-to-root is rejected.
    assert!(!token_distribution::merkle::verify(
        vec![n01, leaves[3]],
        root,
        leaves[2]
    ));
    // The empty proof verifies exactly the root itself (a one-leaf tree).
    assert!(token_distribution::merkle::verify(Vec::new(), root, root));
    assert!(!token_distribution::merkle::verify(Vec::new(), root, leaves[0]));
}

#[test]
fn amount_exceeds_allocation() {
    let alice = pid(1);
    let mut whitelist = Whitelist::new();
    assert_eq!(whitelist.add_whitelisted(alice, 30), Ok(()));
    let mut state = initialize(
        Eligibility::PerPartyAmount,
        0,
        [0u8; 32],
        u64::MAX,
        u64::MAX,
        None,
        1000,
    );
    assert_eq!(
        claim(&mut state, &whitelist, alice, 31, Vec::new()),
        Err(ErrorCode::AmountExceedsAllocation)
    );
    // Up to the allocation is fine; the requested amount is what moves.
    assert_eq!(claim(&mut state, &whitelist, alice, 29, Vec::new()), Ok(29));
    assert_eq!(state.pool_balance, 971);
}

#[test]
fn aggregate_caps_enforced() {
    // Total-claim cap: an individually eligible claim that would push the
    // total over the cap is refused.
    let mut whitelist = Whitelist::new();
    assert_eq!(whitelist.add_whitelisted(pid(1), 60), Ok(()));
    assert_eq!(whitelist.add_whitelisted(pid(2), 60), Ok(()));
    let mut state = initialize(
        Eligibility::PerPartyAmount,
        0,
        [0u8; 32],
        100,
        u64::MAX,
        None,
        1000,
    );
    assert_eq!(claim(&mut state, &whitelist, pid(1), 60, Vec::new()), Ok(60));
    assert_eq!(
        claim(&mut state, &whitelist, pid(2), 60, Vec::new()),
        Err(ErrorCode::AggregateCapExceeded)
    );
    // 40 still fits under the cap.
    assert_eq!(claim(&mut state, &whitelist, pid(2), 40, Vec::new()), Ok(40));

    // Claimant-count cap: once served == max_num_claimants, further claims
    // fail regardless of the remaining balance.
    let mut whitelist2 = Whitelist::new();
    assert_eq!(whitelist2.add_whitelisted(pid(1), 1), Ok(()));
    assert_eq!(whitelist2.add_whitelisted(pid(2), 1), Ok(()));
    let mut state2 = initialize(
        Eligibility::PerPartyAmount,
        0,
        [0u8; 32],
        u64::MAX,
        1,
        None,
        1000,
    );
    assert_eq!(claim(&mut state2, &whitelist2, pid(1), 1, Vec::new()), Ok(1));
    assert_eq!(
        claim(&mut state2, &whitelist2, pid(2), 1, Vec::new()),
        Err(ErrorCode::AggregateCapExceeded)
    );
    assert_eq!(state2.pool_balance, 999);
}

#[test]
fn duplicate_registration_rejected() {
    let alice = pid(1);
    let mut whitelist = Whitelist::new();
    assert_eq!(add_whitelisted(&mut whitelist, alice, 25), Ok(()));
    assert_eq!(
        add_whitelisted(&mut whitelist, alice, 99),
        Err(ErrorCode::AlreadyListed)
    );
    // The first entry is unchanged.
    assert_eq!(whitelist.lookup(&alice), Some(25));
    assert_eq!(whitelist.addresses.len(), 1);
    assert_eq!(whitelist.claim_amounts, vec![25]);
}

#[test]
fn lookup_distinguishes_absent_from_zero() {
    let mut whitelist = Whitelist::new();
    assert_eq!(whitelist.add_whitelisted(pid(1), 0), Ok(()));
    assert_eq!(whitelist.lookup(&pid(1)), Some(0));
    assert_eq!(whitelist.lookup(&pid(2)), None);
}

#[test]
fn funding_conservation() {
    // initialize(amount = 1000), then successful claims of 50 and 200:
    // custody balance is 1000 minus their sum.
    let mut whitelist = Whitelist::new();
    assert_eq!(whitelist.add_whitelisted(pid(1), 50), Ok(()));
    assert_eq!(whitelist.add_whitelisted(pid(2), 200), Ok(()));
    let mut state = initialize(
        Eligibility::PerPartyAmount,
        0,
        [0u8; 32],
        u64::MAX,
        u64::MAX,
        None,
        1000,
    );
    assert_eq!(claim(&mut state, &whitelist, pid(1), 50, Vec::new()), Ok(50));
    assert_eq!(claim(&mut state, &whitelist, pid(2), 200, Vec::new()), Ok(200));
    assert_eq!(state.pool_balance, 1000 - 50 - 200);
    assert_eq!(state.funded_total, 1000);
    assert_eq!(state.ledger.total_amount_claimed, 250);

    // A top-up raises the pool and the funded total alike.
    assert_eq!(fund_contract(&mut state, 500), Ok(()));
    assert_eq!(state.pool_balance, 1250);
    assert_eq!(state.funded_total, 1500);
}

#[test]
fn transfer_failure_on_underfunded_pool() {
    let alice = pid(1);
    let mut whitelist = Whitelist::new();
    assert_eq!(whitelist.add_whitelisted(alice, 0), Ok(()));
    let mut state = fixed_state(50, 10);
    assert_eq!(
        claim(&mut state, &whitelist, alice, 0, Vec::new()),
        Err(ErrorCode::TransferFailure)
    );
    // Nothing was recorded: funding the pool lets the same party claim.
    assert_eq!(fund_contract(&mut state, 40), Ok(()));
    assert_eq!(claim(&mut state, &whitelist, alice, 0, Vec::new()), Ok(50));
    assert_eq!(state.pool_balance, 0);
}

#[test]
fn fund_overflow_is_transfer_failure() {
    let mut state = fixed_state(1, u64::MAX - 5);
    assert_eq!(fund_contract(&mut state, 5), Ok(()));
    assert_eq!(
        fund_contract(&mut state, 1),
        Err(ErrorCode::TransferFailure)
    );
    assert_eq!(state.pool_balance, u64::MAX);
    assert_eq!(state.funded_total, u64::MAX);
}

#[test]
fn set_claim_amount_not_retroactive() {
    let alice = pid(1);
    let bob = pid(2);
    let mut whitelist = Whitelist::new();
    assert_eq!(whitelist.add_whitelisted(alice, 0), Ok(()));
    assert_eq!(whitelist.add_whitelisted(bob, 0), Ok(()));
    let mut state = fixed_state(50, 1000);
    assert_eq!(claim(&mut state, &whitelist, alice, 0, Vec::new()), Ok(50));

    set_claim_amount(&mut state, 70);
    assert_eq!(state.claim_amount, 70);
    assert_eq!(state.claim_amount_log, vec![50, 70]);

    // Bob claims the new amount; Alice's recorded claim is untouched.
    assert_eq!(claim(&mut state, &whitelist, bob, 0, Vec::new()), Ok(70));
    assert_eq!(state.ledger.total_amount_claimed, 120);
    assert_eq!(state.pool_balance, 880);
}

#[test]
fn ledger_try_record_claim_direct() {
    let mut ledger = ClaimLedger::new(100, 2, None);
    assert_eq!(ledger.try_record_claim(pid(1), 40), Ok(()));
    assert_eq!(
        ledger.try_record_claim(pid(1), 1),
        Err(ErrorCode::AlreadyClaimed)
    );
    assert_eq!(
        ledger.try_record_claim(pid(2), 61),
        Err(ErrorCode::AggregateCapExceeded)
    );
    assert_eq!(ledger.try_record_claim(pid(2), 60), Ok(()));
    assert_eq!(
        ledger.try_record_claim(pid(3), 0),
        Err(ErrorCode::AggregateCapExceeded)
    );
    assert_eq!(ledger.total_amount_claimed, 100);
    assert_eq!(ledger.num_claimants_served, 2);
    assert!(ledger.has_claimed(&pid(1)));
    assert!(!ledger.has_claimed(&pid(3)));
}

#[test]
fn initialize_sets_every_field() {
    let root = [7u8; 32];
    let state = initialize(Eligibility::MerkleGated, 9, root, 400, 20, Some(8), 123);
    assert_eq!(state.claim_amount, 9);
    assert_eq!(state.merkle_root, root);
    assert_eq!(state.ledger.max_total_claim, 400);
    assert_eq!(state.ledger.max_num_claimants, 20);
    assert_eq!(state.ledger.capacity, Some(8));
    assert_eq!(state.ledger.total_amount_claimed, 0);
    assert_eq!(state.ledger.num_claimants_served, 0);
    assert!(state.ledger.claimed.is_empty());
    assert_eq!(state.pool_balance, 123);
    assert_eq!(state.funded_total, 123);
    assert_eq!(state.claim_amount_log, vec![9]);
}
