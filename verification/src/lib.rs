//! A token-distribution (airdrop) engine: a funder deposits a pool of tokens
//! and eligible recipients each claim a pre-assigned allocation exactly once.
//!
//! Eligibility is determined in one of three ways: a plain whitelist with a
//! fixed per-claim amount, a whitelist carrying a per-party allocation, or a
//! Merkle-tree membership proof against a published root. The claim ledger
//! guarantees that no party claims twice and that configured aggregate caps
//! (total amount, number of claimants, claim-record capacity) are respected.

use vstd::prelude::*;

pub mod hash;
pub mod laws;
pub mod ledger;
pub mod merkle;
pub mod party;
pub mod state;
pub mod whitelist;

verus! {

/// Every way a distribution operation can fail, surfaced as a typed result.
#[derive(Clone, Copy, Debug, PartialEq, Eq, Structural)]
pub enum ErrorCode {
    /// The requester is not present in the whitelist.
    NotEligible,
    /// The requester has already claimed its allocation.
    AlreadyClaimed,
    /// The requested amount exceeds the requester's recorded allocation.
    AmountExceedsAllocation,
    /// The bounded claim-record array has no free slot left.
    CapacityExceeded,
    /// The total-claim or total-claimant cap would be exceeded.
    AggregateCapExceeded,
    /// The Merkle membership proof did not verify against the root.
    InvalidProof,
    /// The party is already registered in the whitelist.
    AlreadyListed,
    /// The caller lacks the required signature (checked by the host layer).
    InsufficientAuthorization,
    /// The custody account cannot cover the transfer.
    TransferFailure,
    /// Stored state failed to deserialize (detected by the host layer).
    InvalidPersistedState,
}

} // verus!
