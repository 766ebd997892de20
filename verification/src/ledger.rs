use vstd::prelude::*;
use crate::ErrorCode;
use crate::party::{distinct_parties, PartyId};

verus! {

/// The claim ledger: the record of which parties have already claimed,
/// together with the running aggregate counters and their configured caps.
/// An optional `capacity` bounds the claim record itself, modelling a
/// distribution whose claim history lives in a fixed number of slots.
pub struct ClaimLedger {
    /// Parties that have successfully claimed, in claim order; append-only.
    pub claimed: Vec<PartyId>,
    /// Sum of all amounts claimed so far.
    pub total_amount_claimed: u64,
    /// Number of parties served so far.
    pub num_claimants_served: u64,
    /// Cap on the total amount claimed over the whole distribution.
    pub max_total_claim: u64,
    /// Cap on the number of parties served over the whole distribution.
    pub max_num_claimants: u64,
    /// Explicit bound on the claim record, when the distribution keeps its
    /// claim history in a fixed number of slots.
    pub capacity: Option<u64>,
}

impl ClaimLedger {
    /// Whether a party has already claimed.
    pub open spec fn spec_claimed(&self, party: Seq<u8>) -> bool {
        exists|i: int| 0 <= i < self.claimed@.len() && self.claimed@[i]@ == party
    }

    /// No party recorded twice, counters tied to the record, and every
    /// counter within its cap.
    pub open spec fn wf(&self) -> bool {
        &&& self.num_claimants_served as int == self.claimed@.len()
        &&& forall|i: int, j: int|
            0 <= i < j < self.claimed@.len() ==> self.claimed@[i]@ != self.claimed@[j]@
        &&& self.total_amount_claimed <= self.max_total_claim
        &&& self.num_claimants_served <= self.max_num_claimants
        &&& match self.capacity {
            Some(c) => self.num_claimants_served <= c,
            None => true,
        }
    }

    /// Whether recording a claim of `amount` by `party` is admissible, and
    /// the error refusing it otherwise. The checks short-circuit in order:
    /// replay first, then record capacity, then the aggregate caps.
    pub open spec fn spec_check(&self, party: Seq<u8>, amount: u64) -> Result<(), ErrorCode> {
        if self.spec_claimed(party) {
            Err(ErrorCode::AlreadyClaimed)
        } else if match self.capacity {
            Some(c) => self.num_claimants_served >= c,
            None => false,
        } {
            Err(ErrorCode::CapacityExceeded)
        } else if self.total_amount_claimed + amount > self.max_total_claim
            || self.num_claimants_served >= self.max_num_claimants {
            Err(ErrorCode::AggregateCapExceeded)
        } else {
            Ok(())
        }
    }

    /// A fresh ledger with the given caps and nothing claimed.
    pub fn new(max_total_claim: u64, max_num_claimants: u64, capacity: Option<u64>) -> (r:
        ClaimLedger)
        ensures
            r.wf(),
            r.claimed@.len() == 0,
            r.total_amount_claimed == 0,
            r.num_claimants_served == 0,
            r.max_total_claim == max_total_claim,
            r.max_num_claimants == max_num_claimants,
            r.capacity == capacity,
    {
        ClaimLedger {
            claimed: Vec::new(),
            total_amount_claimed: 0,
            num_claimants_served: 0,
            max_total_claim,
            max_num_claimants,
            capacity,
        }
    }

    /// Decides well-formedness, so that a ledger read back from storage can
    /// be validated before it is trusted.
    pub fn check_wf(&self) -> (r: bool)
        ensures
            r == self.wf(),
    {
        let capacity_ok = match self.capacity {
            Some(c) => self.num_claimants_served <= c,
            None => true,
        };
        self.num_claimants_served == (self.claimed.len() as u64) && distinct_parties(&self.claimed)
            && self.total_amount_claimed <= self.max_total_claim && self.num_claimants_served
            <= self.max_num_claimants && capacity_ok
    }

    /// Whether `party` already stands in the claim record.
    pub fn has_claimed(&self, party: &PartyId) -> (r: bool)
        ensures
            r == self.spec_claimed(party@),
    {
        let mut i: usize = 0;
        while i < self.claimed.len()
            invariant
                0 <= i <= self.claimed@.len(),
                forall|j: int| 0 <= j < i ==> self.claimed@[j]@ != party@,
            decreases self.claimed@.len() - i,
        {
            if self.claimed[i].same_as(party) {
                return true;
            }
            i = i + 1;
        }
        false
    }

    /// Checks whether a claim of `amount` by `party` may be recorded,
    /// without recording anything.
    pub fn check_claim(&self, party: &PartyId, amount: u64) -> (r: Result<(), ErrorCode>)
        requires
            self.wf(),
        ensures
            r == self.spec_check(party@, amount),
    {
        if self.has_claimed(party) {
            return Err(ErrorCode::AlreadyClaimed);
        }
        match self.capacity {
            Some(c) => {
                if self.num_claimants_served >= c {
                    return Err(ErrorCode::CapacityExceeded);
                }
            },
            None => {},
        }
        if amount > self.max_total_claim - self.total_amount_claimed
            || self.num_claimants_served >= self.max_num_claimants {
            return Err(ErrorCode::AggregateCapExceeded);
        }
        Ok(())
    }

    /// Commits an admissible claim: appends the party to the claim record
    /// and raises both counters. Callers must have checked admissibility.
    pub fn record_claim(&mut self, party: PartyId, amount: u64)
        requires
            old(self).wf(),
            old(self).spec_check(party@, amount) is Ok,
        ensures
            final(self).wf(),
            final(self).claimed@ == old(self).claimed@.push(party),
            final(self).total_amount_claimed == old(self).total_amount_claimed + amount,
            final(self).num_claimants_served == old(self).num_claimants_served + 1,
            final(self).max_total_claim == old(self).max_total_claim,
            final(self).max_num_claimants == old(self).max_num_claimants,
            final(self).capacity == old(self).capacity,
            final(self).spec_claimed(party@),
    {
        let ghost n = self.claimed@.len();
        self.claimed.push(party);
        self.total_amount_claimed = self.total_amount_claimed + amount;
        self.num_claimants_served = self.num_claimants_served + 1;
        proof {
            assert forall|i: int, j: int|
                0 <= i < j < self.claimed@.len() implies self.claimed@[i]@
                != self.claimed@[j]@ by {
                if j == n {
                    assert(old(self).claimed@[i]@ != party@);
                }
            }
            assert(self.claimed@[n as int]@ == party@);
        }
    }

    /// Records a claim when admissible (replay, record capacity, aggregate
    /// caps, in that order), and returns the refusing error, changing
    /// nothing, otherwise.
    pub fn try_record_claim(&mut self, party: PartyId, amount: u64) -> (r: Result<(), ErrorCode>)
        requires
            old(self).wf(),
        ensures
            final(self).wf(),
            r == old(self).spec_check(party@, amount),
            r is Err ==> *final(self) == *old(self),
            r is Ok ==> final(self).claimed@ == old(self).claimed@.push(party)
                && final(self).total_amount_claimed == old(self).total_amount_claimed + amount
                && final(self).num_claimants_served == old(self).num_claimants_served + 1
                && final(self).max_total_claim == old(self).max_total_claim
                && final(self).max_num_claimants == old(self).max_num_claimants
                && final(self).capacity == old(self).capacity,
    {
        match self.check_claim(&party, amount) {
            Ok(_) => {
                self.record_claim(party, amount);
                Ok(())
            },
            Err(e) => Err(e),
        }
    }
}

} // verus!
