use vstd::prelude::*;
use crate::ErrorCode;
use crate::party::{distinct_parties, PartyId};

verus! {

/// The eligibility registry: an append-only mapping from party identity to
/// that party's allocation amount, kept as two parallel columns. Duplicate
/// registration is refused, never silently overwritten, so an advertised
/// allocation cannot be altered after publication.
///
/// Who may insert is an external concern: the registry itself performs no
/// authorization check, and callers must gate `add_whitelisted` behind the
/// host's admin authorization.
pub struct Whitelist {
    pub addresses: Vec<PartyId>,
    pub claim_amounts: Vec<u64>,
}

impl Whitelist {
    /// One allocation per row, and no party listed twice.
    pub open spec fn wf(&self) -> bool {
        &&& self.addresses@.len() == self.claim_amounts@.len()
        &&& forall|i: int, j: int|
            0 <= i < j < self.addresses@.len() ==> self.addresses@[i]@ != self.addresses@[j]@
    }

    /// Whether a party is registered.
    pub open spec fn contains_party(&self, party: Seq<u8>) -> bool {
        exists|i: int| 0 <= i < self.addresses@.len() && self.addresses@[i]@ == party
    }

    /// The row at which a registered party stands.
    pub open spec fn index_of(&self, party: Seq<u8>) -> int {
        choose|i: int| 0 <= i < self.addresses@.len() && self.addresses@[i]@ == party
    }

    /// The allocation registered for a party: `None` when the party is not
    /// listed, distinct from a listed allocation of zero.
    pub open spec fn allocation_of(&self, party: Seq<u8>) -> Option<u64> {
        if self.contains_party(party) {
            Some(self.claim_amounts@[self.index_of(party)])
        } else {
            None
        }
    }

    /// The result a registration attempt must have against this registry:
    /// refused if and only if the party is already listed.
    pub open spec fn spec_add_result(&self, party: Seq<u8>) -> Result<(), ErrorCode> {
        if self.contains_party(party) {
            Err(ErrorCode::AlreadyListed)
        } else {
            Ok(())
        }
    }

    /// An empty registry.
    pub fn new() -> (r: Whitelist)
        ensures
            r.wf(),
            r.addresses@.len() == 0,
            r.claim_amounts@.len() == 0,
    {
        Whitelist { addresses: Vec::new(), claim_amounts: Vec::new() }
    }

    /// Decides well-formedness, so that a registry read back from storage
    /// can be validated before it is trusted.
    pub fn check_wf(&self) -> (r: bool)
        ensures
            r == self.wf(),
    {
        self.addresses.len() == self.claim_amounts.len() && distinct_parties(&self.addresses)
    }

    /// The row holding `party`, if any.
    fn find(&self, party: &PartyId) -> (r: Option<usize>)
        ensures
            match r {
                Some(i) => 0 <= i < self.addresses@.len() && self.addresses@[i as int]@
                    == party@,
                None => !self.contains_party(party@),
            },
    {
        let mut i: usize = 0;
        while i < self.addresses.len()
            invariant
                0 <= i <= self.addresses@.len(),
                forall|j: int| 0 <= j < i ==> self.addresses@[j]@ != party@,
            decreases self.addresses@.len() - i,
        {
            if self.addresses[i].same_as(party) {
                return Some(i);
            }
            i = i + 1;
        }
        None
    }

    /// Looks a party up in the registry and returns its allocation, or
    /// `None` when the party is not listed.
    pub fn lookup(&self, party: &PartyId) -> (r: Option<u64>)
        requires
            self.wf(),
        ensures
            r == self.allocation_of(party@),
            r is Some <==> self.contains_party(party@),
    {
        match self.find(party) {
            Some(i) => {
                proof {
                    let k = self.index_of(party@);
                    assert(0 <= k < self.addresses@.len() && self.addresses@[k]@ == party@);
                    assert(k == i);
                }
                Some(self.claim_amounts[i])
            },
            None => None,
        }
    }

    /// Registers a party with its allocation. Fails with `AlreadyListed`,
    /// leaving the registry unchanged, when the party is already present.
    ///
    /// Admin authorization is the caller's responsibility; the registry
    /// itself checks none.
    pub fn add_whitelisted(&mut self, address: PartyId, claim_amount: u64) -> (r: Result<
        (),
        ErrorCode,
    >)
        requires
            old(self).wf(),
        ensures
            final(self).wf(),
            r == old(self).spec_add_result(address@),
            r is Err ==> *final(self) == *old(self),
            r is Ok ==> final(self).addresses@ == old(self).addresses@.push(address)
                && final(self).claim_amounts@ == old(self).claim_amounts@.push(claim_amount),
            r is Ok ==> final(self).allocation_of(address@) == Some(claim_amount),
    {
        match self.find(&address) {
            Some(_) => Err(ErrorCode::AlreadyListed),
            None => {
                let ghost n = self.addresses@.len();
                self.addresses.push(address);
                self.claim_amounts.push(claim_amount);
                proof {
                    assert forall|i: int, j: int|
                        0 <= i < j < self.addresses@.len() implies self.addresses@[i]@
                        != self.addresses@[j]@ by {
                        if j == n {
                            assert(old(self).addresses@[i]@ != address@);
                        }
                    }
                    assert(self.addresses@[n as int]@ == address@);
                    let k = self.index_of(address@);
                    assert(0 <= k < self.addresses@.len() && self.addresses@[k]@ == address@);
                    assert(k == n);
                }
                Ok(())
            },
        }
    }
}

} // verus!
