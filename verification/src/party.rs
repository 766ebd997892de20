use vstd::prelude::*;

verus! {

/// The identity of a claimant or funder: a 32-byte account identifier,
/// such as a public key.
#[derive(Clone, Copy, Debug, PartialEq, Eq)]
pub struct PartyId {
    pub bytes: [u8; 32],
}

impl View for PartyId {
    type V = Seq<u8>;

    open spec fn view(&self) -> Seq<u8> {
        self.bytes@
    }
}

impl PartyId {
    pub fn new(bytes: [u8; 32]) -> (r: PartyId)
        ensures
            r@ == bytes@,
    {
        PartyId { bytes }
    }

    /// Byte-for-byte equality of two identities.
    pub fn same_as(&self, other: &PartyId) -> (r: bool)
        ensures
            r <==> self@ == other@,
    {
        bytes32_eq(&self.bytes, &other.bytes)
    }
}

/// Whether no party occurs twice in a sequence of identities.
pub fn distinct_parties(v: &Vec<PartyId>) -> (r: bool)
    ensures
        r == (forall|i: int, j: int| 0 <= i < j < v@.len() ==> v@[i]@ != v@[j]@),
{
    let mut i: usize = 0;
    while i < v.len()
        invariant
            0 <= i <= v@.len(),
            forall|p: int, q: int| 0 <= p < q < v@.len() && p < i ==> v@[p]@ != v@[q]@,
        decreases v@.len() - i,
    {
        let mut j: usize = i + 1;
        while j < v.len()
            invariant
                0 <= i < j <= v@.len(),
                forall|q: int| i < q < j ==> v@[i as int]@ != v@[q]@,
            decreases v@.len() - j,
        {
            if v[i].same_as(&v[j]) {
                return false;
            }
            j = j + 1;
        }
        i = i + 1;
    }
    true
}

/// Byte-for-byte equality of two 32-byte values.
pub fn bytes32_eq(a: &[u8; 32], b: &[u8; 32]) -> (r: bool)
    ensures
        r <==> a@ == b@,
{
    let mut i: usize = 0;
    while i < 32
        invariant
            0 <= i <= 32,
            forall|j: int| 0 <= j < i ==> a@[j] == b@[j],
        decreases 32 - i,
    {
        if a[i] != b[i] {
            return false;
        }
        i = i + 1;
    }
    proof {
        assert(a@ =~= b@);
    }
    true
}

} // verus!
