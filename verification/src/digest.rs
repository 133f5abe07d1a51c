//! The finite-field value model: all note data, hashes and path elements
//! are vectors of elements of the Goldilocks prime field, carried here as
//! canonical `u64` representatives; digests are 4-element vectors.

use vstd::prelude::*;

verus! {

/// Order of the Goldilocks prime field used by the proving backend.
/// Every field element has a unique canonical representative below it.
pub const FIELD_ORDER: u64 = 0xFFFF_FFFF_0000_0001;

/// Holds when every element of the sequence is a canonical field element.
pub open spec fn all_canonical(s: Seq<u64>) -> bool {
    forall|i: int| 0 <= i < s.len() ==> s[i] < FIELD_ORDER
}

/// A 4-element field digest: the common shape of secret keys, note
/// commitments, nullifiers, Merkle siblings and Merkle roots.
#[derive(Clone, Copy, Debug, PartialEq, Eq, Structural)]
pub struct Digest {
    pub e0: u64,
    pub e1: u64,
    pub e2: u64,
    pub e3: u64,
}

impl View for Digest {
    type V = Seq<u64>;

    open spec fn view(&self) -> Seq<u64> {
        seq![self.e0, self.e1, self.e2, self.e3]
    }
}

impl Digest {
    /// Holds when all four elements are canonical field representatives.
    pub open spec fn wf(&self) -> bool {
        all_canonical(self@)
    }

    /// Builds a digest from its four elements.
    pub fn new(e0: u64, e1: u64, e2: u64, e3: u64) -> (d: Digest)
        ensures
            d@ == seq![e0, e1, e2, e3],
            d.wf() <==> (e0 < FIELD_ORDER && e1 < FIELD_ORDER && e2 < FIELD_ORDER
                && e3 < FIELD_ORDER),
    {
        let d = (Digest { e0, e1, e2, e3 });
        proof {
            assert(d@ =~= seq![e0, e1, e2, e3]);
        }
        d
    }

    /// Decides whether all four elements are canonical field representatives.
    pub fn is_canonical(&self) -> (ok: bool)
        ensures
            ok == self.wf(),
    {
        let ok = self.e0 < FIELD_ORDER && self.e1 < FIELD_ORDER && self.e2 < FIELD_ORDER
            && self.e3 < FIELD_ORDER;
        proof {
            if ok {
                assert forall|i: int| 0 <= i < self@.len() implies self@[i] < FIELD_ORDER by {
                    assert(self@ =~= seq![self.e0, self.e1, self.e2, self.e3]);
                }
            }
        }
        ok
    }

    /// The digest as a vector of its four elements, in order.
    pub fn to_vec(&self) -> (v: Vec<u64>)
        ensures
            v@ == self@,
    {
        let mut v: Vec<u64> = Vec::new();
        v.push(self.e0);
        v.push(self.e1);
        v.push(self.e2);
        v.push(self.e3);
        proof {
            assert(v@ =~= self@);
        }
        v
    }
}

} // verus!
