//! Double-spend prevention: the set of published nullifiers.
//!
//! Once a withdrawal proof is accepted, its nullifier must be recorded
//! permanently, and any later proof reusing it rejected. Checking and
//! recording are one operation here — test-and-set — so that two
//! withdrawals of the same note can never both pass when the ledger's
//! callers serialize their access to it.

use vstd::prelude::*;

use crate::digest::Digest;
use crate::witness::digest_eq;

verus! {

/// The ledger of nullifiers seen so far. Nullifiers are only ever added,
/// never removed: a consumed note stays consumed.
pub struct NullifierLedger {
    seen: Vec<Digest>,
}

impl NullifierLedger {
    /// The set of nullifier values recorded so far.
    pub closed spec fn seen_set(&self) -> Set<Seq<u64>> {
        Set::new(
            |v: Seq<u64>| exists|i: int| 0 <= i < self.seen@.len() && (#[trigger] self.seen@[i])@ == v,
        )
    }

    /// An empty ledger: no nullifier has been seen.
    pub fn new() -> (l: NullifierLedger)
        ensures
            l.seen_set() === Set::<Seq<u64>>::empty(),
    {
        let l = (NullifierLedger { seen: Vec::new() });
        proof {
            assert(l.seen_set() =~= Set::<Seq<u64>>::empty());
        }
        l
    }

    /// Whether this nullifier has been recorded before.
    pub fn has_seen(&self, nullifier: &Digest) -> (r: bool)
        ensures
            r == self.seen_set().contains(nullifier@),
    {
        let n = self.seen.len();
        let mut i: usize = 0;
        while i < n
            invariant
                0 <= i <= n,
                n == self.seen@.len(),
                forall|j: int| 0 <= j < i ==> (#[trigger] self.seen@[j])@ != nullifier@,
            decreases n - i,
        {
            if digest_eq(&self.seen[i], nullifier) {
                return true;
            }
            i = i + 1;
        }
        false
    }

    /// Atomically checks and records a nullifier: returns true, and records
    /// it, exactly when it had not been seen before; a nullifier that was
    /// already recorded is rejected and the ledger keeps remembering it.
    pub fn check_and_record(&mut self, nullifier: &Digest) -> (fresh: bool)
        ensures
            fresh == !old(self).seen_set().contains(nullifier@),
            final(self).seen_set() === old(self).seen_set().insert(nullifier@),
    {
        if self.has_seen(nullifier) {
            proof {
                assert(self.seen_set() =~= old(self).seen_set().insert(nullifier@));
            }
            return false;
        }
        let ghost before = self.seen@;
        self.seen.push(*nullifier);
        proof {
            assert forall|v: Seq<u64>| self.seen_set().contains(v) implies old(
                self,
            ).seen_set().insert(nullifier@).contains(v) by {
                let i = choose|i: int|
                    0 <= i < self.seen@.len() && (#[trigger] self.seen@[i])@ == v;
                if i < before.len() {
                    assert(before[i]@ == v);
                }
            }
            assert forall|v: Seq<u64>| old(self).seen_set().insert(nullifier@).contains(
                v,
            ) implies self.seen_set().contains(v) by {
                if v == nullifier@ {
                    assert(self.seen@[before.len() as int]@ == v);
                } else {
                    let i = choose|i: int| 0 <= i < before.len() && (#[trigger] before[i])@ == v;
                    assert(self.seen@[i]@ == v);
                }
            }
            assert(self.seen_set() =~= old(self).seen_set().insert(nullifier@));
        }
        true
    }
}

} // verus!
