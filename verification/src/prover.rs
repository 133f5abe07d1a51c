//! The local half of the prover adapter: everything of proof generation
//! that does not touch the proving backend.
//!
//! Generating a withdrawal proof is validate-then-prove: the witness is
//! checked against the locally recomputable preconditions first — fail fast
//! rather than pay proving cost for a doomed witness — and only then mapped
//! onto the circuit's wires and handed to the backend. Both local steps are
//! verified here; the backend call itself lives outside the library.

use vstd::prelude::*;

use crate::circuit::WitnessAssignment;
use crate::circuit::WithdrawCircuitTargets;
use crate::circuit::assign_withdraw_witness;
use crate::circuit::index_from_selectors;
use crate::digest::Digest;
use crate::error::WithdrawError;
use crate::merkle::RootFold;
use crate::merkle::digests_view;
use crate::merkle::lemma_rootfold_path_shape;
use crate::witness::WithdrawWitness;
use crate::witness::validate_witness;

verus! {

/// Validates a withdrawal witness and, if it passes, maps it onto the
/// circuit's wires. `commitment_hash`, `nullifier_hash` and `fold` carry the
/// outside hash's answers, as in `validate_witness`. Returns the exact
/// assignment of `assign_withdraw_witness` when every local precondition
/// holds, and `InvalidWitness` otherwise — before any proving work is done.
pub fn prepare_withdraw_assignment(
    targets: &WithdrawCircuitTargets,
    w: &WithdrawWitness,
    commitment_hash: &Digest,
    nullifier_hash: &Digest,
    fold: &RootFold,
) -> (r: Result<WitnessAssignment, WithdrawError>)
    requires
        targets.merkle_proof@.len() < 64,
        fold.wf(),
        fold.is_complete(),
        fold.leaf_view() == w.note_commitment@,
        fold.siblings_view() == digests_view(w.path.siblings@),
        fold.selectors_view() == w.path.path_indices@,
    ensures
        (r is Ok) <==> (w.path.shape_ok(targets.merkle_proof@.len()) && w.canonical()
            && w.note_commitment@ == commitment_hash@ && w.nullifier@ == nullifier_hash@
            && fold.cur_view() == w.merkle_root@),
        r is Err ==> r->Err_0 == WithdrawError::InvalidWitness,
        r is Ok ==> r->Ok_0.hash_values@ == seq![
            (targets.merkle_root, w.merkle_root),
            (targets.nullifier, w.nullifier),
            (targets.note_commitment, w.note_commitment),
            (targets.secret_key, w.secret_key),
        ] + Seq::new(
            targets.merkle_proof@.len(),
            |i: int| (targets.merkle_proof@[i], w.path.siblings@[i]),
        ),
        r is Ok ==> r->Ok_0.scalar_values@.len() == 1 && r->Ok_0.scalar_values@[0].0
            == targets.leaf_index && r->Ok_0.scalar_values@[0].1 as nat == index_from_selectors(
            w.path.path_indices@,
        ),
{
    proof {
        lemma_rootfold_path_shape(fold);
        assert forall|i: int| 0 <= i < w.path.path_indices@.len() implies (
        #[trigger] w.path.path_indices@[i]) == 0 || w.path.path_indices@[i] == 1 by {
            assert(w.path.path_indices@[i] == fold.selectors_view()[i]);
        }
    }
    match validate_witness(
        w,
        targets.merkle_proof.len(),
        commitment_hash,
        nullifier_hash,
        fold,
    ) {
        Ok(()) => assign_withdraw_witness(targets, w),
        Err(e) => Err(e),
    }
}

} // verus!
