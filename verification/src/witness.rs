//! The withdrawal witness and its local precondition checks.
//!
//! A withdrawal witness bundles the depositor's secret with the public
//! values the proof is anchored to. Before any proving work is paid for,
//! the witness is validated locally: the path must have the declared shape,
//! every selector must be binary, every element must be canonical, the note
//! commitment and the nullifier must match their hash derivations, and the
//! root recomputed from the leaf up the path must equal the declared root.
//! The hash itself is an outside collaborator, so the checks take its
//! answers as arguments; `lemma_validation_exact` states that, for every
//! hash function the answers could have come from, validation accepts
//! exactly the witnesses that satisfy the withdrawal relation.

use vstd::prelude::*;

use crate::digest::Digest;
use crate::error::WithdrawError;
use crate::merkle::MerklePath;
use crate::merkle::RootFold;
use crate::merkle::digests_view;
use crate::merkle::fold_under;
use crate::merkle::transcript_consistent;

verus! {

/// The full private-plus-public assignment consumed by the prover: the
/// secret key, the note commitment it opens, the nullifier it derives, the
/// Merkle root the proof is anchored to, and the membership path.
pub struct WithdrawWitness {
    pub secret_key: Digest,
    pub note_commitment: Digest,
    pub nullifier: Digest,
    pub merkle_root: Digest,
    pub path: MerklePath,
}

/// The only values visible to the verifier and to the nullifier ledger: the
/// Merkle root the proof is anchored to and the published nullifier.
pub struct PublicInputs {
    pub merkle_root: Digest,
    pub nullifier: Digest,
}

impl PublicInputs {
    /// The public-input vector in the exact order the circuit registers it:
    /// the root's four elements, then the nullifier's. A published proof
    /// must carry exactly this vector to verify against these values.
    pub fn to_vec(&self) -> (v: Vec<u64>)
        ensures
            v@ == self.merkle_root@ + self.nullifier@,
    {
        let mut v = self.merkle_root.to_vec();
        let mut tail = self.nullifier.to_vec();
        v.append(&mut tail);
        v
    }
}

/// The input whose hash defines the nullifier: the note commitment's
/// elements followed by the secret key's, binding the nullifier to the
/// specific note as well as to the secret that opens it.
pub open spec fn nullifier_hash_input(commitment: Seq<u64>, secret: Seq<u64>) -> Seq<u64> {
    commitment + secret
}

/// The nullifier derived from a secret key under hash `h`: the hash of the
/// note commitment (itself `h(secret)`) followed by the secret.
pub open spec fn nullifier_under(h: spec_fn(Seq<u64>) -> Seq<u64>, secret: Seq<u64>) -> Seq<u64> {
    h(nullifier_hash_input(h(secret), secret))
}

impl WithdrawWitness {
    /// Every digest the witness carries is made of canonical field elements.
    pub open spec fn canonical(&self) -> bool {
        &&& self.secret_key.wf()
        &&& self.note_commitment.wf()
        &&& self.nullifier.wf()
        &&& self.merkle_root.wf()
        &&& forall|i: int|
            0 <= i < self.path.siblings@.len() ==> (#[trigger] self.path.siblings@[i]).wf()
    }

    /// The withdrawal relation under hash `h` for a tree of height
    /// `tree_height`:
    /// the path has the declared shape with binary selectors, the note
    /// commitment opens to the secret, the nullifier is derived from the
    /// secret, and folding the commitment up the path reaches the root.
    pub open spec fn valid_under(&self, h: spec_fn(Seq<u64>) -> Seq<u64>, tree_height: nat) -> bool {
        &&& self.path.shape_ok(tree_height)
        &&& self.path.selectors_ok()
        &&& self.note_commitment@ == h(self.secret_key@)
        &&& self.nullifier@ == nullifier_under(h, self.secret_key@)
        &&& fold_under(
            h,
            self.note_commitment@,
            digests_view(self.path.siblings@),
            self.path.path_indices@,
        ) == self.merkle_root@
    }

    /// Decides whether every digest of the witness is canonical.
    pub fn check_canonical(&self) -> (ok: bool)
        ensures
            ok == self.canonical(),
    {
        if !self.secret_key.is_canonical() || !self.note_commitment.is_canonical()
            || !self.nullifier.is_canonical() || !self.merkle_root.is_canonical() {
            return false;
        }
        let n = self.path.siblings.len();
        let mut i: usize = 0;
        while i < n
            invariant
                0 <= i <= n,
                n == self.path.siblings@.len(),
                self.secret_key.wf(),
                self.note_commitment.wf(),
                self.nullifier.wf(),
                self.merkle_root.wf(),
                forall|j: int| 0 <= j < i ==> (#[trigger] self.path.siblings@[j]).wf(),
            decreases n - i,
        {
            if !self.path.siblings[i].is_canonical() {
                return false;
            }
            i = i + 1;
        }
        true
    }

    /// The exact elements whose hash must equal the nullifier: the commitment's
    /// elements followed by the secret key's. The caller hands this vector
    /// to the outside hash when deriving or checking a nullifier.
    pub fn nullifier_request(&self) -> (v: Vec<u64>)
        ensures
            v@ == nullifier_hash_input(self.note_commitment@, self.secret_key@),
    {
        let mut v = self.note_commitment.to_vec();
        let mut tail = self.secret_key.to_vec();
        v.append(&mut tail);
        v
    }
}

/// The local precondition check run before proof generation, spelled out in
/// terms of the outside hash's answers: `commitment_hash` must be the hash
/// of the secret key, `nullifier_hash` the hash of the nullifier input, and
/// `fold` the completed root recomputation started from the note commitment
/// over the witness's own path. Accepts exactly when the witness has the
/// declared shape, is canonical, and all three derived values match the
/// declared ones.
pub fn validate_witness(
    w: &WithdrawWitness,
    tree_height: usize,
    commitment_hash: &Digest,
    nullifier_hash: &Digest,
    fold: &RootFold,
) -> (r: Result<(), WithdrawError>)
    requires
        fold.wf(),
        fold.is_complete(),
        fold.leaf_view() == w.note_commitment@,
        fold.siblings_view() == digests_view(w.path.siblings@),
        fold.selectors_view() == w.path.path_indices@,
    ensures
        (r is Ok) <==> (w.path.shape_ok(tree_height as nat) && w.canonical()
            && w.note_commitment@ == commitment_hash@ && w.nullifier@ == nullifier_hash@
            && fold.cur_view() == w.merkle_root@),
        r is Err ==> r->Err_0 == WithdrawError::InvalidWitness,
{
    if w.path.siblings.len() != tree_height || w.path.path_indices.len() != tree_height {
        return Err(WithdrawError::InvalidWitness);
    }
    if !w.check_canonical() {
        return Err(WithdrawError::InvalidWitness);
    }
    if !digest_eq(&w.note_commitment, commitment_hash) {
        return Err(WithdrawError::InvalidWitness);
    }
    if !digest_eq(&w.nullifier, nullifier_hash) {
        return Err(WithdrawError::InvalidWitness);
    }
    let recomputed = fold.computed_root();
    if !digest_eq(&recomputed, &w.merkle_root) {
        return Err(WithdrawError::InvalidWitness);
    }
    Ok(())
}

/// Completeness and soundness of the local check, relative to the hash: for
/// every hash function `h`, if the supplied hash answers agree with `h` —
/// the commitment answer is `h` of the secret key, the nullifier answer is
/// `h` of the nullifier input, and the fold's transcript is consistent with
/// `h` — then the acceptance condition of `validate_witness` holds exactly
/// when the witness satisfies the withdrawal relation under `h`. A correctly
/// constructed witness is accepted; one whose recomputed root, commitment or
/// nullifier disagrees under `h` is rejected.
pub proof fn lemma_validation_exact(
    w: &WithdrawWitness,
    tree_height: nat,
    commitment_hash: &Digest,
    nullifier_hash: &Digest,
    fold: &RootFold,
    h: spec_fn(Seq<u64>) -> Seq<u64>,
)
    requires
        w.canonical(),
        fold.wf(),
        fold.is_complete(),
        fold.leaf_view() == w.note_commitment@,
        fold.siblings_view() == digests_view(w.path.siblings@),
        fold.selectors_view() == w.path.path_indices@,
        transcript_consistent(
            h,
            fold.leaf_view(),
            fold.siblings_view(),
            fold.selectors_view(),
            fold.transcript_view(),
        ),
        commitment_hash@ == h(w.secret_key@),
        nullifier_hash@ == h(nullifier_hash_input(w.note_commitment@, w.secret_key@)),
    ensures
        (w.path.shape_ok(tree_height) && w.canonical() && w.note_commitment@ == commitment_hash@
            && w.nullifier@ == nullifier_hash@ && fold.cur_view() == w.merkle_root@) <==> w.valid_under(
            h,
            tree_height,
        ),
{
    crate::merkle::lemma_machine_fold(fold, h);
    crate::merkle::lemma_rootfold_path_shape(fold);
    if w.note_commitment@ == h(w.secret_key@) {
        assert(nullifier_hash@ == nullifier_under(h, w.secret_key@));
    }
}

/// Re-deriving the nullifier from the same secret key always yields the
/// same value: under any fixed hash function, the nullifier is a function
/// of the secret key alone.
pub proof fn lemma_nullifier_deterministic(
    h: spec_fn(Seq<u64>) -> Seq<u64>,
    first: Seq<u64>,
    second: Seq<u64>,
)
    requires
        first == second,
    ensures
        nullifier_under(h, first) == nullifier_under(h, second),
{
}

/// The height-0 tree degenerates cleanly: with an empty path, the
/// withdrawal relation asks for no hashing rounds at all beyond the
/// commitment and nullifier derivations, and membership reduces to the note
/// commitment equalling the Merkle root.
pub proof fn lemma_height_zero(w: &WithdrawWitness, h: spec_fn(Seq<u64>) -> Seq<u64>)
    requires
        w.path.siblings@.len() == 0,
        w.path.path_indices@.len() == 0,
    ensures
        w.valid_under(h, 0) <==> (w.note_commitment@ == h(w.secret_key@) && w.nullifier@
            == nullifier_under(h, w.secret_key@) && w.note_commitment@ == w.merkle_root@),
{
    assert(fold_under(
        h,
        w.note_commitment@,
        digests_view(w.path.siblings@),
        w.path.path_indices@,
    ) == w.note_commitment@);
}

/// Element-wise equality of two digests.
pub fn digest_eq(a: &Digest, b: &Digest) -> (r: bool)
    ensures
        r == (a@ == b@),
{
    let r = a.e0 == b.e0 && a.e1 == b.e1 && a.e2 == b.e2 && a.e3 == b.e3;
    proof {
        if r {
            assert(a@ =~= b@);
        } else {
            assert(a@ != b@);
        }
    }
    r
}

} // verus!
