//! The withdrawal constraint system, laid out as a verified symbolic plan.
//!
//! The proving backend's circuit builder is an outside collaborator. The
//! library therefore describes the constraint system as an explicit list of
//! constraint-building operations over symbolic wire ids, and a thin
//! interpreter around the backend replays the list call for call. The layout
//! is part of the protocol's security contract — which values are public
//! inputs and in what order, that the path selectors come from a boolean
//! decomposition of the leaf index, how the commitment, nullifier and
//! membership chain are wired — so `build_withdraw_circuit` pins the whole
//! operation list down exactly, as a function of the tree height alone.

use vstd::prelude::*;

use crate::digest::Digest;
use crate::error::WithdrawError;
use crate::witness::WithdrawWitness;

verus! {

/// One constraint-building operation over symbolic ids. A digest id names
/// four field wires, a scalar id one wire, and a bit-vector id the list of
/// boolean wires produced by a decomposition.
#[derive(Clone, Copy, Debug, PartialEq, Eq, Structural)]
pub enum CircuitOp {
    /// Allocate a fresh digest of four private virtual wires, named `out`.
    AddVirtualHash { out: usize },
    /// Allocate one fresh private virtual wire, named `out`.
    AddVirtualTarget { out: usize },
    /// Append the four elements of digest `hash` to the public-input vector.
    RegisterPublicHash { hash: usize },
    /// Constrain digest `out` to be the hash of digest `input`'s elements.
    HashSingle { input: usize, out: usize },
    /// Constrain digest `out` to be the hash of digest `first`'s elements
    /// followed by digest `second`'s.
    HashPair { first: usize, second: usize, out: usize },
    /// Constrain two digests to be equal, element by element.
    ConnectHashes { left: usize, right: usize },
    /// Decompose scalar `index` into `bit_count` wires, little-endian, each
    /// constrained in-circuit to be boolean; `out` names the bit vector.
    SplitIndexBits { index: usize, bit_count: usize, out: usize },
    /// Enforce the membership chain: folding digest `leaf` up the
    /// `sibling_count` consecutive digests starting at `siblings_start`,
    /// with the direction bits `index_bits`, must reach digest `root`.
    VerifyMerklePath {
        leaf: usize,
        index_bits: usize,
        root: usize,
        siblings_start: usize,
        sibling_count: usize,
    },
}

/// An append-only list of constraint-building operations with a fresh-id
/// counter: the symbolic counterpart of the backend's circuit builder.
pub struct CircuitBlueprint {
    ops: Vec<CircuitOp>,
    next_id: usize,
}

impl CircuitBlueprint {
    /// The operations recorded so far, oldest first.
    pub closed spec fn ops_view(&self) -> Seq<CircuitOp> {
        self.ops@
    }

    /// The next id a fresh wire, digest or bit vector would receive.
    pub closed spec fn next_id_view(&self) -> int {
        self.next_id as int
    }

    /// An empty blueprint.
    pub fn new() -> (b: CircuitBlueprint)
        ensures
            b.ops_view() === Seq::<CircuitOp>::empty(),
            b.next_id_view() == 0,
    {
        CircuitBlueprint { ops: Vec::new(), next_id: 0 }
    }

    /// The recorded operations, for the interpreter to replay.
    pub fn op_list(&self) -> (r: &Vec<CircuitOp>)
        ensures
            r@ == self.ops_view(),
    {
        &self.ops
    }

    /// Allocates a fresh digest of virtual wires.
    pub fn add_virtual_hash(&mut self) -> (out: usize)
        requires
            old(self).next_id_view() < usize::MAX,
        ensures
            out as int == old(self).next_id_view(),
            final(self).next_id_view() == old(self).next_id_view() + 1,
            final(self).ops_view() == old(self).ops_view().push(
                (CircuitOp::AddVirtualHash { out }),
            ),
    {
        let out = self.next_id;
        self.next_id = self.next_id + 1;
        self.ops.push(CircuitOp::AddVirtualHash { out });
        out
    }

    /// Allocates a fresh scalar virtual wire.
    pub fn add_virtual_target(&mut self) -> (out: usize)
        requires
            old(self).next_id_view() < usize::MAX,
        ensures
            out as int == old(self).next_id_view(),
            final(self).next_id_view() == old(self).next_id_view() + 1,
            final(self).ops_view() == old(self).ops_view().push(
                (CircuitOp::AddVirtualTarget { out }),
            ),
    {
        let out = self.next_id;
        self.next_id = self.next_id + 1;
        self.ops.push(CircuitOp::AddVirtualTarget { out });
        out
    }

    /// Registers the four elements of digest `hash` as public inputs, in
    /// order, after all previously registered public inputs.
    pub fn register_public_hash(&mut self, hash: usize)
        ensures
            final(self).next_id_view() == old(self).next_id_view(),
            final(self).ops_view() == old(self).ops_view().push(
                (CircuitOp::RegisterPublicHash { hash }),
            ),
    {
        self.ops.push(CircuitOp::RegisterPublicHash { hash });
    }

    /// Records a hash of one digest into a fresh output digest.
    pub fn hash_single(&mut self, input: usize) -> (out: usize)
        requires
            old(self).next_id_view() < usize::MAX,
        ensures
            out as int == old(self).next_id_view(),
            final(self).next_id_view() == old(self).next_id_view() + 1,
            final(self).ops_view() == old(self).ops_view().push(
                (CircuitOp::HashSingle { input, out }),
            ),
    {
        let out = self.next_id;
        self.next_id = self.next_id + 1;
        self.ops.push(CircuitOp::HashSingle { input, out });
        out
    }

    /// Records a hash of two concatenated digests into a fresh output digest.
    pub fn hash_pair(&mut self, first: usize, second: usize) -> (out: usize)
        requires
            old(self).next_id_view() < usize::MAX,
        ensures
            out as int == old(self).next_id_view(),
            final(self).next_id_view() == old(self).next_id_view() + 1,
            final(self).ops_view() == old(self).ops_view().push(
                (CircuitOp::HashPair { first, second, out }),
            ),
    {
        let out = self.next_id;
        self.next_id = self.next_id + 1;
        self.ops.push(CircuitOp::HashPair { first, second, out });
        out
    }

    /// Records an element-wise equality constraint between two digests.
    pub fn connect_hashes(&mut self, left: usize, right: usize)
        ensures
            final(self).next_id_view() == old(self).next_id_view(),
            final(self).ops_view() == old(self).ops_view().push(
                (CircuitOp::ConnectHashes { left, right }),
            ),
    {
        self.ops.push(CircuitOp::ConnectHashes { left, right });
    }

    /// Records the boolean decomposition of a scalar wire into `bit_count`
    /// bits, returning the fresh id of the bit vector.
    pub fn split_index_bits(&mut self, index: usize, bit_count: usize) -> (out: usize)
        requires
            old(self).next_id_view() < usize::MAX,
        ensures
            out as int == old(self).next_id_view(),
            final(self).next_id_view() == old(self).next_id_view() + 1,
            final(self).ops_view() == old(self).ops_view().push(
                (CircuitOp::SplitIndexBits { index, bit_count, out }),
            ),
    {
        let out = self.next_id;
        self.next_id = self.next_id + 1;
        self.ops.push(CircuitOp::SplitIndexBits { index, bit_count, out });
        out
    }

    /// Records the Merkle membership constraint.
    pub fn verify_merkle_path(
        &mut self,
        leaf: usize,
        index_bits: usize,
        root: usize,
        siblings_start: usize,
        sibling_count: usize,
    )
        ensures
            final(self).next_id_view() == old(self).next_id_view(),
            final(self).ops_view() == old(self).ops_view().push(
                (CircuitOp::VerifyMerklePath {
                    leaf,
                    index_bits,
                    root,
                    siblings_start,
                    sibling_count,
                }),
            ),
    {
        self.ops.push(
            CircuitOp::VerifyMerklePath { leaf, index_bits, root, siblings_start, sibling_count },
        );
    }
}

/// The symbolic wires of the withdrawal circuit that the witness is
/// assigned to: the two public digests, the private secret key, note
/// commitment and sibling digests, and the scalar leaf-index wire whose
/// boolean decomposition drives the path directions.
pub struct WithdrawCircuitTargets {
    pub merkle_root: usize,
    pub nullifier: usize,
    pub secret_key: usize,
    pub note_commitment: usize,
    pub merkle_proof: Vec<usize>,
    pub leaf_index: usize,
    pub index_bits: usize,
}

/// The withdrawal circuit for one fixed tree height. The constraint system
/// has a fixed shape: one circuit is built per supported height.
pub struct WithdrawCircuit {
    pub tree_height: usize,
}

/// The exact operation list of the withdrawal circuit for a tree of height
/// `height`, when ids start at `base`: the Merkle root and then the
/// nullifier are registered as the only public inputs; the note commitment
/// is constrained to be the hash of the secret key; the nullifier is
/// constrained to be the hash of the commitment followed by the secret key;
/// and the commitment must fold up the sibling digests, with the boolean
/// bits of the leaf index as directions, to the root.
pub open spec fn withdraw_circuit_ops(base: int, height: int) -> Seq<CircuitOp> {
    seq![
        (CircuitOp::AddVirtualHash { out: base as usize }),
        (CircuitOp::RegisterPublicHash { hash: base as usize }),
        (CircuitOp::AddVirtualHash { out: (base + 1) as usize }),
        (CircuitOp::RegisterPublicHash { hash: (base + 1) as usize }),
        (CircuitOp::AddVirtualHash { out: (base + 2) as usize }),
        (CircuitOp::AddVirtualHash { out: (base + 3) as usize }),
        (CircuitOp::HashSingle { input: (base + 2) as usize, out: (base + 4) as usize }),
        (CircuitOp::ConnectHashes { left: (base + 4) as usize, right: (base + 3) as usize }),
        (CircuitOp::HashPair {
            first: (base + 3) as usize,
            second: (base + 2) as usize,
            out: (base + 5) as usize,
        }),
        (CircuitOp::ConnectHashes { left: (base + 5) as usize, right: (base + 1) as usize }),
    ] + Seq::new(
        height as nat,
        |i: int| (CircuitOp::AddVirtualHash { out: (base + 6 + i) as usize }),
    ) + seq![
        (CircuitOp::AddVirtualTarget { out: (base + 6 + height) as usize }),
        (CircuitOp::SplitIndexBits {
            index: (base + 6 + height) as usize,
            bit_count: height as usize,
            out: (base + 7 + height) as usize,
        }),
        (CircuitOp::VerifyMerklePath {
            leaf: (base + 3) as usize,
            index_bits: (base + 7 + height) as usize,
            root: base as usize,
            siblings_start: (base + 6) as usize,
            sibling_count: height as usize,
        }),
    ]
}

impl WithdrawCircuit {
    /// Lays the withdrawal constraint system out on `builder`: appends
    /// exactly `withdraw_circuit_ops(_, tree_height)` and returns the
    /// symbolic wires the witness is assigned to.
    pub fn build_withdraw_circuit(&self, builder: &mut CircuitBlueprint) -> (t:
        WithdrawCircuitTargets)
        requires
            old(builder).next_id_view() + self.tree_height + 8 <= usize::MAX,
        ensures
            final(builder).ops_view() == old(builder).ops_view() + withdraw_circuit_ops(
                old(builder).next_id_view(),
                self.tree_height as int,
            ),
            final(builder).next_id_view() == old(builder).next_id_view() + 8 + self.tree_height,
            t.merkle_root as int == old(builder).next_id_view(),
            t.nullifier as int == old(builder).next_id_view() + 1,
            t.secret_key as int == old(builder).next_id_view() + 2,
            t.note_commitment as int == old(builder).next_id_view() + 3,
            t.merkle_proof@.len() == self.tree_height,
            forall|i: int|
                0 <= i < self.tree_height ==> (#[trigger] t.merkle_proof@[i]) as int == old(
                    builder,
                ).next_id_view() + 6 + i,
            t.leaf_index as int == old(builder).next_id_view() + 6 + self.tree_height,
            t.index_bits as int == old(builder).next_id_view() + 7 + self.tree_height,
    {
        let ghost base = old(builder).next_id_view();
        let ghost ops0 = old(builder).ops_view();
        let height = self.tree_height;

        let merkle_root = builder.add_virtual_hash();
        builder.register_public_hash(merkle_root);
        let nullifier = builder.add_virtual_hash();
        builder.register_public_hash(nullifier);
        let secret_key = builder.add_virtual_hash();
        let note_commitment = builder.add_virtual_hash();
        let commitment_hash = builder.hash_single(secret_key);
        builder.connect_hashes(commitment_hash, note_commitment);
        let nullifier_hash = builder.hash_pair(note_commitment, secret_key);
        builder.connect_hashes(nullifier_hash, nullifier);

        let ghost prefix = builder.ops_view();
        let siblings_start = builder.next_id;

        let mut merkle_proof: Vec<usize> = Vec::new();
        let mut i: usize = 0;
        while i < height
            invariant
                0 <= i <= height,
                base + height + 8 <= usize::MAX,
                builder.next_id_view() == base + 6 + i,
                builder.ops_view() == prefix + Seq::new(
                    i as nat,
                    |j: int| (CircuitOp::AddVirtualHash { out: (base + 6 + j) as usize }),
                ),
                merkle_proof@.len() == i,
                forall|j: int|
                    0 <= j < i ==> (#[trigger] merkle_proof@[j]) as int == base + 6 + j,
            decreases height - i,
        {
            let sibling = builder.add_virtual_hash();
            merkle_proof.push(sibling);
            i = i + 1;
            proof {
                assert(builder.ops_view() =~= prefix + Seq::new(
                    i as nat,
                    |j: int| (CircuitOp::AddVirtualHash { out: (base + 6 + j) as usize }),
                ));
            }
        }

        let leaf_index = builder.add_virtual_target();
        let index_bits = builder.split_index_bits(leaf_index, height);
        builder.verify_merkle_path(note_commitment, index_bits, merkle_root, siblings_start, height);

        proof {
            assert(builder.ops_view() =~= ops0 + withdraw_circuit_ops(base, height as int));
        }

        WithdrawCircuitTargets {
            merkle_root,
            nullifier,
            secret_key,
            note_commitment,
            merkle_proof,
            leaf_index,
            index_bits,
        }
    }
}

/// The concrete witness assignment handed to the backend: a digest value
/// for each digest wire and a scalar value for each scalar wire.
pub struct WitnessAssignment {
    pub hash_values: Vec<(usize, Digest)>,
    pub scalar_values: Vec<(usize, u64)>,
}

/// The leaf index encoded by the path selectors, read little-endian: the
/// selector of level 0 is the lowest bit.
pub open spec fn index_from_selectors(selectors: Seq<u64>) -> nat
    decreases selectors.len(),
{
    if selectors.len() == 0 {
        0
    } else {
        selectors[0] as nat + 2 * index_from_selectors(selectors.drop_first())
    }
}

/// The little-endian bit decomposition of a leaf index into `len` bits:
/// what the circuit's boolean split recovers from the index wire.
pub open spec fn selectors_from_index(index: nat, len: nat) -> Seq<u64>
    decreases len,
{
    if len == 0 {
        Seq::empty()
    } else {
        seq![(index % 2) as u64] + selectors_from_index(index / 2, (len - 1) as nat)
    }
}

/// The index wire and the path selectors carry the same information: the
/// in-circuit boolean decomposition of the assigned leaf index yields
/// exactly the binary selectors the witness was validated against, so the
/// directions the membership constraint folds with are the validated ones.
pub proof fn lemma_selector_index_roundtrip(selectors: Seq<u64>)
    requires
        forall|i: int|
            0 <= i < selectors.len() ==> (#[trigger] selectors[i]) == 0 || selectors[i] == 1,
    ensures
        selectors_from_index(index_from_selectors(selectors), selectors.len()) == selectors,
    decreases selectors.len(),
{
    if selectors.len() == 0 {
        assert(selectors_from_index(index_from_selectors(selectors), 0) =~= selectors);
    } else {
        let rest = selectors.drop_first();
        let head = selectors[0];
        let index = index_from_selectors(selectors);
        assert(index == head as nat + 2 * index_from_selectors(rest));
        assert(head == 0 || head == 1);
        assert(index % 2 == head as nat);
        assert(index / 2 == index_from_selectors(rest));
        assert forall|i: int| 0 <= i < rest.len() implies (#[trigger] rest[i]) == 0 || rest[i]
            == 1 by {
            assert(rest[i] == selectors[i + 1]);
        }
        lemma_selector_index_roundtrip(rest);
        assert(selectors_from_index(index, selectors.len()) =~= selectors);
    }
}

/// The converse round trip: reassembling an index from its own bit
/// decomposition gives the index back. A prover that derives its path
/// selectors from a leaf position therefore puts exactly that position on
/// the circuit's index wire.
pub proof fn lemma_index_selector_roundtrip(index: nat, len: nat)
    requires
        index < vstd::arithmetic::power2::pow2(len),
    ensures
        index_from_selectors(selectors_from_index(index, len)) == index,
    decreases len,
{
    vstd::arithmetic::power2::lemma2_to64();
    if len == 0 {
        assert(index == 0);
    } else {
        vstd::arithmetic::power2::lemma_pow2_unfold(len);
        let rest = selectors_from_index(index / 2, (len - 1) as nat);
        let s = selectors_from_index(index, len);
        assert(s[0] == (index % 2) as u64);
        assert(s.drop_first() =~= rest);
        assert(index / 2 < vstd::arithmetic::power2::pow2((len - 1) as nat));
        lemma_index_selector_roundtrip(index / 2, (len - 1) as nat);
    }
}

/// Maps a withdrawal witness onto the symbolic wires of a built circuit:
/// digest values for the root, nullifier, commitment, secret key and
/// siblings, and the leaf index — reassembled from the binary selectors —
/// for the index wire. Rejects, with `InvalidWitness`, exactly the
/// witnesses whose path does not have the circuit's height, carries a
/// selector outside {0, 1}, or holds a non-canonical element.
pub fn assign_withdraw_witness(targets: &WithdrawCircuitTargets, w: &WithdrawWitness) -> (r:
    Result<WitnessAssignment, WithdrawError>)
    requires
        targets.merkle_proof@.len() < 64,
    ensures
        (r is Ok) <==> (w.path.shape_ok(targets.merkle_proof@.len()) && w.path.selectors_ok()
            && w.canonical()),
        r is Err ==> r->Err_0 == WithdrawError::InvalidWitness,
        r is Ok ==> r->Ok_0.hash_values@ == seq![
            (targets.merkle_root, w.merkle_root),
            (targets.nullifier, w.nullifier),
            (targets.note_commitment, w.note_commitment),
            (targets.secret_key, w.secret_key),
        ] + Seq::new(
            targets.merkle_proof@.len(),
            |i: int| (targets.merkle_proof@[i], w.path.siblings@[i]),
        ),
        r is Ok ==> r->Ok_0.scalar_values@.len() == 1 && r->Ok_0.scalar_values@[0].0
            == targets.leaf_index && r->Ok_0.scalar_values@[0].1 as nat == index_from_selectors(
            w.path.path_indices@,
        ),
{
    let height = targets.merkle_proof.len();
    if w.path.siblings.len() != height || w.path.path_indices.len() != height {
        return Err(WithdrawError::InvalidWitness);
    }
    if !w.path.check_selectors() {
        return Err(WithdrawError::InvalidWitness);
    }
    if !w.check_canonical() {
        return Err(WithdrawError::InvalidWitness);
    }

    let leaf_index_value = selectors_to_index(&w.path.path_indices);

    let mut hash_values: Vec<(usize, Digest)> = Vec::new();
    hash_values.push((targets.merkle_root, w.merkle_root));
    hash_values.push((targets.nullifier, w.nullifier));
    hash_values.push((targets.note_commitment, w.note_commitment));
    hash_values.push((targets.secret_key, w.secret_key));

    let ghost head = hash_values@;

    let mut i: usize = 0;
    while i < height
        invariant
            0 <= i <= height,
            height == targets.merkle_proof@.len(),
            height == w.path.siblings@.len(),
            hash_values@ == head + Seq::new(
                i as nat,
                |j: int| (targets.merkle_proof@[j], w.path.siblings@[j]),
            ),
        decreases height - i,
    {
        hash_values.push((targets.merkle_proof[i], w.path.siblings[i]));
        i = i + 1;
        proof {
            assert(hash_values@ =~= head + Seq::new(
                i as nat,
                |j: int| (targets.merkle_proof@[j], w.path.siblings@[j]),
            ));
        }
    }

    let mut scalar_values: Vec<(usize, u64)> = Vec::new();
    scalar_values.push((targets.leaf_index, leaf_index_value));

    proof {
        assert(hash_values@ =~= seq![
            (targets.merkle_root, w.merkle_root),
            (targets.nullifier, w.nullifier),
            (targets.note_commitment, w.note_commitment),
            (targets.secret_key, w.secret_key),
        ] + Seq::new(
            targets.merkle_proof@.len(),
            |j: int| (targets.merkle_proof@[j], w.path.siblings@[j]),
        ));
    }

    Ok(WitnessAssignment { hash_values, scalar_values })
}

/// Reassembles the leaf index from the binary path selectors, lowest level
/// first.
pub fn selectors_to_index(selectors: &Vec<u64>) -> (index: u64)
    requires
        selectors@.len() < 64,
        forall|i: int|
            0 <= i < selectors@.len() ==> (#[trigger] selectors@[i]) == 0 || selectors@[i] == 1,
    ensures
        index as nat == index_from_selectors(selectors@),
{
    let n = selectors.len();
    let mut acc: u64 = 0;
    let mut i: usize = n;
    proof {
        vstd::arithmetic::power2::lemma2_to64();
    }
    while i > 0
        invariant
            0 <= i <= n,
            n == selectors@.len(),
            n < 64,
            forall|k: int|
                0 <= k < selectors@.len() ==> (#[trigger] selectors@[k]) == 0 || selectors@[k]
                    == 1,
            acc as nat == index_from_selectors(selectors@.subrange(i as int, n as int)),
            acc < vstd::arithmetic::power2::pow2((n - i) as nat),
        decreases i,
    {
        i = i - 1;
        proof {
            vstd::arithmetic::power2::lemma_pow2_unfold((n - i) as nat);
            vstd::arithmetic::power2::lemma_pow2_strictly_increases((n - i) as nat, 64);
            vstd::arithmetic::power2::lemma2_to64();
            assert(selectors@.subrange(i as int, n as int).drop_first() =~= selectors@.subrange(
                i + 1,
                n as int,
            ));
        }
        acc = 2 * acc + selectors[i];
    }
    proof {
        assert(selectors@.subrange(0, n as int) =~= selectors@);
    }
    acc
}

} // verus!
