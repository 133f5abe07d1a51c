//! Exercises of the symbolic circuit plan and the witness assignment: the
//! public-input order, the fixed shape per tree height, and the mapping of
//! a witness onto the circuit's wires.

use shielded_withdraw::circuit::{
    assign_withdraw_witness, selectors_to_index, CircuitBlueprint, CircuitOp, WithdrawCircuit,
};
use shielded_withdraw::digest::{Digest, FIELD_ORDER};
use shielded_withdraw::error::WithdrawError;
use shielded_withdraw::merkle::MerklePath;
use shielded_withdraw::witness::WithdrawWitness;

fn digest_of(tag: u64) -> Digest {
    Digest::new(tag, tag + 1, tag + 2, tag + 3)
}

fn witness_for(targets_height: usize, selectors: Vec<u64>) -> WithdrawWitness {
    let siblings = (0..targets_height as u64).map(|i| digest_of(100 + i)).collect();
    WithdrawWitness {
        secret_key: digest_of(1),
        note_commitment: digest_of(10),
        nullifier: digest_of(20),
        merkle_root: digest_of(30),
        path: MerklePath { siblings, path_indices: selectors },
    }
}

#[test]
fn withdraw_circuit_has_fixed_shape() {
    let circuit = WithdrawCircuit { tree_height: 4 };
    let mut builder = CircuitBlueprint::new();
    let targets = circuit.build_withdraw_circuit(&mut builder);
    let ops = builder.op_list();

    // 13 fixed operations plus one sibling allocation per level.
    assert_eq!(ops.len(), 13 + 4);

    // The Merkle root and then the nullifier are the only public inputs.
    assert_eq!(ops[0], CircuitOp::AddVirtualHash { out: 0 });
    assert_eq!(ops[1], CircuitOp::RegisterPublicHash { hash: 0 });
    assert_eq!(ops[2], CircuitOp::AddVirtualHash { out: 1 });
    assert_eq!(ops[3], CircuitOp::RegisterPublicHash { hash: 1 });
    let public_registrations = ops
        .iter()
        .filter(|op| matches!(op, CircuitOp::RegisterPublicHash { .. }))
        .count();
    assert_eq!(public_registrations, 2);

    // The commitment opens the secret key; the nullifier binds commitment
    // and secret key.
    assert_eq!(ops[6], CircuitOp::HashSingle { input: 2, out: 4 });
    assert_eq!(ops[7], CircuitOp::ConnectHashes { left: 4, right: 3 });
    assert_eq!(ops[8], CircuitOp::HashPair { first: 3, second: 2, out: 5 });
    assert_eq!(ops[9], CircuitOp::ConnectHashes { left: 5, right: 1 });

    // One sibling digest per level, then the boolean index decomposition
    // and the membership constraint.
    for level in 0..4usize {
        assert_eq!(ops[10 + level], CircuitOp::AddVirtualHash { out: 6 + level });
    }
    assert_eq!(ops[14], CircuitOp::AddVirtualTarget { out: 10 });
    assert_eq!(
        ops[15],
        CircuitOp::SplitIndexBits { index: 10, bit_count: 4, out: 11 }
    );
    assert_eq!(
        ops[16],
        CircuitOp::VerifyMerklePath {
            leaf: 3,
            index_bits: 11,
            root: 0,
            siblings_start: 6,
            sibling_count: 4,
        }
    );

    assert_eq!(targets.merkle_root, 0);
    assert_eq!(targets.nullifier, 1);
    assert_eq!(targets.secret_key, 2);
    assert_eq!(targets.note_commitment, 3);
    assert_eq!(targets.merkle_proof, vec![6, 7, 8, 9]);
    assert_eq!(targets.leaf_index, 10);
    assert_eq!(targets.index_bits, 11);
}

#[test]
fn withdraw_circuit_height_zero_has_no_sibling_wires() {
    let circuit = WithdrawCircuit { tree_height: 0 };
    let mut builder = CircuitBlueprint::new();
    let targets = circuit.build_withdraw_circuit(&mut builder);
    let ops = builder.op_list();
    assert_eq!(ops.len(), 13);
    assert!(targets.merkle_proof.is_empty());
    assert_eq!(
        ops[12],
        CircuitOp::VerifyMerklePath {
            leaf: 3,
            index_bits: 7,
            root: 0,
            siblings_start: 6,
            sibling_count: 0,
        }
    );
}

#[test]
fn selectors_encode_leaf_index_little_endian() {
    assert_eq!(selectors_to_index(&vec![]), 0);
    assert_eq!(selectors_to_index(&vec![1, 0, 1, 0]), 5);
    assert_eq!(selectors_to_index(&vec![0, 0, 0, 1]), 8);
    assert_eq!(selectors_to_index(&vec![1, 1, 1, 1]), 15);
}

#[test]
fn assignment_maps_witness_onto_wires() {
    let circuit = WithdrawCircuit { tree_height: 2 };
    let mut builder = CircuitBlueprint::new();
    let targets = circuit.build_withdraw_circuit(&mut builder);
    let w = witness_for(2, vec![1, 0]);
    let assignment = assign_withdraw_witness(&targets, &w).unwrap();

    assert_eq!(
        assignment.hash_values,
        vec![
            (targets.merkle_root, w.merkle_root),
            (targets.nullifier, w.nullifier),
            (targets.note_commitment, w.note_commitment),
            (targets.secret_key, w.secret_key),
            (targets.merkle_proof[0], w.path.siblings[0]),
            (targets.merkle_proof[1], w.path.siblings[1]),
        ]
    );
    assert_eq!(assignment.scalar_values, vec![(targets.leaf_index, 1)]);
}

#[test]
fn assignment_rejects_nonbinary_selector() {
    let circuit = WithdrawCircuit { tree_height: 2 };
    let mut builder = CircuitBlueprint::new();
    let targets = circuit.build_withdraw_circuit(&mut builder);
    let w = witness_for(2, vec![2, 0]);
    assert_eq!(
        assign_withdraw_witness(&targets, &w).err(),
        Some(WithdrawError::InvalidWitness)
    );
}

#[test]
fn assignment_rejects_wrong_height_and_noncanonical() {
    let circuit = WithdrawCircuit { tree_height: 3 };
    let mut builder = CircuitBlueprint::new();
    let targets = circuit.build_withdraw_circuit(&mut builder);

    let short = witness_for(2, vec![1, 0]);
    assert_eq!(
        assign_withdraw_witness(&targets, &short).err(),
        Some(WithdrawError::InvalidWitness)
    );

    let mut bad = witness_for(3, vec![1, 0, 1]);
    bad.secret_key = Digest::new(FIELD_ORDER, 0, 0, 0);
    assert_eq!(
        assign_withdraw_witness(&targets, &bad).err(),
        Some(WithdrawError::InvalidWitness)
    );
}
