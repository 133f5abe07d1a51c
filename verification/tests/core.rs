//! End-to-end exercises of the verified core: the digest model, the
//! root-recomputation fold, witness validation and the sampling helper.
//!
//! The collision-resistant hash is an outside collaborator of the library,
//! so these tests stand in for it with a fixed test-local mixing function
//! and drive the fold machine exactly as the prover adapter would.

use shielded_withdraw::circuit::{CircuitBlueprint, WithdrawCircuit};
use shielded_withdraw::digest::{Digest, FIELD_ORDER};
use shielded_withdraw::error::WithdrawError;
use shielded_withdraw::ledger::NullifierLedger;
use shielded_withdraw::prover::prepare_withdraw_assignment;
use shielded_withdraw::merkle::{MerklePath, RootFold};
use shielded_withdraw::sample::random_secret_key;
use shielded_withdraw::witness::{validate_witness, PublicInputs, WithdrawWitness};

fn mix(mut x: u64) -> u64 {
    x = x.wrapping_add(0x9E37_79B9_7F4A_7C15);
    x = (x ^ (x >> 30)).wrapping_mul(0xBF58_476D_1CE4_E5B9);
    x = (x ^ (x >> 27)).wrapping_mul(0x94D0_49BB_1331_11EB);
    x ^ (x >> 31)
}

/// A stand-in for the outside hash: any fixed function from element vectors
/// to canonical digests will do for exercising the fold and the checks.
fn test_hash(input: &[u64]) -> Digest {
    let mut state: [u64; 4] = [
        0x243F_6A88_85A3_08D3,
        0x1319_8A2E_0370_7344,
        0xA409_3822_299F_31D0,
        0x082E_FA98_EC4E_6C89,
    ];
    for (i, &v) in input.iter().enumerate() {
        let lane = i % 4;
        state[lane] = mix(state[lane] ^ mix(v.wrapping_add(i as u64 + 1)));
    }
    let mut out = [0u64; 4];
    for lane in 0..4 {
        out[lane] = mix(state[lane] ^ state[(lane + 1) % 4].rotate_left(17)) % FIELD_ORDER;
    }
    Digest::new(out[0], out[1], out[2], out[3])
}

fn digest_elements(d: &Digest) -> Vec<u64> {
    d.to_vec()
}

fn hash_digest(d: &Digest) -> Digest {
    test_hash(&digest_elements(d))
}

fn hash_pair(left: &Digest, right: &Digest) -> Digest {
    let mut input = digest_elements(left);
    input.extend(digest_elements(right));
    test_hash(&input)
}

fn derive_nullifier(commitment: &Digest, secret: &Digest) -> Digest {
    let mut input = digest_elements(commitment);
    input.extend(digest_elements(secret));
    test_hash(&input)
}

/// All levels of a complete binary tree over `leaves`, bottom first.
fn build_tree(leaves: &[Digest]) -> Vec<Vec<Digest>> {
    assert!(leaves.len().is_power_of_two());
    let mut levels = vec![leaves.to_vec()];
    while levels.last().unwrap().len() > 1 {
        let prev = levels.last().unwrap();
        let mut next = Vec::new();
        for pair in prev.chunks(2) {
            next.push(hash_pair(&pair[0], &pair[1]));
        }
        levels.push(next);
    }
    levels
}

fn tree_root(levels: &[Vec<Digest>]) -> Digest {
    levels.last().unwrap()[0]
}

fn path_to(levels: &[Vec<Digest>], index: usize) -> MerklePath {
    let mut siblings = Vec::new();
    let mut path_indices = Vec::new();
    let mut idx = index;
    for level in &levels[..levels.len() - 1] {
        siblings.push(level[idx ^ 1]);
        path_indices.push((idx & 1) as u64);
        idx >>= 1;
    }
    MerklePath { siblings, path_indices }
}

/// Runs the fold machine to completion, answering every pending request
/// with the test hash, and returns the recomputed root.
fn run_fold(leaf: &Digest, path: &MerklePath) -> Digest {
    completed_fold(leaf, path).computed_root()
}

fn completed_fold(leaf: &Digest, path: &MerklePath) -> RootFold {
    let mut m = RootFold::new(leaf, path).unwrap();
    while let Some((left, right)) = m.pending() {
        let response = hash_pair(&left, &right);
        m.step(&response);
    }
    m
}

fn make_witness(secret: &Digest, levels: &[Vec<Digest>], index: usize) -> WithdrawWitness {
    let commitment = hash_digest(secret);
    WithdrawWitness {
        secret_key: *secret,
        note_commitment: commitment,
        nullifier: derive_nullifier(&commitment, secret),
        merkle_root: tree_root(levels),
        path: path_to(levels, index),
    }
}

fn check(w: &WithdrawWitness, tree_height: usize) -> Result<(), WithdrawError> {
    let commitment_hash = hash_digest(&w.secret_key);
    let nullifier_hash = derive_nullifier(&w.note_commitment, &w.secret_key);
    let fold = completed_fold(&w.note_commitment, &w.path);
    validate_witness(w, tree_height, &commitment_hash, &nullifier_hash, &fold)
}

fn sample_secrets(n: usize) -> Vec<Digest> {
    (0..n).map(|_| random_secret_key()).collect()
}

#[test]
fn digest_roundtrip_and_canonicality() {
    let d = Digest::new(0, 1, FIELD_ORDER - 1, 42);
    assert_eq!(d.to_vec(), vec![0, 1, FIELD_ORDER - 1, 42]);
    assert!(d.is_canonical());
    let bad = Digest::new(0, 1, FIELD_ORDER, 42);
    assert!(!bad.is_canonical());
}

#[test]
fn random_secret_keys_are_canonical() {
    for _ in 0..64 {
        assert!(random_secret_key().is_canonical());
    }
}

#[test]
fn fold_height_zero_returns_leaf() {
    let leaf = Digest::new(7, 8, 9, 10);
    let path = MerklePath { siblings: Vec::new(), path_indices: Vec::new() };
    let root = run_fold(&leaf, &path);
    assert_eq!(root, leaf);
}

#[test]
fn fold_orders_children_by_selector() {
    let leaf = Digest::new(1, 1, 1, 1);
    let sibling = Digest::new(2, 2, 2, 2);
    let left_path = MerklePath { siblings: vec![sibling], path_indices: vec![0] };
    let right_path = MerklePath { siblings: vec![sibling], path_indices: vec![1] };
    let as_left = run_fold(&leaf, &left_path);
    let as_right = run_fold(&leaf, &right_path);
    assert_eq!(as_left, hash_pair(&leaf, &sibling));
    assert_eq!(as_right, hash_pair(&sibling, &leaf));
    assert_ne!(as_left, as_right);
}

#[test]
fn fold_rejects_nonbinary_selector() {
    let leaf = Digest::new(1, 1, 1, 1);
    let path = MerklePath {
        siblings: vec![Digest::new(2, 2, 2, 2)],
        path_indices: vec![2],
    };
    assert_eq!(RootFold::new(&leaf, &path).err(), Some(WithdrawError::InvalidWitness));
}

#[test]
fn fold_rejects_shape_mismatch() {
    let leaf = Digest::new(1, 1, 1, 1);
    let path = MerklePath {
        siblings: vec![Digest::new(2, 2, 2, 2)],
        path_indices: vec![0, 1],
    };
    assert_eq!(RootFold::new(&leaf, &path).err(), Some(WithdrawError::InvalidWitness));
}

#[test]
fn height_zero_witness_validates_when_commitment_is_root() {
    let secret = Digest::new(3, 1, 4, 1);
    let commitment = hash_digest(&secret);
    let w = WithdrawWitness {
        secret_key: secret,
        note_commitment: commitment,
        nullifier: derive_nullifier(&commitment, &secret),
        merkle_root: commitment,
        path: MerklePath { siblings: Vec::new(), path_indices: Vec::new() },
    };
    assert_eq!(check(&w, 0), Ok(()));

    let mut wrong_root = w;
    wrong_root.merkle_root = Digest::new(0, 0, 0, 0);
    assert_eq!(check(&wrong_root, 0), Err(WithdrawError::InvalidWitness));
}

#[test]
fn complete_witness_validates_end_to_end() {
    // A height-4 accumulator over 16 random secrets; leaf index 5 withdraws.
    let secrets = sample_secrets(16);
    let commitments: Vec<Digest> = secrets.iter().map(hash_digest).collect();
    let levels = build_tree(&commitments);
    let w = make_witness(&secrets[5], &levels, 5);
    assert_eq!(w.path.siblings.len(), 4);
    assert_eq!(check(&w, 4), Ok(()));
    // Validation is pure: checking the same witness again succeeds again.
    assert_eq!(check(&w, 4), Ok(()));
}

#[test]
fn tampered_sibling_fails_validation() {
    let secrets = sample_secrets(16);
    let commitments: Vec<Digest> = secrets.iter().map(hash_digest).collect();
    let levels = build_tree(&commitments);
    let mut w = make_witness(&secrets[5], &levels, 5);
    // Flip one bit of one sibling: the recomputed root no longer matches.
    w.path.siblings[2] = Digest::new(
        w.path.siblings[2].e0 ^ 1,
        w.path.siblings[2].e1,
        w.path.siblings[2].e2,
        w.path.siblings[2].e3,
    );
    assert_eq!(check(&w, 4), Err(WithdrawError::InvalidWitness));
}

#[test]
fn wrong_leaf_root_fails_validation() {
    // Leaf 5's witness anchored to a root computed for a different tree.
    let secrets = sample_secrets(16);
    let commitments: Vec<Digest> = secrets.iter().map(hash_digest).collect();
    let levels = build_tree(&commitments);

    let other_secrets = sample_secrets(16);
    let other_commitments: Vec<Digest> = other_secrets.iter().map(hash_digest).collect();
    let other_levels = build_tree(&other_commitments);

    let mut w = make_witness(&secrets[5], &levels, 5);
    w.merkle_root = tree_root(&other_levels);
    assert_eq!(check(&w, 4), Err(WithdrawError::InvalidWitness));
}

#[test]
fn witness_with_nonbinary_selector_is_rejected() {
    let secrets = sample_secrets(4);
    let commitments: Vec<Digest> = secrets.iter().map(hash_digest).collect();
    let levels = build_tree(&commitments);
    let mut w = make_witness(&secrets[1], &levels, 1);
    w.path.path_indices[0] = 2;
    assert_eq!(
        RootFold::new(&w.note_commitment, &w.path).err(),
        Some(WithdrawError::InvalidWitness)
    );
}

#[test]
fn witness_with_noncanonical_element_is_rejected() {
    let secrets = sample_secrets(4);
    let commitments: Vec<Digest> = secrets.iter().map(hash_digest).collect();
    let levels = build_tree(&commitments);
    let mut w = make_witness(&secrets[1], &levels, 1);
    w.nullifier = Digest::new(FIELD_ORDER, 0, 0, 0);
    assert_eq!(check(&w, 2), Err(WithdrawError::InvalidWitness));
}

#[test]
fn witness_shape_mismatch_is_rejected() {
    let secrets = sample_secrets(4);
    let commitments: Vec<Digest> = secrets.iter().map(hash_digest).collect();
    let levels = build_tree(&commitments);
    let w = make_witness(&secrets[1], &levels, 1);
    // The tree has height 2; claim height 3.
    assert_eq!(check(&w, 3), Err(WithdrawError::InvalidWitness));
}

#[test]
fn nullifier_is_deterministic_and_spread() {
    let secret = Digest::new(11, 22, 33, 44);
    let commitment = hash_digest(&secret);
    let first = derive_nullifier(&commitment, &secret);
    let second = derive_nullifier(&commitment, &secret);
    assert_eq!(first, second);

    // Distinct secrets give distinct nullifiers, spot-checked over many
    // random samples: no collisions expected.
    let mut seen = std::collections::HashSet::new();
    for secret in sample_secrets(256) {
        let commitment = hash_digest(&secret);
        let nullifier = derive_nullifier(&commitment, &secret);
        assert!(seen.insert(nullifier.to_vec()));
    }
}

#[test]
fn prepared_assignment_covers_all_wires() {
    // The full local path of proof generation: validate, then map the
    // witness onto the circuit's wires.
    let secrets = sample_secrets(16);
    let commitments: Vec<Digest> = secrets.iter().map(hash_digest).collect();
    let levels = build_tree(&commitments);
    let w = make_witness(&secrets[5], &levels, 5);

    let circuit = WithdrawCircuit { tree_height: 4 };
    let mut builder = CircuitBlueprint::new();
    let targets = circuit.build_withdraw_circuit(&mut builder);

    let commitment_hash = hash_digest(&w.secret_key);
    let nullifier_hash = derive_nullifier(&w.note_commitment, &w.secret_key);
    let fold = completed_fold(&w.note_commitment, &w.path);
    let assignment =
        prepare_withdraw_assignment(&targets, &w, &commitment_hash, &nullifier_hash, &fold)
            .unwrap();
    // One digest per digest wire: root, nullifier, commitment, secret key
    // and the four siblings; and the leaf index 5 on the scalar wire.
    assert_eq!(assignment.hash_values.len(), 8);
    assert_eq!(assignment.scalar_values, vec![(targets.leaf_index, 5)]);

    let mut tampered = w;
    tampered.merkle_root = Digest::new(0, 0, 0, 0);
    let fold = completed_fold(&tampered.note_commitment, &tampered.path);
    assert_eq!(
        prepare_withdraw_assignment(
            &targets,
            &tampered,
            &commitment_hash,
            &nullifier_hash,
            &fold
        )
        .err(),
        Some(WithdrawError::InvalidWitness)
    );
}

#[test]
fn public_inputs_are_root_then_nullifier() {
    let record = PublicInputs {
        merkle_root: Digest::new(1, 2, 3, 4),
        nullifier: Digest::new(5, 6, 7, 8),
    };
    assert_eq!(record.to_vec(), vec![1, 2, 3, 4, 5, 6, 7, 8]);
}

#[test]
fn nullifier_ledger_rejects_double_spend() {
    let mut ledger = NullifierLedger::new();
    let spent = Digest::new(1, 2, 3, 4);
    let other = Digest::new(4, 3, 2, 1);

    assert!(!ledger.has_seen(&spent));
    assert!(ledger.check_and_record(&spent));
    assert!(ledger.has_seen(&spent));
    // The same nullifier again: the double spend is refused.
    assert!(!ledger.check_and_record(&spent));
    // A different note still withdraws, and the first stays consumed.
    assert!(ledger.check_and_record(&other));
    assert!(!ledger.check_and_record(&spent));
    assert!(!ledger.check_and_record(&other));
}

#[test]
fn nullifier_request_is_commitment_then_secret() {
    let secrets = sample_secrets(4);
    let commitments: Vec<Digest> = secrets.iter().map(hash_digest).collect();
    let levels = build_tree(&commitments);
    let w = make_witness(&secrets[2], &levels, 2);
    let mut expected = w.note_commitment.to_vec();
    expected.extend(w.secret_key.to_vec());
    assert_eq!(w.nullifier_request(), expected);
}
