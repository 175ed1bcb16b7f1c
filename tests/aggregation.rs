use proof_aggregation::{
    build_commitment, commit_proof_pairs, commitment_leaf, hex_prefixed, leaf_parameters,
    public_value_digest, verification_requests, words_to_bytes_le, AggregateArtifact,
    AggregationError, ProofSystem,
};
use sha2::{Digest, Sha256};

fn sha(data: &[u8]) -> [u8; 32] {
    Sha256::digest(data).into()
}

fn key(seed: u32) -> [u32; 8] {
    let mut k = [0u32; 8];
    for (i, w) in k.iter_mut().enumerate() {
        *w = seed.wrapping_mul(0x9e37_79b9).wrapping_add(i as u32);
    }
    k
}

fn scenario_keys() -> Vec<[u32; 8]> {
    vec![key(1), key(2), key(3)]
}

fn scenario_values() -> Vec<Vec<u8>> {
    vec![b"10".to_vec(), b"20".to_vec(), b"30".to_vec()]
}

fn expected_leaf(k: &[u32; 8], v: &[u8]) -> [u8; 32] {
    let mut pre = Vec::new();
    for w in k {
        pre.extend_from_slice(&w.to_le_bytes());
    }
    pre.extend_from_slice(v);
    sha(&pre)
}

fn pair_hash(a: &[u8; 32], b: &[u8; 32]) -> [u8; 32] {
    let mut c = a.to_vec();
    c.extend_from_slice(b);
    sha(&c)
}

#[test]
fn words_to_bytes_le_orders_each_word_least_significant_first() {
    let words = [0x0403_0201, 0x0807_0605, 0, 0xffff_ffff, 0x1234_5678, 1, 0x8000_0000, 0x00ab_cdef];
    let bytes = words_to_bytes_le(&words);
    let expected: [u8; 32] = [
        1, 2, 3, 4, 5, 6, 7, 8, 0, 0, 0, 0, 0xff, 0xff, 0xff, 0xff, 0x78, 0x56, 0x34, 0x12, 1, 0,
        0, 0, 0, 0, 0, 0x80, 0xef, 0xcd, 0xab, 0,
    ];
    assert_eq!(bytes, expected);
}

#[test]
fn commitment_leaf_hashes_key_bytes_then_value() {
    let k = key(7);
    assert_eq!(commitment_leaf(&k, b"10"), expected_leaf(&k, b"10"));
    assert_eq!(
        commitment_leaf(&[0u32; 8], b""),
        sha(&[0u8; 32])
    );
    assert_ne!(commitment_leaf(&k, b"10"), commitment_leaf(&k, b"11"));
}

#[test]
fn single_pair_digest_is_its_leaf() {
    let k = key(5);
    let d = commit_proof_pairs(&[k], &[b"abc".to_vec()]).unwrap();
    assert_eq!(d, expected_leaf(&k, b"abc"));
}

#[test]
fn two_pair_digest_hashes_the_pair_of_leaves() {
    let keys = vec![key(1), key(2)];
    let values = vec![b"10".to_vec(), b"20".to_vec()];
    let l0 = expected_leaf(&keys[0], &values[0]);
    let l1 = expected_leaf(&keys[1], &values[1]);
    assert_eq!(commit_proof_pairs(&keys, &values).unwrap(), pair_hash(&l0, &l1));
}

#[test]
fn odd_last_node_is_promoted_unchanged() {
    let keys = scenario_keys();
    let values = scenario_values();
    let l: Vec<[u8; 32]> = (0..3).map(|i| expected_leaf(&keys[i], &values[i])).collect();
    let expected = pair_hash(&pair_hash(&l[0], &l[1]), &l[2]);
    assert_eq!(commit_proof_pairs(&keys, &values).unwrap(), expected);
}

#[test]
fn scenario_same_ordered_triples_reproduce_digest() {
    let d1 = commit_proof_pairs(&scenario_keys(), &scenario_values()).unwrap();
    let d2 = commit_proof_pairs(&scenario_keys(), &scenario_values()).unwrap();
    assert_eq!(d1, d2);
}

#[test]
fn scenario_moving_second_leaf_first_changes_digest() {
    let d = commit_proof_pairs(&scenario_keys(), &scenario_values()).unwrap();
    let mut keys = scenario_keys();
    let mut values = scenario_values();
    keys.swap(0, 1);
    values.swap(0, 1);
    let d_swapped = commit_proof_pairs(&keys, &values).unwrap();
    assert_ne!(d, d_swapped);
}

#[test]
fn changing_one_public_value_changes_digest() {
    let d = commit_proof_pairs(&scenario_keys(), &scenario_values()).unwrap();
    for i in 0..3 {
        for byte in 0..2 {
            let mut values = scenario_values();
            values[i][byte] ^= 0x01;
            assert_ne!(d, commit_proof_pairs(&scenario_keys(), &values).unwrap());
        }
        let mut longer = scenario_values();
        longer[i].push(0);
        assert_ne!(d, commit_proof_pairs(&scenario_keys(), &longer).unwrap());
    }
}

#[test]
fn swapping_two_distinct_leaves_changes_digest() {
    let d = commit_proof_pairs(&scenario_keys(), &scenario_values()).unwrap();
    for (a, b) in [(0, 1), (0, 2), (1, 2)] {
        let mut keys = scenario_keys();
        let mut values = scenario_values();
        keys.swap(a, b);
        values.swap(a, b);
        assert_ne!(d, commit_proof_pairs(&keys, &values).unwrap());
    }
}

#[test]
fn empty_input_has_no_digest() {
    assert_eq!(commit_proof_pairs(&[], &[]), Err(AggregationError::EmptyInput));
    assert_eq!(build_commitment(&[], &[], &[]), Err(AggregationError::EmptyInput));
    assert_eq!(verification_requests(&[], &[]).unwrap_err(), AggregationError::EmptyInput);
}

#[test]
fn scenario_three_keys_two_values_is_a_shape_error() {
    let keys = scenario_keys();
    let values = vec![b"10".to_vec(), b"20".to_vec()];
    assert_eq!(commit_proof_pairs(&keys, &values), Err(AggregationError::InputShape));
    assert_eq!(verification_requests(&keys, &values).unwrap_err(), AggregationError::InputShape);
    assert_eq!(
        build_commitment(&keys, &values, &[true, true, true]),
        Err(AggregationError::InputShape)
    );
    assert_eq!(
        build_commitment(&keys, &values, &[false, false, false]),
        Err(AggregationError::InputShape)
    );
}

#[test]
fn verdict_count_must_match_the_leaves() {
    assert_eq!(
        build_commitment(&scenario_keys(), &scenario_values(), &[true, true]),
        Err(AggregationError::InputShape)
    );
}

#[test]
fn public_value_digest_is_sha256_of_the_value() {
    assert_eq!(public_value_digest(b"10"), sha(b"10"));
    assert_eq!(
        hex_prefixed(&public_value_digest(b"")),
        "0xe3b0c44298fc1c149afbf4c8996fb92427ae41e4649b934ca495991b7852b855"
    );
}

#[test]
fn verification_requests_follow_leaf_order() {
    let reqs = verification_requests(&scenario_keys(), &scenario_values()).unwrap();
    assert_eq!(reqs.len(), 3);
    for (i, r) in reqs.iter().enumerate() {
        assert_eq!(r.vkey, scenario_keys()[i]);
        assert_eq!(r.digest, sha(&scenario_values()[i]));
    }
}

#[test]
fn all_accepted_commits_the_binding_digest() {
    let d = commit_proof_pairs(&scenario_keys(), &scenario_values()).unwrap();
    assert_eq!(
        build_commitment(&scenario_keys(), &scenario_values(), &[true, true, true]),
        Ok(d)
    );
}

#[test]
fn any_rejected_leaf_blocks_the_digest() {
    for i in 0..3 {
        let mut verdicts = vec![true; 3];
        verdicts[i] = false;
        assert_eq!(
            build_commitment(&scenario_keys(), &scenario_values(), &verdicts),
            Err(AggregationError::LeafVerification { index: i })
        );
    }
    assert_eq!(
        build_commitment(&scenario_keys(), &scenario_values(), &[true, false, false]),
        Err(AggregationError::LeafVerification { index: 1 })
    );
}

#[test]
fn hex_prefixed_writes_lowercase_pairs() {
    assert_eq!(hex_prefixed(&[0xab, 0x01, 0x00, 0xff]), "0xab0100ff");
    assert_eq!(hex_prefixed(&[]), "0x");
}

#[test]
fn leaf_parameters_are_multiples_of_ten() {
    assert_eq!(leaf_parameters(3), vec![10, 20, 30]);
    assert!(leaf_parameters(0).is_empty());
}

fn artifact(system: ProofSystem, proof: Vec<u8>) -> AggregateArtifact {
    let d = commit_proof_pairs(&scenario_keys(), &scenario_values()).unwrap();
    AggregateArtifact::new(system, [0x11; 32], &d, proof, scenario_keys(), scenario_values()).unwrap()
}

fn word(n: usize) -> Vec<u8> {
    let mut w = vec![0u8; 24];
    w.extend_from_slice(&(n as u64).to_be_bytes());
    w
}

#[test]
fn artifact_refuses_a_digest_that_does_not_recompute() {
    let d = commit_proof_pairs(&scenario_keys(), &scenario_values()).unwrap();
    let mut wrong = d;
    wrong[0] ^= 1;
    let r = AggregateArtifact::new(ProofSystem::Plonk, [0; 32], &wrong, vec![], scenario_keys(), scenario_values());
    assert_eq!(r.unwrap_err(), AggregationError::Serialization);
    let r = AggregateArtifact::new(ProofSystem::Plonk, [0; 32], &d[..31], vec![], scenario_keys(), scenario_values());
    assert_eq!(r.unwrap_err(), AggregationError::Serialization);
    let r = AggregateArtifact::new(ProofSystem::Plonk, [0; 32], &d, vec![], vec![], vec![]);
    assert_eq!(r.unwrap_err(), AggregationError::EmptyInput);
    let r = AggregateArtifact::new(ProofSystem::Plonk, [0; 32], &d, vec![], scenario_keys(), vec![]);
    assert_eq!(r.unwrap_err(), AggregationError::InputShape);
    let ok = AggregateArtifact::new(ProofSystem::Groth16, [0; 32], &d, vec![9], scenario_keys(), scenario_values()).unwrap();
    assert_eq!(ok.binding_digest, d);
    assert_eq!(ok.proof, vec![9]);
}

#[test]
fn package_lays_out_the_onchain_struct() {
    let proof: Vec<u8> = (1..=40).collect();
    let a = artifact(ProofSystem::Groth16, proof.clone());
    let p = a.package();
    let mut expected = word(32);
    expected.extend_from_slice(&[0x11; 32]);
    expected.extend_from_slice(&a.binding_digest);
    expected.extend(word(96));
    expected.extend(word(40));
    expected.extend_from_slice(&proof);
    expected.extend(vec![0u8; 24]);
    assert_eq!(p.abi_encoding, expected);
    assert_eq!(p.onchain.verification_key, format!("0x{}", "11".repeat(32)));
    assert_eq!(p.onchain.merkle_root, hex_prefixed(&a.binding_digest));
    assert_eq!(p.onchain.proof.len(), 2 + 80);
    assert!(p.onchain.proof.starts_with("0x0102030405"));
}

#[test]
fn package_indexes_every_leaf_in_order() {
    let p = artifact(ProofSystem::Plonk, vec![1, 2, 3]).package();
    assert_eq!(p.offchain.leaf_indices, vec![0, 1, 2]);
    assert_eq!(p.offchain.public_values, vec!["0x3130", "0x3230", "0x3330"]);
    let keys = scenario_keys();
    for i in 0..3 {
        assert_eq!(p.offchain.verification_keys[i], hex_prefixed(&words_to_bytes_le(&keys[i])));
    }
    assert_eq!(p.offchain.verification_keys[0].len(), 66);
}

#[test]
fn scenario_both_wrap_modes_share_the_digest() {
    let plonk = artifact(ProofSystem::Plonk, vec![0xaa; 70]).package();
    let groth = artifact(ProofSystem::Groth16, vec![0xbb; 33]).package();
    assert_ne!(plonk.abi_encoding, groth.abi_encoding);
    assert_ne!(plonk.onchain.proof, groth.onchain.proof);
    assert_eq!(plonk.onchain.merkle_root, groth.onchain.merkle_root);
    assert_eq!(plonk.abi_encoding[64..96], groth.abi_encoding[64..96]);
}

#[test]
fn package_of_an_empty_proof_ends_with_a_zero_length() {
    let p = artifact(ProofSystem::Plonk, vec![]).package();
    assert_eq!(p.abi_encoding.len(), 160);
    assert_eq!(p.abi_encoding[128..160], word(0)[..]);
    assert_eq!(p.abi_encoding[96..128], word(96)[..]);
    assert_eq!(p.onchain.proof, "0x");
}
