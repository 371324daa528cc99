use escrow_factory::hashing::{bytes_eq, bytes_le, concat_bytes, sha256, u64_be_bytes};
use escrow_factory::merkle::{
    generate_leaf, hash_pair, hash_pair_sorted, merkle_prove, merkle_root, verify_merkle_proof,
};

fn digest(data: &[u8]) -> Vec<u8> {
    <sha2::Sha256 as sha2::Digest>::digest(data).to_vec()
}

#[test]
fn u64_be_bytes_exact() {
    assert_eq!(u64_be_bytes(0), vec![0u8; 8]);
    assert_eq!(u64_be_bytes(258), vec![0, 0, 0, 0, 0, 0, 1, 2]);
    assert_eq!(u64_be_bytes(u64::MAX), vec![0xff; 8]);
}

#[test]
fn sha256_wrapper_matches_reference() {
    let input = b"abc".to_vec();
    assert_eq!(sha256(&input), digest(b"abc"));
    assert_eq!(sha256(&Vec::new()), digest(b""));
    // the digest is 32 bytes and differs from the input
    assert_eq!(sha256(&input).len(), 32);
    assert_ne!(sha256(&input), input);
}

#[test]
fn concat_and_eq_helpers() {
    let a = vec![1u8, 2];
    let b = vec![3u8];
    assert_eq!(concat_bytes(&a, &b), vec![1, 2, 3]);
    assert!(bytes_eq(&a, &vec![1, 2]));
    assert!(!bytes_eq(&a, &b));
    assert!(bytes_le(&vec![1, 2], &vec![1, 3]));
    assert!(bytes_le(&vec![1, 2], &vec![1, 2]));
    assert!(!bytes_le(&vec![2], &vec![1, 9]));
    assert!(bytes_le(&vec![1], &vec![1, 0]));
}

#[test]
fn leaf_is_index_bytes_then_hash() {
    let secret_hash = digest(b"secret");
    let leaf = generate_leaf(7, &secret_hash);
    let mut packed = 7u64.to_be_bytes().to_vec();
    packed.extend_from_slice(&secret_hash);
    assert_eq!(leaf, digest(&packed));
}

#[test]
fn hash_pair_sorted_orders_ascending() {
    let a = digest(b"a");
    let b = digest(b"b");
    let (lo, hi) = if a <= b { (&a, &b) } else { (&b, &a) };
    let mut packed = lo.clone();
    packed.extend_from_slice(hi);
    let expected = digest(&packed);
    assert_eq!(hash_pair_sorted(&a, &b), expected);
    assert_eq!(hash_pair_sorted(&b, &a), expected);
    assert_eq!(hash_pair(lo, hi), expected);
}

#[test]
fn two_leaf_tree_root_exact() {
    let l0 = generate_leaf(0, &digest(b"s0"));
    let l1 = generate_leaf(1, &digest(b"s1"));
    let root = merkle_root(&vec![l0.clone(), l1.clone()]);
    assert_eq!(root, hash_pair_sorted(&l0, &l1));
    let proof0 = merkle_prove(&vec![l0.clone(), l1.clone()], 0);
    assert_eq!(proof0, vec![l1.clone()]);
    assert!(verify_merkle_proof(&proof0, &root, &l0));
}

#[test]
fn round_trip_all_sizes() {
    for n in 1..=8usize {
        let leaves: Vec<Vec<u8>> = (0..n)
            .map(|i| generate_leaf(i as u64, &digest(format!("secret{i}").as_bytes())))
            .collect();
        let root = merkle_root(&leaves);
        for i in 0..n {
            let proof = merkle_prove(&leaves, i);
            assert!(
                verify_merkle_proof(&proof, &root, &leaves[i]),
                "leaf {i} of {n} must verify"
            );
        }
    }
}

#[test]
fn flipping_any_proof_byte_fails() {
    let leaves: Vec<Vec<u8>> = (0..5u64)
        .map(|i| generate_leaf(i, &digest(format!("s{i}").as_bytes())))
        .collect();
    let root = merkle_root(&leaves);
    let proof = merkle_prove(&leaves, 2);
    assert!(verify_merkle_proof(&proof, &root, &leaves[2]));
    for elem in 0..proof.len() {
        for byte in 0..proof[elem].len() {
            let mut bad = proof.clone();
            bad[elem][byte] ^= 1;
            assert!(
                !verify_merkle_proof(&bad, &root, &leaves[2]),
                "flipped byte {byte} of element {elem} must fail"
            );
        }
    }
}

#[test]
fn wrong_leaf_or_root_fails() {
    let leaves: Vec<Vec<u8>> = (0..4u64)
        .map(|i| generate_leaf(i, &digest(format!("s{i}").as_bytes())))
        .collect();
    let root = merkle_root(&leaves);
    let proof = merkle_prove(&leaves, 1);
    assert!(!verify_merkle_proof(&proof, &root, &leaves[0]));
    let mut bad_root = root.clone();
    bad_root[0] ^= 0xff;
    assert!(!verify_merkle_proof(&proof, &bad_root, &leaves[1]));
}

#[test]
fn empty_proof_verifies_only_the_root_itself() {
    let leaf = generate_leaf(0, &digest(b"only"));
    let root = merkle_root(&vec![leaf.clone()]);
    assert_eq!(root, leaf);
    assert!(verify_merkle_proof(&Vec::new(), &root, &leaf));
    assert!(!verify_merkle_proof(&Vec::new(), &root, &digest(b"other")));
}
