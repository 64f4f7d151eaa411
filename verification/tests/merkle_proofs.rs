use horizon_contracts::addr::Addr;
use horizon_contracts::airdrop::AirdropContract;
use horizon_contracts::batch_merkle_verifier::{verify_single_proof, BatchMerkleVerifier, MerkleProof};
use horizon_contracts::error::ContractError;
use soroban_sdk::testutils::Address as _;
use soroban_sdk::xdr::ToXdr;
use soroban_sdk::{Bytes, Env};

fn sha(env: &Env, data: &[u8]) -> Vec<u8> {
    env.crypto().sha256(&Bytes::from_slice(env, data)).to_array().to_vec()
}

fn cat(a: &[u8], b: &[u8]) -> Vec<u8> {
    let mut v = a.to_vec();
    v.extend_from_slice(b);
    v
}

fn to_vec(b: &Bytes) -> Vec<u8> {
    let mut out = vec![0u8; b.len() as usize];
    b.copy_into_slice(&mut out);
    out
}

#[test]
fn test_verify_single_proof() {
    let env = Env::default();
    let leaf_a = sha(&env, b"A");
    let leaf_b = sha(&env, b"B");
    let root = sha(&env, &cat(&leaf_a, &leaf_b));
    let proofs = vec![
        MerkleProof { leaf: leaf_a.clone(), proof: vec![(leaf_b.clone(), false)] },
        MerkleProof { leaf: leaf_b.clone(), proof: vec![(leaf_a.clone(), true)] },
    ];
    let mut verifier = BatchMerkleVerifier::new();
    let batch = verifier.verify_batch(root.clone(), &proofs).unwrap().unwrap();
    assert_eq!(batch.batch_id, 1);
    assert_eq!(batch.leaves, vec![leaf_a, leaf_b]);
    assert_eq!(batch.root, root);
}

#[test]
fn test_invalid_proof() {
    let env = Env::default();
    let leaf_a = sha(&env, b"A");
    let leaf_b = sha(&env, b"B");
    let leaf_c = sha(&env, b"C");
    let root = sha(&env, &cat(&leaf_a, &leaf_b));
    let proofs = vec![MerkleProof { leaf: leaf_c, proof: vec![(leaf_b, false)] }];
    let mut verifier = BatchMerkleVerifier::new();
    assert!(verifier.verify_batch(root, &proofs).unwrap().is_none());
    assert_eq!(verifier.batch_count, 0);
}

#[test]
fn test_large_batch() {
    let env = Env::default();
    let h: Vec<Vec<u8>> = ["A", "B", "C", "D"].iter().map(|s| sha(&env, s.as_bytes())).collect();
    let h01 = sha(&env, &cat(&h[0], &h[1]));
    let h23 = sha(&env, &cat(&h[2], &h[3]));
    let root = sha(&env, &cat(&h01, &h23));
    let proofs = vec![MerkleProof { leaf: h[0].clone(), proof: vec![(h[1].clone(), false), (h23.clone(), false)] }];
    let mut verifier = BatchMerkleVerifier::new();
    assert!(verifier.verify_batch(root.clone(), &proofs).unwrap().is_some());
    // The right-hand leaves verify with their siblings on the left.
    assert!(verify_single_proof(&root, &h[3], &vec![(h[2].clone(), true), (h01, true)]));
    assert!(!verify_single_proof(&root, &h[3], &vec![(h[2].clone(), false), (h23, true)]));
}

fn airdrop_setup(env: &Env, amount: i128) -> (AirdropContract, Addr, Vec<Vec<u8>>) {
    let user = soroban_sdk::Address::generate(env);
    let user_xdr = to_vec(&user.clone().to_xdr(env));
    let amount_xdr = to_vec(&amount.to_xdr(env));
    let leaf = sha(env, &cat(&user_xdr, &amount_xdr));
    let other = sha(env, b"other allocation");
    let root = if leaf < other { sha(env, &cat(&leaf, &other)) } else { sha(env, &cat(&other, &leaf)) };
    let mut a = AirdropContract::new();
    a.initialize(Addr::new(b"ADMIN".to_vec()), Addr::new(b"TOKEN".to_vec()), root, 1000).unwrap();
    let strkey = user.to_string();
    let mut key = vec![0u8; strkey.len() as usize];
    strkey.copy_into_slice(&mut key);
    (a, Addr::new(key), vec![other])
}

#[test]
fn airdrop_claim_with_valid_proof() {
    let env = Env::default();
    let (a, user, proof) = airdrop_setup(&env, 5_000);
    assert_eq!(a.claim(&user, 5_000, &proof, false, 10), Ok(()));
    // A different amount hashes to another leaf.
    assert_eq!(a.claim(&user, 5_001, &proof, false, 10), Err(ContractError::InvalidProof));
    assert_eq!(a.claim(&user, -5_000, &proof, false, 10), Err(ContractError::InvalidProof));
    // Another user's leaf is not in the tree.
    let (_b, other_user, _) = airdrop_setup(&env, 5_000);
    assert_eq!(a.claim(&other_user, 5_000, &proof, false, 10), Err(ContractError::InvalidProof));
}

#[test]
fn airdrop_claim_refusals() {
    let env = Env::default();
    let (a, user, proof) = airdrop_setup(&env, 77);
    assert_eq!(a.claim(&user, 77, &proof, true, 10), Err(ContractError::AlreadyClaimed));
    assert_eq!(a.claim(&user, 77, &proof, false, 1001), Err(ContractError::AirdropExpired));
    assert_eq!(a.claim(&Addr::new(b"NOT A STRKEY".to_vec()), 77, &proof, false, 10), Err(ContractError::InvalidAddress));
    assert_eq!(a.withdraw(500, 1000), Err(ContractError::AirdropNotYetExpired));
    assert_eq!(a.withdraw(500, 1001), Ok(Some(500)));
    assert_eq!(a.withdraw(0, 1001), Ok(None));
}

#[test]
fn airdrop_negative_amount_leaf() {
    let env = Env::default();
    let (a, user, proof) = airdrop_setup(&env, -3);
    assert_eq!(a.claim(&user, -3, &proof, false, 0), Ok(()));
}

#[test]
fn i128_encoding_matches_the_host() {
    let env = Env::default();
    for v in [0i128, 1, -1, 77, -5_000, i128::MAX, i128::MIN, 1 << 64, -(1 << 64)] {
        assert_eq!(horizon_contracts::merkle::i128_xdr(v), to_vec(&v.to_xdr(&env)));
    }
}
