use merkle_airdrop::contract::{execute, query, QueryAnswer};
use merkle_airdrop::error::ContractError;
use merkle_airdrop::msg::{ClaimMsg, ExecuteMsg, InstantiateMsg, QueryMsg};
use merkle_airdrop::state::{AirdropMetadata, AirdropStore, Config, ExecuteContext, QueryContext};
use merkle_airdrop::token::Token;
use sha2::{Digest, Sha256};

fn sha256(bytes: &[u8]) -> Vec<u8> {
    Sha256::digest(bytes).to_vec()
}

fn sorted_concat(a: &[u8], b: &[u8]) -> Vec<u8> {
    let mut joined = Vec::new();
    if a <= b {
        joined.extend_from_slice(a);
        joined.extend_from_slice(b);
    } else {
        joined.extend_from_slice(b);
        joined.extend_from_slice(a);
    }
    joined
}

fn fresh_ctx(sender: &str) -> ExecuteContext {
    ExecuteContext {
        store: AirdropStore {
            config: None,
            metadata: None,
            root: None,
            claims: Vec::new(),
            n_claims_processed: None,
        },
        sender: sender.to_string(),
    }
}

fn test_config(root_hex: String) -> Config {
    Config {
        owner: "owner".to_string(),
        token: Token { denom: "utoken".to_string() },
        amount: 1000,
        root: root_hex,
        size: 2,
    }
}

fn init_msg(root_hex: String) -> InstantiateMsg {
    InstantiateMsg {
        metadata: AirdropMetadata { name: "drop".to_string(), description: None },
        config: test_config(root_hex),
    }
}

fn init_ctx(sender: &str, root_hex: String) -> ExecuteContext {
    let mut ctx = fresh_ctx(sender);
    let resp = ctx.instantiate(init_msg(root_hex)).unwrap();
    assert_eq!(resp.attributes.len(), 1);
    assert_eq!(resp.attributes[0].key, "action");
    assert_eq!(resp.attributes[0].value, "instantiate");
    ctx
}

/// Root of the two-leaf tree over SHA256("addr1") and SHA256("addr2").
fn two_leaf_root() -> (Vec<u8>, Vec<u8>, Vec<u8>) {
    let leaf1 = sha256(b"addr1");
    let leaf2 = sha256(b"addr2");
    let root = sha256(&sorted_concat(&leaf1, &leaf2));
    (leaf1, leaf2, root)
}

#[test]
fn decode_fixed_accepts_lower_and_upper() {
    let v = merkle_airdrop::hex_codec::decode_fixed("00ff", 2).unwrap();
    assert_eq!(v, vec![0x00, 0xff]);
    let v = merkle_airdrop::hex_codec::decode_fixed("AbCd", 2).unwrap();
    assert_eq!(v, vec![0xab, 0xcd]);
}

#[test]
fn decode_fixed_rejects_wrong_length() {
    let short = "a".repeat(63);
    let e = merkle_airdrop::hex_codec::decode_fixed(&short, 32).unwrap_err();
    assert!(matches!(e, ContractError::ValidationError { .. }));
}

#[test]
fn decode_fixed_rejects_non_hex() {
    let e = merkle_airdrop::hex_codec::decode_fixed("zz", 1).unwrap_err();
    assert!(matches!(e, ContractError::ValidationError { .. }));
    let e = merkle_airdrop::hex_codec::decode_fixed("0g", 1).unwrap_err();
    assert!(matches!(e, ContractError::ValidationError { .. }));
}

#[test]
fn hash_pair_is_order_independent() {
    let a = sha256(b"left");
    let b = sha256(b"right");
    let ab = merkle_airdrop::hash::hash_pair(&a, &b);
    let ba = merkle_airdrop::hash::hash_pair(&b, &a);
    assert_eq!(ab, ba);
    assert_eq!(ab, sha256(&sorted_concat(&a, &b)));
}

#[test]
fn leaf_hash_is_sha256_of_identity() {
    assert_eq!(merkle_airdrop::hash::leaf_hash(b"addr1"), sha256(b"addr1"));
}

#[test]
fn verify_accepts_good_proof_and_rejects_bad_root() {
    let (_leaf1, leaf2, root) = two_leaf_root();
    let proof = vec![hex::encode(&leaf2)];
    assert!(merkle_airdrop::merkle::verify("addr1", &proof, &root).is_ok());
    let wrong_root = sha256(b"something else");
    let e = merkle_airdrop::merkle::verify("addr1", &proof, &wrong_root).unwrap_err();
    assert!(matches!(e, ContractError::NotAuthorized { .. }));
    assert_eq!(e.reason_str(), "merkle tree verification failed");
}

#[test]
fn single_leaf_tree_claim_with_empty_proof() {
    // With an empty proof the candidate root is the leaf hash itself.
    let root_hex = hex::encode(sha256(b"addr1"));
    let mut ctx = init_ctx("addr1", root_hex);
    let resp = ctx.claim(Vec::new()).unwrap();
    assert_eq!(resp.messages.len(), 1);
    assert_eq!(ctx.store.n_claims_processed, Some(1));
    assert!(ctx.store.has_claimed(&"addr1".to_string()));
}

#[test]
fn claim_with_one_sibling_succeeds_and_counts() {
    let (_leaf1, leaf2, root) = two_leaf_root();
    let mut ctx = init_ctx("addr1", hex::encode(&root));
    assert_eq!(ctx.store.n_claims_processed, Some(0));

    let resp = ctx.claim(vec![hex::encode(&leaf2)]).unwrap();

    assert_eq!(resp.messages.len(), 1);
    assert_eq!(resp.messages[0].token.denom, "utoken");
    assert_eq!(resp.messages[0].recipient, "addr1");
    assert_eq!(resp.messages[0].amount, 1000);
    assert_eq!(resp.attributes.len(), 3);
    assert_eq!(resp.attributes[0].key, "action");
    assert_eq!(resp.attributes[0].value, "claim");
    assert_eq!(resp.attributes[1].key, "amount");
    assert_eq!(resp.attributes[1].value, "1000");
    assert_eq!(resp.attributes[2].key, "claimant");
    assert_eq!(resp.attributes[2].value, "addr1");

    assert_eq!(ctx.store.n_claims_processed, Some(1));
    assert!(ctx.store.has_claimed(&"addr1".to_string()));
}

#[test]
fn second_claim_always_fails_with_claimed() {
    let (_leaf1, leaf2, root) = two_leaf_root();
    let mut ctx = init_ctx("addr1", hex::encode(&root));
    let proof = vec![hex::encode(&leaf2)];
    ctx.claim(proof.clone()).unwrap();

    // Even with the same valid proof the second attempt is rejected.
    let e = ctx.claim(proof).unwrap_err();
    assert!(matches!(e, ContractError::NotAuthorized { .. }));
    assert_eq!(e.reason_str(), "claimed");
    assert_eq!(ctx.store.n_claims_processed, Some(1));
}

#[test]
fn mismatched_root_fails_and_leaves_state() {
    let (_leaf1, _leaf2, root) = two_leaf_root();
    let mut ctx = init_ctx("addr1", hex::encode(&root));
    let bad_sibling = hex::encode(sha256(b"not in the tree"));

    let e = ctx.claim(vec![bad_sibling]).unwrap_err();
    assert!(matches!(e, ContractError::NotAuthorized { .. }));
    assert_eq!(e.reason_str(), "merkle tree verification failed");
    assert!(!ctx.store.has_claimed(&"addr1".to_string()));
    assert_eq!(ctx.store.n_claims_processed, Some(0));
}

#[test]
fn failed_claims_are_idempotent() {
    let (_leaf1, _leaf2, root) = two_leaf_root();
    let mut ctx = init_ctx("addr1", hex::encode(&root));
    let bad_proof = vec![hex::encode(sha256(b"not in the tree"))];

    let e1 = ctx.claim(bad_proof.clone()).unwrap_err();
    let e2 = ctx.claim(bad_proof).unwrap_err();
    assert_eq!(e1.reason_str(), e2.reason_str());
    assert_eq!(e1.reason_str(), "merkle tree verification failed");
    assert_eq!(ctx.store.n_claims_processed, Some(0));
    assert!(!ctx.store.has_claimed(&"addr1".to_string()));
}

#[test]
fn malformed_proof_element_fails_validation() {
    let (_leaf1, leaf2, root) = two_leaf_root();
    let mut ctx = init_ctx("addr1", hex::encode(&root));
    let mut truncated = hex::encode(&leaf2);
    truncated.pop();
    assert_eq!(truncated.len(), 63);

    let e = ctx.claim(vec![truncated]).unwrap_err();
    assert!(matches!(e, ContractError::ValidationError { .. }));
    assert_eq!(e.reason_str(), "error hex decoding merkle proof");
    assert!(!ctx.store.has_claimed(&"addr1".to_string()));
    assert_eq!(ctx.store.n_claims_processed, Some(0));
}

#[test]
fn claimed_guard_precedes_proof_validation() {
    let (_leaf1, leaf2, root) = two_leaf_root();
    let mut ctx = init_ctx("addr1", hex::encode(&root));
    ctx.claim(vec![hex::encode(&leaf2)]).unwrap();

    // A malformed proof after a successful claim still reports "claimed".
    let e = ctx.claim(vec!["zz".to_string()]).unwrap_err();
    assert!(matches!(e, ContractError::NotAuthorized { .. }));
    assert_eq!(e.reason_str(), "claimed");
}

#[test]
fn unrelated_claims_leave_earlier_claims_recorded() {
    let (leaf1, leaf2, root) = two_leaf_root();
    let root_hex = hex::encode(&root);
    let mut ctx = init_ctx("addr1", root_hex);
    ctx.claim(vec![hex::encode(&leaf2)]).unwrap();
    assert!(ctx.store.has_claimed(&"addr1".to_string()));

    // The second claimant works on the same store.
    ctx.sender = "addr2".to_string();
    ctx.claim(vec![hex::encode(&leaf1)]).unwrap();

    assert!(ctx.store.has_claimed(&"addr1".to_string()));
    assert!(ctx.store.has_claimed(&"addr2".to_string()));
    assert_eq!(ctx.store.n_claims_processed, Some(2));
}

#[test]
fn instantiate_rejects_bad_root() {
    let mut ctx = fresh_ctx("addr1");
    let e = ctx.instantiate(init_msg("abc".to_string())).unwrap_err();
    assert!(matches!(e, ContractError::ValidationError { .. }));
    assert_eq!(e.reason_str(), "error hex decoding merkle root");
    assert!(ctx.store.config.is_none());
    assert!(ctx.store.root.is_none());

    let non_hex_root = "g".repeat(64);
    let e = ctx.instantiate(init_msg(non_hex_root)).unwrap_err();
    assert!(matches!(e, ContractError::ValidationError { .. }));
}

#[test]
fn execute_dispatches_claim() {
    let (_leaf1, leaf2, root) = two_leaf_root();
    let mut ctx = init_ctx("addr1", hex::encode(&root));
    let msg = ExecuteMsg::Claim(ClaimMsg { proof: vec![hex::encode(&leaf2)] });
    let resp = execute(&mut ctx, msg).unwrap();
    assert_eq!(resp.attributes[0].value, "claim");
    assert_eq!(ctx.store.n_claims_processed, Some(1));
}

#[test]
fn query_reports_config_and_claims() {
    let (_leaf1, leaf2, root) = two_leaf_root();
    let root_hex = hex::encode(&root);
    let mut ctx = init_ctx("addr1", root_hex.clone());
    ctx.claim(vec![hex::encode(&leaf2)]).unwrap();

    let qctx = QueryContext { store: ctx.store };
    match query(qctx, QueryMsg::HasClaimed { address: "addr1".to_string() }).unwrap() {
        QueryAnswer::HasClaimed(resp) => assert!(resp.has_claimed),
        _ => panic!("wrong answer variant"),
    }

    let mut ctx2 = init_ctx("addr1", root_hex.clone());
    ctx2.sender = "addr9".to_string();
    let qctx = QueryContext { store: ctx2.store };
    match query(qctx, QueryMsg::HasClaimed { address: "addr9".to_string() }).unwrap() {
        QueryAnswer::HasClaimed(resp) => assert!(!resp.has_claimed),
        _ => panic!("wrong answer variant"),
    }

    let ctx3 = init_ctx("addr1", root_hex.clone());
    let qctx = QueryContext { store: ctx3.store };
    match query(qctx, QueryMsg::Config {}).unwrap() {
        QueryAnswer::Config(resp) => {
            assert_eq!(resp.0.owner, "owner");
            assert_eq!(resp.0.amount, 1000);
            assert_eq!(resp.0.root, root_hex);
            assert_eq!(resp.0.size, 2);
        },
        _ => panic!("wrong answer variant"),
    }
}

#[test]
fn query_config_before_init_is_storage_error() {
    let ctx = fresh_ctx("addr1");
    let qctx = QueryContext { store: ctx.store };
    let e = query(qctx, QueryMsg::Config {}).unwrap_err();
    assert!(matches!(e, ContractError::Std { .. }));
}

#[test]
fn amounts_format_in_decimal() {
    assert_eq!(merkle_airdrop::responses::fmt_u128(0), "0");
    assert_eq!(merkle_airdrop::responses::fmt_u128(7), "7");
    assert_eq!(merkle_airdrop::responses::fmt_u128(1000), "1000");
    assert_eq!(
        merkle_airdrop::responses::fmt_u128(u128::MAX),
        "340282366920938463463374607431768211455"
    );
}

#[test]
fn claimed_identities_fold_with_uppercase_proofs() {
    // Proof elements may carry uppercase hex; the decoded bytes are what
    // the fold hashes.
    let (_leaf1, leaf2, root) = two_leaf_root();
    let mut ctx = init_ctx("addr1", hex::encode(&root));
    let resp = ctx.claim(vec![hex::encode_upper(&leaf2)]);
    assert!(resp.is_ok());
}

#[test]
fn two_level_proof_reconstructs_root() {
    // Four-leaf tree: the proof walks one sibling per level, leaf upward.
    let l1 = sha256(b"addr1");
    let l2 = sha256(b"addr2");
    let l3 = sha256(b"addr3");
    let l4 = sha256(b"addr4");
    let n12 = sha256(&sorted_concat(&l1, &l2));
    let n34 = sha256(&sorted_concat(&l3, &l4));
    let root = sha256(&sorted_concat(&n12, &n34));

    let mut ctx = init_ctx("addr1", hex::encode(&root));
    let resp = ctx.claim(vec![hex::encode(&l2), hex::encode(&n34)]).unwrap();
    assert_eq!(resp.messages[0].recipient, "addr1");
    assert_eq!(ctx.store.n_claims_processed, Some(1));
}

#[test]
fn proof_elements_out_of_order_fail_verification() {
    // The sorted-pair step fixes sibling order inside one level, but the
    // sequence of levels still matters: a swapped proof folds elsewhere.
    let l1 = sha256(b"addr1");
    let l2 = sha256(b"addr2");
    let l3 = sha256(b"addr3");
    let l4 = sha256(b"addr4");
    let n12 = sha256(&sorted_concat(&l1, &l2));
    let n34 = sha256(&sorted_concat(&l3, &l4));
    let root = sha256(&sorted_concat(&n12, &n34));

    let mut ctx = init_ctx("addr1", hex::encode(&root));
    let e = ctx.claim(vec![hex::encode(&n34), hex::encode(&l2)]).unwrap_err();
    assert_eq!(e.reason_str(), "merkle tree verification failed");
    assert_eq!(ctx.store.n_claims_processed, Some(0));
}
