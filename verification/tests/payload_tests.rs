use base64::Engine;
use relay_probe::errors::{BuildError, ProbeError};
use relay_probe::instructions::{
    alnum_byte, compute_budget_program_key, compute_limit_instruction, compute_price_instruction,
    create_random_memo_instruction, memo_program_key, system_program_key, transfer_instruction,
};
use relay_probe::keys::{FreshnessToken, SigningIdentity};
use relay_probe::payload::{build, wrap_envelope, ProbeConfig};
use solana_sdk::signature::Signer;

const TIP_ADDRESS_BASE58: &str = "astra4uejePWneqNaJKuFFA8oonqCE1sqF6b45kDMZm";
const TIP_ADDRESS_BYTES: [u8; 32] = [
    8, 173, 182, 120, 201, 25, 97, 9, 105, 215, 198, 116, 135, 172, 112, 205, 185, 151, 159, 77,
    189, 43, 202, 134, 62, 66, 208, 184, 199, 15, 9, 12,
];
const TIP_AMOUNT: u64 = 1_000_000;
const COMPUTE_LIMIT: u32 = 10_000;
const COMPUTE_PRICE: u64 = 10_000;

fn test_keypair() -> solana_sdk::signature::Keypair {
    solana_sdk::signature::Keypair::new_from_array([7u8; 32])
}

fn test_identity() -> SigningIdentity {
    SigningIdentity::from_bytes(test_keypair().to_bytes().to_vec()).unwrap()
}

fn test_token() -> FreshnessToken {
    FreshnessToken::from_bytes(vec![9u8; 32]).unwrap()
}

fn test_config() -> ProbeConfig {
    ProbeConfig::new(TIP_ADDRESS_BYTES.to_vec(), TIP_AMOUNT, COMPUTE_LIMIT, COMPUTE_PRICE).unwrap()
}

#[test]
fn identity_from_bytes_accepts_exactly_64() {
    assert!(SigningIdentity::from_bytes(vec![1u8; 64]).is_some());
    assert!(SigningIdentity::from_bytes(vec![1u8; 63]).is_none());
    assert!(SigningIdentity::from_bytes(vec![1u8; 65]).is_none());
    assert!(SigningIdentity::from_bytes(Vec::new()).is_none());
}

#[test]
fn identity_pubkey_is_last_32_bytes() {
    let kp = test_keypair();
    let identity = test_identity();
    assert_eq!(identity.pubkey(), kp.pubkey().to_bytes().to_vec());
}

#[test]
fn token_from_bytes_accepts_exactly_32() {
    assert!(FreshnessToken::from_bytes(vec![0u8; 32]).is_some());
    assert!(FreshnessToken::from_bytes(vec![0u8; 31]).is_none());
    assert!(FreshnessToken::from_bytes(vec![0u8; 33]).is_none());
}

#[test]
fn config_new_requires_32_byte_tip() {
    assert!(ProbeConfig::new(vec![1u8; 32], 1, 2, 3).is_some());
    assert!(ProbeConfig::new(vec![1u8; 31], 1, 2, 3).is_none());
}

#[test]
fn config_from_base58_tip_decodes_known_address() {
    let config =
        ProbeConfig::from_base58_tip(TIP_ADDRESS_BASE58, TIP_AMOUNT, COMPUTE_LIMIT, COMPUTE_PRICE)
            .unwrap();
    assert_eq!(config.tip_address, TIP_ADDRESS_BYTES.to_vec());
    assert_eq!(config.tip_amount, TIP_AMOUNT);
}

#[test]
fn config_from_base58_tip_rejects_bad_text() {
    assert!(ProbeConfig::from_base58_tip("not a key!", 1, 2, 3).is_none());
    assert!(ProbeConfig::from_base58_tip("", 1, 2, 3).is_none());
}

#[test]
fn marker_is_eight_alphanumeric_bytes() {
    let signer = vec![4u8; 32];
    for _ in 0..50 {
        let memo = create_random_memo_instruction(&signer);
        assert_eq!(memo.data.len(), 8);
        for &b in memo.data.iter() {
            assert!(alnum_byte(b), "marker byte {} is not alphanumeric", b);
        }
    }
}

#[test]
fn markers_differ_across_builds() {
    let signer = vec![4u8; 32];
    let first = create_random_memo_instruction(&signer);
    let second = create_random_memo_instruction(&signer);
    assert_ne!(first.data, second.data);
}

#[test]
fn memo_is_addressed_to_signer() {
    let signer = vec![4u8; 32];
    let memo = create_random_memo_instruction(&signer);
    assert_eq!(memo.accounts.len(), 1);
    assert_eq!(memo.accounts[0].key, signer);
    assert!(memo.accounts[0].is_signer);
    assert!(memo.accounts[0].is_writable);
}

#[test]
fn compute_directives_match_reference_encoding() {
    let limit = compute_limit_instruction(COMPUTE_LIMIT);
    let reference =
        solana_sdk::compute_budget::ComputeBudgetInstruction::set_compute_unit_limit(COMPUTE_LIMIT);
    assert_eq!(limit.data, reference.data);
    assert_eq!(limit.program_id, reference.program_id.to_bytes().to_vec());
    assert!(limit.accounts.is_empty());

    let price = compute_price_instruction(COMPUTE_PRICE);
    let reference =
        solana_sdk::compute_budget::ComputeBudgetInstruction::set_compute_unit_price(COMPUTE_PRICE);
    assert_eq!(price.data, reference.data);
    assert_eq!(price.program_id, reference.program_id.to_bytes().to_vec());
    assert!(price.accounts.is_empty());
}

#[test]
fn transfer_matches_reference_encoding() {
    let from = test_keypair().pubkey();
    let to: solana_sdk::pubkey::Pubkey = TIP_ADDRESS_BASE58.parse().unwrap();
    let ours = transfer_instruction(&from.to_bytes().to_vec(), &to.to_bytes().to_vec(), TIP_AMOUNT);
    let reference = solana_sdk::system_instruction::transfer(&from, &to, TIP_AMOUNT);
    assert_eq!(ours.data, reference.data);
    assert_eq!(ours.program_id, reference.program_id.to_bytes().to_vec());
    assert_eq!(ours.accounts.len(), reference.accounts.len());
    for (a, b) in ours.accounts.iter().zip(reference.accounts.iter()) {
        assert_eq!(a.key, b.pubkey.to_bytes().to_vec());
        assert_eq!(a.is_signer, b.is_signer);
        assert_eq!(a.is_writable, b.is_writable);
    }
}

#[test]
fn program_keys_match_base58_names() {
    assert_eq!(
        compute_budget_program_key(),
        solana_sdk::compute_budget::id().to_bytes().to_vec()
    );
    let memo: solana_sdk::pubkey::Pubkey =
        "MemoSq4gqABAXKb96qnH8TysNcWxMyWCqXgDLGmfcHr".parse().unwrap();
    assert_eq!(memo_program_key(), memo.to_bytes().to_vec());
    assert_eq!(
        system_program_key(),
        solana_sdk::system_program::id().to_bytes().to_vec()
    );
}

#[test]
fn envelope_shape_is_the_submission_request() {
    let wrapped = wrap_envelope("AAAA");
    let value: serde_json::Value = serde_json::from_str(&wrapped).unwrap();
    assert_eq!(value["jsonrpc"].as_str().unwrap(), "2.0");
    assert_eq!(value["id"].as_u64().unwrap(), 1);
    assert_eq!(value["method"].as_str().unwrap(), "sendTransaction");
    assert_eq!(value["params"][0].as_str().unwrap(), "AAAA");
    assert_eq!(value["params"][1]["encoding"].as_str().unwrap(), "base64");
    assert!(value["params"][1]["skipPreflight"].as_bool().unwrap());
}

fn decode_envelope(json: &str) -> solana_sdk::transaction::Transaction {
    let value: serde_json::Value = serde_json::from_str(json).unwrap();
    let encoded = value["params"][0].as_str().unwrap();
    let bytes = base64::prelude::BASE64_STANDARD.decode(encoded).unwrap();
    bincode::deserialize(&bytes).unwrap()
}

#[test]
fn end_to_end_envelope_decodes() {
    let kp = test_keypair();
    let identity = test_identity();
    let token = test_token();
    let config = test_config();
    let envelope = build(&identity, &token, &config).unwrap();
    let tx = decode_envelope(envelope.as_str());

    // The payer is the test keypair's public key and its single signature
    // verifies against the message bytes.
    assert_eq!(tx.message.account_keys[0], kp.pubkey());
    assert_eq!(tx.signatures.len(), 1);
    assert!(tx.verify().is_ok());

    // Signed over exactly the freshness token.
    assert_eq!(tx.message.recent_blockhash.to_bytes(), [9u8; 32]);

    // Four instructions in the order: compute limit, compute price,
    // uniqueness marker, transfer.
    assert_eq!(tx.message.instructions.len(), 4);
    let program_of =
        |i: usize| tx.message.account_keys[tx.message.instructions[i].program_id_index as usize];
    assert_eq!(program_of(0), solana_sdk::compute_budget::id());
    assert_eq!(program_of(1), solana_sdk::compute_budget::id());
    assert_eq!(
        program_of(2),
        "MemoSq4gqABAXKb96qnH8TysNcWxMyWCqXgDLGmfcHr".parse().unwrap()
    );
    assert_eq!(program_of(3), solana_sdk::system_program::id());

    // The directives carry the configured limit and price.
    let mut limit_data = vec![2u8];
    limit_data.extend_from_slice(&COMPUTE_LIMIT.to_le_bytes());
    assert_eq!(tx.message.instructions[0].data, limit_data);
    let mut price_data = vec![3u8];
    price_data.extend_from_slice(&COMPUTE_PRICE.to_le_bytes());
    assert_eq!(tx.message.instructions[1].data, price_data);

    // The marker rides in the memo data: 8 alphanumeric bytes.
    let marker = &tx.message.instructions[2].data;
    assert_eq!(marker.len(), 8);
    assert!(marker.iter().all(|b| b.is_ascii_alphanumeric()));

    // The transfer moves exactly the configured amount to the tip address.
    let mut transfer_data = vec![2u8, 0, 0, 0];
    transfer_data.extend_from_slice(&TIP_AMOUNT.to_le_bytes());
    assert_eq!(tx.message.instructions[3].data, transfer_data);
    let transfer_accounts = &tx.message.instructions[3].accounts;
    assert_eq!(
        tx.message.account_keys[transfer_accounts[0] as usize],
        kp.pubkey()
    );
    assert_eq!(
        tx.message.account_keys[transfer_accounts[1] as usize].to_bytes(),
        TIP_ADDRESS_BYTES
    );
}

#[test]
fn builds_are_replay_distinct() {
    let identity = test_identity();
    let token = test_token();
    let config = test_config();
    let first = build(&identity, &token, &config).unwrap();
    let second = build(&identity, &token, &config).unwrap();
    assert_ne!(first.as_str(), second.as_str());
    let encoded_of = |json: &str| -> String {
        let value: serde_json::Value = serde_json::from_str(json).unwrap();
        value["params"][0].as_str().unwrap().to_string()
    };
    assert_ne!(encoded_of(first.as_str()), encoded_of(second.as_str()));
    let first_tx = decode_envelope(first.as_str());
    let second_tx = decode_envelope(second.as_str());
    assert_ne!(first_tx.message.instructions[2].data, second_tx.message.instructions[2].data);
    assert_ne!(first_tx.signatures[0], second_tx.signatures[0]);
}

#[test]
fn transfer_is_independent_of_identity() {
    let other = solana_sdk::signature::Keypair::new_from_array([11u8; 32]);
    let other_identity = SigningIdentity::from_bytes(other.to_bytes().to_vec()).unwrap();
    let token = test_token();
    let config = test_config();
    let a = decode_envelope(build(&test_identity(), &token, &config).unwrap().as_str());
    let b = decode_envelope(build(&other_identity, &token, &config).unwrap().as_str());
    assert_eq!(a.message.instructions[3].data, b.message.instructions[3].data);
    let tip_of = |tx: &solana_sdk::transaction::Transaction| {
        tx.message.account_keys[tx.message.instructions[3].accounts[1] as usize]
    };
    assert_eq!(tip_of(&a), tip_of(&b));
    assert_eq!(tip_of(&a).to_bytes(), TIP_ADDRESS_BYTES);
}

#[test]
fn inconsistent_identity_fails_build() {
    // 64 bytes whose public half does not match the secret half: the
    // signing backend rejects the keypair and the build aborts.
    let identity = SigningIdentity::from_bytes(vec![1u8; 64]).unwrap();
    let result = build(&identity, &test_token(), &test_config());
    assert_eq!(result.unwrap_err(), BuildError::InvalidIdentity);
}

#[test]
fn error_descriptions_are_nonempty() {
    assert!(!BuildError::Signing.describe().is_empty());
    assert!(!ProbeError::Transport.describe().is_empty());
    assert!(!ProbeError::Build(BuildError::Serialization).describe().is_empty());
}
