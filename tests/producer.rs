use std::collections::HashMap;

use alloy::eips::Decodable2718;
use alloy::primitives::{Address, TxKind, U256};
use alloy_consensus::transaction::SignerRecoverable;
use alloy_consensus::{Transaction, TxEnvelope};
use crescendo::config::TxGenWorkerConfig;
use crescendo::nonce_map::NonceMap;
use crescendo::tx_gen::{
    build_transfer, derive_account, draw_transfer, generate_and_sign_tx, generate_tx, sign_transfer,
    transfer_call_data, AccountKey, SignerPool, TransferPick, TxBatch,
};

const PHRASE: &str = "test test test test test test test test test test test junk";

fn address_hex(a: [u8; 20]) -> String {
    hex::encode(a)
}

fn config(num_accounts: u32) -> TxGenWorkerConfig {
    TxGenWorkerConfig {
        chain_id: 1337,
        mnemonic: PHRASE.to_string(),
        num_accounts,
        gas_price: 1_000_000_000,
        gas_limit: 100_000,
        token_contract_address: "0x5FbDB2315678afecb367f032d93F642f64180aa3".to_string(),
        recipient_distribution_factor: 2,
        max_transfer_amount: 1_000,
        batch_size: 4,
    }
}

fn token() -> [u8; 20] {
    let mut t = [0u8; 20];
    t.copy_from_slice(&hex::decode("5FbDB2315678afecb367f032d93F642f64180aa3").unwrap());
    t
}

#[test]
fn derives_the_standard_accounts() {
    let first = derive_account(PHRASE, 0).unwrap();
    assert_eq!(address_hex(first.address()), "f39fd6e51aad88f6f4ce6ab8827279cfffb92266");
    let second = derive_account(PHRASE, 1).unwrap();
    assert_eq!(address_hex(second.address()), "70997970c51812dc3a010c7d01b50e0d17dc79c8");
}

#[test]
fn invalid_phrase_gives_no_account() {
    assert!(derive_account("not a valid phrase", 0).is_none());
}

#[test]
fn secret_key_gives_its_address() {
    let secret: [u8; 32] =
        hex::decode("ac0974bec39a17e36ba4a6b4d238ff944bacb478cbed5efcae784d7bf4f2ff80").unwrap().try_into().unwrap();
    let key = AccountKey::from_secret(secret).unwrap();
    assert_eq!(address_hex(key.address()), "f39fd6e51aad88f6f4ce6ab8827279cfffb92266");
    assert!(AccountKey::from_secret([0u8; 32]).is_none());
}

#[test]
fn transfer_call_layout() {
    let recipient = [0x11u8; 20];
    let data = transfer_call_data(&recipient, 0x0102_0304_0506_0708);
    assert_eq!(data.len(), 68);
    assert_eq!(&data[..4], &[0xa9, 0x05, 0x9c, 0xbb]);
    assert_eq!(&data[4..16], &[0u8; 12]);
    assert_eq!(&data[16..36], &recipient);
    assert_eq!(&data[36..60], &[0u8; 24]);
    assert_eq!(&data[60..], &[1, 2, 3, 4, 5, 6, 7, 8]);
    let selector = alloy::primitives::keccak256("transfer(address,uint256)");
    assert_eq!(&data[..4], &selector[..4]);
}

#[test]
fn signed_transaction_decodes_to_its_fields() {
    let key = derive_account(PHRASE, 0).unwrap();
    let to = [0x22u8; 20];
    let data = vec![0xde, 0xad, 0xbe, 0xef];
    let payload = generate_and_sign_tx(&key, 31337, 7, 3_000_000_000, 21_000, to, data.clone()).unwrap();
    let tx = TxEnvelope::decode_2718(&mut payload.as_slice()).unwrap();
    assert!(tx.is_legacy());
    assert_eq!(tx.chain_id(), Some(31337));
    assert_eq!(tx.nonce(), 7);
    assert_eq!(tx.gas_price(), Some(3_000_000_000));
    assert_eq!(tx.gas_limit(), 21_000);
    assert_eq!(tx.kind(), TxKind::Call(Address::from(to)));
    assert_eq!(tx.value(), U256::ZERO);
    assert_eq!(tx.input().to_vec(), data);
    assert_eq!(tx.recover_signer().unwrap(), Address::from(key.address()));
}

#[test]
fn signing_is_deterministic() {
    let key = derive_account(PHRASE, 1).unwrap();
    let a = generate_and_sign_tx(&key, 1, 0, 1, 21_000, [1u8; 20], Vec::new()).unwrap();
    let b = generate_and_sign_tx(&key, 1, 0, 1, 21_000, [1u8; 20], Vec::new()).unwrap();
    let c = generate_and_sign_tx(&key, 1, 1, 1, 21_000, [1u8; 20], Vec::new()).unwrap();
    assert_eq!(a, b);
    assert_ne!(a, c);
}

#[test]
fn nonces_start_at_zero_and_advance() {
    let mut nonces = NonceMap::new(3);
    assert_eq!(nonces.num_accounts(), 3);
    assert_eq!(nonces.claim(1), Some(0));
    assert_eq!(nonces.claim(1), Some(1));
    assert_eq!(nonces.claim(2), Some(0));
    assert_eq!(nonces.claim(1), Some(2));
    assert_eq!(nonces.nonce_of(0), 0);
    assert_eq!(nonces.nonce_of(1), 3);
    assert_eq!(nonces.nonce_of(2), 1);
}

#[test]
fn transfer_uses_claimed_nonce_and_recipient() {
    let pool = SignerPool::derive(PHRASE, 2).unwrap();
    let mut nonces = NonceMap::new(2);
    let cfg = config(2);
    let first = build_transfer(&pool, &mut nonces, &cfg, &token(), 0, 1, 55).unwrap();
    let second = build_transfer(&pool, &mut nonces, &cfg, &token(), 0, 1, 56).unwrap();
    let a = TxEnvelope::decode_2718(&mut first.as_slice()).unwrap();
    let b = TxEnvelope::decode_2718(&mut second.as_slice()).unwrap();
    assert_eq!((a.nonce(), b.nonce()), (0, 1));
    assert_eq!(a.kind(), TxKind::Call(Address::from(token())));
    assert_eq!(a.input().to_vec(), transfer_call_data(&pool.signer(1).address(), 55));
    assert_eq!(a.recover_signer().unwrap(), Address::from(pool.signer(0).address()));
    assert_eq!(a.chain_id(), Some(1337));
    assert_eq!(a.gas_limit(), 100_000);
    assert_eq!(nonces.nonce_of(0), 2);
    assert_eq!(nonces.nonce_of(1), 0);
}

#[test]
fn generated_nonces_form_a_prefix_per_account() {
    let pool = SignerPool::derive(PHRASE, 4).unwrap();
    assert_eq!(pool.len(), 4);
    let mut nonces = NonceMap::new(4);
    let cfg = config(4);
    let mut seen: HashMap<Address, Vec<u64>> = HashMap::new();
    for _ in 0..40 {
        let payload = generate_tx(&pool, &mut nonces, &cfg, &token()).unwrap();
        let tx = TxEnvelope::decode_2718(&mut payload.as_slice()).unwrap();
        let amount = U256::from_be_slice(&tx.input()[36..68]);
        assert!(amount >= U256::from(1u64) && amount <= U256::from(1_000u64));
        let recipient = Address::from_slice(&tx.input()[16..36]);
        assert!(recipient == Address::from(pool.signer(0).address()) || recipient == Address::from(pool.signer(1).address()));
        seen.entry(tx.recover_signer().unwrap()).or_default().push(tx.nonce());
    }
    let mut total = 0;
    for (_, mut list) in seen {
        list.sort();
        let expected: Vec<u64> = (0..list.len() as u64).collect();
        assert_eq!(list, expected);
        total += list.len();
    }
    assert_eq!(total, 40);
}

#[test]
fn batches_fill_then_flush() {
    let mut batch = TxBatch::new(3);
    assert!(batch.add(vec![1]).is_none());
    assert!(batch.add(vec![2]).is_none());
    assert_eq!(batch.add(vec![3]), Some(vec![vec![1], vec![2], vec![3]]));
    assert!(batch.add(vec![4]).is_none());
}

#[test]
fn draws_stay_in_configured_ranges() {
    let cfg = TxGenWorkerConfig { num_accounts: 10, recipient_distribution_factor: 5, max_transfer_amount: 3, ..config(10) };
    let mut amounts = [false; 4];
    for _ in 0..500 {
        let pick = draw_transfer(&cfg);
        assert!(pick.sender < 10);
        assert!(pick.recipient < 2);
        assert!((1..=3).contains(&pick.amount));
        amounts[pick.amount as usize] = true;
    }
    assert!(amounts[1] && amounts[2] && amounts[3]);
}

#[test]
fn sign_transfer_signs_at_given_nonce() {
    let pool = SignerPool::derive(PHRASE, 2).unwrap();
    let cfg = config(2);
    let pick = TransferPick { sender: 1, recipient: 0, amount: 9 };
    let payload = sign_transfer(&pool, &cfg, &token(), &pick, 41).unwrap();
    let tx = TxEnvelope::decode_2718(&mut payload.as_slice()).unwrap();
    assert_eq!(tx.nonce(), 41);
    assert_eq!(tx.gas_price(), Some(1_000_000_000));
    assert_eq!(tx.input().to_vec(), transfer_call_data(&pool.signer(0).address(), 9));
    assert_eq!(tx.recover_signer().unwrap(), Address::from(pool.signer(1).address()));
}
