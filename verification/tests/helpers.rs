use alloy::consensus::transaction::SignerRecoverable;
use alloy::consensus::{SignableTransaction, TxEip1559, TxEnvelope};
use alloy::primitives::{Address, Bytes, TxKind, U256};
use alloy::signers::local::PrivateKeySigner;
use alloy::signers::SignerSync;
use evm_indexer::error::CoreError;
use evm_indexer::helpers::{validate_balance, validate_nonce, validate_signed_tx, validate_tx_signature, TxSignatureData};
use evm_indexer::word::Word256;
use std::str::FromStr;

/// Signs an EIP-1559 transaction and gathers what the signature check reads of it.
fn eip1559_to_alloy_tx(tx: TxEip1559, signer: &PrivateKeySigner) -> Result<TxSignatureData, CoreError> {
    let sig_hash = tx.signature_hash();
    let sig = match signer.sign_hash_sync(&sig_hash) {
        Ok(sig) => sig,
        Err(e) => return Err(CoreError::SigInvalid(format!("failed to sign transaction: {e}"))),
    };
    let env = TxEnvelope::Eip1559(tx.into_signed(sig));
    let recovered = env.clone().try_into_recovered().unwrap();
    Ok(TxSignatureData {
        sender: recovered.signer().into_array(),
        signature: env.signature().as_bytes(),
        signing_hash: env.signature_hash().0,
        envelope_text: format!("{:?}", env),
    })
}

fn sample_tx() -> TxEip1559 {
    TxEip1559 {
        chain_id: 1,
        nonce: 0,
        max_priority_fee_per_gas: 1_000_000_000,
        max_fee_per_gas: 20_000_000_000,
        gas_limit: 21_000,
        to: TxKind::Call(Address::from_str("70997970C51812dc3A010C7d01b50e0d17dc79C8").unwrap()),
        value: U256::from(1_000_000_000_000_000_000u64),
        input: Bytes::new(),
        access_list: Default::default(),
    }
}

#[test]
fn test_validate_tx_signature() {
    let tx = sample_tx();
    let ps = PrivateKeySigner::random();
    let rpc_tx = eip1559_to_alloy_tx(tx, &ps);

    assert_eq!(false, rpc_tx.is_err());

    if rpc_tx.is_ok() {
        let result = validate_tx_signature(&rpc_tx.unwrap());
        assert!(result.is_ok());
        assert_eq!(None, result.err())
    }
}

#[test]
fn signature_of_another_sender_is_invalid() {
    let ps = PrivateKeySigner::random();
    let mut data = eip1559_to_alloy_tx(sample_tx(), &ps).unwrap();
    data.sender[0] ^= 0xff;
    assert_eq!(
        validate_tx_signature(&data),
        Err(CoreError::SigInvalid("recovered address differs from the initial from".to_string()))
    );
}

#[test]
fn malformed_signature_fails_recovery() {
    let ps = PrivateKeySigner::random();
    let mut data = eip1559_to_alloy_tx(sample_tx(), &ps).unwrap();
    data.signature[64] = 5; // not a valid parity byte
    let text = data.envelope_text.clone();
    assert_eq!(validate_tx_signature(&data), Err(CoreError::SigRecoveryFailed(text)));
}

#[test]
fn nonce_checks() {
    assert_eq!(validate_nonce(5, 5), Ok(()));
    assert_eq!(validate_nonce(5, 7), Err(CoreError::NonceIsLower("5".to_string())));
    assert_eq!(validate_nonce(5, 3), Err(CoreError::NonceIsHigher("5".to_string())));
    assert_eq!(validate_nonce(0, u64::MAX), Err(CoreError::NonceIsLower("0".to_string())));
    assert_eq!(
        validate_nonce(u64::MAX, 0),
        Err(CoreError::NonceIsHigher("18446744073709551615".to_string()))
    );
}

fn w(x: u64) -> Word256 {
    Word256::from_u64(x)
}

#[test]
fn balance_covers_value_plus_gas_and_fee() {
    // required = 100 + (12 & 10) = 100 + 8 = 108
    assert_eq!(validate_balance(w(108), w(100), w(12), w(10)), Ok(()));
    assert_eq!(
        validate_balance(w(107), w(100), w(12), w(10)),
        Err(CoreError::InsufficientBalance("107 is lower than 108".to_string()))
    );
}

#[test]
fn balance_requirement_wraps_at_2_pow_256() {
    let max = Word256 { limbs: [u64::MAX; 4] };
    // max + (1 & 1) wraps to 0: any balance is enough
    assert_eq!(validate_balance(w(0), max, w(1), w(1)), Ok(()));
}

#[test]
fn balance_message_uses_full_decimal() {
    let big = Word256 { limbs: [0, 1, 0, 0] }; // 2^64
    assert_eq!(
        validate_balance(w(0), big, w(0), w(0)),
        Err(CoreError::InsufficientBalance("0 is lower than 18446744073709551616".to_string()))
    );
}

#[test]
fn unreadable_transaction_fails_validation() {
    assert_eq!(
        validate_signed_tx(Err("UnexpectedType(7)".to_string())),
        Err(CoreError::TxValidationFailed("UnexpectedType(7)".to_string()))
    );
    let ps = PrivateKeySigner::random();
    let data = eip1559_to_alloy_tx(sample_tx(), &ps).unwrap();
    assert_eq!(validate_signed_tx(Ok(data)), Ok(()));
}
