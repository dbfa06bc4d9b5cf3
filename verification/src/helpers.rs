//! Checks of a pending transaction against the sender's account.
use vstd::prelude::*;
use vstd::string::*;
use crate::error::CoreError;
use crate::text::{decimal, u64_to_decimal};
use crate::word::{word_add, word_bitand, word_lt, word_modulus, word_to_decimal, Word256};

verus! {

/// Checks a transaction's nonce against the account's current one.
/// A current nonce above the expected one means the transaction's nonce is too low,
/// one below it means too high; the error carries the expected nonce in decimal.
pub fn validate_nonce(expected: u64, current: u64) -> (r: Result<(), CoreError>)
    ensures
        current > expected ==> (r matches Err(CoreError::NonceIsLower(m)) && m@ == decimal(
            expected as nat,
        )),
        current < expected ==> (r matches Err(CoreError::NonceIsHigher(m)) && m@ == decimal(
            expected as nat,
        )),
        current == expected <==> r is Ok,
{
    if current > expected {
        return Err(CoreError::NonceIsLower(u64_to_decimal(expected)));
    } else if current < expected {
        return Err(CoreError::NonceIsHigher(u64_to_decimal(expected)));
    }
    Ok(())
}

/// The amount the balance must cover: `value + (gas_limit & max_fee_per_gas)`, modulo 2^256.
pub open spec fn required_balance(value: Word256, gas_limit: Word256, max_fee_per_gas: Word256) -> nat {
    ((value.value() + gas_limit.spec_bitand(max_fee_per_gas).value()) as int % word_modulus()) as nat
}

/// Checks that the balance covers `required_balance`; the error names the balance and the
/// required amount in decimal.
pub fn validate_balance(
    current_balance: Word256,
    value: Word256,
    gas_limit: Word256,
    max_fee_per_gas: Word256,
) -> (r: Result<(), CoreError>)
    ensures
        r is Ok <==> current_balance.value() >= required_balance(value, gas_limit, max_fee_per_gas),
        r is Err ==> (r matches Err(CoreError::InsufficientBalance(m)) && m@ == decimal(
            current_balance.value(),
        ) + " is lower than "@ + decimal(required_balance(value, gas_limit, max_fee_per_gas))),
{
    let required = word_add(value, word_bitand(gas_limit, max_fee_per_gas));
    if word_lt(current_balance, required) {
        let mut m = word_to_decimal(current_balance);
        m.append(" is lower than ");
        let req = word_to_decimal(required);
        m.append(req.as_str());
        return Err(CoreError::InsufficientBalance(m));
    }
    Ok(())
}

/// The address ECDSA recovery over secp256k1 yields for a 65-byte signature (r, s, v) and
/// the 32-byte hash that was signed, if the signature is well formed and recoverable.
pub uninterp spec fn ecrecover_address(signature: Seq<u8>, prehash: Seq<u8>) -> Option<Seq<u8>>;

/// Recovers the signer's address with `alloy`'s `Signature::from_raw_array` and
/// `recover_address_from_prehash`; `None` when either refuses the signature.
#[verifier::external_body]
fn recover_signer(signature: &[u8; 65], prehash: &[u8; 32]) -> (r: Option<[u8; 20]>)
    ensures
        match r {
            Some(a) => ecrecover_address(signature@, prehash@) == Some(a@),
            None => ecrecover_address(signature@, prehash@) is None,
        },
{
    let sig = alloy::primitives::Signature::from_raw_array(signature).ok()?;
    sig.recover_address_from_prehash(&alloy::primitives::B256::from(*prehash)).ok().map(|a| a.into_array())
}

/// What checking a transaction's signature reads of it.
pub struct TxSignatureData {
    /// The sender the node reported.
    pub sender: [u8; 20],
    /// The signature as 65 bytes: r, s and v.
    pub signature: [u8; 65],
    /// The hash the sender signed.
    pub signing_hash: [u8; 32],
    /// The `Debug` text of the signed transaction, for reports.
    pub envelope_text: String,
}

/// `r` is the outcome of checking that `tx` was signed by its sender: an unrecoverable
/// signature is `SigRecoveryFailed` with the transaction's text; another signer is
/// `SigInvalid`.
pub open spec fn signature_result(tx: TxSignatureData, r: Result<(), CoreError>) -> bool {
    &&& ecrecover_address(tx.signature@, tx.signing_hash@) is None ==> r == Err::<(), CoreError>(
        CoreError::SigRecoveryFailed(tx.envelope_text),
    )
    &&& ecrecover_address(tx.signature@, tx.signing_hash@) matches Some(a) ==> ((r is Ok <==> a
        == tx.sender@) && (a != tx.sender@ ==> (r matches Err(CoreError::SigInvalid(m)) && m@
        =~= "recovered address differs from the initial from"@)))
}

/// Checks a transaction's signature from the outcome of reading it as a signed envelope:
/// a transaction that could not be read (`Err` with the reason's text) is
/// `TxValidationFailed` with that text; otherwise its signature is checked as
/// `validate_tx_signature` does.
pub fn validate_signed_tx(envelope: Result<TxSignatureData, String>) -> (r: Result<(), CoreError>)
    ensures
        envelope matches Err(t) ==> r == Err::<(), CoreError>(CoreError::TxValidationFailed(t)),
        envelope matches Ok(tx) ==> signature_result(tx, r),
{
    match envelope {
        Err(t) => Err(CoreError::TxValidationFailed(t)),
        Ok(tx) => validate_tx_signature(&tx),
    }
}

/// Checks that the transaction was signed by its sender: the address recovered from the
/// signature must be the sender's. An unrecoverable signature is `SigRecoveryFailed` with the
/// transaction's text; another signer is `SigInvalid`.
pub fn validate_tx_signature(tx: &TxSignatureData) -> (r: Result<(), CoreError>)
    ensures
        signature_result(*tx, r),
{
    let recovered = match recover_signer(&tx.signature, &tx.signing_hash) {
        Some(a) => a,
        None => {
            return Err(CoreError::SigRecoveryFailed(tx.envelope_text.clone()));
        },
    };
    if !address_eq(&recovered, &tx.sender) {
        return Err(
            CoreError::SigInvalid(String::from_str("recovered address differs from the initial from")),
        );
    }
    Ok(())
}

/// Byte-wise equality of two addresses.
pub fn address_eq(a: &[u8; 20], b: &[u8; 20]) -> (r: bool)
    ensures
        r == (a@ == b@),
{
    let mut i: usize = 0;
    while i < 20
        invariant
            i <= 20,
            a@.len() == 20,
            b@.len() == 20,
            forall|j: int| 0 <= j < i ==> a@[j] == b@[j],
        decreases 20 - i,
    {
        if a[i] != b[i] {
            return false;
        }
        i = i + 1;
    }
    assert(a@ =~= b@);
    true
}

} // verus!
