use evm_indexer::error::CoreError;
use evm_indexer::executor::{
    check_balance_and_gas, check_nonce, check_result, check_signature_and_chain, ExecOutcome, TxValidation,
    ValidationAction, ValidationStep,
};
use evm_indexer::word::Word256;

#[test]
fn only_success_is_committed() {
    assert!(check_result(&ExecOutcome::Success));
    assert!(!check_result(&ExecOutcome::Revert));
    assert!(!check_result(&ExecOutcome::Halt("OutOfGas".to_string())));
    assert!(!check_result(&ExecOutcome::Failed("db".to_string())));
}

#[test]
fn signature_and_chain_checks() {
    assert_eq!(check_signature_and_chain(Ok(()), 1, Some(1)), Ok(()));
    assert_eq!(check_signature_and_chain(Ok(()), 0, None), Ok(()));
    assert_eq!(
        check_signature_and_chain(Ok(()), 1, Some(5)),
        Err(CoreError::ValidationFailed("chain_id mismatch 1 is not 5".to_string()))
    );
    assert_eq!(
        check_signature_and_chain(Ok(()), 1, None),
        Err(CoreError::ValidationFailed("chain_id mismatch 1 is not 0".to_string()))
    );
    assert_eq!(
        check_signature_and_chain(Err(CoreError::SigInvalid("x".to_string())), 1, Some(1)),
        Err(CoreError::ValidationFailed("invalid signature: x".to_string()))
    );
}

#[test]
fn nonce_stage() {
    assert_eq!(check_nonce(Ok(3), 3), Ok(()));
    assert_eq!(
        check_nonce(Ok(4), 3),
        Err(CoreError::ValidationFailed("failed to validate nonce NonceIsLower(\"3\")".to_string()))
    );
    assert_eq!(
        check_nonce(Ok(2), 3),
        Err(CoreError::ValidationFailed("failed to validate nonce NonceIsHigher(\"3\")".to_string()))
    );
    assert_eq!(
        check_nonce(Err("Some(timeout)".to_string()), 3),
        Err(CoreError::ValidationFailed("failed to retrieve nonce info Some(timeout)".to_string()))
    );
}

#[test]
fn balance_and_gas_stage() {
    let w = Word256::from_u64;
    assert_eq!(check_balance_and_gas(Ok(w(1_000_000)), w(10), 21_000, w(1)), Ok(()));
    assert_eq!(
        check_balance_and_gas(Ok(w(1_000_000)), w(10), 20_999, w(0xffff_ffff)),
        Err(CoreError::ValidationFailed("gas limit insufficient".to_string()))
    );
    // required = 10 + (21000 & 21000) = 21010
    assert_eq!(
        check_balance_and_gas(Ok(w(5)), w(10), 21_000, w(21_000)),
        Err(CoreError::ValidationFailed(
            "failed to validate balance InsufficientBalance(\"5 is lower than 21010\")".to_string()
        ))
    );
    assert_eq!(
        check_balance_and_gas(Err("None".to_string()), w(0), 21_000, w(0)),
        Err(CoreError::ValidationFailed("failed to retrieve balance info None".to_string()))
    );
}

#[test]
fn validation_runs_the_checks_in_order() {
    let w = Word256::from_u64;
    let (mut v, a) = TxValidation::start(Ok(()), 1, Some(1), 3, w(10), 21_000);
    assert_eq!(a, ValidationAction::FetchNonce);
    assert_eq!(v.on_nonce(Ok(3)), ValidationAction::FetchBalance);
    assert_eq!(v.step(), ValidationStep::AwaitBalance);
    assert_eq!(v.on_balance(Ok(w(1_000_000)), Some(w(1))), ValidationAction::Finish(Ok(())));
    assert_eq!(v.step(), ValidationStep::Done);
}

#[test]
fn validation_stops_at_the_first_failure() {
    let w = Word256::from_u64;
    let (v, a) = TxValidation::start(Ok(()), 1, Some(5), 3, w(10), 21_000);
    assert_eq!(
        a,
        ValidationAction::Finish(Err(CoreError::ValidationFailed("chain_id mismatch 1 is not 5".to_string())))
    );
    assert_eq!(v.step(), ValidationStep::Done);

    let (mut v, _) = TxValidation::start(Ok(()), 1, Some(1), 3, w(10), 21_000);
    assert_eq!(
        v.on_nonce(Ok(4)),
        ValidationAction::Finish(Err(CoreError::ValidationFailed(
            "failed to validate nonce NonceIsLower(\"3\")".to_string()
        )))
    );

    let (mut v, _) = TxValidation::start(Ok(()), 1, Some(1), 3, w(10), 21_000);
    v.on_nonce(Ok(3));
    assert_eq!(
        v.on_balance(Err("None".to_string()), None),
        ValidationAction::Finish(Err(CoreError::ValidationFailed("failed to retrieve balance info None".to_string())))
    );
}
