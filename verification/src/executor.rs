//! The simulator's decisions about a pending transaction: whether it passes the checks
//! before execution, and whether an execution succeeded.
use vstd::prelude::*;
use vstd::string::*;
use crate::constants::MIN_GAS_LIMIT;
use crate::error::CoreError;
use crate::helpers::{required_balance, validate_balance, validate_nonce};
use crate::text::{decimal, push_decimal, quoted};
use crate::word::Word256;

verus! {

/// How the execution of a transaction by the EVM ended.
pub enum ExecOutcome {
    /// The EVM reported an error, with its text.
    Failed(String),
    /// The transaction ran to completion.
    Success,
    /// The transaction reverted.
    Revert,
    /// The transaction halted, with the reason's text.
    Halt(String),
}

/// Whether the execution's state changes are to be committed: only after a success.
pub fn check_result(outcome: &ExecOutcome) -> (r: bool)
    ensures
        r <==> outcome is Success,
{
    match outcome {
        ExecOutcome::Failed(_) => false,
        ExecOutcome::Success => true,
        ExecOutcome::Revert => false,
        ExecOutcome::Halt(_) => false,
    }
}

/// `prefix` followed by `text`.
fn prefixed(prefix: &str, text: &str) -> (r: String)
    ensures
        r@ == prefix@ + text@,
{
    let mut s = String::from_str(prefix);
    s.append(text);
    s
}

/// `r` is the outcome of the first checks: a failed signature check is reported as
/// `ValidationFailed` with its text; then the chain id must match, a transaction without
/// one counting as chain 0.
pub open spec fn signature_and_chain_result(
    signature: Result<(), CoreError>,
    chain_id: u64,
    tx_chain_id: Option<u64>,
    r: Result<(), CoreError>,
) -> bool {
    &&& signature matches Err(e) ==> (r matches Err(CoreError::ValidationFailed(m)) && m@
        =~= e.display_text())
    &&& signature is Ok ==> {
        let tx_chain = match tx_chain_id {
            Some(c) => c,
            None => 0u64,
        };
        &&& (chain_id == tx_chain <==> r is Ok)
        &&& chain_id != tx_chain ==> (r matches Err(CoreError::ValidationFailed(m)) && m@
            =~= "chain_id mismatch "@ + decimal(chain_id as nat) + " is not "@ + decimal(
            tx_chain as nat,
        ))
    }
}

/// `r` is the outcome of the nonce check: `current_nonce` is the account's nonce as fetched,
/// or the text of the failure to fetch it; it must equal the transaction's nonce.
pub open spec fn nonce_result(
    current_nonce: Result<u64, String>,
    tx_nonce: u64,
    r: Result<(), CoreError>,
) -> bool {
    &&& current_nonce matches Err(t) ==> (r matches Err(CoreError::ValidationFailed(m)) && m@
        =~= "failed to retrieve nonce info "@ + t@)
    &&& current_nonce matches Ok(c) ==> ((r is Ok <==> c == tx_nonce) && (c > tx_nonce ==> (
    r matches Err(CoreError::ValidationFailed(m)) && m@ =~= "failed to validate nonce "@
        + "NonceIsLower("@ + quoted(decimal(tx_nonce as nat)) + ")"@)) && (c < tx_nonce ==> (
    r matches Err(CoreError::ValidationFailed(m)) && m@ =~= "failed to validate nonce "@
        + "NonceIsHigher("@ + quoted(decimal(tx_nonce as nat)) + ")"@)))
}

/// `r` is the outcome of the balance and gas checks: `balance` is the account's balance as
/// fetched, or the text of the failure to fetch it; it must cover the required balance, and
/// the gas limit must be at least `MIN_GAS_LIMIT`.
pub open spec fn balance_and_gas_result(
    balance: Result<Word256, String>,
    value: Word256,
    gas_limit: u64,
    max_fee_per_gas: Word256,
    r: Result<(), CoreError>,
) -> bool {
    &&& balance matches Err(t) ==> (r matches Err(CoreError::ValidationFailed(m)) && m@
        =~= "failed to retrieve balance info "@ + t@)
    &&& balance matches Ok(b) ==> {
        let required = required_balance(value, Word256::spec_from_u64(gas_limit), max_fee_per_gas);
        &&& b.value() < required ==> (r matches Err(CoreError::ValidationFailed(m)) && m@
            =~= "failed to validate balance "@ + "InsufficientBalance("@ + quoted(
            decimal(b.value()) + " is lower than "@ + decimal(required),
        ) + ")"@)
        &&& b.value() >= required && gas_limit < MIN_GAS_LIMIT ==> (r matches Err(
            CoreError::ValidationFailed(m),
        ) && m@ =~= "gas limit insufficient"@)
        &&& (r is Ok <==> b.value() >= required && gas_limit >= MIN_GAS_LIMIT)
    }
}

/// The first checks pass exactly when the signature check passed and the chain ids match:
/// any failed signature check, whatever its error, ends them with an error.
pub proof fn law_failed_signature_stops_validation(
    signature: Result<(), CoreError>,
    chain_id: u64,
    tx_chain_id: Option<u64>,
    r: Result<(), CoreError>,
)
    requires
        signature_and_chain_result(signature, chain_id, tx_chain_id, r),
    ensures
        signature is Err ==> r is Err,
        r is Ok <==> signature is Ok && chain_id == match tx_chain_id {
            Some(c) => c,
            None => 0u64,
        },
{
}

/// The nonce check passes exactly when the fetched nonce is the transaction's nonce, for
/// every nonce, zero included; a nonce that could not be fetched fails it.
pub proof fn law_nonce_check_passes_only_on_equal_nonce(
    current_nonce: Result<u64, String>,
    tx_nonce: u64,
    r: Result<(), CoreError>,
)
    requires
        nonce_result(current_nonce, tx_nonce, r),
    ensures
        r is Ok <==> current_nonce == Ok::<u64, String>(tx_nonce),
        forall|c: u64| current_nonce == Ok::<u64, String>(c) && c != tx_nonce ==> r is Err,
{
}

/// First checks: the signature (its outcome given), then the chain id. A transaction
/// without a chain id counts as chain 0.
pub fn check_signature_and_chain(
    signature: Result<(), CoreError>,
    chain_id: u64,
    tx_chain_id: Option<u64>,
) -> (r: Result<(), CoreError>)
    ensures
        signature_and_chain_result(signature, chain_id, tx_chain_id, r),
        r is Ok <==> signature is Ok && chain_id == match tx_chain_id {
            Some(c) => c,
            None => 0u64,
        },
{
    if let Err(e) = signature {
        return Err(CoreError::ValidationFailed(e.to_string()));
    }
    let tx_chain: u64 = match tx_chain_id {
        Some(c) => c,
        None => 0,
    };
    if chain_id != tx_chain {
        let mut m = String::from_str("chain_id mismatch ");
        push_decimal(&mut m, chain_id);
        m.append(" is not ");
        push_decimal(&mut m, tx_chain);
        return Err(CoreError::ValidationFailed(m));
    }
    Ok(())
}

/// The nonce check: `current_nonce` is the account's nonce as fetched, or the text of the
/// failure to fetch it.
pub fn check_nonce(current_nonce: Result<u64, String>, tx_nonce: u64) -> (r: Result<(), CoreError>)
    ensures
        nonce_result(current_nonce, tx_nonce, r),
        r is Ok <==> current_nonce == Ok::<u64, String>(tx_nonce),
{
    match current_nonce {
        Err(t) => Err(CoreError::ValidationFailed(prefixed("failed to retrieve nonce info ", t.as_str()))),
        Ok(c) => {
            match validate_nonce(tx_nonce, c) {
                Ok(()) => Ok(()),
                Err(e) => {
                    let d = e.debug_string();
                    Err(CoreError::ValidationFailed(prefixed("failed to validate nonce ", d.as_str())))
                },
            }
        },
    }
}

/// The balance and gas checks: `balance` is the account's balance as fetched, or the text of
/// the failure to fetch it; the gas limit must be at least `MIN_GAS_LIMIT`.
pub fn check_balance_and_gas(
    balance: Result<Word256, String>,
    value: Word256,
    gas_limit: u64,
    max_fee_per_gas: Word256,
) -> (r: Result<(), CoreError>)
    ensures
        balance_and_gas_result(balance, value, gas_limit, max_fee_per_gas, r),
{
    let b = match balance {
        Err(t) => {
            return Err(CoreError::ValidationFailed(prefixed("failed to retrieve balance info ", t.as_str())));
        },
        Ok(b) => b,
    };
    let gas = Word256::from_u64(gas_limit);
    if let Err(e) = validate_balance(b, value, gas, max_fee_per_gas) {
        let d = e.debug_string();
        assert(gas == Word256::spec_from_u64(gas_limit));
        return Err(CoreError::ValidationFailed(prefixed("failed to validate balance ", d.as_str())));
    }
    if gas_limit < MIN_GAS_LIMIT {
        return Err(CoreError::ValidationFailed(String::from_str("gas limit insufficient")));
    }
    Ok(())
}

/// The step a transaction's validation waits in.
#[derive(Debug, Clone, Copy, PartialEq, Eq, Structural)]
pub enum ValidationStep {
    /// Waiting for the sender's nonce.
    AwaitNonce,
    /// Waiting for the sender's balance.
    AwaitBalance,
    /// The validation is over.
    Done,
}

/// What the driver of a validation does next.
#[derive(Debug, PartialEq, Eq)]
pub enum ValidationAction {
    /// Fetch the sender's nonce and report it.
    FetchNonce,
    /// Fetch the sender's balance and report it.
    FetchBalance,
    /// Stop with this outcome.
    Finish(Result<(), CoreError>),
}

/// The order of the checks a pending transaction must pass before execution: signature and
/// chain id, then nonce, then balance and gas limit. The first failure ends the validation;
/// what a later check needs is fetched only once the earlier checks passed.
pub struct TxValidation {
    tx_nonce: u64,
    value: Word256,
    gas_limit: u64,
    step: ValidationStep,
}

impl TxValidation {
    pub closed spec fn spec_step(&self) -> ValidationStep {
        self.step
    }

    pub closed spec fn spec_tx_nonce(&self) -> u64 {
        self.tx_nonce
    }

    pub closed spec fn spec_value(&self) -> Word256 {
        self.value
    }

    pub closed spec fn spec_gas_limit(&self) -> u64 {
        self.gas_limit
    }

    /// The step the validation waits in.
    pub fn step(&self) -> (r: ValidationStep)
        ensures
            r == self.spec_step(),
    {
        self.step
    }

    /// Starts validating a transaction with the given nonce, value and gas limit, whose
    /// signature check had the outcome `signature`: the signature and chain id are checked
    /// at once; when they pass, the nonce is to be fetched.
    pub fn start(
        signature: Result<(), CoreError>,
        chain_id: u64,
        tx_chain_id: Option<u64>,
        tx_nonce: u64,
        value: Word256,
        gas_limit: u64,
    ) -> (r: (Self, ValidationAction))
        ensures
            r.0.spec_tx_nonce() == tx_nonce,
            r.0.spec_value() == value,
            r.0.spec_gas_limit() == gas_limit,
            r.1 is FetchNonce || r.1 is Finish,
            r.1 is FetchNonce ==> signature is Ok,
            r.1 is FetchNonce ==> signature_and_chain_result(signature, chain_id, tx_chain_id, Ok(()))
                && r.0.spec_step() == ValidationStep::AwaitNonce,
            r.1 matches ValidationAction::Finish(res) ==> res is Err && signature_and_chain_result(
                signature,
                chain_id,
                tx_chain_id,
                res,
            ) && r.0.spec_step() == ValidationStep::Done,
    {
        let first = check_signature_and_chain(signature, chain_id, tx_chain_id);
        match first {
            Ok(()) => (
                TxValidation { tx_nonce, value, gas_limit, step: ValidationStep::AwaitNonce },
                ValidationAction::FetchNonce,
            ),
            Err(e) => (
                TxValidation { tx_nonce, value, gas_limit, step: ValidationStep::Done },
                ValidationAction::Finish(Err(e)),
            ),
        }
    }

    /// The sender's nonce was fetched, or fetching it failed with the given text. When the
    /// nonce check passes, the balance is to be fetched.
    pub fn on_nonce(&mut self, current_nonce: Result<u64, String>) -> (r: ValidationAction)
        requires
            old(self).spec_step() == ValidationStep::AwaitNonce,
        ensures
            final(self).spec_tx_nonce() == old(self).spec_tx_nonce(),
            final(self).spec_value() == old(self).spec_value(),
            final(self).spec_gas_limit() == old(self).spec_gas_limit(),
            r is FetchBalance || r is Finish,
            r is FetchBalance ==> current_nonce == Ok::<u64, String>(old(self).spec_tx_nonce()),
            r is FetchBalance ==> nonce_result(current_nonce, old(self).spec_tx_nonce(), Ok(()))
                && final(self).spec_step() == ValidationStep::AwaitBalance,
            r matches ValidationAction::Finish(res) ==> res is Err && nonce_result(
                current_nonce,
                old(self).spec_tx_nonce(),
                res,
            ) && final(self).spec_step() == ValidationStep::Done,
    {
        match check_nonce(current_nonce, self.tx_nonce) {
            Ok(()) => {
                self.step = ValidationStep::AwaitBalance;
                ValidationAction::FetchBalance
            },
            Err(e) => {
                self.step = ValidationStep::Done;
                ValidationAction::Finish(Err(e))
            },
        }
    }

    /// The sender's balance was fetched, or fetching it failed with the given text; the
    /// transaction's max fee per gas is read only when the balance is there. The balance and
    /// gas checks end the validation.
    pub fn on_balance(&mut self, balance: Result<Word256, String>, max_fee_per_gas: Option<
        Word256,
    >) -> (r: ValidationAction)
        requires
            old(self).spec_step() == ValidationStep::AwaitBalance,
            balance is Ok ==> max_fee_per_gas is Some,
        ensures
            final(self).spec_step() == ValidationStep::Done,
            r matches ValidationAction::Finish(res) && balance_and_gas_result(
                balance,
                old(self).spec_value(),
                old(self).spec_gas_limit(),
                match max_fee_per_gas {
                    Some(f) => f,
                    None => Word256::spec_from_u64(0),
                },
                res,
            ),
    {
        let fee = match max_fee_per_gas {
            Some(f) => f,
            None => Word256::from_u64(0),
        };
        self.step = ValidationStep::Done;
        ValidationAction::Finish(check_balance_and_gas(balance, self.value, self.gas_limit, fee))
    }
}

} // verus!
