//! Errors of the library and their text.
use vstd::prelude::*;
use vstd::string::*;
use crate::text::{concat2, decimal, push_decimal, push_quoted, quoted};

verus! {

/// Errors raised across the indexer, the simulator and their storage.
#[derive(Debug, Clone, PartialEq, Eq)]
pub enum CoreError {
    /// An error of another component, held by its text.
    Internal(String),
    Empty(String),
    BadArgument(String),
    FileNotFound(String),
    FailedToStartHttpServer(String),
    ConfigLoadingFailed(String),
    DbConnFailed(String),
    DbGetClientFailed(String),
    DbTxOpenFailed(String),
    DbTxExecFailed(String),
    DbWriteFailed(String),
    DbQueryFailed(String),
    DbInsertFailed(String),
    SubscriptionError(String),
    TxTypeCastFailed(String),
    TxValidationFailed(String),
    SigRecoveryFailed(String),
    SigInvalid(String),
    ValidationFailed(String),
    FailedToRetrieveChainId(String),
    NonceIsLower(String),
    NonceIsHigher(String),
    InsufficientBalance(String),
    TransactFailed(String),
    FailedToFetchBlockNumber(String),
    StorageErrorHashExists(String),
    DbTypeDecodingFailed(String),
    DbTypeEncodingFailed(String),
    DbNotFound(String),
    WsConnFailed(String),
    RpcRequestFailed(String),
    /// Expected size, then actual size.
    DataSizeUnexpected(usize, usize),
}

impl CoreError {
    /// The text this error displays as.
    pub open spec fn display_text(&self) -> Seq<char> {
        match self {
            CoreError::Internal(m) => m@,
            CoreError::Empty(m) => "empty: "@ + m@,
            CoreError::BadArgument(m) => "invalid input: "@ + m@,
            CoreError::FileNotFound(m) => "file not found: "@ + m@,
            CoreError::FailedToStartHttpServer(m) => "failed to start http server: "@ + m@,
            CoreError::ConfigLoadingFailed(m) => "config loading failed: "@ + m@,
            CoreError::DbConnFailed(m) => "failed to connect to DB: "@ + m@,
            CoreError::DbGetClientFailed(m) => "failed to get client to Pg's pool: "@ + m@,
            CoreError::DbTxOpenFailed(m) => "failed to open tx to DB: "@ + m@,
            CoreError::DbTxExecFailed(m) => "failed to execute tx: "@ + m@,
            CoreError::DbWriteFailed(m) => "failed to write to DB: "@ + m@,
            CoreError::DbQueryFailed(m) => "failed to query DB: "@ + m@,
            CoreError::DbInsertFailed(m) => "failed to insert to DB: "@ + m@,
            CoreError::SubscriptionError(m) => "subscription error: "@ + m@,
            CoreError::TxTypeCastFailed(m) => "failed to type-case tx: "@ + m@,
            CoreError::TxValidationFailed(m) => "failed to validator tx: "@ + m@,
            CoreError::SigRecoveryFailed(m) => "failed to recover address: "@ + m@,
            CoreError::SigInvalid(m) => "invalid signature: "@ + m@,
            CoreError::ValidationFailed(m) => "validation failed: "@ + m@,
            CoreError::FailedToRetrieveChainId(m) => "failed to retrieve chain_id: "@ + m@,
            CoreError::NonceIsLower(m) => "nonce is lower: "@ + m@,
            CoreError::NonceIsHigher(m) => "nonce is higher: "@ + m@,
            CoreError::InsufficientBalance(m) => "insufficient balance: "@ + m@,
            CoreError::TransactFailed(m) => "transaction failed: "@ + m@,
            CoreError::FailedToFetchBlockNumber(m) => "failed to fetch block number: "@ + m@,
            CoreError::StorageErrorHashExists(m) => "tx hash already exists: "@ + m@,
            CoreError::DbTypeDecodingFailed(m) => "db type-decoding failed: "@ + m@,
            CoreError::DbTypeEncodingFailed(m) => "db type-encoding failed: "@ + m@,
            CoreError::DbNotFound(m) => "not found in the db: "@ + m@,
            CoreError::WsConnFailed(m) => "websocket connect failed: "@ + m@,
            CoreError::RpcRequestFailed(m) => "rpc req failed: "@ + m@,
            CoreError::DataSizeUnexpected(e, a) => "unexpected data size: must be="@ + decimal(
                *e as nat,
            ) + " but is "@ + decimal(*a as nat),
        }
    }

    /// The text `Debug` writes for this error: the variant's name and its fields.
    pub open spec fn debug_text(&self) -> Seq<char> {
        match self {
            CoreError::Internal(m) => "Internal("@ + quoted(m@) + ")"@,
            CoreError::Empty(m) => "Empty("@ + quoted(m@) + ")"@,
            CoreError::BadArgument(m) => "BadArgument("@ + quoted(m@) + ")"@,
            CoreError::FileNotFound(m) => "FileNotFound("@ + quoted(m@) + ")"@,
            CoreError::FailedToStartHttpServer(m) => "FailedToStartHttpServer("@ + quoted(m@) + ")"@,
            CoreError::ConfigLoadingFailed(m) => "ConfigLoadingFailed("@ + quoted(m@) + ")"@,
            CoreError::DbConnFailed(m) => "DbConnFailed("@ + quoted(m@) + ")"@,
            CoreError::DbGetClientFailed(m) => "DbGetClientFailed("@ + quoted(m@) + ")"@,
            CoreError::DbTxOpenFailed(m) => "DbTxOpenFailed("@ + quoted(m@) + ")"@,
            CoreError::DbTxExecFailed(m) => "DbTxExecFailed("@ + quoted(m@) + ")"@,
            CoreError::DbWriteFailed(m) => "DbWriteFailed("@ + quoted(m@) + ")"@,
            CoreError::DbQueryFailed(m) => "DbQueryFailed("@ + quoted(m@) + ")"@,
            CoreError::DbInsertFailed(m) => "DbInsertFailed("@ + quoted(m@) + ")"@,
            CoreError::SubscriptionError(m) => "SubscriptionError("@ + quoted(m@) + ")"@,
            CoreError::TxTypeCastFailed(m) => "TxTypeCastFailed("@ + quoted(m@) + ")"@,
            CoreError::TxValidationFailed(m) => "TxValidationFailed("@ + quoted(m@) + ")"@,
            CoreError::SigRecoveryFailed(m) => "SigRecoveryFailed("@ + quoted(m@) + ")"@,
            CoreError::SigInvalid(m) => "SigInvalid("@ + quoted(m@) + ")"@,
            CoreError::ValidationFailed(m) => "ValidationFailed("@ + quoted(m@) + ")"@,
            CoreError::FailedToRetrieveChainId(m) => "FailedToRetrieveChainId("@ + quoted(m@) + ")"@,
            CoreError::NonceIsLower(m) => "NonceIsLower("@ + quoted(m@) + ")"@,
            CoreError::NonceIsHigher(m) => "NonceIsHigher("@ + quoted(m@) + ")"@,
            CoreError::InsufficientBalance(m) => "InsufficientBalance("@ + quoted(m@) + ")"@,
            CoreError::TransactFailed(m) => "TransactFailed("@ + quoted(m@) + ")"@,
            CoreError::FailedToFetchBlockNumber(m) => "FailedToFetchBlockNumber("@ + quoted(m@) + ")"@,
            CoreError::StorageErrorHashExists(m) => "StorageErrorHashExists("@ + quoted(m@) + ")"@,
            CoreError::DbTypeDecodingFailed(m) => "DbTypeDecodingFailed("@ + quoted(m@) + ")"@,
            CoreError::DbTypeEncodingFailed(m) => "DbTypeEncodingFailed("@ + quoted(m@) + ")"@,
            CoreError::DbNotFound(m) => "DbNotFound("@ + quoted(m@) + ")"@,
            CoreError::WsConnFailed(m) => "WsConnFailed("@ + quoted(m@) + ")"@,
            CoreError::RpcRequestFailed(m) => "RpcRequestFailed("@ + quoted(m@) + ")"@,
            CoreError::DataSizeUnexpected(e, a) => "DataSizeUnexpected("@ + decimal(*e as nat) + ", "@
                + decimal(*a as nat) + ")"@,
        }
    }

    /// The text of the error, as its `Display` writes it.
    pub fn to_string(&self) -> (r: String)
        ensures
            r@ == self.display_text(),
    {
        match self {
            CoreError::Internal(m) => m.clone(),
            CoreError::Empty(m) => concat2("empty: ", m.as_str()),
            CoreError::BadArgument(m) => concat2("invalid input: ", m.as_str()),
            CoreError::FileNotFound(m) => concat2("file not found: ", m.as_str()),
            CoreError::FailedToStartHttpServer(m) => concat2("failed to start http server: ", m.as_str()),
            CoreError::ConfigLoadingFailed(m) => concat2("config loading failed: ", m.as_str()),
            CoreError::DbConnFailed(m) => concat2("failed to connect to DB: ", m.as_str()),
            CoreError::DbGetClientFailed(m) => concat2("failed to get client to Pg's pool: ", m.as_str()),
            CoreError::DbTxOpenFailed(m) => concat2("failed to open tx to DB: ", m.as_str()),
            CoreError::DbTxExecFailed(m) => concat2("failed to execute tx: ", m.as_str()),
            CoreError::DbWriteFailed(m) => concat2("failed to write to DB: ", m.as_str()),
            CoreError::DbQueryFailed(m) => concat2("failed to query DB: ", m.as_str()),
            CoreError::DbInsertFailed(m) => concat2("failed to insert to DB: ", m.as_str()),
            CoreError::SubscriptionError(m) => concat2("subscription error: ", m.as_str()),
            CoreError::TxTypeCastFailed(m) => concat2("failed to type-case tx: ", m.as_str()),
            CoreError::TxValidationFailed(m) => concat2("failed to validator tx: ", m.as_str()),
            CoreError::SigRecoveryFailed(m) => concat2("failed to recover address: ", m.as_str()),
            CoreError::SigInvalid(m) => concat2("invalid signature: ", m.as_str()),
            CoreError::ValidationFailed(m) => concat2("validation failed: ", m.as_str()),
            CoreError::FailedToRetrieveChainId(m) => concat2("failed to retrieve chain_id: ", m.as_str()),
            CoreError::NonceIsLower(m) => concat2("nonce is lower: ", m.as_str()),
            CoreError::NonceIsHigher(m) => concat2("nonce is higher: ", m.as_str()),
            CoreError::InsufficientBalance(m) => concat2("insufficient balance: ", m.as_str()),
            CoreError::TransactFailed(m) => concat2("transaction failed: ", m.as_str()),
            CoreError::FailedToFetchBlockNumber(m) => concat2("failed to fetch block number: ", m.as_str()),
            CoreError::StorageErrorHashExists(m) => concat2("tx hash already exists: ", m.as_str()),
            CoreError::DbTypeDecodingFailed(m) => concat2("db type-decoding failed: ", m.as_str()),
            CoreError::DbTypeEncodingFailed(m) => concat2("db type-encoding failed: ", m.as_str()),
            CoreError::DbNotFound(m) => concat2("not found in the db: ", m.as_str()),
            CoreError::WsConnFailed(m) => concat2("websocket connect failed: ", m.as_str()),
            CoreError::RpcRequestFailed(m) => concat2("rpc req failed: ", m.as_str()),
            CoreError::DataSizeUnexpected(e, a) => {
                let mut s = String::from_str("unexpected data size: must be=");
                push_decimal(&mut s, *e as u64);
                s.append(" but is ");
                push_decimal(&mut s, *a as u64);
                s
            },
        }
    }

    /// The text `Debug` writes for this error, for messages made of printable characters
    /// and the escapes of `escape_char`.
    pub fn debug_string(&self) -> (r: String)
        ensures
            r@ == self.debug_text(),
    {
        match self {
            CoreError::Internal(m) => debug_variant("Internal(", m.as_str()),
            CoreError::Empty(m) => debug_variant("Empty(", m.as_str()),
            CoreError::BadArgument(m) => debug_variant("BadArgument(", m.as_str()),
            CoreError::FileNotFound(m) => debug_variant("FileNotFound(", m.as_str()),
            CoreError::FailedToStartHttpServer(m) => debug_variant("FailedToStartHttpServer(", m.as_str()),
            CoreError::ConfigLoadingFailed(m) => debug_variant("ConfigLoadingFailed(", m.as_str()),
            CoreError::DbConnFailed(m) => debug_variant("DbConnFailed(", m.as_str()),
            CoreError::DbGetClientFailed(m) => debug_variant("DbGetClientFailed(", m.as_str()),
            CoreError::DbTxOpenFailed(m) => debug_variant("DbTxOpenFailed(", m.as_str()),
            CoreError::DbTxExecFailed(m) => debug_variant("DbTxExecFailed(", m.as_str()),
            CoreError::DbWriteFailed(m) => debug_variant("DbWriteFailed(", m.as_str()),
            CoreError::DbQueryFailed(m) => debug_variant("DbQueryFailed(", m.as_str()),
            CoreError::DbInsertFailed(m) => debug_variant("DbInsertFailed(", m.as_str()),
            CoreError::SubscriptionError(m) => debug_variant("SubscriptionError(", m.as_str()),
            CoreError::TxTypeCastFailed(m) => debug_variant("TxTypeCastFailed(", m.as_str()),
            CoreError::TxValidationFailed(m) => debug_variant("TxValidationFailed(", m.as_str()),
            CoreError::SigRecoveryFailed(m) => debug_variant("SigRecoveryFailed(", m.as_str()),
            CoreError::SigInvalid(m) => debug_variant("SigInvalid(", m.as_str()),
            CoreError::ValidationFailed(m) => debug_variant("ValidationFailed(", m.as_str()),
            CoreError::FailedToRetrieveChainId(m) => debug_variant("FailedToRetrieveChainId(", m.as_str()),
            CoreError::NonceIsLower(m) => debug_variant("NonceIsLower(", m.as_str()),
            CoreError::NonceIsHigher(m) => debug_variant("NonceIsHigher(", m.as_str()),
            CoreError::InsufficientBalance(m) => debug_variant("InsufficientBalance(", m.as_str()),
            CoreError::TransactFailed(m) => debug_variant("TransactFailed(", m.as_str()),
            CoreError::FailedToFetchBlockNumber(m) => debug_variant("FailedToFetchBlockNumber(", m.as_str()),
            CoreError::StorageErrorHashExists(m) => debug_variant("StorageErrorHashExists(", m.as_str()),
            CoreError::DbTypeDecodingFailed(m) => debug_variant("DbTypeDecodingFailed(", m.as_str()),
            CoreError::DbTypeEncodingFailed(m) => debug_variant("DbTypeEncodingFailed(", m.as_str()),
            CoreError::DbNotFound(m) => debug_variant("DbNotFound(", m.as_str()),
            CoreError::WsConnFailed(m) => debug_variant("WsConnFailed(", m.as_str()),
            CoreError::RpcRequestFailed(m) => debug_variant("RpcRequestFailed(", m.as_str()),
            CoreError::DataSizeUnexpected(e, a) => {
                let mut s = String::from_str("DataSizeUnexpected(");
                push_decimal(&mut s, *e as u64);
                s.append(", ");
                push_decimal(&mut s, *a as u64);
                s.append(")");
                s
            },
        }
    }
}

/// `head`, then `msg` quoted, then a closing parenthesis.
fn debug_variant(head: &str, msg: &str) -> (r: String)
    ensures
        r@ == head@ + quoted(msg@) + ")"@,
{
    let mut s = String::from_str(head);
    push_quoted(&mut s, msg);
    s.append(")");
    s
}

/// Errors found while checking a block.
#[derive(Debug, Clone, PartialEq, Eq)]
pub enum BlockError {
    /// Expected number, then actual number.
    BadBlockNumber(u64, u64),
}

impl BlockError {
    /// The text this error displays as.
    pub open spec fn display_text(&self) -> Seq<char> {
        match self {
            BlockError::BadBlockNumber(e, a) => "bad block number. expected="@ + decimal(*e as nat)
                + " actual="@ + decimal(*a as nat),
        }
    }

    /// The text of the error, as its `Display` writes it.
    pub fn to_string(&self) -> (r: String)
        ensures
            r@ == self.display_text(),
    {
        match self {
            BlockError::BadBlockNumber(e, a) => {
                let mut s = String::from_str("bad block number. expected=");
                push_decimal(&mut s, *e);
                s.append(" actual=");
                push_decimal(&mut s, *a);
                s
            },
        }
    }
}

} // verus!
