use evm_indexer::error::{BlockError, CoreError};

#[test]
fn core_error_display_texts() {
    assert_eq!(CoreError::Empty("x".to_string()).to_string(), "empty: x");
    assert_eq!(CoreError::BadArgument("m".to_string()).to_string(), "invalid input: m");
    assert_eq!(
        CoreError::DbGetClientFailed("e".to_string()).to_string(),
        "failed to get client to Pg's pool: e"
    );
    assert_eq!(CoreError::TxValidationFailed("t".to_string()).to_string(), "failed to validator tx: t");
    assert_eq!(CoreError::NonceIsLower("5".to_string()).to_string(), "nonce is lower: 5");
    assert_eq!(CoreError::Internal("raw".to_string()).to_string(), "raw");
    assert_eq!(
        CoreError::DataSizeUnexpected(32, 20).to_string(),
        "unexpected data size: must be=32 but is 20"
    );
    assert_eq!(CoreError::RpcRequestFailed("r".to_string()).to_string(), "rpc req failed: r");
}

#[test]
fn core_error_debug_texts_match_derived_debug() {
    let cases = vec![
        CoreError::NonceIsLower("5".to_string()),
        CoreError::InsufficientBalance("1 is lower than 2".to_string()),
        CoreError::SigInvalid("quote \" and \\ and\nnewline\ttab".to_string()),
        CoreError::DataSizeUnexpected(32, 0),
        CoreError::Internal(String::new()),
    ];
    for c in cases {
        assert_eq!(c.debug_string(), format!("{:?}", c));
    }
}

#[test]
fn block_error_display_text() {
    assert_eq!(
        BlockError::BadBlockNumber(10, 11).to_string(),
        "bad block number. expected=10 actual=11"
    );
}

#[test]
fn debug_text_escapes_as_rust_does() {
    let texts = [
        "plain",
        "quote \" and \\ backslash",
        "tab\tnew\nline\rnul\0",
        "bell\u{7} esc\u{1b} unit\u{1f} del\u{7f}",
        "caf\u{e9} e\u{301} \u{200b} \u{1f600} \u{85}",
        "it's",
    ];
    for t in texts {
        let e = CoreError::Empty(t.to_string());
        assert_eq!(e.debug_string(), format!("{:?}", e));
        assert_eq!(e.debug_string(), format!("Empty({:?})", t));
    }
}
