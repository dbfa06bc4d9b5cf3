use evm_indexer::block::{BlockModel, BlockValidator, RpcBlockHeader};
use evm_indexer::error::CoreError;
use evm_indexer::mocks::{mock_block_with_parent, mock_blocks_list};
use evm_indexer::word::Word256;

fn header() -> RpcBlockHeader {
    RpcBlockHeader {
        number: 7,
        hash: vec![1; 32],
        parent_hash: vec![2; 32],
        nonce: vec![3; 8],
        ommers_hash: vec![4; 32],
        logs_bloom: vec![5; 256],
        transactions_root: vec![6; 32],
        state_root: vec![7; 32],
        receipts_root: vec![8; 32],
        parent_beacon_block_root: None,
        withdrawals_root: Some(vec![9; 32]),
        beneficiary: vec![10; 20],
        requests_hash: None,
        extra_data: vec![11, 12],
        size: Some(Word256::from_u64(1234)),
        gas_limit: u64::MAX,
        gas_used: 21_000,
        base_fee_per_gas: Some(1_000),
        blob_gas_used: None,
        excess_blob_gas: Some(3),
        mix_hash: vec![13; 32],
        timestamp: 1_700_000_007,
    }
}

#[test]
fn row_copies_header_fields() {
    let h = header();
    let m: BlockModel = BlockModel::new_from_rpc_block(&h).unwrap();
    assert_eq!(m.number, 7);
    assert_eq!(m.hash, vec![1; 32]);
    assert_eq!(m.sha3_uncles, vec![4; 32]);
    assert_eq!(m.parent_beacon_block_root, Some(vec![0; 32]));
    assert_eq!(m.withdrawals_root, Some(vec![9; 32]));
    assert_eq!(m.requests_hash, Some(vec![0; 32]));
    assert_eq!(m.fee_recipient, vec![10; 20]);
    assert_eq!(m.size, 1234);
    assert_eq!(m.gas_limit, -1); // reinterpreted as signed
    assert_eq!(m.base_fee_per_gas, Some(1_000));
    assert_eq!(m.blob_gas_used, Some(0));
    assert_eq!(m.excess_blob_gas, Some(3));
    assert_eq!(m.prev_randao, vec![13; 32]);
    assert_eq!(m.timestamp, 1_700_000_007);
    assert_eq!((m.create_at, m.updated_at), (0, 0));
    let d = m.duplicate();
    assert_eq!(d.hash, m.hash);
    assert_eq!(d.number, m.number);
}

#[test]
fn missing_size_is_zero() {
    let mut h = header();
    h.size = None;
    assert_eq!(BlockModel::new_from_rpc_block(&h).unwrap().size, 0);
}

#[test]
fn validator_checks_hash_length_and_number() {
    let h = header();
    assert_eq!(BlockValidator::validate_rpc_block(&h, 7), Ok(()));
    assert_eq!(BlockValidator::validate_rpc_block(&h, 8), Err(CoreError::DataSizeUnexpected(32, 32)));
    let mut short = header();
    short.hash = vec![0; 20];
    assert_eq!(BlockValidator::validate_rpc_block(&short, 7), Err(CoreError::DataSizeUnexpected(32, 20)));
}

#[test]
fn mock_block_fields() {
    let b = mock_block_with_parent(5, [7; 32]);
    assert_eq!(b.number, 5);
    assert_eq!(b.parent_hash, vec![7; 32]);
    assert_eq!(b.hash.len(), 32);
    assert_eq!(b.timestamp, 1_700_000_005);
    assert_eq!(b.gas_limit, 30_000_000);
    assert_eq!(b.size, Some(Word256::from_u64(1000)));
}

#[test]
fn mock_blocks_form_a_chain() {
    let l = mock_blocks_list(4, 10);
    assert_eq!(l.len(), 4);
    for i in 0..4 {
        assert_eq!(l[i].as_ref().unwrap().number, 10 + i as u64);
    }
    for i in 1..4 {
        assert_eq!(l[i].as_ref().unwrap().parent_hash, l[i - 1].as_ref().unwrap().hash);
    }
}
