use evm_indexer::fetcher::{batch_start, BatchStart};
use evm_indexer::block::{BlockModel, RpcBlockHeader};
use evm_indexer::fetcher::{
    batch_block_numbers, blocks_to_publish, BatcherAction, BatcherPhase, BlockBatcher, FetchConfig,
    RetryPolicy,
};
use evm_indexer::mocks::mock_blocks_list;
use evm_indexer::repository::MockRepository;
use evm_indexer::error::CoreError;

fn default_header() -> RpcBlockHeader {
    RpcBlockHeader {
        number: 0,
        hash: vec![0; 32],
        parent_hash: vec![0; 32],
        nonce: vec![0; 8],
        ommers_hash: vec![0; 32],
        logs_bloom: vec![0; 256],
        transactions_root: vec![0; 32],
        state_root: vec![0; 32],
        receipts_root: vec![0; 32],
        parent_beacon_block_root: None,
        withdrawals_root: None,
        beneficiary: vec![0; 20],
        requests_hash: None,
        extra_data: vec![],
        size: None,
        gas_limit: 0,
        gas_used: 0,
        base_fee_per_gas: None,
        blob_gas_used: None,
        excess_blob_gas: None,
        mix_hash: vec![0; 32],
        timestamp: 0,
    }
}

/// Feeds blocks to the batcher, writing batches into the repository as it asks.
fn feed(batcher: &mut BlockBatcher, repo: &mut MockRepository, blocks: Vec<RpcBlockHeader>) {
    for b in blocks {
        let (mut action, _check) = batcher.on_block(&b);
        loop {
            match action {
                BatcherAction::Persist | BatcherAction::RetryPersistAfter(_) => {
                    let ok = repo.upsert_blocks(batcher.batch()).is_ok();
                    action = batcher.on_persisted(ok);
                }
                _ => break,
            }
        }
    }
}

#[test]
fn test_fetching_blocks() {
    let mut blocks: Vec<Option<RpcBlockHeader>> = mock_blocks_list(10, 1);
    blocks.push(Some(default_header()));

    let cnf = FetchConfig::new();
    let mut repo = MockRepository::new();
    let mut batcher = BlockBatcher::new(&cnf);
    let published = blocks_to_publish(blocks);
    assert_eq!(published.len(), 11);
    feed(&mut batcher, &mut repo, published);

    assert_eq!(repo.len_blocks(), 10)
}

#[test]
fn cancellation_writes_the_rest_then_finishes() {
    let cnf = FetchConfig::new();
    let mut repo = MockRepository::new();
    let mut batcher = BlockBatcher::new(&cnf);
    let blocks: Vec<RpcBlockHeader> = blocks_to_publish(mock_blocks_list(7, 1));
    feed(&mut batcher, &mut repo, blocks);
    assert_eq!(repo.len_blocks(), 5);
    assert_eq!(batcher.batch().len(), 2);
    assert_eq!(batcher.on_cancel(), BatcherAction::Persist);
    let ok = repo.upsert_blocks(batcher.batch()).is_ok();
    assert_eq!(batcher.on_persisted(ok), BatcherAction::Finish);
    assert_eq!(batcher.phase(), BatcherPhase::Finished);
    assert_eq!(repo.len_blocks(), 7);
}

#[test]
fn cancellation_with_nothing_pending_finishes_at_once() {
    let cnf = FetchConfig::new();
    let mut batcher = BlockBatcher::new(&cnf);
    assert_eq!(batcher.on_cancel(), BatcherAction::Finish);
    assert_eq!(batcher.phase(), BatcherPhase::Finished);
}

#[test]
fn failed_write_is_retried_and_keeps_the_batch() {
    let cnf = FetchConfig::new();
    let mut repo = MockRepository::new();
    let mut batcher = BlockBatcher::new(&cnf);
    repo.expect_upsert_error(CoreError::DbInsertFailed("down".to_string()));
    let blocks: Vec<RpcBlockHeader> = blocks_to_publish(mock_blocks_list(5, 1));
    let mut last = BatcherAction::Listen;
    for b in blocks {
        last = batcher.on_block(&b).0;
    }
    assert_eq!(last, BatcherAction::Persist);
    let ok = repo.upsert_blocks(batcher.batch()).is_ok();
    assert!(!ok);
    assert_eq!(batcher.on_persisted(ok), BatcherAction::RetryPersistAfter(400));
    assert_eq!(batcher.batch().len(), 5);
    let ok = repo.upsert_blocks(batcher.batch()).is_ok();
    assert_eq!(batcher.on_persisted(ok), BatcherAction::Listen);
    assert_eq!(repo.len_blocks(), 5);
    assert_eq!(batcher.batch().len(), 0);
}

#[test]
fn failed_write_after_cancellation_listens_again() {
    let cnf = FetchConfig::new();
    let mut batcher = BlockBatcher::new(&cnf);
    let b: Vec<RpcBlockHeader> = blocks_to_publish(mock_blocks_list(2, 1));
    for x in b {
        batcher.on_block(&x);
    }
    assert_eq!(batcher.on_cancel(), BatcherAction::Persist);
    assert_eq!(batcher.on_persisted(false), BatcherAction::ListenAfter(400));
    assert_eq!(batcher.phase(), BatcherPhase::Listening);
    assert_eq!(batcher.batch().len(), 2);
}

#[test]
fn block_check_outcome_is_reported() {
    let cnf = FetchConfig::new();
    let mut batcher = BlockBatcher::new(&cnf);
    let mut h = default_header();
    h.number = 1;
    assert_eq!(batcher.on_block(&h).1, Ok(()));
    let mut h2 = default_header();
    h2.number = 7;
    assert_eq!(batcher.on_block(&h2).1, Err(CoreError::DataSizeUnexpected(32, 32)));
}

#[test]
fn publish_skips_missing_blocks_in_order() {
    let r = blocks_to_publish(vec![Some(1), None, Some(2), None, None, Some(3)]);
    assert_eq!(r, vec![1, 2, 3]);
    let empty: Vec<Option<u8>> = vec![None, None];
    assert!(blocks_to_publish(empty).is_empty());
}

#[test]
fn batch_numbers_are_consecutive() {
    assert_eq!(batch_block_numbers(5, 3), vec![5, 6, 7]);
    assert!(batch_block_numbers(9, 0).is_empty());
}

#[test]
fn retry_delay_grows_with_failures_and_is_not_reset() {
    let mut p = RetryPolicy::new();
    assert_eq!(p.next_delay(false), 1);
    assert_eq!(p.next_delay(false), 2);
    assert_eq!(p.next_delay(true), 1);
    assert_eq!(p.next_delay(false), 3);
}

#[test]
fn fetch_config_defaults_and_setters() {
    let mut c = FetchConfig::new();
    assert_eq!(c.ws_url(), "");
    assert_eq!(c.batch_size(), 0);
    assert_eq!(c.db_persistence_batch_size(), 5);
    assert_eq!(c.next_block_number(), 0);
    assert_eq!(c.blocks_tbl_name(), "");
    c.set_ws_url("ws://node".to_string());
    c.set_batch_size(100);
    c.set_next_block_number(42);
    c.set_blocks_tbl_name("blocks".to_string());
    assert_eq!(c.ws_url(), "ws://node");
    assert_eq!(c.batch_size(), 100);
    assert_eq!(c.next_block_number(), 42);
    assert_eq!(c.blocks_tbl_name(), "blocks");
    assert_eq!(c.db_persistence_batch_size(), 5);
}

#[test]
fn model_rows_of_mock_blocks_keep_order() {
    let cnf = FetchConfig::new();
    let mut repo = MockRepository::new();
    let mut batcher = BlockBatcher::new(&cnf);
    let blocks: Vec<RpcBlockHeader> = blocks_to_publish(mock_blocks_list(10, 1));
    feed(&mut batcher, &mut repo, blocks);
    assert_eq!(repo.len_blocks(), 10);
    let numbers: Vec<i64> = repo.blocks().iter().map(|b: &BlockModel| b.number).collect();
    assert_eq!(numbers, (1..=10).collect::<Vec<i64>>());
    for i in 1..10 {
        assert_eq!(repo.blocks()[i].parent_hash, repo.blocks()[i - 1].hash);
    }
}

#[test]
fn batch_start_reads_stored_number_only_without_a_start() {
    assert_eq!(batch_start(None), BatchStart::Stored);
    assert_eq!(batch_start(Some(1)), BatchStart::At(0));
    assert_eq!(batch_start(Some(42)), BatchStart::At(0));
}
