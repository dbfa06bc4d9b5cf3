use evm_indexer::error::CoreError;
use evm_indexer::repository::{
    be_bytes_to_u64, block_number_from_query, ExecFailure, MockRepository, UpsertAction, UpsertBlocks,
    UpsertStep,
};

#[test]
fn empty_write_is_refused() {
    let (m, a) = UpsertBlocks::start(0);
    assert_eq!(a, UpsertAction::Finish(Err(CoreError::Empty("blocks list cannot be empty".to_string()))));
    let _ = m;
}

#[test]
fn write_inserts_in_order_then_commits() {
    let (mut m, a) = UpsertBlocks::start(2);
    assert_eq!(a, UpsertAction::GetClient);
    assert_eq!(m.on_client(Ok(())), UpsertAction::OpenTransaction);
    assert_eq!(m.on_transaction(Ok(())), UpsertAction::Prepare);
    assert_eq!(m.on_prepared(Ok(())), UpsertAction::Execute(0));
    assert_eq!(m.on_executed(Ok(())), UpsertAction::Execute(1));
    assert_eq!(m.on_executed(Ok(())), UpsertAction::Commit);
    assert_eq!(m.on_committed(Ok(())), UpsertAction::Finish(Ok(())));
}

#[test]
fn write_failures_map_to_errors() {
    let (mut m, _) = UpsertBlocks::start(1);
    assert_eq!(
        m.on_client(Err(CoreError::DbGetClientFailed("pool".to_string()))),
        UpsertAction::Finish(Err(CoreError::DbGetClientFailed("pool".to_string())))
    );

    let (mut m, _) = UpsertBlocks::start(1);
    m.on_client(Ok(()));
    assert_eq!(
        m.on_transaction(Err("tx".to_string())),
        UpsertAction::Finish(Err(CoreError::DbTxOpenFailed("tx".to_string())))
    );

    let (mut m, _) = UpsertBlocks::start(1);
    m.on_client(Ok(()));
    m.on_transaction(Ok(()));
    assert_eq!(
        m.on_prepared(Err("prep".to_string())),
        UpsertAction::Finish(Err(CoreError::DbQueryFailed("prep".to_string())))
    );

    let (mut m, _) = UpsertBlocks::start(1);
    m.on_client(Ok(()));
    m.on_transaction(Ok(()));
    m.on_prepared(Ok(()));
    assert_eq!(
        m.on_executed(Err(ExecFailure { message: "bad".to_string(), unique_violation: false })),
        UpsertAction::Finish(Err(CoreError::DbInsertFailed("bad".to_string())))
    );
    assert_eq!(m.step(), UpsertStep::Done);

    let (mut m, _) = UpsertBlocks::start(1);
    m.on_client(Ok(()));
    m.on_transaction(Ok(()));
    m.on_prepared(Ok(()));
    m.on_executed(Ok(()));
    assert_eq!(
        m.on_committed(Err("commit".to_string())),
        UpsertAction::Finish(Err(CoreError::DbTxExecFailed("commit".to_string())))
    );
}

#[test]
fn reorg_deletes_then_resumes_and_commits() {
    let (mut m, _) = UpsertBlocks::start(3);
    m.on_client(Ok(()));
    m.on_transaction(Ok(()));
    m.on_prepared(Ok(()));
    m.on_executed(Ok(()));
    let dup = ExecFailure { message: "duplicate key".to_string(), unique_violation: true };
    assert_eq!(m.on_executed(Err(dup)), UpsertAction::DeleteFromParentOf(1));
    assert_eq!(m.on_deleted(Ok(())), UpsertAction::Execute(1));
    assert_eq!(m.step(), UpsertStep::AwaitExecute(1));
    assert_eq!(m.on_executed(Ok(())), UpsertAction::Execute(2));
    assert_eq!(m.on_executed(Ok(())), UpsertAction::Commit);
    assert_eq!(m.on_committed(Ok(())), UpsertAction::Finish(Ok(())));
    assert_eq!(m.inserted(), 3);
}

#[test]
fn second_collision_after_reorg_fails() {
    let (mut m, _) = UpsertBlocks::start(2);
    m.on_client(Ok(()));
    m.on_transaction(Ok(()));
    m.on_prepared(Ok(()));
    let dup = ExecFailure { message: "duplicate key".to_string(), unique_violation: true };
    assert_eq!(m.on_executed(Err(dup)), UpsertAction::DeleteFromParentOf(0));
    assert_eq!(m.on_deleted(Ok(())), UpsertAction::Execute(0));
    let again = ExecFailure { message: "still duplicate".to_string(), unique_violation: true };
    assert_eq!(
        m.on_executed(Err(again)),
        UpsertAction::Finish(Err(CoreError::DbInsertFailed("still duplicate".to_string())))
    );
}

#[test]
fn failed_reorg_delete_reports_query_failure() {
    let (mut m, _) = UpsertBlocks::start(1);
    m.on_client(Ok(()));
    m.on_transaction(Ok(()));
    m.on_prepared(Ok(()));
    let dup = ExecFailure { message: "duplicate key".to_string(), unique_violation: true };
    m.on_executed(Err(dup));
    assert_eq!(
        m.on_deleted(Err("delete".to_string())),
        UpsertAction::Finish(Err(CoreError::DbQueryFailed("duplicate key".to_string())))
    );
}

#[test]
fn stored_block_number_from_query() {
    assert_eq!(
        block_number_from_query(Err("conn".to_string())),
        Err(CoreError::Internal("conn".to_string()))
    );
    assert_eq!(
        block_number_from_query(Ok(vec![])),
        Err(CoreError::Empty("no block number found".to_string()))
    );
    assert_eq!(
        block_number_from_query(Ok(vec![vec![1], vec![2]])),
        Err(CoreError::Empty("no block number found".to_string()))
    );
    assert_eq!(block_number_from_query(Ok(vec![vec![0x01, 0x00]])), Ok(256));
    assert_eq!(be_bytes_to_u64(&vec![]), 0);
    assert_eq!(be_bytes_to_u64(&vec![0, 0, 0xff, 0xff]), 65535);
}

#[test]
fn mock_repository_fails_once_when_told() {
    let mut r = MockRepository::new();
    r.expect_upsert_error(CoreError::DbInsertFailed("x".to_string()));
    assert_eq!(r.upsert_blocks(&vec![]), Err(CoreError::DbInsertFailed("x".to_string())));
    assert_eq!(r.upsert_blocks(&vec![]), Ok(()));
    assert_eq!(r.len_blocks(), 0);
}

#[test]
fn first_collision_of_a_fresh_write_is_a_reorg() {
    let (mut m, _) = UpsertBlocks::start(1);
    m.on_client(Ok(()));
    m.on_transaction(Ok(()));
    assert_eq!(m.on_prepared(Ok(())), UpsertAction::Execute(0));
    let dup = ExecFailure { message: "duplicate key".to_string(), unique_violation: true };
    assert_eq!(m.on_executed(Err(dup)), UpsertAction::DeleteFromParentOf(0));
    assert_eq!(m.on_deleted(Ok(())), UpsertAction::Execute(0));
    assert_eq!(m.on_executed(Ok(())), UpsertAction::Commit);
    assert_eq!(m.on_committed(Ok(())), UpsertAction::Finish(Ok(())));
}
