//! Storing blocks: the steps of a batched write into the database, reading back the last
//! stored block number, and an in-memory repository for tests.
use vstd::prelude::*;
use vstd::string::*;
use crate::block::BlockModel;
use crate::error::CoreError;

verus! {

/// Why executing the insert of one block failed.
pub struct ExecFailure {
    /// The database's error text.
    pub message: String,
    /// The insert broke a uniqueness constraint: the block is already stored, a sign of a reorg.
    pub unique_violation: bool,
}

/// The step a batched write waits in.
#[derive(Debug, Clone, Copy, PartialEq, Eq, Structural)]
pub enum UpsertStep {
    /// Waiting for a database client.
    AwaitClient,
    /// Waiting for the transaction (repeatable read) to open.
    AwaitTransaction,
    /// Waiting for the insert statement to be prepared.
    AwaitPrepare,
    /// Waiting for the insert of the block at this index.
    AwaitExecute(usize),
    /// Waiting for the deletion of the blocks from the parent of the block at this index on.
    AwaitDelete(usize),
    /// Waiting for the transaction to commit.
    AwaitCommit,
    /// The write is over.
    Done,
}

/// What the driver of a batched write does next.
#[derive(Debug, PartialEq, Eq)]
pub enum UpsertAction {
    /// Get a client from the pool.
    GetClient,
    /// Open a repeatable-read transaction.
    OpenTransaction,
    /// Prepare the insert statement.
    Prepare,
    /// Insert the block at this index.
    Execute(usize),
    /// Delete every block from the number of the block whose parent hash is the parent hash
    /// of the block at this index on.
    DeleteFromParentOf(usize),
    /// Commit the transaction.
    Commit,
    /// Stop with this outcome; a transaction left uncommitted is rolled back.
    Finish(Result<(), CoreError>),
}

/// The decisions of writing a list of blocks in one transaction: blocks are inserted in
/// order. An insert that collides with a stored block is a reorg: the stored blocks from the
/// reorg point on are deleted and the insert is tried once more. Any other failure ends the
/// write with an error and nothing committed.
pub struct UpsertBlocks {
    count: usize,
    step: UpsertStep,
    inserted: usize,
    failed_insert: Option<String>,
    reorg_cleared: bool,
    committed: bool,
}

impl UpsertBlocks {
    pub closed spec fn spec_count(&self) -> usize {
        self.count
    }

    pub closed spec fn spec_step(&self) -> UpsertStep {
        self.step
    }

    /// Number of blocks inserted so far, always a prefix of the list.
    pub closed spec fn spec_inserted(&self) -> usize {
        self.inserted
    }

    /// Whether the transaction was committed.
    pub closed spec fn spec_committed(&self) -> bool {
        self.committed
    }

    /// Whether the stored blocks were already deleted for a reorg at the current block.
    pub closed spec fn spec_reorg_cleared(&self) -> bool {
        self.reorg_cleared
    }

    /// The state and action after the insert of the current block succeeded.
    pub closed spec fn insert_ok_step(self) -> (UpsertBlocks, UpsertAction) {
        let n = (self.inserted + 1) as usize;
        if n < self.count {
            (
                UpsertBlocks {
                    inserted: n,
                    step: UpsertStep::AwaitExecute(n),
                    reorg_cleared: false,
                    ..self
                },
                UpsertAction::Execute(n),
            )
        } else {
            (
                UpsertBlocks {
                    inserted: n,
                    step: UpsertStep::AwaitCommit,
                    reorg_cleared: false,
                    ..self
                },
                UpsertAction::Commit,
            )
        }
    }

    /// The state and action after the insert of the current block broke a uniqueness
    /// constraint with the text `message`: the first time, the stored blocks from the reorg
    /// point on are to be deleted; after that deletion, the write ends with `DbInsertFailed`.
    pub closed spec fn collision_step(self, message: String) -> (UpsertBlocks, UpsertAction) {
        if !self.reorg_cleared {
            (
                UpsertBlocks {
                    step: UpsertStep::AwaitDelete(self.inserted),
                    failed_insert: Some(message),
                    ..self
                },
                UpsertAction::DeleteFromParentOf(self.inserted),
            )
        } else {
            (
                UpsertBlocks { step: UpsertStep::Done, ..self },
                UpsertAction::Finish(Err(CoreError::DbInsertFailed(message))),
            )
        }
    }

    /// The state and action after the deletion for a reorg succeeded: the insert of the
    /// block that collided is tried again.
    pub closed spec fn delete_ok_step(self) -> (UpsertBlocks, UpsertAction) {
        (
            UpsertBlocks {
                step: UpsertStep::AwaitExecute(self.inserted),
                reorg_cleared: true,
                failed_insert: None,
                ..self
            },
            UpsertAction::Execute(self.inserted),
        )
    }

    /// The state and action after the commit succeeded.
    pub closed spec fn commit_ok_step(self) -> (UpsertBlocks, UpsertAction) {
        (
            UpsertBlocks { step: UpsertStep::Done, committed: true, ..self },
            UpsertAction::Finish(Ok(())),
        )
    }

    pub closed spec fn wf(&self) -> bool {
        &&& self.inserted <= self.count
        &&& self.step matches UpsertStep::AwaitExecute(i) ==> i == self.inserted && i < self.count
        &&& self.step matches UpsertStep::AwaitDelete(i) ==> i == self.inserted && i < self.count
            && self.failed_insert is Some
        &&& self.step == UpsertStep::AwaitCommit ==> self.inserted == self.count
        &&& self.committed ==> self.step == UpsertStep::Done && self.inserted == self.count
        &&& (self.step == UpsertStep::AwaitClient || self.step == UpsertStep::AwaitTransaction
            || self.step == UpsertStep::AwaitPrepare) ==> self.inserted == 0 && self.count > 0
            && !self.reorg_cleared
    }

    /// The step the write waits in.
    pub fn step(&self) -> (r: UpsertStep)
        ensures
            r == self.spec_step(),
    {
        self.step
    }

    /// Number of blocks inserted so far.
    pub fn inserted(&self) -> (r: usize)
        ensures
            r == self.spec_inserted(),
    {
        self.inserted
    }

    /// Starts writing `count` blocks; an empty list is refused at once.
    pub fn start(count: usize) -> (r: (Self, UpsertAction))
        ensures
            r.0.wf(),
            r.0.spec_count() == count,
            r.0.spec_inserted() == 0,
            !r.0.spec_committed(),
            !r.0.spec_reorg_cleared(),
            count == 0 ==> r.0.spec_step() == UpsertStep::Done && (r.1 matches UpsertAction::Finish(
                Err(CoreError::Empty(m)),
            ) && m@ == "blocks list cannot be empty"@),
            count > 0 ==> r.0.spec_step() == UpsertStep::AwaitClient && r.1
                == UpsertAction::GetClient,
    {
        if count == 0 {
            let m = UpsertBlocks {
                count,
                step: UpsertStep::Done,
                inserted: 0,
                failed_insert: None,
                reorg_cleared: false,
                committed: false,
            };
            return (
                m,
                UpsertAction::Finish(
                    Err(CoreError::Empty(String::from_str("blocks list cannot be empty"))),
                ),
            );
        }
        (
            UpsertBlocks {
                count,
                step: UpsertStep::AwaitClient,
                inserted: 0,
                failed_insert: None,
                reorg_cleared: false,
                committed: false,
            },
            UpsertAction::GetClient,
        )
    }

    /// A client was obtained, or getting one failed with `Err(e)`, which is passed on.
    pub fn on_client(&mut self, res: Result<(), CoreError>) -> (r: UpsertAction)
        requires
            old(self).wf(),
            old(self).spec_step() == UpsertStep::AwaitClient,
        ensures
            final(self).wf(),
            final(self).spec_count() == old(self).spec_count(),
            final(self).spec_inserted() == old(self).spec_inserted(),
            !final(self).spec_committed(),
            !final(self).spec_reorg_cleared(),
            res is Ok ==> r == UpsertAction::OpenTransaction && final(self).spec_step()
                == UpsertStep::AwaitTransaction,
            res matches Err(e) ==> r == UpsertAction::Finish(Err(e)) && final(self).spec_step()
                == UpsertStep::Done,
    {
        match res {
            Ok(()) => {
                self.step = UpsertStep::AwaitTransaction;
                UpsertAction::OpenTransaction
            },
            Err(e) => {
                self.step = UpsertStep::Done;
                UpsertAction::Finish(Err(e))
            },
        }
    }

    /// The transaction opened, or failed to open with the given text.
    pub fn on_transaction(&mut self, res: Result<(), String>) -> (r: UpsertAction)
        requires
            old(self).wf(),
            old(self).spec_step() == UpsertStep::AwaitTransaction,
        ensures
            final(self).wf(),
            final(self).spec_count() == old(self).spec_count(),
            final(self).spec_inserted() == old(self).spec_inserted(),
            !final(self).spec_committed(),
            !final(self).spec_reorg_cleared(),
            res is Ok ==> r == UpsertAction::Prepare && final(self).spec_step()
                == UpsertStep::AwaitPrepare,
            res matches Err(m) ==> r == UpsertAction::Finish(Err(CoreError::DbTxOpenFailed(m)))
                && final(self).spec_step() == UpsertStep::Done,
    {
        match res {
            Ok(()) => {
                self.step = UpsertStep::AwaitPrepare;
                UpsertAction::Prepare
            },
            Err(m) => {
                self.step = UpsertStep::Done;
                UpsertAction::Finish(Err(CoreError::DbTxOpenFailed(m)))
            },
        }
    }

    /// The statement was prepared, or preparing failed with the given text.
    pub fn on_prepared(&mut self, res: Result<(), String>) -> (r: UpsertAction)
        requires
            old(self).wf(),
            old(self).spec_step() == UpsertStep::AwaitPrepare,
        ensures
            final(self).wf(),
            final(self).spec_count() == old(self).spec_count(),
            final(self).spec_inserted() == 0,
            !final(self).spec_committed(),
            !final(self).spec_reorg_cleared(),
            res is Ok ==> r == UpsertAction::Execute(0) && final(self).spec_step()
                == UpsertStep::AwaitExecute(0),
            res matches Err(m) ==> r == UpsertAction::Finish(Err(CoreError::DbQueryFailed(m)))
                && final(self).spec_step() == UpsertStep::Done,
    {
        match res {
            Ok(()) => {
                self.step = UpsertStep::AwaitExecute(0);
                UpsertAction::Execute(0)
            },
            Err(m) => {
                self.step = UpsertStep::Done;
                UpsertAction::Finish(Err(CoreError::DbQueryFailed(m)))
            },
        }
    }

    /// The insert of the current block succeeded or failed. After a success the next block is
    /// inserted, or the transaction committed when none is left. A failure that breaks a
    /// uniqueness constraint is a reorg: the stored blocks from the reorg point on are to be
    /// deleted, after which the insert is tried again. Any other failure, or a second collision
    /// of the same block after the deletion, ends the write with `DbInsertFailed`.
    pub fn on_executed(&mut self, res: Result<(), ExecFailure>) -> (r: UpsertAction)
        requires
            old(self).wf(),
            old(self).spec_step() is AwaitExecute,
        ensures
            final(self).wf(),
            final(self).spec_count() == old(self).spec_count(),
            !final(self).spec_committed(),
            res is Ok ==> (*final(self), r) == old(self).insert_ok_step(),
            res matches Err(f) ==> (f.unique_violation ==> (*final(self), r) == old(
                self,
            ).collision_step(f.message)),
            res is Ok ==> final(self).spec_inserted() == old(self).spec_inserted() + 1,
            res is Err ==> final(self).spec_inserted() == old(self).spec_inserted(),
            res is Ok && old(self).spec_inserted() + 1 < old(self).spec_count() ==> final(self).spec_step()
                == UpsertStep::AwaitExecute(final(self).spec_inserted()) && r == UpsertAction::Execute(
                final(self).spec_inserted(),
            ),
            res is Ok && old(self).spec_inserted() + 1 == old(self).spec_count() ==> r
                == UpsertAction::Commit && final(self).spec_step() == UpsertStep::AwaitCommit,
            res matches Err(f) ==> (f.unique_violation && !old(self).spec_reorg_cleared() ==> r
                == UpsertAction::DeleteFromParentOf(old(self).spec_inserted())
                && final(self).spec_step() == UpsertStep::AwaitDelete(old(self).spec_inserted())
                && final(self).spec_failed_insert() == Some(f.message)),
            res matches Err(f) ==> (f.unique_violation && old(self).spec_reorg_cleared() ==> r
                == UpsertAction::Finish(Err(CoreError::DbInsertFailed(f.message)))
                && final(self).spec_step() == UpsertStep::Done),
            res matches Err(f) ==> (!f.unique_violation ==> r == UpsertAction::Finish(
                Err(CoreError::DbInsertFailed(f.message)),
            ) && final(self).spec_step() == UpsertStep::Done),
    {
        match res {
            Ok(()) => {
                self.inserted = self.inserted + 1;
                self.reorg_cleared = false;
                if self.inserted < self.count {
                    self.step = UpsertStep::AwaitExecute(self.inserted);
                    UpsertAction::Execute(self.inserted)
                } else {
                    self.step = UpsertStep::AwaitCommit;
                    UpsertAction::Commit
                }
            },
            Err(f) => {
                if f.unique_violation && !self.reorg_cleared {
                    self.step = UpsertStep::AwaitDelete(self.inserted);
                    self.failed_insert = Some(f.message);
                    UpsertAction::DeleteFromParentOf(self.inserted)
                } else {
                    self.step = UpsertStep::Done;
                    UpsertAction::Finish(Err(CoreError::DbInsertFailed(f.message)))
                }
            },
        }
    }

    /// The text of the failed insert that led to the pending deletion.
    pub closed spec fn spec_failed_insert(&self) -> Option<String> {
        self.failed_insert
    }

    /// The deletion after a reorg finished. When it succeeded the write resumes with the
    /// insert of the block that collided; when it failed the write ends with the insert's
    /// error as `DbQueryFailed`.
    pub fn on_deleted(&mut self, res: Result<(), String>) -> (r: UpsertAction)
        requires
            old(self).wf(),
            old(self).spec_step() is AwaitDelete,
        ensures
            final(self).wf(),
            final(self).spec_count() == old(self).spec_count(),
            final(self).spec_inserted() == old(self).spec_inserted(),
            !final(self).spec_committed(),
            res is Ok ==> (*final(self), r) == old(self).delete_ok_step(),
            res is Ok ==> r == UpsertAction::Execute(old(self).spec_inserted())
                && final(self).spec_step() == UpsertStep::AwaitExecute(old(self).spec_inserted())
                && final(self).spec_reorg_cleared(),
            res is Err ==> final(self).spec_step() == UpsertStep::Done && (old(
                self,
            ).spec_failed_insert() matches Some(m) && r == UpsertAction::Finish(
                Err(CoreError::DbQueryFailed(m)),
            )),
    {
        let m = match self.failed_insert.take() {
            Some(m) => m,
            None => String::new(),
        };
        match res {
            Ok(()) => {
                self.step = UpsertStep::AwaitExecute(self.inserted);
                self.reorg_cleared = true;
                UpsertAction::Execute(self.inserted)
            },
            Err(_) => {
                self.step = UpsertStep::Done;
                UpsertAction::Finish(Err(CoreError::DbQueryFailed(m)))
            },
        }
    }

    /// The commit succeeded, ending the write with `Ok`, or failed with the given text.
    pub fn on_committed(&mut self, res: Result<(), String>) -> (r: UpsertAction)
        requires
            old(self).wf(),
            old(self).spec_step() == UpsertStep::AwaitCommit,
        ensures
            final(self).wf(),
            final(self).spec_count() == old(self).spec_count(),
            final(self).spec_inserted() == old(self).spec_count(),
            final(self).spec_step() == UpsertStep::Done,
            res is Ok ==> (*final(self), r) == old(self).commit_ok_step(),
            res is Ok ==> r == UpsertAction::Finish(Ok(())) && final(self).spec_committed(),
            res matches Err(m) ==> r == UpsertAction::Finish(Err(CoreError::DbTxExecFailed(m)))
                && !final(self).spec_committed(),
    {
        self.step = UpsertStep::Done;
        match res {
            Ok(()) => {
                self.committed = true;
                UpsertAction::Finish(Ok(()))
            },
            Err(m) => UpsertAction::Finish(Err(CoreError::DbTxExecFailed(m))),
        }
    }
}

/// How a write in state `m` ends when every remaining insert and the commit succeed, within
/// `fuel` inserts; `None` when it does not end so.
pub open spec fn outcome_if_rest_succeeds(m: UpsertBlocks, fuel: nat) -> Option<Result<(), CoreError>>
    decreases fuel,
{
    match m.spec_step() {
        UpsertStep::AwaitExecute(_) => if fuel == 0 {
            None
        } else {
            outcome_if_rest_succeeds(m.insert_ok_step().0, (fuel - 1) as nat)
        },
        UpsertStep::AwaitCommit => match m.commit_ok_step().1 {
            UpsertAction::Finish(o) => Some(o),
            _ => None,
        },
        _ => None,
    }
}

/// A write that is inserting blocks, among them one resumed after the deletions of a reorg,
/// ends with `Ok(())` once each remaining insert and the commit succeed.
pub proof fn law_write_in_progress_commits(m: UpsertBlocks)
    requires
        m.wf(),
        m.spec_step() is AwaitExecute,
    ensures
        outcome_if_rest_succeeds(m, (m.spec_count() - m.spec_inserted()) as nat) == Some(
            Ok::<(), CoreError>(()),
        ),
    decreases m.spec_count() - m.spec_inserted(),
{
    let m2 = m.insert_ok_step().0;
    let fuel = (m.spec_count() - m.spec_inserted()) as nat;
    assert(fuel > 0);
    assert(outcome_if_rest_succeeds(m, fuel) == outcome_if_rest_succeeds(m2, (fuel - 1) as nat));
    if m.inserted + 1 < m.count {
        assert(m2.wf());
        law_write_in_progress_commits(m2);
        assert((m.count - m.inserted - 1) as nat == (m2.count - m2.inserted) as nat);
    } else {
        assert(m2.step == UpsertStep::AwaitCommit);
        assert(outcome_if_rest_succeeds(m2, (fuel - 1) as nat) == Some(Ok::<(), CoreError>(())));
    }
}

/// A write that meets a reorg while inserting a block, the first time for that block, asks
/// to delete the stored blocks from the reorg point on; once the deletion succeeds it inserts
/// that block again, and it ends with `Ok(())` when the remaining inserts and the commit
/// succeed. Every write starts with no reorg cleared (see `start` and `on_prepared`).
pub proof fn law_reorg_write_commits(m: UpsertBlocks, message: String)
    requires
        m.wf(),
        m.spec_step() is AwaitExecute,
        !m.spec_reorg_cleared(),
    ensures
        m.collision_step(message).1 == UpsertAction::DeleteFromParentOf(m.spec_inserted()),
        m.collision_step(message).0.delete_ok_step().1 == UpsertAction::Execute(m.spec_inserted()),
        outcome_if_rest_succeeds(
            m.collision_step(message).0.delete_ok_step().0,
            (m.spec_count() - m.spec_inserted()) as nat,
        ) == Some(Ok::<(), CoreError>(())),
{
    let m3 = m.collision_step(message).0.delete_ok_step().0;
    assert(m3.wf());
    law_write_in_progress_commits(m3);
}

/// A committed write has inserted every block and is over.
pub proof fn law_upsert_success_means_all_inserted(m: UpsertBlocks)
    requires
        m.wf(),
        m.spec_committed(),
    ensures
        m.spec_inserted() == m.spec_count(),
        m.spec_step() == UpsertStep::Done,
{
}

/// The number a big-endian byte string stands for.
pub open spec fn be_value(bytes: Seq<u8>) -> nat
    decreases bytes.len(),
{
    if bytes.len() == 0 {
        0
    } else {
        be_value(bytes.drop_last()) * 256 + bytes.last() as nat
    }
}

/// The number of a big-endian byte string that fits 64 bits.
pub fn be_bytes_to_u64(bytes: &Vec<u8>) -> (r: u64)
    requires
        be_value(bytes@) <= u64::MAX,
    ensures
        r == be_value(bytes@),
{
    let mut acc: u64 = 0;
    let mut i: usize = 0;
    while i < bytes.len()
        invariant
            i <= bytes@.len(),
            acc == be_value(bytes@.subrange(0, i as int)),
            be_value(bytes@) <= u64::MAX,
        decreases bytes@.len() - i,
    {
        proof {
            lemma_be_value_prefix_bound(bytes@, (i + 1) as int);
            assert(bytes@.subrange(0, i + 1).drop_last() =~= bytes@.subrange(0, i as int));
        }
        acc = acc * 256 + bytes[i] as u64;
        i = i + 1;
    }
    assert(bytes@.subrange(0, bytes@.len() as int) =~= bytes@);
    acc
}

/// A prefix of a big-endian byte string stands for no more than the whole.
proof fn lemma_be_value_prefix_bound(bytes: Seq<u8>, n: int)
    requires
        0 <= n <= bytes.len(),
    ensures
        be_value(bytes.subrange(0, n)) <= be_value(bytes),
    decreases bytes.len() - n,
{
    if n < bytes.len() {
        lemma_be_value_prefix_bound(bytes, n + 1);
        assert(bytes.subrange(0, n + 1).drop_last() =~= bytes.subrange(0, n));
        let p = bytes.subrange(0, n);
        assert(be_value(bytes.subrange(0, n + 1)) == be_value(p) * 256 + bytes[n]);
        assert(be_value(p) <= be_value(p) * 256) by (nonlinear_arith);
    } else {
        assert(bytes.subrange(0, n) =~= bytes);
    }
}

/// A query of the last block number yields exactly one row.
pub open spec fn single_row_fits(res: Result<Vec<Vec<u8>>, String>) -> bool {
    res matches Ok(rows) ==> (rows@.len() == 1 ==> be_value(rows@[0]@) <= u64::MAX)
}

/// The stored block number from the result of its query: a failed query is passed on as
/// `Internal` with its text; anything but exactly one row is `Empty`; otherwise the row's
/// big-endian number, which must fit 64 bits.
pub fn block_number_from_query(res: Result<Vec<Vec<u8>>, String>) -> (r: Result<u64, CoreError>)
    requires
        single_row_fits(res),
    ensures
        res matches Err(m) ==> r == Err::<u64, CoreError>(CoreError::Internal(m)),
        res matches Ok(rows) ==> (rows@.len() != 1 ==> (r matches Err(CoreError::Empty(m)) && m@
            == "no block number found"@)),
        res matches Ok(rows) ==> (rows@.len() == 1 ==> r == Ok::<u64, CoreError>(
            be_value(rows@[0]@) as u64,
        )),
{
    match res {
        Err(m) => Err(CoreError::Internal(m)),
        Ok(rows) => {
            if rows.len() != 1 {
                return Err(CoreError::Empty(String::from_str("no block number found")));
            }
            Ok(be_bytes_to_u64(&rows[0]))
        },
    }
}

/// A repository held in memory, for tests: it keeps every block written, and can be told to
/// fail the next write.
pub struct MockRepository {
    block_number: u64,
    blocks: Vec<BlockModel>,
    expected_upsert_error: Option<CoreError>,
}

impl MockRepository {
    /// The blocks written so far.
    pub closed spec fn spec_blocks(&self) -> Seq<BlockModel> {
        self.blocks@
    }

    /// The error the next write fails with, if any.
    pub closed spec fn spec_expected_upsert_error(&self) -> Option<CoreError> {
        self.expected_upsert_error
    }

    /// An empty repository that accepts writes.
    pub fn new() -> (r: Self)
        ensures
            r.spec_blocks() == Seq::<BlockModel>::empty(),
            r.spec_expected_upsert_error() is None,
    {
        MockRepository { block_number: 0, blocks: Vec::new(), expected_upsert_error: None }
    }

    /// Makes the next write fail with `err`.
    pub fn expect_upsert_error(&mut self, err: CoreError)
        ensures
            final(self).spec_expected_upsert_error() == Some(err),
            final(self).spec_blocks() == old(self).spec_blocks(),
    {
        self.expected_upsert_error = Some(err);
    }

    /// The blocks written, in order.
    pub fn blocks(&self) -> (r: &Vec<BlockModel>)
        ensures
            r@ == self.spec_blocks(),
    {
        &self.blocks
    }

    /// Number of blocks written.
    pub fn len_blocks(&self) -> (r: usize)
        ensures
            r == self.spec_blocks().len(),
    {
        self.blocks.len()
    }

    /// Writes the blocks, or, when told to, fails once with the given error and writes nothing.
    pub fn upsert_blocks(&mut self, blocks: &Vec<BlockModel>) -> (r: Result<(), CoreError>)
        ensures
            old(self).spec_expected_upsert_error() matches Some(e) ==> r == Err::<(), CoreError>(e)
                && final(self).spec_blocks() == old(self).spec_blocks()
                && final(self).spec_expected_upsert_error() is None,
            old(self).spec_expected_upsert_error() is None ==> r is Ok,
            old(self).spec_expected_upsert_error() is None ==> final(self).spec_expected_upsert_error() is None,
            old(self).spec_expected_upsert_error() is None ==> final(self).spec_blocks().len()
                == old(self).spec_blocks().len() + blocks@.len(),
            old(self).spec_expected_upsert_error() is None ==> forall|i: int|
                0 <= i < old(self).spec_blocks().len() ==> final(self).spec_blocks()[i]
                    == old(self).spec_blocks()[i],
            old(self).spec_expected_upsert_error() is None ==> forall|i: int|
                0 <= i < blocks@.len() ==> #[trigger] final(self).spec_blocks()[old(self).spec_blocks().len()
                    + i].same_as(&blocks@[i]),
    {
        if self.expected_upsert_error.is_some() {
            let e = self.expected_upsert_error.take();
            match e {
                Some(e) => return Err(e),
                None => return Ok(()),
            }
        }
        let mut i: usize = 0;
        while i < blocks.len()
            invariant
                i <= blocks@.len(),
                self.expected_upsert_error is None,
                self.blocks@.len() == old(self).blocks@.len() + i,
                forall|k: int|
                    0 <= k < old(self).blocks@.len() ==> self.blocks@[k] == old(self).blocks@[k],
                forall|k: int|
                    0 <= k < i ==> #[trigger] self.blocks@[old(self).blocks@.len() + k].same_as(
                        &blocks@[k],
                    ),
            decreases blocks@.len() - i,
        {
            let b = blocks[i].duplicate();
            self.blocks.push(b);
            i = i + 1;
        }
        Ok(())
    }
}

} // verus!
