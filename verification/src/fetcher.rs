//! Fetching blocks from the node and batching them into the repository.
//!
//! The network and the database are driven from outside; this module holds the
//! decisions: which blocks to ask for, which to publish, when a batch is written,
//! what happens when a write fails, and how long to wait before retrying.
use vstd::prelude::*;
use crate::block::{size_fits, BlockModel, BlockValidator, RpcBlockHeader};
use crate::error::CoreError;

verus! {

/// Settings of the block fetcher.
pub struct FetchConfig {
    ws_url: String,
    rpc_fetch_batch_size: usize,
    db_persistence_batch_size: usize,
    next_block_number: u64,
    blocks_tbl_name: String,
}

impl FetchConfig {
    pub closed spec fn spec_ws_url(&self) -> Seq<char> {
        self.ws_url@
    }

    pub closed spec fn spec_batch_size(&self) -> usize {
        self.rpc_fetch_batch_size
    }

    pub closed spec fn spec_db_persistence_batch_size(&self) -> usize {
        self.db_persistence_batch_size
    }

    pub closed spec fn spec_next_block_number(&self) -> u64 {
        self.next_block_number
    }

    pub closed spec fn spec_blocks_tbl_name(&self) -> Seq<char> {
        self.blocks_tbl_name@
    }

    /// Empty URL and table name, no fetch batch, blocks written five at a time.
    pub fn new() -> (r: Self)
        ensures
            r.spec_ws_url() == Seq::<char>::empty(),
            r.spec_batch_size() == 0,
            r.spec_db_persistence_batch_size() == 5,
            r.spec_next_block_number() == 0,
            r.spec_blocks_tbl_name() == Seq::<char>::empty(),
    {
        Self {
            ws_url: String::new(),
            rpc_fetch_batch_size: 0,
            next_block_number: 0,
            blocks_tbl_name: String::new(),
            db_persistence_batch_size: 5,
        }
    }

    pub fn set_ws_url(&mut self, ws_url: String)
        ensures
            final(self).spec_ws_url() == ws_url@,
            final(self).spec_batch_size() == old(self).spec_batch_size(),
            final(self).spec_db_persistence_batch_size() == old(
                self,
            ).spec_db_persistence_batch_size(),
            final(self).spec_next_block_number() == old(self).spec_next_block_number(),
            final(self).spec_blocks_tbl_name() == old(self).spec_blocks_tbl_name(),
    {
        self.ws_url = ws_url;
    }

    pub fn set_batch_size(&mut self, batch_size: usize)
        ensures
            final(self).spec_batch_size() == batch_size,
            final(self).spec_ws_url() == old(self).spec_ws_url(),
            final(self).spec_db_persistence_batch_size() == old(
                self,
            ).spec_db_persistence_batch_size(),
            final(self).spec_next_block_number() == old(self).spec_next_block_number(),
            final(self).spec_blocks_tbl_name() == old(self).spec_blocks_tbl_name(),
    {
        self.rpc_fetch_batch_size = batch_size;
    }

    pub fn set_next_block_number(&mut self, next_block_number: u64)
        ensures
            final(self).spec_next_block_number() == next_block_number,
            final(self).spec_ws_url() == old(self).spec_ws_url(),
            final(self).spec_batch_size() == old(self).spec_batch_size(),
            final(self).spec_db_persistence_batch_size() == old(
                self,
            ).spec_db_persistence_batch_size(),
            final(self).spec_blocks_tbl_name() == old(self).spec_blocks_tbl_name(),
    {
        self.next_block_number = next_block_number;
    }

    pub fn set_blocks_tbl_name(&mut self, blocks_tbl_name: String)
        ensures
            final(self).spec_blocks_tbl_name() == blocks_tbl_name@,
            final(self).spec_ws_url() == old(self).spec_ws_url(),
            final(self).spec_batch_size() == old(self).spec_batch_size(),
            final(self).spec_db_persistence_batch_size() == old(
                self,
            ).spec_db_persistence_batch_size(),
            final(self).spec_next_block_number() == old(self).spec_next_block_number(),
    {
        self.blocks_tbl_name = blocks_tbl_name;
    }

    pub fn ws_url(&self) -> (r: &String)
        ensures
            r@ == self.spec_ws_url(),
    {
        &self.ws_url
    }

    pub fn batch_size(&self) -> (r: usize)
        ensures
            r == self.spec_batch_size(),
    {
        self.rpc_fetch_batch_size
    }

    pub fn db_persistence_batch_size(&self) -> (r: usize)
        ensures
            r == self.spec_db_persistence_batch_size(),
    {
        self.db_persistence_batch_size
    }

    pub fn next_block_number(&self) -> (r: u64)
        ensures
            r == self.spec_next_block_number(),
    {
        self.next_block_number
    }

    pub fn blocks_tbl_name(&self) -> (r: &String)
        ensures
            r@ == self.spec_blocks_tbl_name(),
    {
        &self.blocks_tbl_name
    }
}

/// The numbers of the blocks asked for in one batch request: `size` consecutive numbers
/// starting at `last_block_number`.
pub fn batch_block_numbers(last_block_number: usize, size: usize) -> (r: Vec<usize>)
    requires
        last_block_number + size <= usize::MAX,
    ensures
        r@.len() == size,
        forall|i: int| 0 <= i < size ==> r@[i] == last_block_number + i,
{
    let mut r: Vec<usize> = Vec::new();
    let mut n = last_block_number;
    while n < last_block_number + size
        invariant
            last_block_number <= n <= last_block_number + size,
            last_block_number + size <= usize::MAX,
            r@.len() == n - last_block_number,
            forall|i: int| 0 <= i < r@.len() ==> r@[i] == last_block_number + i,
        decreases last_block_number + size - n,
    {
        r.push(n);
        n = n + 1;
    }
    r
}

/// Where a batch request starts.
#[derive(Debug, Clone, Copy, PartialEq, Eq, Structural)]
pub enum BatchStart {
    /// At the block number stored in the repository, which is read first; a failure to read
    /// it ends the request with that error.
    Stored,
    /// At this block number.
    At(u64),
}

/// Where the next batch request starts: without a given start, at the block number stored
/// in the repository; with one, at block 0 (the given number itself is not used).
pub fn batch_start(start_block: Option<usize>) -> (r: BatchStart)
    ensures
        start_block is None ==> r == BatchStart::Stored,
        start_block is Some ==> r == BatchStart::At(0),
{
    match start_block {
        None => BatchStart::Stored,
        Some(_) => BatchStart::At(0),
    }
}

/// The values of the present entries, in their order.
pub open spec fn present<B>(s: Seq<Option<B>>) -> Seq<B>
    decreases s.len(),
{
    if s.len() == 0 {
        Seq::empty()
    } else {
        match s.last() {
            Some(b) => present(s.drop_last()).push(b),
            None => present(s.drop_last()),
        }
    }
}

/// Appending an entry to a response appends its block to what is published, whatever the
/// response's length; an empty entry publishes nothing.
pub proof fn law_present_push<B>(s: Seq<Option<B>>, b: B)
    ensures
        present(s.push(Some(b))) == present(s).push(b),
        present(s.push(None)) == present(s),
{
    assert(s.push(Some(b)).drop_last() =~= s);
    assert(s.push(None::<B>).drop_last() =~= s);
}

/// What two consecutive parts of a response publish is what each part publishes, in order.
pub proof fn law_present_concat<B>(s1: Seq<Option<B>>, s2: Seq<Option<B>>)
    ensures
        present(s1 + s2) == present(s1) + present(s2),
    decreases s2.len(),
{
    if s2.len() == 0 {
        assert(s1 + s2 =~= s1);
        assert(present(s1) + present(s2) =~= present(s1));
    } else {
        let last = s2.last();
        law_present_concat(s1, s2.drop_last());
        assert((s1 + s2).drop_last() =~= s1 + s2.drop_last());
        assert((s1 + s2).last() == last);
        match last {
            Some(b) => {
                assert(present(s1) + present(s2.drop_last()).push(b) =~= (present(s1) + present(
                    s2.drop_last(),
                )).push(b));
            },
            None => {},
        }
    }
}

/// A response whose entries are all present publishes every block, in order.
pub proof fn law_present_keeps_all_blocks<B>(s: Seq<Option<B>>)
    requires
        forall|i: int| 0 <= i < s.len() ==> #[trigger] s[i] is Some,
    ensures
        present(s).len() == s.len(),
        forall|i: int| 0 <= i < s.len() ==> s[i] == Some(#[trigger] present(s)[i]),
    decreases s.len(),
{
    if s.len() > 0 {
        let rest = s.drop_last();
        assert forall|i: int| 0 <= i < rest.len() implies #[trigger] rest[i] is Some by {
            assert(rest[i] == s[i]);
        }
        law_present_keeps_all_blocks(rest);
        assert(s[s.len() - 1] is Some);
        let b = s.last()->0;
        assert(present(s) == present(rest).push(b));
        assert forall|i: int| 0 <= i < s.len() implies s[i] == Some(#[trigger] present(s)[i]) by {
            if i < rest.len() {
                assert(rest[i] == s[i]);
                assert(present(s)[i] == present(rest)[i]);
            }
        }
    }
}

/// The number of present entries of a response.
pub open spec fn present_count<B>(s: Seq<Option<B>>) -> nat
    decreases s.len(),
{
    if s.len() == 0 {
        0
    } else {
        present_count(s.drop_last()) + if s.last() is Some {
            1nat
        } else {
            0nat
        }
    }
}

/// As many blocks are published as the response has present entries.
pub proof fn law_present_counts_entries<B>(s: Seq<Option<B>>)
    ensures
        present(s).len() == present_count(s),
        present(s).len() <= s.len(),
    decreases s.len(),
{
    if s.len() > 0 {
        law_present_counts_entries(s.drop_last());
    }
}

/// The blocks a batch response yields for publishing: the ones the node returned,
/// in order, skipping the numbers it has no block for.
pub fn blocks_to_publish<B>(blocks: Vec<Option<B>>) -> (r: Vec<B>)
    ensures
        r@ == present(blocks@),
        r@.len() == present_count(blocks@),
        (forall|i: int| 0 <= i < blocks@.len() ==> #[trigger] blocks@[i] is Some) ==> r@.len()
            == blocks@.len() && forall|i: int| 0 <= i < blocks@.len() ==> blocks@[i] == Some(
            #[trigger] r@[i],
        ),
{
    proof {
        law_present_counts_entries(blocks@);
        if forall|i: int| 0 <= i < blocks@.len() ==> #[trigger] blocks@[i] is Some {
            law_present_keeps_all_blocks(blocks@);
        }
    }
    let mut r: Vec<B> = Vec::new();
    let mut rest = blocks;
    // Entries are taken from the back, then reversed, so that each element moves by value.
    let mut out_rev: Vec<B> = Vec::new();
    let ghost all = rest@;
    while rest.len() > 0
        invariant
            present(all) == present(rest@) + out_rev@.reverse(),
        decreases rest@.len(),
    {
        let ghost before = rest@;
        let e = rest.pop().unwrap();
        proof {
            assert(before.drop_last() =~= rest@);
            assert(before.last() == e);
        }
        match e {
            Some(b) => {
                proof {
                    assert(present(before) == present(rest@).push(b));
                }
                let ghost prev_out = out_rev@;
                out_rev.push(b);
                proof {
                    assert(out_rev@.reverse() =~= seq![b] + prev_out.reverse());
                    assert(present(rest@).push(b) + prev_out.reverse() =~= present(rest@) + (seq![b]
                        + prev_out.reverse()));
                }
            },
            None => {
                proof {
                    assert(present(before) == present(rest@));
                }
            },
        }
    }
    assert(rest@ =~= Seq::<Option<B>>::empty());
    assert(present(rest@) =~= Seq::<B>::empty());
    while out_rev.len() > 0
        invariant
            present(all) == r@ + out_rev@.reverse(),
        decreases out_rev@.len(),
    {
        let ghost before = out_rev@;
        let b = out_rev.pop().unwrap();
        proof {
            assert(before =~= out_rev@.push(b));
            assert(before.reverse() =~= seq![b] + out_rev@.reverse());
        }
        let ghost prev_r = r@;
        r.push(b);
        proof {
            assert(prev_r + before.reverse() =~= r@ + out_rev@.reverse());
        }
    }
    assert(out_rev@.reverse() =~= Seq::<B>::empty());
    assert(r@ =~= present(all));
    r
}

/// Where the batcher stands between two events.
#[derive(Debug, Clone, Copy, PartialEq, Eq, Structural)]
pub enum BatcherPhase {
    /// Waiting for the next block or for cancellation.
    Listening,
    /// A full batch is being written.
    PersistingBatch,
    /// The remaining blocks are being written after cancellation.
    PersistingOnCancel,
    /// Everything was written after cancellation; the loop is over.
    Finished,
}

/// What the driver of the batcher does next.
#[derive(Debug, Clone, Copy, PartialEq, Eq, Structural)]
pub enum BatcherAction {
    /// Wait for the next block or for cancellation.
    Listen,
    /// Write the current batch to the repository and report the outcome.
    Persist,
    /// Sleep for the given milliseconds, then write the current batch again.
    RetryPersistAfter(u64),
    /// Sleep for the given milliseconds, then wait for the next event again.
    ListenAfter(u64),
    /// Stop; every received block has been written.
    Finish,
}

/// Milliseconds to wait after a failed write.
pub const PERSIST_RETRY_DELAY_MS: u64 = 400;

/// Collects incoming blocks into batches of a fixed size and decides when they are written.
pub struct BlockBatcher {
    batch: Vec<BlockModel>,
    batch_size: usize,
    current_block_number: u64,
    phase: BatcherPhase,
    received: Ghost<Seq<BlockModel>>,
    persisted: Ghost<Seq<BlockModel>>,
}

impl BlockBatcher {
    /// The blocks received so far, in order of arrival.
    pub closed spec fn received(&self) -> Seq<BlockModel> {
        self.received@
    }

    /// The blocks whose write succeeded, in order.
    pub closed spec fn persisted(&self) -> Seq<BlockModel> {
        self.persisted@
    }

    /// The blocks received and not yet written.
    pub closed spec fn pending(&self) -> Seq<BlockModel> {
        self.batch@
    }

    pub closed spec fn spec_phase(&self) -> BatcherPhase {
        self.phase
    }

    pub closed spec fn spec_batch_size(&self) -> usize {
        self.batch_size
    }

    pub closed spec fn spec_current_block_number(&self) -> u64 {
        self.current_block_number
    }

    /// Nothing is lost or reordered: what was received is what was written followed by
    /// what is pending; a pending batch never reaches the batch size while listening,
    /// and a batch being written is full; once finished nothing is pending.
    pub closed spec fn wf(&self) -> bool {
        &&& self.received@ == self.persisted@ + self.batch@
        &&& (self.phase == BatcherPhase::Listening && self.batch_size > 0) ==> self.batch@.len()
            < self.batch_size
        &&& self.phase == BatcherPhase::PersistingBatch ==> self.batch@.len() == self.batch_size
        &&& self.phase == BatcherPhase::PersistingOnCancel ==> self.batch@.len() > 0 && (
        self.batch_size > 0 ==> self.batch@.len() < self.batch_size)
        &&& self.phase == BatcherPhase::Finished ==> self.batch@.len() == 0
    }

    /// A batcher that writes blocks `config`'s persistence batch size at a time;
    /// it expects blocks from number 1 on.
    pub fn new(config: &FetchConfig) -> (r: Self)
        ensures
            r.wf(),
            r.spec_phase() == BatcherPhase::Listening,
            r.spec_batch_size() == config.spec_db_persistence_batch_size(),
            r.spec_current_block_number() == 0,
            r.received() == Seq::<BlockModel>::empty(),
            r.persisted() == Seq::<BlockModel>::empty(),
            r.pending() == Seq::<BlockModel>::empty(),
    {
        BlockBatcher {
            batch: Vec::new(),
            batch_size: config.db_persistence_batch_size(),
            current_block_number: 0,
            phase: BatcherPhase::Listening,
            received: Ghost(Seq::empty()),
            persisted: Ghost(Seq::empty()),
        }
    }

    pub fn phase(&self) -> (r: BatcherPhase)
        ensures
            r == self.spec_phase(),
    {
        self.phase
    }

    /// The blocks to write when the action is `Persist` or `RetryPersistAfter`.
    pub fn batch(&self) -> (r: &Vec<BlockModel>)
        ensures
            r@ == self.pending(),
    {
        &self.batch
    }

    /// A block arrived. It is checked against the next expected number (the outcome is
    /// returned for reporting only), turned into a row and added to the batch; a batch
    /// that reaches the batch size is to be written.
    pub fn on_block(&mut self, block: &RpcBlockHeader) -> (r: (BatcherAction, Result<(), CoreError>))
        requires
            old(self).wf(),
            old(self).spec_phase() == BatcherPhase::Listening,
            old(self).spec_current_block_number() < u64::MAX,
            size_fits(block.size),
        ensures
            final(self).wf(),
            final(self).spec_batch_size() == old(self).spec_batch_size(),
            final(self).spec_current_block_number() == old(self).spec_current_block_number(),
            final(self).persisted() == old(self).persisted(),
            final(self).pending().len() == old(self).pending().len() + 1,
            final(self).pending().last().from_header(block),
            final(self).pending().drop_last() == old(self).pending(),
            final(self).received() == old(self).received().push(final(self).pending().last()),
            r.1 is Ok <==> block.hash@.len() == 32 && block.number == old(
                self,
            ).spec_current_block_number() + 1,
            r.1 is Err ==> r.1 == Err::<(), CoreError>(
                CoreError::DataSizeUnexpected(32, block.hash@.len() as usize),
            ),
            final(self).pending().len() == old(self).spec_batch_size() ==> r.0
                == BatcherAction::Persist && final(self).spec_phase()
                == BatcherPhase::PersistingBatch,
            final(self).pending().len() != old(self).spec_batch_size() ==> r.0
                == BatcherAction::Listen && final(self).spec_phase() == BatcherPhase::Listening,
    {
        let check = BlockValidator::validate_rpc_block(block, self.current_block_number + 1);
        let model = match BlockModel::new_from_rpc_block(block) {
            Ok(m) => m,
            Err(_) => {
                proof {
                    assert(false);
                }
                return (BatcherAction::Listen, check);
            },
        };
        let ghost m = model;
        self.batch.push(model);
        proof {
            self.received@ = self.received@.push(m);
            assert(self.received@ =~= self.persisted@ + self.batch@);
            assert(self.batch@.drop_last() =~= old(self).batch@);
        }
        if self.batch.len() == self.batch_size {
            self.phase = BatcherPhase::PersistingBatch;
            (BatcherAction::Persist, check)
        } else {
            (BatcherAction::Listen, check)
        }
    }

    /// Cancellation was requested. With nothing pending the loop is over; otherwise the
    /// pending blocks are to be written first.
    pub fn on_cancel(&mut self) -> (r: BatcherAction)
        requires
            old(self).wf(),
            old(self).spec_phase() == BatcherPhase::Listening,
        ensures
            final(self).wf(),
            final(self).received() == old(self).received(),
            final(self).persisted() == old(self).persisted(),
            final(self).pending() == old(self).pending(),
            final(self).spec_batch_size() == old(self).spec_batch_size(),
            final(self).spec_current_block_number() == old(self).spec_current_block_number(),
            old(self).pending().len() == 0 ==> r == BatcherAction::Finish && final(self).spec_phase()
                == BatcherPhase::Finished,
            old(self).pending().len() > 0 ==> r == BatcherAction::Persist && final(self).spec_phase()
                == BatcherPhase::PersistingOnCancel,
            r == BatcherAction::Finish ==> final(self).persisted() == final(self).received(),
    {
        if self.batch.len() > 0 {
            self.phase = BatcherPhase::PersistingOnCancel;
            BatcherAction::Persist
        } else {
            self.phase = BatcherPhase::Finished;
            proof {
                assert(self.received@ =~= self.persisted@);
            }
            BatcherAction::Finish
        }
    }

    /// The outcome of writing the pending batch. A success moves the batch to the written
    /// blocks; a failure keeps it: during normal operation the write is retried after a
    /// pause, after cancellation the batcher listens again after a pause.
    pub fn on_persisted(&mut self, ok: bool) -> (r: BatcherAction)
        requires
            old(self).wf(),
            old(self).spec_phase() == BatcherPhase::PersistingBatch || old(self).spec_phase()
                == BatcherPhase::PersistingOnCancel,
        ensures
            final(self).wf(),
            final(self).received() == old(self).received(),
            final(self).spec_batch_size() == old(self).spec_batch_size(),
            final(self).spec_current_block_number() == old(self).spec_current_block_number(),
            ok ==> final(self).persisted() == old(self).persisted() + old(self).pending()
                && final(self).pending() == Seq::<BlockModel>::empty(),
            !ok ==> final(self).persisted() == old(self).persisted() && final(self).pending()
                == old(self).pending(),
            old(self).spec_phase() == BatcherPhase::PersistingBatch ==> (if ok {
                r == BatcherAction::Listen && final(self).spec_phase() == BatcherPhase::Listening
            } else {
                r == BatcherAction::RetryPersistAfter(PERSIST_RETRY_DELAY_MS)
                    && final(self).spec_phase() == BatcherPhase::PersistingBatch
            }),
            old(self).spec_phase() == BatcherPhase::PersistingOnCancel ==> (if ok {
                r == BatcherAction::Finish && final(self).spec_phase() == BatcherPhase::Finished
            } else {
                r == BatcherAction::ListenAfter(PERSIST_RETRY_DELAY_MS) && final(self).spec_phase()
                    == BatcherPhase::Listening
            }),
            r == BatcherAction::Finish ==> final(self).persisted() == final(self).received(),
    {
        if ok {
            proof {
                self.persisted@ = self.persisted@ + self.batch@;
            }
            self.batch.truncate(0);
            proof {
                assert(self.batch@ =~= Seq::<BlockModel>::empty());
                assert(self.received@ =~= self.persisted@ + self.batch@);
            }
            if self.phase == BatcherPhase::PersistingBatch {
                self.phase = BatcherPhase::Listening;
                BatcherAction::Listen
            } else {
                self.phase = BatcherPhase::Finished;
                BatcherAction::Finish
            }
        } else {
            if self.phase == BatcherPhase::PersistingBatch {
                BatcherAction::RetryPersistAfter(PERSIST_RETRY_DELAY_MS)
            } else {
                self.phase = BatcherPhase::Listening;
                BatcherAction::ListenAfter(PERSIST_RETRY_DELAY_MS)
            }
        }
    }
}

/// Nothing a batcher receives is lost or reordered: the blocks received are the blocks
/// written followed by the blocks pending; while listening fewer than a batch are pending,
/// a batch written in normal operation is full, and once the batcher has finished every
/// received block has been written.
pub proof fn law_batcher_loses_nothing(b: BlockBatcher)
    requires
        b.wf(),
    ensures
        b.received() == b.persisted() + b.pending(),
        b.spec_phase() == BatcherPhase::Listening && b.spec_batch_size() > 0 ==> b.pending().len()
            < b.spec_batch_size(),
        b.spec_phase() == BatcherPhase::PersistingBatch ==> b.pending().len() == b.spec_batch_size(),
        b.spec_phase() == BatcherPhase::Finished ==> b.pending().len() == 0 && b.received()
            == b.persisted(),
{
    if b.spec_phase() == BatcherPhase::Finished {
        assert(b.persisted() + b.pending() =~= b.persisted());
    }
}

/// Delays of the loop that asks the node for block batches: a failed request is retried
/// after a delay that grows by one second with each failure; after a successful one the
/// loop pauses one second. Successes do not reset the growing delay.
pub struct RetryPolicy {
    retry_sec: u64,
}

/// Seconds to pause after a successful batch request.
pub const INTERVAL_STOP_SECS: u64 = 1;

impl RetryPolicy {
    pub closed spec fn spec_retry_sec(&self) -> u64 {
        self.retry_sec
    }

    /// Seconds the next failed request will be retried after.
    pub fn retry_sec(&self) -> (r: u64)
        ensures
            r == self.spec_retry_sec(),
    {
        self.retry_sec
    }

    /// The first failure is retried after one second.
    pub fn new() -> (r: Self)
        ensures
            r.spec_retry_sec() == 1,
    {
        RetryPolicy { retry_sec: 1 }
    }

    /// Seconds to wait after a batch request with the given outcome.
    pub fn next_delay(&mut self, ok: bool) -> (r: u64)
        requires
            ok || old(self).spec_retry_sec() < u64::MAX,
        ensures
            ok ==> r == INTERVAL_STOP_SECS && final(self).spec_retry_sec() == old(
                self,
            ).spec_retry_sec(),
            !ok ==> r == old(self).spec_retry_sec() && final(self).spec_retry_sec() == old(
                self,
            ).spec_retry_sec() + 1,
    {
        if ok {
            INTERVAL_STOP_SECS
        } else {
            let d = self.retry_sec;
            self.retry_sec = self.retry_sec + 1;
            d
        }
    }
}

} // verus!
