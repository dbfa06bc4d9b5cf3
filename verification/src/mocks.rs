//! Made-up blocks for tests: headers with random hashes, linked into a chain.
use vstd::prelude::*;
use crate::block::{zero_bytes, RpcBlockHeader};
use crate::word::Word256;

verus! {

/// A random 32-byte hash (`alloy`'s `B256::random`).
#[verifier::external_body]
pub(crate) fn random_hash() -> (r: [u8; 32]) {
    alloy::primitives::B256::random().0
}

/// A random 20-byte address (`alloy`'s `Address::random`).
#[verifier::external_body]
pub(crate) fn random_address() -> (r: [u8; 20]) {
    alloy::primitives::Address::random().into_array()
}

/// The bytes of an array, as a vector.
fn array_to_vec32(a: [u8; 32]) -> (r: Vec<u8>)
    ensures
        r@ == a@,
{
    let mut v: Vec<u8> = Vec::new();
    let mut i: usize = 0;
    while i < 32
        invariant
            i <= 32,
            a@.len() == 32,
            v@ == a@.subrange(0, i as int),
        decreases 32 - i,
    {
        v.push(a[i]);
        i = i + 1;
        assert(v@ =~= a@.subrange(0, i as int));
    }
    assert(a@.subrange(0, 32) =~= a@);
    v
}

/// The bytes of an address, as a vector.
fn array_to_vec20(a: [u8; 20]) -> (r: Vec<u8>)
    ensures
        r@ == a@,
{
    let mut v: Vec<u8> = Vec::new();
    let mut i: usize = 0;
    while i < 20
        invariant
            i <= 20,
            a@.len() == 20,
            v@ == a@.subrange(0, i as int),
        decreases 20 - i,
    {
        v.push(a[i]);
        i = i + 1;
        assert(v@ =~= a@.subrange(0, i as int));
    }
    assert(a@.subrange(0, 20) =~= a@);
    v
}

/// Timestamp of the mock block numbered zero.
pub const MOCK_GENESIS_TIMESTAMP: u64 = 1_700_000_000;

/// A mock header: its fixed fields, as `mock_block_with_parent` makes them, and the lengths
/// of its random hashes, roots and address.
pub open spec fn mock_header(h: RpcBlockHeader, number: u64, parent_hash: Seq<u8>) -> bool {
    &&& h.number == number
    &&& h.parent_hash@ == parent_hash
    &&& h.hash@.len() == 32
    &&& h.ommers_hash@.len() == 32
    &&& h.transactions_root@.len() == 32
    &&& h.state_root@.len() == 32
    &&& h.receipts_root@.len() == 32
    &&& h.mix_hash@.len() == 32
    &&& h.beneficiary@.len() == 20
    &&& h.nonce@ == Seq::new(8, |i: int| 0u8)
    &&& h.logs_bloom@ == Seq::new(256, |i: int| 0u8)
    &&& h.extra_data@.len() == 0
    &&& h.gas_limit == 30_000_000
    &&& h.gas_used == 21_000
    &&& h.timestamp == MOCK_GENESIS_TIMESTAMP + number
    &&& h.base_fee_per_gas == Some(1_000_000_000u64)
    &&& h.blob_gas_used == Some(0u64)
    &&& h.excess_blob_gas == Some(0u64)
    &&& h.requests_hash is None
    &&& h.withdrawals_root matches Some(w) && w@.len() == 32
    &&& h.parent_beacon_block_root matches Some(b) && b@.len() == 32
    &&& h.size matches Some(w) && w.value() == 1000
}

/// A block numbered `number` whose parent is `parent_hash`, with random hashes and roots.
pub fn mock_block_with_parent(number: u64, parent_hash: [u8; 32]) -> (r: RpcBlockHeader)
    requires
        number <= u64::MAX - MOCK_GENESIS_TIMESTAMP,
    ensures
        mock_header(r, number, parent_hash@),
{
    RpcBlockHeader {
        number,
        hash: array_to_vec32(random_hash()),
        parent_hash: array_to_vec32(parent_hash),
        nonce: zero_bytes(8),
        ommers_hash: array_to_vec32(random_hash()),
        logs_bloom: zero_bytes(256),
        transactions_root: array_to_vec32(random_hash()),
        state_root: array_to_vec32(random_hash()),
        receipts_root: array_to_vec32(random_hash()),
        parent_beacon_block_root: Some(array_to_vec32(random_hash())),
        withdrawals_root: Some(array_to_vec32(random_hash())),
        beneficiary: array_to_vec20(random_address()),
        requests_hash: None,
        extra_data: Vec::new(),
        size: Some(Word256::from_u64(1000)),
        gas_limit: 30_000_000,
        gas_used: 21_000,
        base_fee_per_gas: Some(1_000_000_000),
        blob_gas_used: Some(0),
        excess_blob_gas: Some(0),
        mix_hash: array_to_vec32(random_hash()),
        timestamp: MOCK_GENESIS_TIMESTAMP + number,
    }
}

/// The first 32 bytes of a hash vector, as an array.
fn vec_to_array32(v: &Vec<u8>) -> (r: [u8; 32])
    requires
        v@.len() == 32,
    ensures
        r@ == v@,
{
    let mut a: [u8; 32] = [0u8; 32];
    let mut i: usize = 0;
    while i < 32
        invariant
            i <= 32,
            v@.len() == 32,
            a@.len() == 32,
            forall|j: int| 0 <= j < i ==> a@[j] == v@[j],
        decreases 32 - i,
    {
        a.set(i, v[i]);
        i = i + 1;
    }
    assert(a@ =~= v@);
    a
}

/// `count` mock blocks numbered from `start_number` on, each the parent of the next; the
/// first one's parent is random.
pub fn mock_blocks_list(count: usize, start_number: u64) -> (r: Vec<Option<RpcBlockHeader>>)
    requires
        start_number + count <= u64::MAX - MOCK_GENESIS_TIMESTAMP,
    ensures
        r@.len() == count,
        forall|i: int|
            0 <= i < count ==> ((#[trigger] r@[i]) matches Some(h) && h.number == start_number + i
                && mock_header(h, h.number, h.parent_hash@)),
        forall|i: int|
            0 < i < count ==> ((#[trigger] r@[i]) matches Some(h) && (r@[i - 1] matches Some(p)
                && h.parent_hash@ == p.hash@)),
{
    let mut blocks: Vec<Option<RpcBlockHeader>> = Vec::new();
    let mut parent_hash = random_hash();
    let mut i: usize = 0;
    while i < count
        invariant
            i <= count,
            start_number + count <= u64::MAX - MOCK_GENESIS_TIMESTAMP,
            blocks@.len() == i,
            forall|k: int|
                0 <= k < i ==> ((#[trigger] blocks@[k]) matches Some(h) && h.number == start_number
                    + k && mock_header(h, h.number, h.parent_hash@)),
            forall|k: int|
                0 < k < i ==> ((#[trigger] blocks@[k]) matches Some(h) && (blocks@[k - 1] matches Some(
                    p,
                ) && h.parent_hash@ == p.hash@)),
            i > 0 ==> (blocks@[i - 1] matches Some(p) && p.hash@ == parent_hash@),
        decreases count - i,
    {
        let number = start_number + i as u64;
        let block = mock_block_with_parent(number, parent_hash);
        parent_hash = vec_to_array32(&block.hash);
        blocks.push(Some(block));
        i = i + 1;
    }
    blocks
}

} // verus!
