//! Blocks as received from the node, and the row model they are stored as.
use vstd::prelude::*;
use crate::error::CoreError;
use crate::word::Word256;

verus! {

/// The header fields of a block fetched over RPC, as plain values.
/// Hashes and roots are 32 bytes, the nonce 8, the beneficiary 20 and the bloom 256.
pub struct RpcBlockHeader {
    pub number: u64,
    pub hash: Vec<u8>,
    pub parent_hash: Vec<u8>,
    pub nonce: Vec<u8>,
    pub ommers_hash: Vec<u8>,
    pub logs_bloom: Vec<u8>,
    pub transactions_root: Vec<u8>,
    pub state_root: Vec<u8>,
    pub receipts_root: Vec<u8>,
    pub parent_beacon_block_root: Option<Vec<u8>>,
    pub withdrawals_root: Option<Vec<u8>>,
    pub beneficiary: Vec<u8>,
    pub requests_hash: Option<Vec<u8>>,
    pub extra_data: Vec<u8>,
    pub size: Option<Word256>,
    pub gas_limit: u64,
    pub gas_used: u64,
    pub base_fee_per_gas: Option<u64>,
    pub blob_gas_used: Option<u64>,
    pub excess_blob_gas: Option<u64>,
    pub mix_hash: Vec<u8>,
    pub timestamp: u64,
}

/// A block as stored in the `blocks` table. Timestamps of the row are seconds since the epoch.
#[derive(Debug)]
pub struct BlockModel {
    pub number: i64,
    pub hash: Vec<u8>,
    pub parent_hash: Vec<u8>,
    pub nonce: Vec<u8>,
    pub sha3_uncles: Vec<u8>,
    pub logs_bloom: Vec<u8>,
    pub transactions_root: Vec<u8>,
    pub state_root: Vec<u8>,
    pub receipts_root: Vec<u8>,
    pub parent_beacon_block_root: Option<Vec<u8>>,
    pub withdrawals_root: Option<Vec<u8>>,
    pub fee_recipient: Vec<u8>,
    pub requests_hash: Option<Vec<u8>>,
    pub extra_data: Vec<u8>,
    pub size: i64,
    pub gas_limit: i64,
    pub gas_used: i64,
    pub base_fee_per_gas: Option<i64>,
    pub blob_gas_used: Option<i64>,
    pub excess_blob_gas: Option<i64>,
    pub prev_randao: Vec<u8>,
    pub timestamp: i64,
    pub create_at: i64,
    pub updated_at: i64,
}

/// The bytes of an optional field, viewed.
pub open spec fn opt_bytes(o: Option<Vec<u8>>) -> Option<Seq<u8>> {
    match o {
        Some(v) => Some(v@),
        None => None,
    }
}

/// The bytes of an optional 32-byte hash, with the all-zero hash standing for a missing one.
pub open spec fn hash_or_zero(o: Option<Vec<u8>>) -> Seq<u8> {
    match o {
        Some(v) => v@,
        None => Seq::new(32, |i: int| 0u8),
    }
}

/// A size that a 64-bit signed integer holds.
pub open spec fn size_fits(size: Option<Word256>) -> bool {
    match size {
        Some(w) => w.value() <= i64::MAX,
        None => true,
    }
}

/// The size of a block, zero when the node gave none.
pub open spec fn size_value(size: Option<Word256>) -> int {
    match size {
        Some(w) => w.value() as int,
        None => 0,
    }
}

/// An optional number, zero when missing, reinterpreted as a signed 64-bit integer.
pub open spec fn signed_or_zero(o: Option<u64>) -> i64 {
    match o {
        Some(x) => x as i64,
        None => 0i64,
    }
}

impl BlockModel {
    /// Two models hold the same values.
    pub open spec fn same_as(&self, other: &BlockModel) -> bool {
        &&& self.number == other.number
        &&& self.hash@ == other.hash@
        &&& self.parent_hash@ == other.parent_hash@
        &&& self.nonce@ == other.nonce@
        &&& self.sha3_uncles@ == other.sha3_uncles@
        &&& self.logs_bloom@ == other.logs_bloom@
        &&& self.transactions_root@ == other.transactions_root@
        &&& self.state_root@ == other.state_root@
        &&& self.receipts_root@ == other.receipts_root@
        &&& opt_bytes(self.parent_beacon_block_root) == opt_bytes(other.parent_beacon_block_root)
        &&& opt_bytes(self.withdrawals_root) == opt_bytes(other.withdrawals_root)
        &&& self.fee_recipient@ == other.fee_recipient@
        &&& opt_bytes(self.requests_hash) == opt_bytes(other.requests_hash)
        &&& self.extra_data@ == other.extra_data@
        &&& self.size == other.size
        &&& self.gas_limit == other.gas_limit
        &&& self.gas_used == other.gas_used
        &&& self.base_fee_per_gas == other.base_fee_per_gas
        &&& self.blob_gas_used == other.blob_gas_used
        &&& self.excess_blob_gas == other.excess_blob_gas
        &&& self.prev_randao@ == other.prev_randao@
        &&& self.timestamp == other.timestamp
        &&& self.create_at == other.create_at
        &&& self.updated_at == other.updated_at
    }

    /// The row a header is stored as: every field copied, numbers reinterpreted as signed
    /// 64-bit integers, missing optional values replaced by zero (all-zero hashes),
    /// and the row's own timestamps at the epoch.
    pub open spec fn from_header(&self, block: &RpcBlockHeader) -> bool {
        &&& self.number == block.number as i64
        &&& self.hash@ == block.hash@
        &&& self.parent_hash@ == block.parent_hash@
        &&& self.nonce@ == block.nonce@
        &&& self.sha3_uncles@ == block.ommers_hash@
        &&& self.logs_bloom@ == block.logs_bloom@
        &&& self.transactions_root@ == block.transactions_root@
        &&& self.state_root@ == block.state_root@
        &&& self.receipts_root@ == block.receipts_root@
        &&& opt_bytes(self.parent_beacon_block_root) == Some(
            hash_or_zero(block.parent_beacon_block_root),
        )
        &&& opt_bytes(self.withdrawals_root) == Some(hash_or_zero(block.withdrawals_root))
        &&& self.fee_recipient@ == block.beneficiary@
        &&& opt_bytes(self.requests_hash) == Some(hash_or_zero(block.requests_hash))
        &&& self.extra_data@ == block.extra_data@
        &&& self.size == size_value(block.size)
        &&& self.gas_limit == block.gas_limit as i64
        &&& self.gas_used == block.gas_used as i64
        &&& self.base_fee_per_gas == Some(signed_or_zero(block.base_fee_per_gas))
        &&& self.blob_gas_used == Some(signed_or_zero(block.blob_gas_used))
        &&& self.excess_blob_gas == Some(signed_or_zero(block.excess_blob_gas))
        &&& self.prev_randao@ == block.mix_hash@
        &&& self.timestamp == block.timestamp as i64
        &&& self.create_at == 0
        &&& self.updated_at == 0
    }

    /// Builds the row for a header; the size must fit a signed 64-bit integer.
    pub fn new_from_rpc_block(block: &RpcBlockHeader) -> (r: Result<BlockModel, CoreError>)
        requires
            size_fits(block.size),
        ensures
            r matches Ok(m) && m.from_header(block),
            r matches Ok(m) && m.number == block.number as i64 && m.gas_limit == block.gas_limit as i64
                && m.gas_used == block.gas_used as i64 && m.timestamp == block.timestamp as i64
                && m.hash@ == block.hash@ && m.parent_hash@ == block.parent_hash@ && m.prev_randao@
                == block.mix_hash@ && m.fee_recipient@ == block.beneficiary@ && m.sha3_uncles@
                == block.ommers_hash@,
    {
        let size: i64 = match block.size {
            Some(w) => {
                assert(w.limbs[1] == 0 && w.limbs[2] == 0 && w.limbs[3] == 0 && w.limbs[0]
                    <= i64::MAX) by (nonlinear_arith)
                    requires
                        w.limbs[0] + 0x1_0000_0000_0000_0000 * (w.limbs[1] + 0x1_0000_0000_0000_0000
                            * (w.limbs[2] + 0x1_0000_0000_0000_0000 * w.limbs[3])) <= i64::MAX,
                        w.limbs[0] >= 0,
                        w.limbs[1] >= 0,
                        w.limbs[2] >= 0,
                        w.limbs[3] >= 0,
                ;
                w.limbs[0] as i64
            },
            None => 0,
        };
        Ok(BlockModel {
            number: block.number as i64,
            hash: copy_bytes(&block.hash),
            parent_hash: copy_bytes(&block.parent_hash),
            nonce: copy_bytes(&block.nonce),
            sha3_uncles: copy_bytes(&block.ommers_hash),
            logs_bloom: copy_bytes(&block.logs_bloom),
            transactions_root: copy_bytes(&block.transactions_root),
            state_root: copy_bytes(&block.state_root),
            receipts_root: copy_bytes(&block.receipts_root),
            parent_beacon_block_root: Some(hash_or_zero_bytes(&block.parent_beacon_block_root)),
            withdrawals_root: Some(hash_or_zero_bytes(&block.withdrawals_root)),
            fee_recipient: copy_bytes(&block.beneficiary),
            requests_hash: Some(hash_or_zero_bytes(&block.requests_hash)),
            extra_data: copy_bytes(&block.extra_data),
            size,
            gas_limit: block.gas_limit as i64,
            gas_used: block.gas_used as i64,
            base_fee_per_gas: Some(signed_or_zero_exec(block.base_fee_per_gas)),
            blob_gas_used: Some(signed_or_zero_exec(block.blob_gas_used)),
            excess_blob_gas: Some(signed_or_zero_exec(block.excess_blob_gas)),
            prev_randao: copy_bytes(&block.mix_hash),
            timestamp: block.timestamp as i64,
            create_at: 0,
            updated_at: 0,
        })
    }

    /// A copy of the model.
    pub fn duplicate(&self) -> (r: BlockModel)
        ensures
            r.same_as(self),
    {
        BlockModel {
            number: self.number,
            hash: copy_bytes(&self.hash),
            parent_hash: copy_bytes(&self.parent_hash),
            nonce: copy_bytes(&self.nonce),
            sha3_uncles: copy_bytes(&self.sha3_uncles),
            logs_bloom: copy_bytes(&self.logs_bloom),
            transactions_root: copy_bytes(&self.transactions_root),
            state_root: copy_bytes(&self.state_root),
            receipts_root: copy_bytes(&self.receipts_root),
            parent_beacon_block_root: copy_opt_bytes(&self.parent_beacon_block_root),
            withdrawals_root: copy_opt_bytes(&self.withdrawals_root),
            fee_recipient: copy_bytes(&self.fee_recipient),
            requests_hash: copy_opt_bytes(&self.requests_hash),
            extra_data: copy_bytes(&self.extra_data),
            size: self.size,
            gas_limit: self.gas_limit,
            gas_used: self.gas_used,
            base_fee_per_gas: self.base_fee_per_gas,
            blob_gas_used: self.blob_gas_used,
            excess_blob_gas: self.excess_blob_gas,
            prev_randao: copy_bytes(&self.prev_randao),
            timestamp: self.timestamp,
            create_at: self.create_at,
            updated_at: self.updated_at,
        }
    }
}

/// A copy of a byte vector.
pub fn copy_bytes(v: &Vec<u8>) -> (r: Vec<u8>)
    ensures
        r@ == v@,
{
    let r = v.clone();
    assert(r@ =~= v@);
    r
}

/// A copy of an optional byte vector.
pub fn copy_opt_bytes(v: &Option<Vec<u8>>) -> (r: Option<Vec<u8>>)
    ensures
        opt_bytes(r) == opt_bytes(*v),
{
    match v {
        Some(b) => Some(copy_bytes(b)),
        None => None,
    }
}

/// A row made from a header keeps each number of the header in the field of the same
/// meaning: gas used stays gas used and gas limit stays gas limit, so two headers that differ
/// only in their gas limit give rows with the same gas used; numbers up to `i64::MAX` keep
/// their value.
pub proof fn law_row_keeps_header_numbers(m: BlockModel, block: RpcBlockHeader)
    requires
        m.from_header(&block),
    ensures
        m.gas_used == block.gas_used as i64,
        m.gas_limit == block.gas_limit as i64,
        m.number == block.number as i64,
        m.timestamp == block.timestamp as i64,
        block.gas_used <= i64::MAX ==> m.gas_used as int == block.gas_used as int,
        block.gas_limit <= i64::MAX ==> m.gas_limit as int == block.gas_limit as int,
        block.number <= i64::MAX ==> m.number as int == block.number as int,
        m.hash@ == block.hash@,
        m.parent_hash@ == block.parent_hash@,
{
}

/// Two rows made from headers that differ only in the gas limit have the same gas used.
pub proof fn law_gas_used_ignores_gas_limit(m1: BlockModel, b1: RpcBlockHeader, m2: BlockModel, b2: RpcBlockHeader)
    requires
        m1.from_header(&b1),
        m2.from_header(&b2),
        b1.gas_used == b2.gas_used,
    ensures
        m1.gas_used == m2.gas_used,
{
}

/// A vector of `n` zero bytes.
pub fn zero_bytes(n: usize) -> (r: Vec<u8>)
    ensures
        r@ == Seq::new(n as nat, |i: int| 0u8),
{
    let mut z: Vec<u8> = Vec::new();
    let mut i: usize = 0;
    while i < n
        invariant
            i <= n,
            z@ == Seq::new(i as nat, |k: int| 0u8),
        decreases n - i,
    {
        z.push(0u8);
        i = i + 1;
        assert(z@ =~= Seq::new(i as nat, |k: int| 0u8));
    }
    z
}

/// The bytes of an optional hash, 32 zero bytes when missing.
fn hash_or_zero_bytes(o: &Option<Vec<u8>>) -> (r: Vec<u8>)
    ensures
        r@ == hash_or_zero(*o),
{
    match o {
        Some(v) => copy_bytes(v),
        None => zero_bytes(32),
    }
}

/// An optional number, zero when missing, reinterpreted as signed.
fn signed_or_zero_exec(o: Option<u64>) -> (r: i64)
    ensures
        r == signed_or_zero(o),
{
    match o {
        Some(x) => x as i64,
        None => 0,
    }
}

/// Checks of a block received from the node.
pub struct BlockValidator {}

impl BlockValidator {
    /// Checks that the block's hash is 32 bytes and that its number is the expected one;
    /// both failures are reported as `DataSizeUnexpected(32, length of the hash)`.
    pub fn validate_rpc_block(block: &RpcBlockHeader, expected_block_number: u64) -> (r: Result<
        (),
        CoreError,
    >)
        ensures
            r is Ok <==> block.hash@.len() == 32 && expected_block_number == block.number,
            r is Err ==> r == Err::<(), CoreError>(
                CoreError::DataSizeUnexpected(32, block.hash@.len() as usize),
            ),
    {
        if block.hash.len() != 32 {
            return Err(CoreError::DataSizeUnexpected(32, block.hash.len()));
        }
        if expected_block_number != block.number {
            return Err(CoreError::DataSizeUnexpected(32, block.hash.len()));
        }
        Ok(())
    }
}

} // verus!
