//! Constants of the chain and of the database.
use vstd::prelude::*;

verus! {

/// The least gas any transaction uses; more is needed for calldata, contract creation etc.
pub const MIN_GAS_LIMIT: u64 = 21_000;

/// The table blocks are stored in.
pub const BLOCKS_TABLE_NAME: &'static str = "blocks";

} // verus!
