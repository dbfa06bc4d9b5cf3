//! The subscriber to the node's pending transactions.
use vstd::prelude::*;

verus! {

/// Listens to pending transactions of the node and forwards them to the executor.
pub struct Subscriber {}

} // verus!
