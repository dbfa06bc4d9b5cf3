//! The product catalog of the searcher.
use vstd::prelude::*;

verus! {

/// The product catalog.
pub struct Catalog {}

impl Catalog {
    /// An empty catalog.
    pub fn new() -> (r: Catalog)
        ensures
            r == (Catalog {}),
    {
        Catalog {}
    }
}

} // verus!
