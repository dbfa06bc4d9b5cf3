//! Kinds of database the application connects to.
use vstd::prelude::*;

verus! {

/// The supported databases.
#[derive(Debug, Clone, Copy, PartialEq, Eq, Structural)]
pub enum DbType {
    Postgres,
}

/// The PostgreSQL backend.
pub struct Pg {}

/// Size of the PostgreSQL connection pool.
pub const PG_POOL_MAX_SIZE: usize = 8;

} // verus!
