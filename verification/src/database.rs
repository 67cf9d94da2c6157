//! The storage capability the benchmark engine drives.
//!
//! A backend only has to offer `init`, point `get` and point `set`; every
//! call may fail and any failure aborts the phase in progress. The engine
//! discards `get` results: only latency and success are of interest, so the
//! contract promises nothing about stored content.

mod mem_btree;

use vstd::prelude::*;

pub use mem_btree::MemBTree;

verus! {

/// A failure reported by a storage backend.
#[derive(Debug)]
pub struct DbError {
    pub message: String,
}

/// Minimal capability of a key-value storage backend. Implementations may
/// synchronize internally; the engine itself promises nothing about what a
/// backend stores or returns, only that errors are surfaced.
pub trait Database {
    /// Idempotent preparation; may be a no-op.
    fn init(&self) -> Result<(), DbError>;

    /// Point lookup; the looked-up content is discarded.
    fn get(&self, key: &[u8]) -> Result<(), DbError>;

    /// Upsert.
    fn set(&self, key: &[u8], value: &[u8]) -> Result<(), DbError>;
}

/// The selectable backend variants.
#[derive(Copy, Clone, PartialEq, Eq, Structural)]
pub enum DatabaseType {
    MemBtree,
    Redb,
    Sled,
}

/// The backend this library provides itself: the in-memory ordered map.
/// The file-backed stores need temporary files and live with the embedding
/// binary, so asking for them here is an error.
pub fn get_db(database: DatabaseType) -> (r: Result<MemBTree, DbError>)
    ensures
        r is Ok <==> database == DatabaseType::MemBtree,
{
    match database {
        DatabaseType::MemBtree => Ok(MemBTree::new()),
        DatabaseType::Redb => Err(DbError {
            message: "file-backed stores are constructed by the embedding binary".to_string(),
        }),
        DatabaseType::Sled => Err(DbError {
            message: "file-backed stores are constructed by the embedding binary".to_string(),
        }),
    }
}

/// Display name of a backend variant.
pub fn get_db_name(db: DatabaseType) -> (r: String)
    ensures
        db == DatabaseType::MemBtree ==> r@ == "MemBtree"@,
        db == DatabaseType::Redb ==> r@ == "Redb"@,
        db == DatabaseType::Sled ==> r@ == "Sled"@,
{
    broadcast use vstd::string::to_string_from_display_ensures_for_str;

    match db {
        DatabaseType::MemBtree => "MemBtree".to_string(),
        DatabaseType::Redb => "Redb".to_string(),
        DatabaseType::Sled => "Sled".to_string(),
    }
}

} // verus!
