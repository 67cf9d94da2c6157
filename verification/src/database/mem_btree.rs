//! In-memory backend: an ordered map behind a reader-writer lock.
//!
//! The map lives behind interior mutability so that the store can be shared
//! by reference across worker threads, as every backend must allow. Its
//! content is therefore opaque here; the `len` accessor exists so that the
//! key universe a load phase creates can be observed.

use vstd::prelude::*;

verus! {

/// Ordered in-memory key-value store, internally synchronized.
#[verifier::external_body]
pub struct MemBTree {
    data: std::sync::RwLock<std::collections::BTreeMap<Vec<u8>, Vec<u8>>>,
}

impl MemBTree {
    /// Relies on `std::sync::RwLock::new` and `std::collections::BTreeMap::new`.
    #[verifier::external_body]
    pub fn new() -> MemBTree {
        MemBTree { data: std::sync::RwLock::new(std::collections::BTreeMap::new()) }
    }

    /// Relies on `RwLock::read` and `BTreeMap::get`; a poisoned lock is
    /// still readable through its inner value.
    #[verifier::external_body]
    fn lookup(&self, key: &[u8]) {
        self.data.read().unwrap_or_else(|e| e.into_inner()).get(key);
    }

    /// Relies on `RwLock::write` and `BTreeMap::insert`.
    #[verifier::external_body]
    fn store(&self, key: &[u8], value: &[u8]) {
        self.data.write().unwrap_or_else(|e| e.into_inner()).insert(Vec::from(key), Vec::from(value));
    }

    /// Relies on `RwLock::read` and `BTreeMap::len`: the number of distinct
    /// keys currently stored.
    #[verifier::external_body]
    pub fn len(&self) -> usize {
        self.data.read().unwrap_or_else(|e| e.into_inner()).len()
    }
}

impl super::Database for MemBTree {
    /// Never fails.
    fn init(&self) -> (r: Result<(), super::DbError>)
        ensures
            r is Ok,
    {
        Ok(())
    }

    /// Never fails, whether or not the key is present; the looked-up
    /// content is discarded.
    fn get(&self, key: &[u8]) -> (r: Result<(), super::DbError>)
        ensures
            r is Ok,
    {
        self.lookup(key);
        Ok(())
    }

    /// Never fails; a poisoned lock is recovered through its inner value.
    fn set(&self, key: &[u8], value: &[u8]) -> (r: Result<(), super::DbError>)
        ensures
            r is Ok,
    {
        self.store(key, value);
        Ok(())
    }
}

} // verus!
