//! Settings handed to open, reads and writes.
use vstd::prelude::*;
use crate::snapshots::Snapshot;

verus! {

/// Settings for opening a store.
#[derive(Clone, Copy, Debug)]
pub struct Options {
    /// Create the store when the location holds none.
    pub create_if_missing: bool,
    /// Refuse to open a store that already exists.
    pub error_if_exists: bool,
    /// Size in bytes of the block cache, when one is wanted.
    pub cache_size: Option<usize>,
}

impl Options {
    pub fn new() -> (r: Options)
        ensures
            !r.create_if_missing,
            !r.error_if_exists,
            r.cache_size is None,
    {
        Options { create_if_missing: false, error_if_exists: false, cache_size: None }
    }
}

/// Settings for a write.
#[derive(Clone, Copy, Debug)]
pub struct WriteOptions {
    /// Flush the write to stable storage before returning.
    pub sync: bool,
}

impl WriteOptions {
    pub fn new() -> (r: WriteOptions)
        ensures
            !r.sync,
    {
        WriteOptions { sync: false }
    }
}

/// Settings for a read: which point in time it observes.
#[derive(Clone, Copy, Debug)]
pub struct ReadOptions {
    /// Verify checksums of the data read.
    pub verify_checksums: bool,
    /// Keep the blocks read in the cache.
    pub fill_cache: bool,
    /// Read as of this snapshot; `None` reads the current state.
    pub snapshot: Option<Snapshot>,
}

impl ReadOptions {
    pub fn new() -> (r: ReadOptions)
        ensures
            !r.verify_checksums,
            r.fill_cache,
            r.snapshot is None,
    {
        ReadOptions { verify_checksums: false, fill_cache: true, snapshot: None }
    }
}

} // verus!
