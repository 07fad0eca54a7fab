//! An embedded ordered key-value store: atomic write batches, point lookups,
//! bidirectional iteration and point-in-time snapshots.
pub mod batch;
pub mod comparator;
pub mod db;
pub mod error;
pub mod iterator;
pub mod key;
pub mod laws;
pub mod options;
pub mod snapshots;
pub mod util;
