//! Snapshots: fixed points in a store's history.
use vstd::prelude::*;

verus! {

/// A point in time of a store: reads through it see the store as it was
/// when the snapshot was taken.
#[derive(Clone, Copy, Debug)]
pub struct Snapshot {
    seq: usize,
}

impl Snapshot {
    /// The sequence number the snapshot stands at.
    pub closed spec fn sequence(&self) -> nat {
        self.seq as nat
    }

    pub(crate) fn at(seq: usize) -> (r: Snapshot)
        ensures
            r.sequence() == seq,
    {
        Snapshot { seq }
    }

    /// The sequence number the snapshot stands at.
    pub fn sequence_number(&self) -> (r: usize)
        ensures
            r == self.sequence(),
    {
        self.seq
    }
}

} // verus!
