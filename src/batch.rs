//! Write batches: ordered logs of puts and deletes applied as one unit.
use vstd::prelude::*;
use crate::key::IntoLevelDBKey;
use vstd::slice::slice_to_vec;

verus! {

/// The abstract content of an operation.
pub enum Op {
    Put(Seq<u8>, Seq<u8>),
    Delete(Seq<u8>),
}

impl Op {
    pub open spec fn key(self) -> Seq<u8> {
        match self {
            Op::Put(k, _) => k,
            Op::Delete(k) => k,
        }
    }
}

/// One pending operation.
#[derive(Clone, Debug)]
pub enum BatchOp {
    Put(Vec<u8>, Vec<u8>),
    Delete(Vec<u8>),
}

impl View for BatchOp {
    type V = Op;

    open spec fn view(&self) -> Op {
        match self {
            BatchOp::Put(k, v) => Op::Put(k@, v@),
            BatchOp::Delete(k) => Op::Delete(k@),
        }
    }
}

impl BatchOp {
    /// The key the operation writes.
    pub fn key(&self) -> (r: &Vec<u8>)
        ensures
            r@ == self@.key(),
    {
        match self {
            BatchOp::Put(k, _) => k,
            BatchOp::Delete(k) => k,
        }
    }

    pub fn clone_op(&self) -> (r: BatchOp)
        ensures
            r@ == self@,
    {
        match self {
            BatchOp::Put(k, v) => BatchOp::Put(slice_to_vec(k.as_slice()), slice_to_vec(v.as_slice())),
            BatchOp::Delete(k) => BatchOp::Delete(slice_to_vec(k.as_slice())),
        }
    }
}

/// The abstract contents of a sequence of operations.
pub open spec fn ops_view(ops: Seq<BatchOp>) -> Seq<Op> {
    ops.map_values(|o: BatchOp| o@)
}

/// The keyspace after one operation.
pub open spec fn apply_op(m: Map<Seq<u8>, Seq<u8>>, op: Op) -> Map<Seq<u8>, Seq<u8>> {
    match op {
        Op::Put(k, v) => m.insert(k, v),
        Op::Delete(k) => m.remove(k),
    }
}

/// The keyspace after operations applied in order.
pub open spec fn apply_ops(m: Map<Seq<u8>, Seq<u8>>, ops: Seq<Op>) -> Map<Seq<u8>, Seq<u8>>
    decreases ops.len(),
{
    if ops.len() == 0 {
        m
    } else {
        apply_op(apply_ops(m, ops.drop_last()), ops.last())
    }
}

/// Applying `a + b` is applying `a`, then `b`.
pub proof fn lemma_apply_concat(m: Map<Seq<u8>, Seq<u8>>, a: Seq<Op>, b: Seq<Op>)
    ensures
        apply_ops(m, a + b) == apply_ops(apply_ops(m, a), b),
    decreases b.len(),
{
    if b.len() == 0 {
        assert(a + b =~= a);
    } else {
        assert((a + b).drop_last() =~= a + b.drop_last());
        lemma_apply_concat(m, a, b.drop_last());
    }
}

/// Operations on other keys leave `k` as it was.
pub proof fn lemma_apply_untouched(m: Map<Seq<u8>, Seq<u8>>, ops: Seq<Op>, k: Seq<u8>)
    requires
        forall|j: int| 0 <= j < ops.len() ==> ops[j].key() != k,
    ensures
        apply_ops(m, ops).contains_key(k) == m.contains_key(k),
        m.contains_key(k) ==> apply_ops(m, ops)[k] == m[k],
    decreases ops.len(),
{
    if ops.len() > 0 {
        lemma_apply_untouched(m, ops.drop_last(), k);
    }
}

/// The last operation on `k` decides it.
pub proof fn lemma_apply_last_touch(m: Map<Seq<u8>, Seq<u8>>, ops: Seq<Op>, i: int, k: Seq<u8>)
    requires
        0 <= i < ops.len(),
        ops[i].key() == k,
        forall|j: int| i < j < ops.len() ==> ops[j].key() != k,
    ensures
        ops[i] is Put ==> apply_ops(m, ops).contains_key(k) && apply_ops(m, ops)[k] == ops[i]->Put_1,
        ops[i] is Delete ==> !apply_ops(m, ops).contains_key(k),
{
    let pre = ops.take(i + 1);
    let post = ops.skip(i + 1);
    assert(ops =~= pre + post);
    lemma_apply_concat(m, pre, post);
    assert(pre.drop_last() =~= ops.take(i));
    lemma_apply_untouched(apply_ops(m, pre), post, k);
}

/// Callbacks for replaying a batch.
pub trait WriteBatchIterator {
    /// The operations seen so far, in order. A verified visitor defines it
    /// and proves its callbacks against it; the default stands for a visitor
    /// that was not verified and is not relied on by any proof here.
    closed spec fn replayed(&self) -> Seq<Op> {
        Seq::empty()
    }

    /// Called for each put, in order.
    fn put_u8(&mut self, key: &[u8], value: &[u8])
        ensures
            final(self).replayed() == old(self).replayed().push(Op::Put(key@, value@)),
    ;

    /// Called for each delete, in order.
    fn deleted_u8(&mut self, key: &[u8])
        ensures
            final(self).replayed() == old(self).replayed().push(Op::Delete(key@)),
    ;
}

/// A visitor that keeps a copy of every operation replayed to it.
pub struct ReplayLog {
    ops: Vec<BatchOp>,
}

impl ReplayLog {
    pub fn new() -> (r: ReplayLog)
        ensures
            r.replayed() == Seq::<Op>::empty(),
    {
        let r = ReplayLog { ops: Vec::new() };
        assert(r.replayed() =~= Seq::<Op>::empty());
        r
    }

    /// The operations replayed so far, in order.
    pub fn ops(&self) -> (r: &Vec<BatchOp>)
        ensures
            ops_view(r@) == self.replayed(),
    {
        &self.ops
    }
}

impl WriteBatchIterator for ReplayLog {
    closed spec fn replayed(&self) -> Seq<Op> {
        ops_view(self.ops@)
    }

    fn put_u8(&mut self, key: &[u8], value: &[u8]) {
        self.ops.push(BatchOp::Put(slice_to_vec(key), slice_to_vec(value)));
        assert(self.replayed() =~= old(self).replayed().push(Op::Put(key@, value@)));
    }

    fn deleted_u8(&mut self, key: &[u8]) {
        self.ops.push(BatchOp::Delete(slice_to_vec(key)));
        assert(self.replayed() =~= old(self).replayed().push(Op::Delete(key@)));
    }
}

/// An ordered log of puts and deletes, applied to a store as one unit.
pub struct WriteBatch {
    ops: Vec<BatchOp>,
}

impl View for WriteBatch {
    type V = Seq<Op>;

    closed spec fn view(&self) -> Seq<Op> {
        ops_view(self.ops@)
    }
}

impl WriteBatch {
    pub fn new() -> (r: WriteBatch)
        ensures
            r@ == Seq::<Op>::empty(),
    {
        let r = WriteBatch { ops: Vec::new() };
        assert(r@ =~= Seq::<Op>::empty());
        r
    }

    /// Drops every pending operation; the batch can be filled again.
    pub fn clear(&mut self)
        ensures
            final(self)@ == Seq::<Op>::empty(),
    {
        self.ops = Vec::new();
        assert(self@ =~= Seq::<Op>::empty());
    }

    /// Appends a put of a typed key.
    pub fn put<K: IntoLevelDBKey + ?Sized>(&mut self, key: &K, value: &[u8])
        ensures
            final(self)@ == old(self)@.push(Op::Put(key.key_bytes(), value@)),
    {
        let k = key.to_key_bytes();
        self.put_u8(k.as_slice(), value);
    }

    /// Appends a put of a raw key.
    pub fn put_u8(&mut self, key: &[u8], value: &[u8])
        ensures
            final(self)@ == old(self)@.push(Op::Put(key@, value@)),
    {
        let op = BatchOp::Put(slice_to_vec(key), slice_to_vec(value));
        self.ops.push(op);
        assert(self@ =~= old(self)@.push(Op::Put(key@, value@)));
    }

    /// Appends a delete of a typed key.
    pub fn delete<K: IntoLevelDBKey + ?Sized>(&mut self, key: &K)
        ensures
            final(self)@ == old(self)@.push(Op::Delete(key.key_bytes())),
    {
        let k = key.to_key_bytes();
        self.delete_u8(k.as_slice());
    }

    /// Appends a delete of a raw key.
    pub fn delete_u8(&mut self, key: &[u8])
        ensures
            final(self)@ == old(self)@.push(Op::Delete(key@)),
    {
        let op = BatchOp::Delete(slice_to_vec(key));
        self.ops.push(op);
        assert(self@ =~= old(self)@.push(Op::Delete(key@)));
    }

    /// The number of pending operations.
    pub fn len(&self) -> (r: usize)
        ensures
            r == self@.len(),
    {
        self.ops.len()
    }

    /// The pending operation at `i`.
    pub fn op(&self, i: usize) -> (r: &BatchOp)
        requires
            i < self@.len(),
        ensures
            r@ == self@[i as int],
    {
        &self.ops[i]
    }

    /// Replays the pending operations, in the order they were appended,
    /// against `iterator`; the store is not touched.
    pub fn iterate<T: WriteBatchIterator>(&self, iterator: Box<T>) -> (r: Box<T>)
        ensures
            r.replayed() == iterator.replayed() + self@,
    {
        let mut it = iterator;
        let mut i: usize = 0;
        while i < self.ops.len()
            invariant
                i <= self.ops@.len(),
                it.replayed() == iterator.replayed() + self@.take(i as int),
            decreases self.ops.len() - i,
        {
            match &self.ops[i] {
                BatchOp::Put(k, v) => it.put_u8(k.as_slice(), v.as_slice()),
                BatchOp::Delete(k) => it.deleted_u8(k.as_slice()),
            }
            assert(self@.take(i + 1) =~= self@.take(i as int).push(self@[i as int]));
            i = i + 1;
        }
        assert(self@.take(i as int) =~= self@);
        it
    }
}

} // verus!
