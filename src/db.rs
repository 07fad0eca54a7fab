//! The store handle: point reads and writes over a sequence-numbered log of
//! operations, and the directory of stores it is opened from.
//!
//! Every write appends to the log. The state after the first `n` operations
//! is the state as of sequence number `n`; a snapshot is such a number.
use vstd::prelude::*;
use vstd::slice::slice_to_vec;
use std::cmp::Ordering;
use crate::batch::{
    apply_ops, lemma_apply_last_touch, lemma_apply_untouched, ops_view, BatchOp, Op, WriteBatch,
};
use crate::comparator::{compare_bytes, BytewiseComparator, Comparator};
use crate::error::{Error, ErrorKind};
use crate::key::IntoLevelDBKey;
use crate::options::{Options, ReadOptions, WriteOptions};
use crate::snapshots::Snapshot;

verus! {

/// The keyspace after the first `n` operations of `h`.
pub open spec fn state_of(h: Seq<Op>, n: nat) -> Map<Seq<u8>, Seq<u8>> {
    apply_ops(Map::empty(), h.take(n as int))
}

/// What a lookup of `k` in `m` gives.
pub open spec fn lookup(m: Map<Seq<u8>, Seq<u8>>, k: Seq<u8>) -> Option<Seq<u8>> {
    if m.contains_key(k) {
        Some(m[k])
    } else {
        None
    }
}

/// The view of a value read from the store.
pub open spec fn opt_view(o: Option<Vec<u8>>) -> Option<Seq<u8>> {
    match o {
        Some(v) => Some(v@),
        None => None,
    }
}

/// Decides whether two keys hold the same bytes.
pub fn same_bytes(a: &[u8], b: &[u8]) -> (r: bool)
    ensures
        r == (a@ == b@),
{
    proof { crate::comparator::lemma_byte_lt_strict_total(a@, b@, a@); }
    match compare_bytes(a, b) {
        Ordering::Equal => true,
        _ => false,
    }
}

/// A copy of a log of operations.
fn copy_log(src: &Vec<BatchOp>) -> (r: Vec<BatchOp>)
    ensures
        ops_view(r@) == ops_view(src@),
{
    let mut r: Vec<BatchOp> = Vec::new();
    let mut j: usize = 0;
    while j < src.len()
        invariant
            j <= src@.len(),
            r@.len() == j,
            forall|k: int| 0 <= k < j ==> r@[k]@ == src@[k]@,
        decreases src@.len() - j,
    {
        r.push(src[j].clone_op());
        j = j + 1;
    }
    assert(ops_view(r@) =~= ops_view(src@));
    r
}

/// What is recorded at a location: the comparator's name and the log.
pub struct StoreFile {
    name: String,
    comparator: String,
    log: Vec<BatchOp>,
}

/// The abstract content of a location.
pub struct StoreRecord {
    pub comparator: Seq<char>,
    pub history: Seq<Op>,
}

/// The first record named `name`.
pub open spec fn find_store(s: Seq<(Seq<char>, StoreRecord)>, name: Seq<char>) -> Option<StoreRecord>
    decreases s.len(),
{
    if s.len() == 0 {
        None
    } else if s[0].0 == name {
        Some(s[0].1)
    } else {
        find_store(s.drop_first(), name)
    }
}

proof fn lemma_find_store_skip(s: Seq<(Seq<char>, StoreRecord)>, name: Seq<char>, i: int)
    requires
        0 <= i < s.len(),
        s[i].0 != name,
    ensures
        find_store(s.skip(i), name) == find_store(s.skip(i + 1), name),
{
    assert(s.skip(i).drop_first() =~= s.skip(i + 1));
}

proof fn lemma_find_store_push(s: Seq<(Seq<char>, StoreRecord)>, e: (Seq<char>, StoreRecord), name: Seq<char>)
    ensures
        find_store(s.push(e), name) == if find_store(s, name) is Some {
            find_store(s, name)
        } else if e.0 == name {
            Some(e.1)
        } else {
            None
        },
    decreases s.len(),
{
    assert(s.push(e)[0] == if s.len() > 0 { s[0] } else { e });
    if s.len() > 0 {
        assert(s.push(e).drop_first() =~= s.drop_first().push(e));
        lemma_find_store_push(s.drop_first(), e, name);
    } else {
        assert(s.push(e).drop_first() =~= Seq::<(Seq<char>, StoreRecord)>::empty());
    }
}

proof fn lemma_find_store_update(s: Seq<(Seq<char>, StoreRecord)>, i: int, r: StoreRecord, name: Seq<char>)
    requires
        0 <= i < s.len(),
        forall|j: int| 0 <= j < i ==> s[j].0 != s[i].0,
    ensures
        find_store(s.update(i, (s[i].0, r)), name) == if name == s[i].0 {
            Some(r)
        } else {
            find_store(s, name)
        },
    decreases i,
{
    let t = s.update(i, (s[i].0, r));
    if i > 0 {
        assert(t[0] == s[0]);
        assert(s[0].0 != s[i].0);
        assert(t.drop_first() =~= s.drop_first().update(i - 1, (s[i].0, r)));
        lemma_find_store_update(s.drop_first(), i - 1, r, name);
    } else {
        assert(t.drop_first() =~= s.drop_first());
    }
}

/// The locations that hold a store, each with what was recorded there.
pub struct Directory {
    files: Vec<StoreFile>,
}

impl View for Directory {
    type V = Seq<(Seq<char>, StoreRecord)>;

    closed spec fn view(&self) -> Seq<(Seq<char>, StoreRecord)> {
        self.files@.map_values(
            |f: StoreFile| (f.name@, StoreRecord { comparator: f.comparator@, history: ops_view(f.log@) }),
        )
    }
}

impl Directory {
    /// A directory in which no location holds a store.
    pub fn new() -> (r: Directory)
        ensures
            forall|name: Seq<char>| find_store(r@, name) is None,
    {
        let r = Directory { files: Vec::new() };
        assert(r@ =~= Seq::<(Seq<char>, StoreRecord)>::empty());
        r
    }

    /// Where the store at `name` is recorded.
    fn position(&self, name: &String) -> (r: Option<usize>)
        ensures
            match r {
                Some(i) => i < self@.len() && self@[i as int].0 == name@ && find_store(self@, name@)
                    == Some(self@[i as int].1)
                    && forall|j: int| 0 <= j < i ==> self@[j].0 != name@,
                None => find_store(self@, name@) is None,
            },
    {
        let mut i: usize = 0;
        assert(self@.skip(0) =~= self@);
        while i < self.files.len()
            invariant
                i <= self@.len(),
                self@.len() == self.files@.len(),
                find_store(self@, name@) == find_store(self@.skip(i as int), name@),
                forall|j: int| 0 <= j < i ==> self@[j].0 != name@,
            decreases self.files@.len() - i,
        {
            if self.files[i].name == *name {
                assert(self@.skip(i as int)[0] == self@[i as int]);
                return Some(i);
            }
            proof { lemma_find_store_skip(self@, name@, i as int); }
            i = i + 1;
        }
        assert(self@.skip(i as int).len() == 0);
        None
    }

    /// Whether a store is recorded at `name`.
    pub fn contains(&self, name: &str) -> (r: bool)
        ensures
            r == find_store(self@, name@) is Some,
    {
        let n = name.to_owned();
        self.position(&n).is_some()
    }

    /// Removes the store recorded at `name`, if any.
    fn remove(&mut self, name: &str)
        ensures
            find_store(final(self)@, name@) is None,
    {
        let n = name.to_owned();
        loop
            invariant_except_break
                n@ == name@,
            ensures
                find_store(self@, name@) is None,
            decreases self.files@.len(),
        {
            match self.position(&n) {
                None => break,
                Some(i) => {
                    let ghost before = self@;
                    self.files.remove(i);
                    assert(self@ =~= before.remove(i as int));
                    proof { lemma_find_store_remove(before, i as int, name@); }
                },
            }
        }
    }
}

/// Deletes the store at `location`; a location without one is no error.
pub fn destroy(dir: &mut Directory, location: &str, options: &Options) -> (r: Result<(), Error>)
    ensures
        r is Ok,
        find_store(final(dir)@, location@) is None,
{
    dir.remove(location);
    Ok(())
}

/// Checks that a store can be recovered at `location`. Every operation that
/// was recorded is kept, so the store is left as it is.
pub fn repair(dir: &mut Directory, location: &str, options: &Options) -> (r: Result<(), Error>)
    ensures
        final(dir)@ == old(dir)@,
        r is Ok <==> find_store(old(dir)@, location@) is Some,
        r is Err ==> r->Err_0.kind == ErrorKind::NotFound,
{
    if dir.contains(location) {
        Ok(())
    } else {
        Err(Error::new(ErrorKind::NotFound, "no store at this location".to_owned()))
    }
}

proof fn lemma_find_store_remove(s: Seq<(Seq<char>, StoreRecord)>, i: int, name: Seq<char>)
    requires
        0 <= i < s.len(),
        s[i].0 == name,
        forall|j: int| 0 <= j < i ==> s[j].0 != name,
    ensures
        find_store(s.remove(i), name) == find_store(s.skip(i + 1), name),
    decreases i,
{
    if i > 0 {
        assert(s.remove(i).drop_first() =~= s.drop_first().remove(i - 1));
        assert(s.skip(i + 1) =~= s.drop_first().skip(i));
        lemma_find_store_remove(s.drop_first(), i - 1, name);
    } else {
        assert(s.remove(0) =~= s.skip(1));
    }
}

/// An open store, read and written under the comparator `C`.
pub struct Database<C: Comparator> {
    location: String,
    log: Vec<BatchOp>,
    comparator: C,
}

impl<C: Comparator> View for Database<C> {
    type V = Map<Seq<u8>, Seq<u8>>;

    /// The current keyspace.
    open spec fn view(&self) -> Map<Seq<u8>, Seq<u8>> {
        state_of(self.history(), self.history().len())
    }
}

impl<C: Comparator> Database<C> {
    /// Every operation applied so far, in order.
    pub closed spec fn history(&self) -> Seq<Op> {
        ops_view(self.log@)
    }

    /// The comparator the store was opened under.
    pub closed spec fn cmp(&self) -> C {
        self.comparator
    }

    /// Where the store was opened from.
    pub closed spec fn location(&self) -> Seq<char> {
        self.location@
    }

    /// The keyspace as of sequence number `n`.
    pub open spec fn state_at(&self, n: nat) -> Map<Seq<u8>, Seq<u8>> {
        state_of(self.history(), n)
    }

    /// The sequence number a read with `options` observes, if it is valid.
    pub open spec fn read_point(&self, options: ReadOptions) -> Option<nat> {
        match options.snapshot {
            None => Some(self.history().len()),
            Some(s) => if s.sequence() <= self.history().len() {
                Some(s.sequence())
            } else {
                None
            },
        }
    }

    /// The current sequence number.
    pub fn sequence(&self) -> (r: usize)
        ensures
            r == self.history().len(),
    {
        self.log.len()
    }

    /// The key written by operation `j`.
    pub(crate) fn key_of(&self, j: usize) -> (r: &Vec<u8>)
        requires
            j < self.history().len(),
        ensures
            r@ == self.history()[j as int].key(),
    {
        self.log[j].key()
    }

    /// The comparator the store was opened under.
    pub fn comparator(&self) -> (r: &C)
        ensures
            *r == self.cmp(),
    {
        &self.comparator
    }

    /// Looks `key` up as of sequence number `n`.
    pub fn get_at(&self, n: usize, key: &[u8]) -> (r: Option<Vec<u8>>)
        requires
            n <= self.history().len(),
        ensures
            opt_view(r) == lookup(self.state_at(n as nat), key@),
    {
        let ghost h = self.history().take(n as int);
        let mut i: usize = n;
        while i > 0
            invariant
                i <= n <= self.history().len(),
                h == self.history().take(n as int),
                forall|j: int| i <= j < n ==> h[j].key() != key@,
            decreases i,
        {
            let op = &self.log[i - 1];
            if same_bytes(op.key().as_slice(), key) {
                proof { lemma_apply_last_touch(Map::empty(), h, i - 1, key@); }
                match op {
                    BatchOp::Put(_, v) => {
                        return Some(slice_to_vec(v.as_slice()));
                    },
                    BatchOp::Delete(_) => {
                        return None;
                    },
                }
            }
            i = i - 1;
        }
        proof { lemma_apply_untouched(Map::empty(), h, key@); }
        None
    }

    /// Appends one operation to the log.
    fn append(&mut self, op: BatchOp)
        ensures
            final(self).history() == old(self).history().push(op@),
            final(self).location() == old(self).location(),
            final(self).cmp() == old(self).cmp(),
    {
        self.log.push(op);
        assert(self.history() =~= old(self).history().push(op@));
    }

    /// Sets `key` to `value`.
    pub fn put<K: IntoLevelDBKey + ?Sized>(&mut self, options: &WriteOptions, key: &K, value: &[u8]) -> (r: Result<(), Error>)
        ensures
            r is Ok,
            final(self).history() == old(self).history().push(Op::Put(key.key_bytes(), value@)),
            final(self).location() == old(self).location(),
            final(self).cmp() == old(self).cmp(),
    {
        let k = key.to_key_bytes();
        self.put_u8(options, k.as_slice(), value)
    }

    /// Sets the raw key `key` to `value`.
    pub fn put_u8(&mut self, options: &WriteOptions, key: &[u8], value: &[u8]) -> (r: Result<(), Error>)
        ensures
            r is Ok,
            final(self).history() == old(self).history().push(Op::Put(key@, value@)),
            final(self).location() == old(self).location(),
            final(self).cmp() == old(self).cmp(),
    {
        self.append(BatchOp::Put(slice_to_vec(key), slice_to_vec(value)));
        Ok(())
    }

    /// Removes `key`; removing an absent key is no error.
    pub fn delete<K: IntoLevelDBKey + ?Sized>(&mut self, options: &WriteOptions, key: &K) -> (r: Result<(), Error>)
        ensures
            r is Ok,
            final(self).history() == old(self).history().push(Op::Delete(key.key_bytes())),
            final(self).location() == old(self).location(),
            final(self).cmp() == old(self).cmp(),
    {
        let k = key.to_key_bytes();
        self.delete_u8(options, k.as_slice())
    }

    /// Removes the raw key `key`.
    pub fn delete_u8(&mut self, options: &WriteOptions, key: &[u8]) -> (r: Result<(), Error>)
        ensures
            r is Ok,
            final(self).history() == old(self).history().push(Op::Delete(key@)),
            final(self).location() == old(self).location(),
            final(self).cmp() == old(self).cmp(),
    {
        self.append(BatchOp::Delete(slice_to_vec(key)));
        Ok(())
    }

    /// Applies every operation of `batch`, in order, as one unit.
    pub fn write(&mut self, options: &WriteOptions, batch: &WriteBatch) -> (r: Result<(), Error>)
        ensures
            r is Ok,
            final(self).history() == old(self).history() + batch@,
            final(self).location() == old(self).location(),
            final(self).cmp() == old(self).cmp(),
    {
        let mut i: usize = 0;
        while i < batch.len()
            invariant
                i <= batch@.len(),
                self.history() == old(self).history() + batch@.take(i as int),
                self.location() == old(self).location(),
                self.cmp() == old(self).cmp(),
            decreases batch@.len() - i,
        {
            let op = batch.op(i).clone_op();
            self.append(op);
            assert(batch@.take(i + 1) =~= batch@.take(i as int).push(batch@[i as int]));
            assert(self.history() =~= old(self).history() + batch@.take(i + 1));
            i = i + 1;
        }
        assert(batch@.take(i as int) =~= batch@);
        Ok(())
    }

    /// Looks up a typed key, as of the snapshot in `options` or now.
    pub fn get<K: IntoLevelDBKey + ?Sized>(&self, options: &ReadOptions, key: &K) -> (r: Result<Option<Vec<u8>>, Error>)
        ensures
            match self.read_point(*options) {
                Some(n) => r is Ok && opt_view(r->Ok_0) == lookup(self.state_at(n), key.key_bytes()),
                None => r is Err && r->Err_0.kind == ErrorKind::InvalidArgument,
            },
    {
        let k = key.to_key_bytes();
        self.get_u8(options, k.as_slice())
    }

    /// Looks up a raw key, as of the snapshot in `options` or now.
    pub fn get_u8(&self, options: &ReadOptions, key: &[u8]) -> (r: Result<Option<Vec<u8>>, Error>)
        ensures
            match self.read_point(*options) {
                Some(n) => r is Ok && opt_view(r->Ok_0) == lookup(self.state_at(n), key@),
                None => r is Err && r->Err_0.kind == ErrorKind::InvalidArgument,
            },
    {
        let n = match options.snapshot {
            None => self.log.len(),
            Some(s) => s.sequence_number(),
        };
        if n > self.log.len() {
            return Err(Error::new(ErrorKind::InvalidArgument, "snapshot taken after the current state".to_owned()));
        }
        Ok(self.get_at(n, key))
    }

    /// Captures the current state; later writes do not change what it reads.
    pub fn snapshot(&self) -> (r: Snapshot)
        ensures
            r.sequence() == self.history().len(),
    {
        Snapshot::at(self.log.len())
    }
}

/// The outcome of opening `location` under a comparator named `cmp_name`.
pub open spec fn open_outcome(dir: Seq<(Seq<char>, StoreRecord)>, location: Seq<char>, options: Options, cmp_name: Seq<char>) -> Result<Seq<Op>, ErrorKind> {
    match find_store(dir, location) {
        None => if options.create_if_missing {
            Ok(Seq::empty())
        } else {
            Err(ErrorKind::NotFound)
        },
        Some(rec) => if options.error_if_exists {
            Err(ErrorKind::AlreadyExists)
        } else if rec.comparator != cmp_name {
            Err(ErrorKind::ComparatorMismatch)
        } else {
            Ok(rec.history)
        },
    }
}

impl Database<BytewiseComparator> {
    /// Opens the store at `location` under byte-lexicographic order.
    pub fn open(dir: &mut Directory, location: &str, options: &Options) -> (r: Result<Database<BytewiseComparator>, Error>)
        ensures
            match open_outcome(old(dir)@, location@, *options, BytewiseComparator::spec_name()) {
                Ok(h) => r is Ok && r->Ok_0.history() == h && r->Ok_0.location() == location@
                    && find_store(final(dir)@, location@) == Some(StoreRecord { comparator: BytewiseComparator::spec_name(), history: h })
                    && forall|n: Seq<char>| n != location@ ==> find_store(final(dir)@, n) == find_store(old(dir)@, n),
                Err(e) => r is Err && r->Err_0.kind == e && final(dir)@ == old(dir)@,
            },
    {
        Database::open_with_comparator(dir, location, options, BytewiseComparator)
    }
}

impl<C: Comparator> Database<C> {
    /// Opens the store at `location` under `comparator`, which must carry the
    /// name the store was created under.
    pub fn open_with_comparator(dir: &mut Directory, location: &str, options: &Options, comparator: C) -> (r: Result<Database<C>, Error>)
        ensures
            match open_outcome(old(dir)@, location@, *options, C::spec_name()) {
                Ok(h) => r is Ok && r->Ok_0.history() == h && r->Ok_0.location() == location@
                    && find_store(final(dir)@, location@) == Some(StoreRecord { comparator: C::spec_name(), history: h })
                    && forall|n: Seq<char>| n != location@ ==> find_store(final(dir)@, n) == find_store(old(dir)@, n),
                Err(e) => r is Err && r->Err_0.kind == e && final(dir)@ == old(dir)@,
            },
    {
        let name = location.to_owned();
        let cmp_name = comparator.name();
        match dir.position(&name) {
            None => {
                if !options.create_if_missing {
                    return Err(Error::new(ErrorKind::NotFound, "no store at this location".to_owned()));
                }
                let ghost before = dir@;
                dir.files.push(StoreFile { name: name.clone(), comparator: cmp_name, log: Vec::new() });
                proof {
                    let e = (name@, StoreRecord { comparator: C::spec_name(), history: ops_view(Seq::empty()) });
                    assert(dir@ =~= before.push(e));
                    assert forall|n: Seq<char>| n != location@ implies find_store(dir@, n) == find_store(before, n) by {
                        lemma_find_store_push(before, e, n);
                    }
                    lemma_find_store_push(before, e, name@);
                    assert(ops_view(Seq::<BatchOp>::empty()) =~= Seq::<Op>::empty());
                }
                let db = Database { location: name, log: Vec::new(), comparator };
                assert(db.history() =~= Seq::<Op>::empty());
                Ok(db)
            },
            Some(i) => {
                if options.error_if_exists {
                    return Err(Error::new(ErrorKind::AlreadyExists, "a store exists at this location".to_owned()));
                }
                if !(dir.files[i].comparator == cmp_name) {
                    return Err(Error::new(ErrorKind::ComparatorMismatch, "the store was created under another comparator".to_owned()));
                }
                let log = copy_log(&dir.files[i].log);
                Ok(Database { location: name, log, comparator })
            },
        }
    }

    /// Records the store's log at its location and closes it.
    pub fn close(self, dir: &mut Directory)
        requires
            find_store(old(dir)@, self.location()) is Some,
        ensures
            find_store(final(dir)@, self.location()) == Some(StoreRecord {
                comparator: find_store(old(dir)@, self.location())->Some_0.comparator,
                history: self.history(),
            }),
            forall|n: Seq<char>| n != self.location() ==> find_store(final(dir)@, n) == find_store(old(dir)@, n),
    {
        let ghost loc = self.location();
        let ghost h = self.history();
        let Database { location, log, comparator } = self;
        match dir.position(&location) {
            Some(i) => {
                let ghost before = dir@;
                let ghost rec = StoreRecord { comparator: before[i as int].1.comparator, history: h };
                dir.files[i].log = log;
                proof {
                    assert(dir@ =~= before.update(i as int, (before[i as int].0, rec)));
                    assert forall|n: Seq<char>| n != loc implies find_store(dir@, n) == find_store(before, n) by {
                        lemma_find_store_update(before, i as int, rec, n);
                    }
                    lemma_find_store_update(before, i as int, rec, loc);
                }
            },
            None => {},
        }
    }
}

} // verus!
