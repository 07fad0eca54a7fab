//! Iterators over a store's keyspace, as of a fixed sequence number.
//!
//! A cursor is either positioned at a key of the keyspace or exhausted.
//! Forward iterators step to the next larger key under the store's
//! comparator, reverse iterators to the next smaller one. Key and value
//! iterators narrow what is read and move exactly as the pair iterators do.
use vstd::prelude::*;
use vstd::slice::slice_to_vec;
use std::cmp::Ordering;
use crate::batch::lemma_apply_untouched;
use crate::comparator::Comparator;
use crate::db::{lookup, opt_view, state_of, Database};
use crate::error::{Error, ErrorKind};
use crate::key::IntoLevelDBKey;
use crate::options::ReadOptions;
use crate::snapshots::Snapshot;

verus! {

/// `k` lies past the lower bound `lo` (strictly, when `strict`).
pub open spec fn above<C: Comparator>(lo: Option<Seq<u8>>, strict: bool, k: Seq<u8>) -> bool {
    match lo {
        None => true,
        Some(l) => if strict {
            C::spec_lt(l, k)
        } else {
            !C::spec_lt(k, l)
        },
    }
}

/// `k` lies before the upper bound `hi` (strictly, when `strict`).
pub open spec fn below<C: Comparator>(hi: Option<Seq<u8>>, strict: bool, k: Seq<u8>) -> bool {
    match hi {
        None => true,
        Some(h) => if strict {
            C::spec_lt(k, h)
        } else {
            !C::spec_lt(h, k)
        },
    }
}

/// `p` is the smallest key of `m` past `lo`, or `None` when there is none.
pub open spec fn first_above<C: Comparator>(m: Map<Seq<u8>, Seq<u8>>, lo: Option<Seq<u8>>, strict: bool, p: Option<Seq<u8>>) -> bool {
    match p {
        Some(k) => m.contains_key(k) && above::<C>(lo, strict, k) && forall|k2: Seq<u8>|
            #![trigger m.contains_key(k2)]
            m.contains_key(k2) && above::<C>(lo, strict, k2) ==> !C::spec_lt(k2, k),
        None => forall|k2: Seq<u8>| #![trigger m.contains_key(k2)] m.contains_key(k2) ==> !above::<C>(lo, strict, k2),
    }
}

/// `p` is the largest key of `m` before `hi`, or `None` when there is none.
pub open spec fn last_below<C: Comparator>(m: Map<Seq<u8>, Seq<u8>>, hi: Option<Seq<u8>>, strict: bool, p: Option<Seq<u8>>) -> bool {
    match p {
        Some(k) => m.contains_key(k) && below::<C>(hi, strict, k) && forall|k2: Seq<u8>|
            #![trigger m.contains_key(k2)]
            m.contains_key(k2) && below::<C>(hi, strict, k2) ==> !C::spec_lt(k, k2),
        None => forall|k2: Seq<u8>| #![trigger m.contains_key(k2)] m.contains_key(k2) ==> !below::<C>(hi, strict, k2),
    }
}

/// The entry at position `p` of `m`.
pub open spec fn entry_at(m: Map<Seq<u8>, Seq<u8>>, p: Option<Seq<u8>>) -> Option<(Seq<u8>, Seq<u8>)> {
    match p {
        Some(k) => Some((k, m[k])),
        None => None,
    }
}

/// The value at position `p` of `m`.
pub open spec fn value_at(m: Map<Seq<u8>, Seq<u8>>, p: Option<Seq<u8>>) -> Option<Seq<u8>> {
    match p {
        Some(k) => Some(m[k]),
        None => None,
    }
}

pub open spec fn pair_view(e: Option<(Vec<u8>, Vec<u8>)>) -> Option<(Seq<u8>, Seq<u8>)> {
    match e {
        Some(p) => Some((p.0@, p.1@)),
        None => None,
    }
}

pub open spec fn slice_opt_view(o: Option<&[u8]>) -> Option<Seq<u8>> {
    match o {
        Some(s) => Some(s@),
        None => None,
    }
}

/// Every key of the state after `n` operations was written by one of them.
proof fn lemma_key_written(h: Seq<crate::batch::Op>, n: nat, k: Seq<u8>)
    requires
        n <= h.len(),
        state_of(h, n).contains_key(k),
    ensures
        exists|j: int| 0 <= j < n && #[trigger] h[j].key() == k,
{
    let t = h.take(n as int);
    if forall|j: int| 0 <= j < t.len() ==> t[j].key() != k {
        lemma_apply_untouched(Map::empty(), t, k);
    } else {
        let j = choose|j: int| 0 <= j < t.len() && t[j].key() == k;
        assert(h[j] == t[j]);
    }
}

fn less<C: Comparator>(c: &C, a: &[u8], b: &[u8]) -> (r: bool)
    ensures
        r == C::spec_lt(a@, b@),
{
    match c.compare(a, b) {
        Ordering::Less => true,
        _ => false,
    }
}

fn is_above<C: Comparator>(c: &C, lo: Option<&[u8]>, strict: bool, k: &[u8]) -> (r: bool)
    ensures
        r == above::<C>(slice_opt_view(lo), strict, k@),
{
    match lo {
        None => true,
        Some(l) => if strict {
            less(c, l, k)
        } else {
            !less(c, k, l)
        },
    }
}

fn is_below<C: Comparator>(c: &C, hi: Option<&[u8]>, strict: bool, k: &[u8]) -> (r: bool)
    ensures
        r == below::<C>(slice_opt_view(hi), strict, k@),
{
    match hi {
        None => true,
        Some(h) => if strict {
            less(c, k, h)
        } else {
            !less(c, h, k)
        },
    }
}

/// The smallest key past `lo` as of sequence number `n`.
fn find_first<C: Comparator>(db: &Database<C>, n: usize, lo: Option<&[u8]>, strict: bool) -> (r: Option<Vec<u8>>)
    requires
        n <= db.history().len(),
    ensures
        first_above::<C>(db.state_at(n as nat), slice_opt_view(lo), strict, opt_view(r)),
{
    let ghost m = db.state_at(n as nat);
    let ghost h = db.history();
    let ghost l = slice_opt_view(lo);
    let c = db.comparator();
    let mut best: Option<Vec<u8>> = None;
    let mut j: usize = 0;
    while j < n
        invariant
            j <= n <= h.len(),
            h == db.history(),
            m == db.state_at(n as nat),
            l == slice_opt_view(lo),
            match best {
                Some(b) => m.contains_key(b@) && above::<C>(l, strict, b@) && forall|i: int|
                    0 <= i < j && m.contains_key(#[trigger] h[i].key()) && above::<C>(l, strict, h[i].key())
                        ==> !C::spec_lt(h[i].key(), b@),
                None => forall|i: int|
                    0 <= i < j ==> !(m.contains_key(#[trigger] h[i].key()) && above::<C>(l, strict, h[i].key())),
            },
        decreases n - j,
    {
        let k = db.key_of(j);
        let present = db.get_at(n, k.as_slice()).is_some();
        if present && is_above(c, lo, strict, k.as_slice()) {
            let take = match &best {
                None => true,
                Some(b) => less(c, k.as_slice(), b.as_slice()),
            };
            if take {
                proof {
                    if let Some(b) = best {
                        assert forall|i: int|
                            0 <= i < j && m.contains_key(#[trigger] h[i].key()) && above::<C>(l, strict, h[i].key())
                                implies !C::spec_lt(h[i].key(), k@) by {
                            C::lemma_strict_total(h[i].key(), k@, b@);
                        }
                    }
                    C::lemma_strict_total(k@, k@, k@);
                }
                best = Some(slice_to_vec(k.as_slice()));
            }
        }
        j = j + 1;
    }
    proof {
        assert forall|k2: Seq<u8>| #![trigger m.contains_key(k2)] m.contains_key(k2) implies exists|i: int|
            0 <= i < n && #[trigger] h[i].key() == k2 by {
            lemma_key_written(h, n as nat, k2);
        }
    }
    best
}

/// The largest key before `hi` as of sequence number `n`.
fn find_last<C: Comparator>(db: &Database<C>, n: usize, hi: Option<&[u8]>, strict: bool) -> (r: Option<Vec<u8>>)
    requires
        n <= db.history().len(),
    ensures
        last_below::<C>(db.state_at(n as nat), slice_opt_view(hi), strict, opt_view(r)),
{
    let ghost m = db.state_at(n as nat);
    let ghost h = db.history();
    let ghost u = slice_opt_view(hi);
    let c = db.comparator();
    let mut best: Option<Vec<u8>> = None;
    let mut j: usize = 0;
    while j < n
        invariant
            j <= n <= h.len(),
            h == db.history(),
            m == db.state_at(n as nat),
            u == slice_opt_view(hi),
            match best {
                Some(b) => m.contains_key(b@) && below::<C>(u, strict, b@) && forall|i: int|
                    0 <= i < j && m.contains_key(#[trigger] h[i].key()) && below::<C>(u, strict, h[i].key())
                        ==> !C::spec_lt(b@, h[i].key()),
                None => forall|i: int|
                    0 <= i < j ==> !(m.contains_key(#[trigger] h[i].key()) && below::<C>(u, strict, h[i].key())),
            },
        decreases n - j,
    {
        let k = db.key_of(j);
        let present = db.get_at(n, k.as_slice()).is_some();
        if present && is_below(c, hi, strict, k.as_slice()) {
            let take = match &best {
                None => true,
                Some(b) => less(c, b.as_slice(), k.as_slice()),
            };
            if take {
                proof {
                    if let Some(b) = best {
                        assert forall|i: int|
                            0 <= i < j && m.contains_key(#[trigger] h[i].key()) && below::<C>(u, strict, h[i].key())
                                implies !C::spec_lt(k@, h[i].key()) by {
                            C::lemma_strict_total(b@, k@, h[i].key());
                        }
                    }
                    C::lemma_strict_total(k@, k@, k@);
                }
                best = Some(slice_to_vec(k.as_slice()));
            }
        }
        j = j + 1;
    }
    proof {
        assert forall|k2: Seq<u8>| #![trigger m.contains_key(k2)] m.contains_key(k2) implies exists|i: int|
            0 <= i < n && #[trigger] h[i].key() == k2 by {
            lemma_key_written(h, n as nat, k2);
        }
    }
    best
}

/// Where a cursor lands when it steps toward larger keys from `p`.
pub open spec fn stepped_up<C: Comparator>(m: Map<Seq<u8>, Seq<u8>>, p: Option<Seq<u8>>, q: Option<Seq<u8>>) -> bool {
    match p {
        None => q is None,
        Some(k) => first_above::<C>(m, Some(k), true, q),
    }
}

/// Where a cursor lands when it steps toward smaller keys from `p`.
pub open spec fn stepped_down<C: Comparator>(m: Map<Seq<u8>, Seq<u8>>, p: Option<Seq<u8>>, q: Option<Seq<u8>>) -> bool {
    match p {
        None => q is None,
        Some(k) => last_below::<C>(m, Some(k), true, q),
    }
}

/// A position in a store's keyspace as of a fixed sequence number.
pub struct Cursor<'a, C: Comparator> {
    db: &'a Database<C>,
    seq: usize,
    pos: Option<Vec<u8>>,
    moved: bool,
}

impl<'a, C: Comparator> Cursor<'a, C> {
    /// The keyspace the cursor walks.
    pub closed spec fn keyspace(&self) -> Map<Seq<u8>, Seq<u8>> {
        self.db.state_at(self.seq as nat)
    }

    /// The key the cursor stands at; `None` once exhausted.
    pub closed spec fn position(&self) -> Option<Seq<u8>> {
        opt_view(self.pos)
    }

    /// Whether the cursor was repositioned since it was made.
    pub closed spec fn moved(&self) -> bool {
        self.moved
    }

    pub closed spec fn wf(&self) -> bool {
        &&& self.seq <= self.db.history().len()
        &&& self.pos matches Some(k) ==> self.keyspace().contains_key(k@)
    }

    /// A cursor at the smallest key as of sequence number `n`.
    fn open(db: &'a Database<C>, n: usize) -> (r: Self)
        requires
            n <= db.history().len(),
        ensures
            r.wf(),
            r.keyspace() == db.state_at(n as nat),
            first_above::<C>(r.keyspace(), None, false, r.position()),
            !r.moved(),
    {
        let pos = find_first(db, n, None, false);
        Cursor { db, seq: n, pos, moved: false }
    }

    fn valid(&self) -> (r: bool)
        ensures
            r == self.position() is Some,
    {
        self.pos.is_some()
    }

    fn mark(&mut self)
        ensures
            final(self).moved(),
            final(self).keyspace() == old(self).keyspace(),
            final(self).position() == old(self).position(),
            final(self).wf() == old(self).wf(),
    {
        self.moved = true;
    }

    fn to_first(&mut self)
        requires
            old(self).wf(),
        ensures
            final(self).wf(),
            final(self).keyspace() == old(self).keyspace(),
            final(self).moved() == old(self).moved(),
            first_above::<C>(final(self).keyspace(), None, false, final(self).position()),
    {
        self.pos = find_first(self.db, self.seq, None, false);
    }

    fn to_last(&mut self)
        requires
            old(self).wf(),
        ensures
            final(self).wf(),
            final(self).keyspace() == old(self).keyspace(),
            final(self).moved() == old(self).moved(),
            last_below::<C>(final(self).keyspace(), None, false, final(self).position()),
    {
        self.pos = find_last(self.db, self.seq, None, false);
    }

    fn to_key(&mut self, key: &[u8])
        requires
            old(self).wf(),
        ensures
            final(self).wf(),
            final(self).keyspace() == old(self).keyspace(),
            final(self).moved() == old(self).moved(),
            first_above::<C>(final(self).keyspace(), Some(key@), false, final(self).position()),
    {
        self.pos = find_first(self.db, self.seq, Some(key), false);
    }

    fn step_up(&mut self)
        requires
            old(self).wf(),
        ensures
            final(self).wf(),
            final(self).keyspace() == old(self).keyspace(),
            final(self).moved() == old(self).moved(),
            stepped_up::<C>(old(self).keyspace(), old(self).position(), final(self).position()),
    {
        let next = match &self.pos {
            None => None,
            Some(k) => find_first(self.db, self.seq, Some(k.as_slice()), true),
        };
        self.pos = next;
    }

    fn step_down(&mut self)
        requires
            old(self).wf(),
        ensures
            final(self).wf(),
            final(self).keyspace() == old(self).keyspace(),
            final(self).moved() == old(self).moved(),
            stepped_down::<C>(old(self).keyspace(), old(self).position(), final(self).position()),
    {
        let next = match &self.pos {
            None => None,
            Some(k) => find_last(self.db, self.seq, Some(k.as_slice()), true),
        };
        self.pos = next;
    }

    fn key(&self) -> (r: Option<Vec<u8>>)
        ensures
            opt_view(r) == self.position(),
    {
        match &self.pos {
            None => None,
            Some(k) => Some(slice_to_vec(k.as_slice())),
        }
    }

    fn value(&self) -> (r: Option<Vec<u8>>)
        requires
            self.wf(),
        ensures
            opt_view(r) == value_at(self.keyspace(), self.position()),
    {
        match &self.pos {
            None => None,
            Some(k) => self.db.get_at(self.seq, k.as_slice()),
        }
    }

    fn entry(&self) -> (r: Option<(Vec<u8>, Vec<u8>)>)
        requires
            self.wf(),
        ensures
            pair_view(r) == entry_at(self.keyspace(), self.position()),
    {
        match (self.key(), self.value()) {
            (Some(k), Some(v)) => Some((k, v)),
            _ => None,
        }
    }
}

/// Walks the entries from smaller to larger keys.
pub struct Iterator<'a, C: Comparator> {
    cursor: Cursor<'a, C>,
}

impl<'a, C: Comparator> Iterator<'a, C> {
    /// The keyspace the iterator walks.
    pub closed spec fn keyspace(&self) -> Map<Seq<u8>, Seq<u8>> {
        self.cursor.keyspace()
    }

    /// The key the iterator stands at; `None` once exhausted.
    pub closed spec fn position(&self) -> Option<Seq<u8>> {
        self.cursor.position()
    }

    /// Whether the iterator was repositioned since it was made.
    pub closed spec fn moved(&self) -> bool {
        self.cursor.moved()
    }

    pub closed spec fn wf(&self) -> bool {
        self.cursor.wf()
    }

    /// Whether the iterator stands at an entry.
    pub fn valid(&self) -> (r: bool)
        ensures
            r == self.position() is Some,
    {
        self.cursor.valid()
    }

    /// Moves to the next entry toward larger keys; an exhausted iterator stays so.
    pub fn advance(&mut self)
        requires
            old(self).wf(),
        ensures
            final(self).wf(),
            final(self).keyspace() == old(self).keyspace(),
            final(self).moved(),
            stepped_up::<C>(old(self).keyspace(), old(self).position(), final(self).position()),
    {
        self.cursor.step_up();
        self.cursor.mark();
    }

    /// Moves to the smallest key.
    pub fn seek_to_first(&mut self)
        requires
            old(self).wf(),
        ensures
            final(self).wf(),
            final(self).keyspace() == old(self).keyspace(),
            final(self).moved(),
            first_above::<C>(final(self).keyspace(), None, false, final(self).position()),
    {
        self.cursor.to_first();
        self.cursor.mark();
    }

    /// Moves to the largest key.
    pub fn seek_to_last(&mut self)
        requires
            old(self).wf(),
        ensures
            final(self).wf(),
            final(self).keyspace() == old(self).keyspace(),
            final(self).moved(),
            last_below::<C>(final(self).keyspace(), None, false, final(self).position()),
    {
        self.cursor.to_last();
        self.cursor.mark();
    }

    /// Moves to the smallest key not below `key`.
    pub fn seek(&mut self, key: &[u8])
        requires
            old(self).wf(),
        ensures
            final(self).wf(),
            final(self).keyspace() == old(self).keyspace(),
            final(self).moved(),
            first_above::<C>(final(self).keyspace(), Some(key@), false, final(self).position()),
    {
        self.cursor.to_key(key);
        self.cursor.mark();
    }

    /// The key at the current position; `None` once exhausted.
    pub fn key(&self) -> (r: Option<Vec<u8>>)
        ensures
            opt_view(r) == self.position(),
    {
        self.cursor.key()
    }

    /// The value at the current position; `None` once exhausted.
    pub fn value(&self) -> (r: Option<Vec<u8>>)
        requires
            self.wf(),
        ensures
            opt_view(r) == value_at(self.keyspace(), self.position()),
    {
        self.cursor.value()
    }

    /// The entry at the current position; `None` once exhausted.
    pub fn entry(&self) -> (r: Option<(Vec<u8>, Vec<u8>)>)
        requires
            self.wf(),
        ensures
            pair_view(r) == entry_at(self.keyspace(), self.position()),
    {
        self.cursor.entry()
    }

    /// Turns the iterator around. A fresh iterator starts over from the
    /// other end; one that was moved keeps its position.
    pub fn reverse(self) -> (r: RevIterator<'a, C>)
        requires
            self.wf(),
        ensures
            r.wf(),
            r.keyspace() == self.keyspace(),
            r.moved() == self.moved(),
            self.moved() ==> r.position() == self.position(),
            !self.moved() ==> last_below::<C>(r.keyspace(), None, false, r.position()),
    {
        let mut cursor = self.cursor;
        if !cursor.moved {
            cursor.to_last();
        }
        RevIterator { cursor }
    }

    /// The entry at the current position, after which the iterator advances;
    /// `None` once exhausted.
    pub fn next(&mut self) -> (r: Option<(Vec<u8>, Vec<u8>)>)
        requires
            old(self).wf(),
        ensures
            final(self).wf(),
            final(self).keyspace() == old(self).keyspace(),
            pair_view(r) == entry_at(old(self).keyspace(), old(self).position()),
            old(self).position() is Some ==> final(self).moved(),
            old(self).position() is None ==> final(self).moved() == old(self).moved(),
            stepped_up::<C>(old(self).keyspace(), old(self).position(), final(self).position()),
    {
        if self.cursor.valid() {
            let r = self.cursor.entry();
            self.advance();
            r
        } else {
            None
        }
    }

    /// Moves to the largest key and reads its entry.
    pub fn last(&mut self) -> (r: Option<(Vec<u8>, Vec<u8>)>)
        requires
            old(self).wf(),
        ensures
            final(self).wf(),
            final(self).keyspace() == old(self).keyspace(),
            last_below::<C>(final(self).keyspace(), None, false, final(self).position()),
            pair_view(r) == entry_at(final(self).keyspace(), final(self).position()),
    {
        self.seek_to_last();
        self.entry()
    }
}

/// Walks the entries from larger to smaller keys.
pub struct RevIterator<'a, C: Comparator> {
    cursor: Cursor<'a, C>,
}

impl<'a, C: Comparator> RevIterator<'a, C> {
    /// The keyspace the iterator walks.
    pub closed spec fn keyspace(&self) -> Map<Seq<u8>, Seq<u8>> {
        self.cursor.keyspace()
    }

    /// The key the iterator stands at; `None` once exhausted.
    pub closed spec fn position(&self) -> Option<Seq<u8>> {
        self.cursor.position()
    }

    /// Whether the iterator was repositioned since it was made.
    pub closed spec fn moved(&self) -> bool {
        self.cursor.moved()
    }

    pub closed spec fn wf(&self) -> bool {
        self.cursor.wf()
    }

    /// Whether the iterator stands at an entry.
    pub fn valid(&self) -> (r: bool)
        ensures
            r == self.position() is Some,
    {
        self.cursor.valid()
    }

    /// Moves to the next entry toward smaller keys; an exhausted iterator stays so.
    pub fn advance(&mut self)
        requires
            old(self).wf(),
        ensures
            final(self).wf(),
            final(self).keyspace() == old(self).keyspace(),
            final(self).moved(),
            stepped_down::<C>(old(self).keyspace(), old(self).position(), final(self).position()),
    {
        self.cursor.step_down();
        self.cursor.mark();
    }

    /// Moves to the smallest key.
    pub fn seek_to_first(&mut self)
        requires
            old(self).wf(),
        ensures
            final(self).wf(),
            final(self).keyspace() == old(self).keyspace(),
            final(self).moved(),
            first_above::<C>(final(self).keyspace(), None, false, final(self).position()),
    {
        self.cursor.to_first();
        self.cursor.mark();
    }

    /// Moves to the largest key.
    pub fn seek_to_last(&mut self)
        requires
            old(self).wf(),
        ensures
            final(self).wf(),
            final(self).keyspace() == old(self).keyspace(),
            final(self).moved(),
            last_below::<C>(final(self).keyspace(), None, false, final(self).position()),
    {
        self.cursor.to_last();
        self.cursor.mark();
    }

    /// Moves to the smallest key not below `key`.
    pub fn seek(&mut self, key: &[u8])
        requires
            old(self).wf(),
        ensures
            final(self).wf(),
            final(self).keyspace() == old(self).keyspace(),
            final(self).moved(),
            first_above::<C>(final(self).keyspace(), Some(key@), false, final(self).position()),
    {
        self.cursor.to_key(key);
        self.cursor.mark();
    }

    /// The key at the current position; `None` once exhausted.
    pub fn key(&self) -> (r: Option<Vec<u8>>)
        ensures
            opt_view(r) == self.position(),
    {
        self.cursor.key()
    }

    /// The value at the current position; `None` once exhausted.
    pub fn value(&self) -> (r: Option<Vec<u8>>)
        requires
            self.wf(),
        ensures
            opt_view(r) == value_at(self.keyspace(), self.position()),
    {
        self.cursor.value()
    }

    /// The entry at the current position; `None` once exhausted.
    pub fn entry(&self) -> (r: Option<(Vec<u8>, Vec<u8>)>)
        requires
            self.wf(),
        ensures
            pair_view(r) == entry_at(self.keyspace(), self.position()),
    {
        self.cursor.entry()
    }

    /// Turns the iterator around. A fresh iterator starts over from the
    /// other end; one that was moved keeps its position.
    pub fn reverse(self) -> (r: Iterator<'a, C>)
        requires
            self.wf(),
        ensures
            r.wf(),
            r.keyspace() == self.keyspace(),
            r.moved() == self.moved(),
            self.moved() ==> r.position() == self.position(),
            !self.moved() ==> first_above::<C>(r.keyspace(), None, false, r.position()),
    {
        let mut cursor = self.cursor;
        if !cursor.moved {
            cursor.to_first();
        }
        Iterator { cursor }
    }

    /// The entry at the current position, after which the iterator advances;
    /// `None` once exhausted.
    pub fn next(&mut self) -> (r: Option<(Vec<u8>, Vec<u8>)>)
        requires
            old(self).wf(),
        ensures
            final(self).wf(),
            final(self).keyspace() == old(self).keyspace(),
            pair_view(r) == entry_at(old(self).keyspace(), old(self).position()),
            old(self).position() is Some ==> final(self).moved(),
            old(self).position() is None ==> final(self).moved() == old(self).moved(),
            stepped_down::<C>(old(self).keyspace(), old(self).position(), final(self).position()),
    {
        if self.cursor.valid() {
            let r = self.cursor.entry();
            self.advance();
            r
        } else {
            None
        }
    }
}

/// Walks the keys from smaller to larger.
pub struct KeyIterator<'a, C: Comparator> {
    inner: Iterator<'a, C>,
}

impl<'a, C: Comparator> KeyIterator<'a, C> {
    /// The keyspace the iterator walks.
    pub closed spec fn keyspace(&self) -> Map<Seq<u8>, Seq<u8>> {
        self.inner.keyspace()
    }

    /// The key the iterator stands at; `None` once exhausted.
    pub closed spec fn position(&self) -> Option<Seq<u8>> {
        self.inner.position()
    }

    /// Whether the iterator was repositioned since it was made.
    pub closed spec fn moved(&self) -> bool {
        self.inner.moved()
    }

    pub closed spec fn wf(&self) -> bool {
        self.inner.wf()
    }

    /// Whether the iterator stands at an entry.
    pub fn valid(&self) -> (r: bool)
        ensures
            r == self.position() is Some,
    {
        self.inner.valid()
    }

    /// Moves to the next entry toward larger keys; an exhausted iterator stays so.
    pub fn advance(&mut self)
        requires
            old(self).wf(),
        ensures
            final(self).wf(),
            final(self).keyspace() == old(self).keyspace(),
            final(self).moved(),
            stepped_up::<C>(old(self).keyspace(), old(self).position(), final(self).position()),
    {
        self.inner.advance();
    }

    /// Moves to the smallest key.
    pub fn seek_to_first(&mut self)
        requires
            old(self).wf(),
        ensures
            final(self).wf(),
            final(self).keyspace() == old(self).keyspace(),
            final(self).moved(),
            first_above::<C>(final(self).keyspace(), None, false, final(self).position()),
    {
        self.inner.seek_to_first();
    }

    /// Moves to the largest key.
    pub fn seek_to_last(&mut self)
        requires
            old(self).wf(),
        ensures
            final(self).wf(),
            final(self).keyspace() == old(self).keyspace(),
            final(self).moved(),
            last_below::<C>(final(self).keyspace(), None, false, final(self).position()),
    {
        self.inner.seek_to_last();
    }

    /// Moves to the smallest key not below `key`.
    pub fn seek(&mut self, key: &[u8])
        requires
            old(self).wf(),
        ensures
            final(self).wf(),
            final(self).keyspace() == old(self).keyspace(),
            final(self).moved(),
            first_above::<C>(final(self).keyspace(), Some(key@), false, final(self).position()),
    {
        self.inner.seek(key);
    }

    /// The key at the current position, after which the iterator advances;
    /// `None` once exhausted.
    pub fn next(&mut self) -> (r: Option<Vec<u8>>)
        requires
            old(self).wf(),
        ensures
            final(self).wf(),
            final(self).keyspace() == old(self).keyspace(),
            opt_view(r) == old(self).position(),
            old(self).position() is Some ==> final(self).moved(),
            old(self).position() is None ==> final(self).moved() == old(self).moved(),
            stepped_up::<C>(old(self).keyspace(), old(self).position(), final(self).position()),
    {
        if self.inner.valid() {
            let r = self.inner.cursor.key();
            self.inner.advance();
            r
        } else {
            None
        }
    }

    /// Turns the iterator around, as the pair iterator does.
    pub fn reverse(self) -> (r: RevKeyIterator<'a, C>)
        requires
            self.wf(),
        ensures
            r.wf(),
            r.keyspace() == self.keyspace(),
            r.moved() == self.moved(),
            self.moved() ==> r.position() == self.position(),
            !self.moved() ==> last_below::<C>(r.keyspace(), None, false, r.position()),
    {
        RevKeyIterator { inner: self.inner.reverse() }
    }

    /// The largest key.
    pub fn last(self) -> (r: Option<Vec<u8>>)
        requires
            self.wf(),
        ensures
            exists|p: Option<Seq<u8>>| last_below::<C>(self.keyspace(), None, false, p) && opt_view(r) == p,
    {
        let mut it = self;
        it.seek_to_last();
        it.inner.cursor.key()
    }
}

/// Walks the keys from larger to smaller.
pub struct RevKeyIterator<'a, C: Comparator> {
    inner: RevIterator<'a, C>,
}

impl<'a, C: Comparator> RevKeyIterator<'a, C> {
    /// The keyspace the iterator walks.
    pub closed spec fn keyspace(&self) -> Map<Seq<u8>, Seq<u8>> {
        self.inner.keyspace()
    }

    /// The key the iterator stands at; `None` once exhausted.
    pub closed spec fn position(&self) -> Option<Seq<u8>> {
        self.inner.position()
    }

    /// Whether the iterator was repositioned since it was made.
    pub closed spec fn moved(&self) -> bool {
        self.inner.moved()
    }

    pub closed spec fn wf(&self) -> bool {
        self.inner.wf()
    }

    /// Whether the iterator stands at an entry.
    pub fn valid(&self) -> (r: bool)
        ensures
            r == self.position() is Some,
    {
        self.inner.valid()
    }

    /// Moves to the next entry toward smaller keys; an exhausted iterator stays so.
    pub fn advance(&mut self)
        requires
            old(self).wf(),
        ensures
            final(self).wf(),
            final(self).keyspace() == old(self).keyspace(),
            final(self).moved(),
            stepped_down::<C>(old(self).keyspace(), old(self).position(), final(self).position()),
    {
        self.inner.advance();
    }

    /// Moves to the smallest key.
    pub fn seek_to_first(&mut self)
        requires
            old(self).wf(),
        ensures
            final(self).wf(),
            final(self).keyspace() == old(self).keyspace(),
            final(self).moved(),
            first_above::<C>(final(self).keyspace(), None, false, final(self).position()),
    {
        self.inner.seek_to_first();
    }

    /// Moves to the largest key.
    pub fn seek_to_last(&mut self)
        requires
            old(self).wf(),
        ensures
            final(self).wf(),
            final(self).keyspace() == old(self).keyspace(),
            final(self).moved(),
            last_below::<C>(final(self).keyspace(), None, false, final(self).position()),
    {
        self.inner.seek_to_last();
    }

    /// Moves to the smallest key not below `key`.
    pub fn seek(&mut self, key: &[u8])
        requires
            old(self).wf(),
        ensures
            final(self).wf(),
            final(self).keyspace() == old(self).keyspace(),
            final(self).moved(),
            first_above::<C>(final(self).keyspace(), Some(key@), false, final(self).position()),
    {
        self.inner.seek(key);
    }

    /// The key at the current position, after which the iterator advances;
    /// `None` once exhausted.
    pub fn next(&mut self) -> (r: Option<Vec<u8>>)
        requires
            old(self).wf(),
        ensures
            final(self).wf(),
            final(self).keyspace() == old(self).keyspace(),
            opt_view(r) == old(self).position(),
            old(self).position() is Some ==> final(self).moved(),
            old(self).position() is None ==> final(self).moved() == old(self).moved(),
            stepped_down::<C>(old(self).keyspace(), old(self).position(), final(self).position()),
    {
        if self.inner.valid() {
            let r = self.inner.cursor.key();
            self.inner.advance();
            r
        } else {
            None
        }
    }

    /// Turns the iterator around, as the pair iterator does.
    pub fn reverse(self) -> (r: KeyIterator<'a, C>)
        requires
            self.wf(),
        ensures
            r.wf(),
            r.keyspace() == self.keyspace(),
            r.moved() == self.moved(),
            self.moved() ==> r.position() == self.position(),
            !self.moved() ==> first_above::<C>(r.keyspace(), None, false, r.position()),
    {
        KeyIterator { inner: self.inner.reverse() }
    }
}

/// Walks the values in the order of their keys, from smaller to larger.
pub struct ValueIterator<'a, C: Comparator> {
    inner: Iterator<'a, C>,
}

impl<'a, C: Comparator> ValueIterator<'a, C> {
    /// The keyspace the iterator walks.
    pub closed spec fn keyspace(&self) -> Map<Seq<u8>, Seq<u8>> {
        self.inner.keyspace()
    }

    /// The key the iterator stands at; `None` once exhausted.
    pub closed spec fn position(&self) -> Option<Seq<u8>> {
        self.inner.position()
    }

    /// Whether the iterator was repositioned since it was made.
    pub closed spec fn moved(&self) -> bool {
        self.inner.moved()
    }

    pub closed spec fn wf(&self) -> bool {
        self.inner.wf()
    }

    /// Whether the iterator stands at an entry.
    pub fn valid(&self) -> (r: bool)
        ensures
            r == self.position() is Some,
    {
        self.inner.valid()
    }

    /// Moves to the next entry toward larger keys; an exhausted iterator stays so.
    pub fn advance(&mut self)
        requires
            old(self).wf(),
        ensures
            final(self).wf(),
            final(self).keyspace() == old(self).keyspace(),
            final(self).moved(),
            stepped_up::<C>(old(self).keyspace(), old(self).position(), final(self).position()),
    {
        self.inner.advance();
    }

    /// Moves to the smallest key.
    pub fn seek_to_first(&mut self)
        requires
            old(self).wf(),
        ensures
            final(self).wf(),
            final(self).keyspace() == old(self).keyspace(),
            final(self).moved(),
            first_above::<C>(final(self).keyspace(), None, false, final(self).position()),
    {
        self.inner.seek_to_first();
    }

    /// Moves to the largest key.
    pub fn seek_to_last(&mut self)
        requires
            old(self).wf(),
        ensures
            final(self).wf(),
            final(self).keyspace() == old(self).keyspace(),
            final(self).moved(),
            last_below::<C>(final(self).keyspace(), None, false, final(self).position()),
    {
        self.inner.seek_to_last();
    }

    /// Moves to the smallest key not below `key`.
    pub fn seek(&mut self, key: &[u8])
        requires
            old(self).wf(),
        ensures
            final(self).wf(),
            final(self).keyspace() == old(self).keyspace(),
            final(self).moved(),
            first_above::<C>(final(self).keyspace(), Some(key@), false, final(self).position()),
    {
        self.inner.seek(key);
    }

    /// The value at the current position, after which the iterator advances;
    /// `None` once exhausted.
    pub fn next(&mut self) -> (r: Option<Vec<u8>>)
        requires
            old(self).wf(),
        ensures
            final(self).wf(),
            final(self).keyspace() == old(self).keyspace(),
            opt_view(r) == value_at(old(self).keyspace(), old(self).position()),
            old(self).position() is Some ==> final(self).moved(),
            old(self).position() is None ==> final(self).moved() == old(self).moved(),
            stepped_up::<C>(old(self).keyspace(), old(self).position(), final(self).position()),
    {
        if self.inner.valid() {
            let r = self.inner.cursor.value();
            self.inner.advance();
            r
        } else {
            None
        }
    }

    /// Turns the iterator around, as the pair iterator does.
    pub fn reverse(self) -> (r: RevValueIterator<'a, C>)
        requires
            self.wf(),
        ensures
            r.wf(),
            r.keyspace() == self.keyspace(),
            r.moved() == self.moved(),
            self.moved() ==> r.position() == self.position(),
            !self.moved() ==> last_below::<C>(r.keyspace(), None, false, r.position()),
    {
        RevValueIterator { inner: self.inner.reverse() }
    }

    /// The value stored under the largest key.
    pub fn last(self) -> (r: Option<Vec<u8>>)
        requires
            self.wf(),
        ensures
            exists|p: Option<Seq<u8>>| last_below::<C>(self.keyspace(), None, false, p) && opt_view(r) == value_at(self.keyspace(), p),
    {
        let mut it = self;
        it.seek_to_last();
        it.inner.cursor.value()
    }
}

/// Walks the values in the order of their keys, from larger to smaller.
pub struct RevValueIterator<'a, C: Comparator> {
    inner: RevIterator<'a, C>,
}

impl<'a, C: Comparator> RevValueIterator<'a, C> {
    /// The keyspace the iterator walks.
    pub closed spec fn keyspace(&self) -> Map<Seq<u8>, Seq<u8>> {
        self.inner.keyspace()
    }

    /// The key the iterator stands at; `None` once exhausted.
    pub closed spec fn position(&self) -> Option<Seq<u8>> {
        self.inner.position()
    }

    /// Whether the iterator was repositioned since it was made.
    pub closed spec fn moved(&self) -> bool {
        self.inner.moved()
    }

    pub closed spec fn wf(&self) -> bool {
        self.inner.wf()
    }

    /// Whether the iterator stands at an entry.
    pub fn valid(&self) -> (r: bool)
        ensures
            r == self.position() is Some,
    {
        self.inner.valid()
    }

    /// Moves to the next entry toward smaller keys; an exhausted iterator stays so.
    pub fn advance(&mut self)
        requires
            old(self).wf(),
        ensures
            final(self).wf(),
            final(self).keyspace() == old(self).keyspace(),
            final(self).moved(),
            stepped_down::<C>(old(self).keyspace(), old(self).position(), final(self).position()),
    {
        self.inner.advance();
    }

    /// Moves to the smallest key.
    pub fn seek_to_first(&mut self)
        requires
            old(self).wf(),
        ensures
            final(self).wf(),
            final(self).keyspace() == old(self).keyspace(),
            final(self).moved(),
            first_above::<C>(final(self).keyspace(), None, false, final(self).position()),
    {
        self.inner.seek_to_first();
    }

    /// Moves to the largest key.
    pub fn seek_to_last(&mut self)
        requires
            old(self).wf(),
        ensures
            final(self).wf(),
            final(self).keyspace() == old(self).keyspace(),
            final(self).moved(),
            last_below::<C>(final(self).keyspace(), None, false, final(self).position()),
    {
        self.inner.seek_to_last();
    }

    /// Moves to the smallest key not below `key`.
    pub fn seek(&mut self, key: &[u8])
        requires
            old(self).wf(),
        ensures
            final(self).wf(),
            final(self).keyspace() == old(self).keyspace(),
            final(self).moved(),
            first_above::<C>(final(self).keyspace(), Some(key@), false, final(self).position()),
    {
        self.inner.seek(key);
    }

    /// The value at the current position, after which the iterator advances;
    /// `None` once exhausted.
    pub fn next(&mut self) -> (r: Option<Vec<u8>>)
        requires
            old(self).wf(),
        ensures
            final(self).wf(),
            final(self).keyspace() == old(self).keyspace(),
            opt_view(r) == value_at(old(self).keyspace(), old(self).position()),
            old(self).position() is Some ==> final(self).moved(),
            old(self).position() is None ==> final(self).moved() == old(self).moved(),
            stepped_down::<C>(old(self).keyspace(), old(self).position(), final(self).position()),
    {
        if self.inner.valid() {
            let r = self.inner.cursor.value();
            self.inner.advance();
            r
        } else {
            None
        }
    }

    /// Turns the iterator around, as the pair iterator does.
    pub fn reverse(self) -> (r: ValueIterator<'a, C>)
        requires
            self.wf(),
        ensures
            r.wf(),
            r.keyspace() == self.keyspace(),
            r.moved() == self.moved(),
            self.moved() ==> r.position() == self.position(),
            !self.moved() ==> first_above::<C>(r.keyspace(), None, false, r.position()),
    {
        ValueIterator { inner: self.inner.reverse() }
    }
}

impl<'a, C: Comparator> Iterator<'a, C> {
    /// An iterator at the smallest key of the state that `options` reads.
    pub fn new(database: &'a Database<C>, options: &ReadOptions) -> (r: Iterator<'a, C>)
        requires
            database.read_point(*options) is Some,
        ensures
            r.wf(),
            r.keyspace() == database.state_at(database.read_point(*options)->Some_0),
            first_above::<C>(r.keyspace(), None, false, r.position()),
            !r.moved(),
    {
        let n = match options.snapshot {
            None => database.sequence(),
            Some(s) => s.sequence_number(),
        };
        Iterator { cursor: Cursor::open(database, n) }
    }

    /// An iterator at the smallest key as of `snapshot`.
    pub fn at_snapshot(database: &'a Database<C>, snapshot: &Snapshot) -> (r: Iterator<'a, C>)
        requires
            snapshot.sequence() <= database.history().len(),
        ensures
            r.wf(),
            r.keyspace() == database.state_at(snapshot.sequence()),
            first_above::<C>(r.keyspace(), None, false, r.position()),
            !r.moved(),
    {
        Iterator { cursor: Cursor::open(database, snapshot.sequence_number()) }
    }
}

impl<'a, C: Comparator> KeyIterator<'a, C> {
    /// A key iterator at the smallest key of the state that `options` reads.
    pub fn new(database: &'a Database<C>, options: &ReadOptions) -> (r: KeyIterator<'a, C>)
        requires
            database.read_point(*options) is Some,
        ensures
            r.wf(),
            r.keyspace() == database.state_at(database.read_point(*options)->Some_0),
            first_above::<C>(r.keyspace(), None, false, r.position()),
            !r.moved(),
    {
        KeyIterator { inner: Iterator::new(database, options) }
    }

    /// A key iterator at the smallest key as of `snapshot`.
    pub fn at_snapshot(database: &'a Database<C>, snapshot: &Snapshot) -> (r: KeyIterator<'a, C>)
        requires
            snapshot.sequence() <= database.history().len(),
        ensures
            r.wf(),
            r.keyspace() == database.state_at(snapshot.sequence()),
            first_above::<C>(r.keyspace(), None, false, r.position()),
            !r.moved(),
    {
        KeyIterator { inner: Iterator::at_snapshot(database, snapshot) }
    }
}

impl<'a, C: Comparator> ValueIterator<'a, C> {
    /// A value iterator at the smallest key of the state that `options` reads.
    pub fn new(database: &'a Database<C>, options: &ReadOptions) -> (r: ValueIterator<'a, C>)
        requires
            database.read_point(*options) is Some,
        ensures
            r.wf(),
            r.keyspace() == database.state_at(database.read_point(*options)->Some_0),
            first_above::<C>(r.keyspace(), None, false, r.position()),
            !r.moved(),
    {
        ValueIterator { inner: Iterator::new(database, options) }
    }

    /// A value iterator at the smallest key as of `snapshot`.
    pub fn at_snapshot(database: &'a Database<C>, snapshot: &Snapshot) -> (r: ValueIterator<'a, C>)
        requires
            snapshot.sequence() <= database.history().len(),
        ensures
            r.wf(),
            r.keyspace() == database.state_at(snapshot.sequence()),
            first_above::<C>(r.keyspace(), None, false, r.position()),
            !r.moved(),
    {
        ValueIterator { inner: Iterator::at_snapshot(database, snapshot) }
    }
}

impl<C: Comparator> Database<C> {
    /// Iterates over the entries of the state that `options` reads.
    pub fn iter<'a>(&'a self, options: &ReadOptions) -> (r: Iterator<'a, C>)
        requires
            self.read_point(*options) is Some,
        ensures
            r.wf(),
            r.keyspace() == self.state_at(self.read_point(*options)->Some_0),
            first_above::<C>(r.keyspace(), None, false, r.position()),
            !r.moved(),
    {
        Iterator::new(self, options)
    }

    /// Iterates over the keys of the state that `options` reads.
    pub fn keys_iter<'a>(&'a self, options: &ReadOptions) -> (r: KeyIterator<'a, C>)
        requires
            self.read_point(*options) is Some,
        ensures
            r.wf(),
            r.keyspace() == self.state_at(self.read_point(*options)->Some_0),
            first_above::<C>(r.keyspace(), None, false, r.position()),
            !r.moved(),
    {
        KeyIterator::new(self, options)
    }

    /// Iterates over the values of the state that `options` reads.
    pub fn value_iter<'a>(&'a self, options: &ReadOptions) -> (r: ValueIterator<'a, C>)
        requires
            self.read_point(*options) is Some,
        ensures
            r.wf(),
            r.keyspace() == self.state_at(self.read_point(*options)->Some_0),
            first_above::<C>(r.keyspace(), None, false, r.position()),
            !r.moved(),
    {
        ValueIterator::new(self, options)
    }
}

impl Snapshot {
    /// Looks up a typed key as the store was when the snapshot was taken.
    pub fn get<C: Comparator, K: IntoLevelDBKey + ?Sized>(&self, database: &Database<C>, options: &ReadOptions, key: &K) -> (r: Result<Option<Vec<u8>>, Error>)
        ensures
            self.sequence() <= database.history().len() ==> r is Ok && opt_view(r->Ok_0) == lookup(database.state_at(self.sequence()), key.key_bytes()),
            self.sequence() > database.history().len() ==> r is Err && r->Err_0.kind == ErrorKind::InvalidArgument,
    {
        let k = key.to_key_bytes();
        self.get_u8(database, options, k.as_slice())
    }

    /// Looks up a raw key as the store was when the snapshot was taken.
    pub fn get_u8<C: Comparator>(&self, database: &Database<C>, options: &ReadOptions, key: &[u8]) -> (r: Result<Option<Vec<u8>>, Error>)
        ensures
            self.sequence() <= database.history().len() ==> r is Ok && opt_view(r->Ok_0) == lookup(database.state_at(self.sequence()), key@),
            self.sequence() > database.history().len() ==> r is Err && r->Err_0.kind == ErrorKind::InvalidArgument,
    {
        let read = ReadOptions { snapshot: Some(*self), ..*options };
        database.get_u8(&read, key)
    }

    /// Iterates over the entries as of the snapshot.
    pub fn iter<'a, C: Comparator>(&self, database: &'a Database<C>, options: &ReadOptions) -> (r: Iterator<'a, C>)
        requires
            self.sequence() <= database.history().len(),
        ensures
            r.wf(),
            r.keyspace() == database.state_at(self.sequence()),
            first_above::<C>(r.keyspace(), None, false, r.position()),
            !r.moved(),
    {
        Iterator::at_snapshot(database, self)
    }

    /// Iterates over the keys as of the snapshot.
    pub fn keys_iter<'a, C: Comparator>(&self, database: &'a Database<C>, options: &ReadOptions) -> (r: KeyIterator<'a, C>)
        requires
            self.sequence() <= database.history().len(),
        ensures
            r.wf(),
            r.keyspace() == database.state_at(self.sequence()),
            first_above::<C>(r.keyspace(), None, false, r.position()),
            !r.moved(),
    {
        KeyIterator::at_snapshot(database, self)
    }

    /// Iterates over the values as of the snapshot.
    pub fn value_iter<'a, C: Comparator>(&self, database: &'a Database<C>, options: &ReadOptions) -> (r: ValueIterator<'a, C>)
        requires
            self.sequence() <= database.history().len(),
        ensures
            r.wf(),
            r.keyspace() == database.state_at(self.sequence()),
            first_above::<C>(r.keyspace(), None, false, r.position()),
            !r.moved(),
    {
        ValueIterator::at_snapshot(database, self)
    }
}

} // verus!
