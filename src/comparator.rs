//! Total orders over raw keys.
//!
//! A store is opened under one comparator for its whole lifetime. The
//! comparator's name is recorded with the store, so that a later open under a
//! comparator of another name can be refused.
use vstd::prelude::*;
use std::cmp::Ordering;

verus! {

/// Unsigned byte-lexicographic order: the shorter of two keys sorts first
/// when it is a prefix of the other.
pub open spec fn byte_lt(a: Seq<u8>, b: Seq<u8>) -> bool
    decreases a.len(),
{
    if b.len() == 0 {
        false
    } else if a.len() == 0 {
        true
    } else if a[0] != b[0] {
        a[0] < b[0]
    } else {
        byte_lt(a.drop_first(), b.drop_first())
    }
}

/// `byte_lt` is a strict total order.
pub proof fn lemma_byte_lt_strict_total(a: Seq<u8>, b: Seq<u8>, c: Seq<u8>)
    ensures
        !byte_lt(a, a),
        byte_lt(a, b) && byte_lt(b, c) ==> byte_lt(a, c),
        a != b ==> byte_lt(a, b) || byte_lt(b, a),
        byte_lt(a, b) ==> !byte_lt(b, a),
    decreases a.len(),
{
    if a.len() > 0 && b.len() > 0 && c.len() > 0 {
        lemma_byte_lt_strict_total(a.drop_first(), b.drop_first(), c.drop_first());
    } else if a.len() > 0 && b.len() > 0 {
        lemma_byte_lt_strict_total(a.drop_first(), b.drop_first(), b.drop_first());
    } else if a.len() > 0 {
        lemma_byte_lt_strict_total(a.drop_first(), a.drop_first(), a.drop_first());
    }
    if a != b && a.len() > 0 && b.len() > 0 && a[0] == b[0] {
        assert(a.drop_first() != b.drop_first()) by {
            if a.drop_first() == b.drop_first() {
                assert(a =~= seq![a[0]] + a.drop_first());
                assert(b =~= seq![b[0]] + b.drop_first());
            }
        }
    }
    if a.len() == 0 && b.len() == 0 {
        assert(a =~= b);
    }
}

/// What a comparator answers for `a` against `b`, given its strict order.
pub open spec fn ordering_of(lt: bool, eq: bool) -> Ordering {
    if lt {
        Ordering::Less
    } else if eq {
        Ordering::Equal
    } else {
        Ordering::Greater
    }
}

/// A total order over keys, fixed for a store's lifetime.
pub trait Comparator {
    /// The strict order that `compare` decides.
    spec fn spec_lt(a: Seq<u8>, b: Seq<u8>) -> bool;

    /// The identifier recorded with a store.
    spec fn spec_name() -> Seq<char>;

    /// The order is a strict total order in which only equal byte
    /// sequences are equivalent.
    proof fn lemma_strict_total(a: Seq<u8>, b: Seq<u8>, c: Seq<u8>)
        ensures
            !Self::spec_lt(a, a),
            Self::spec_lt(a, b) && Self::spec_lt(b, c) ==> Self::spec_lt(a, c),
            a != b ==> Self::spec_lt(a, b) || Self::spec_lt(b, a),
    ;

    fn name(&self) -> (r: String)
        ensures
            r@ == Self::spec_name(),
    ;

    fn compare(&self, a: &[u8], b: &[u8]) -> (r: Ordering)
        ensures
            r == ordering_of(Self::spec_lt(a@, b@), a@ == b@),
    ;
}

/// Compares two keys byte by byte.
pub fn compare_bytes(a: &[u8], b: &[u8]) -> (r: Ordering)
    ensures
        r == ordering_of(byte_lt(a@, b@), a@ == b@),
{
    let mut i: usize = 0;
    while i < a.len() && i < b.len()
        invariant
            i <= a@.len(),
            i <= b@.len(),
            a@.take(i as int) == b@.take(i as int),
        decreases a@.len() - i,
    {
        if a[i] != b[i] {
            proof { lemma_byte_lt_after_common(a@, b@, i as nat); }
            if a[i] < b[i] {
                return Ordering::Less;
            } else {
                return Ordering::Greater;
            }
        }
        assert(a@.take(i + 1) =~= a@.take(i as int).push(a@[i as int]));
        assert(b@.take(i + 1) =~= b@.take(i as int).push(b@[i as int]));
        i = i + 1;
    }
    proof { lemma_byte_lt_after_common(a@, b@, i as nat); }
    if a.len() < b.len() {
        Ordering::Less
    } else if a.len() > b.len() {
        Ordering::Greater
    } else {
        assert(a@ =~= a@.take(i as int));
        assert(b@ =~= b@.take(i as int));
        Ordering::Equal
    }
}

/// Past a common prefix of length `n`, the order is decided at position `n`.
proof fn lemma_byte_lt_after_common(a: Seq<u8>, b: Seq<u8>, n: nat)
    requires
        n <= a.len(),
        n <= b.len(),
        a.take(n as int) == b.take(n as int),
    ensures
        n < a.len() && n < b.len() ==> (byte_lt(a, b) <==> byte_lt(a.subrange(n as int, a.len() as int), b.subrange(n as int, b.len() as int))),
        n < a.len() && n < b.len() && a[n as int] != b[n as int] ==> (byte_lt(a, b) <==> a[n as int] < b[n as int]),
        n == a.len() || n == b.len() ==> (byte_lt(a, b) <==> a.len() < b.len()),
    decreases n,
{
    if n > 0 {
        assert(a[0] == a.take(n as int)[0]);
        assert(b[0] == b.take(n as int)[0]);
        assert(a.drop_first().take(n - 1) =~= a.take(n as int).drop_first());
        assert(b.drop_first().take(n - 1) =~= b.take(n as int).drop_first());
        lemma_byte_lt_after_common(a.drop_first(), b.drop_first(), (n - 1) as nat);
        assert(a.drop_first().subrange(n - 1, a.len() - 1) =~= a.subrange(n as int, a.len() as int));
        assert(b.drop_first().subrange(n - 1, b.len() - 1) =~= b.subrange(n as int, b.len() as int));
    } else {
        assert(a.subrange(0, a.len() as int) =~= a);
        assert(b.subrange(0, b.len() as int) =~= b);
    }
}

/// The default comparator: byte-lexicographic order.
#[derive(Clone, Copy, Debug)]
pub struct BytewiseComparator;

impl Comparator for BytewiseComparator {
    open spec fn spec_lt(a: Seq<u8>, b: Seq<u8>) -> bool {
        byte_lt(a, b)
    }

    open spec fn spec_name() -> Seq<char> {
        "leveldb.BytewiseComparator"@
    }

    proof fn lemma_strict_total(a: Seq<u8>, b: Seq<u8>, c: Seq<u8>) {
        lemma_byte_lt_strict_total(a, b, c);
    }

    fn name(&self) -> (r: String) {
        "leveldb.BytewiseComparator".to_owned()
    }

    fn compare(&self, a: &[u8], b: &[u8]) -> (r: Ordering) {
        compare_bytes(a, b)
    }
}

/// Byte-lexicographic order turned around: larger keys first.
#[derive(Clone, Copy, Debug)]
pub struct ReverseComparator;

impl Comparator for ReverseComparator {
    open spec fn spec_lt(a: Seq<u8>, b: Seq<u8>) -> bool {
        byte_lt(b, a)
    }

    open spec fn spec_name() -> Seq<char> {
        "reverse"@
    }

    proof fn lemma_strict_total(a: Seq<u8>, b: Seq<u8>, c: Seq<u8>) {
        lemma_byte_lt_strict_total(c, b, a);
        lemma_byte_lt_strict_total(a, b, c);
    }

    fn name(&self) -> (r: String) {
        "reverse".to_owned()
    }

    fn compare(&self, a: &[u8], b: &[u8]) -> (r: Ordering) {
        compare_bytes(b, a)
    }
}

} // verus!
