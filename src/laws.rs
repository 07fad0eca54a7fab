//! Properties that relate several operations of the store.
use vstd::prelude::*;
use crate::batch::{apply_ops, lemma_apply_concat, Op};
use crate::comparator::Comparator;
use crate::db::{find_store, lookup, open_outcome, state_of, Database, StoreRecord};
use crate::error::ErrorKind;
use crate::options::Options;
use crate::key::{lemma_from_be_bytes, IntoLevelDBKey};
use crate::util::FromU8;
use vstd::arithmetic::power::pow;

verus! {

/// The current keyspace of a store with history `h`.
proof fn lemma_state_full(h: Seq<Op>)
    ensures
        state_of(h, h.len()) == apply_ops(Map::empty(), h),
{
    assert(h.take(h.len() as int) =~= h);
}

/// A read of a key just put gives the value put; a read of a key just
/// deleted gives nothing.
pub proof fn lemma_round_trip<C: Comparator>(before: Database<C>, after: Database<C>, k: Seq<u8>, v: Seq<u8>)
    ensures
        after.history() == before.history().push(Op::Put(k, v)) ==> lookup(after@, k) == Some(v),
        after.history() == before.history().push(Op::Delete(k)) ==> lookup(after@, k) is None,
{
    let h = after.history();
    lemma_state_full(h);
    if h.len() > 0 {
        assert(h.drop_last() == h.take(h.len() - 1));
    }
}

/// Writing a batch leaves the store as its operations, applied one after
/// another in the order they were appended, leave it.
pub proof fn lemma_batch_in_order<C: Comparator>(before: Database<C>, after: Database<C>, ops: Seq<Op>)
    requires
        after.history() == before.history() + ops,
    ensures
        after@ == apply_ops(before@, ops),
{
    lemma_state_full(before.history());
    lemma_state_full(after.history());
    lemma_apply_concat(Map::empty(), before.history(), ops);
}

/// In one batch, a delete after a put of the same key leaves the key absent,
/// and a put after a delete leaves the value put.
pub proof fn lemma_batch_later_wins(m: Map<Seq<u8>, Seq<u8>>, k: Seq<u8>, a: Seq<u8>)
    ensures
        !apply_ops(m, seq![Op::Put(k, a), Op::Delete(k)]).contains_key(k),
        lookup(apply_ops(m, seq![Op::Delete(k), Op::Put(k, a)]), k) == Some(a),
{
    let s1 = seq![Op::Put(k, a), Op::Delete(k)];
    let s2 = seq![Op::Delete(k), Op::Put(k, a)];
    assert(s1.drop_last() =~= seq![Op::Put(k, a)]);
    assert(s1.drop_last().drop_last() =~= Seq::<Op>::empty());
    assert(s2.drop_last() =~= seq![Op::Delete(k)]);
    assert(s2.drop_last().drop_last() =~= Seq::<Op>::empty());
}

/// A batch with no operations leaves the store as it was.
pub proof fn lemma_empty_batch<C: Comparator>(before: Database<C>, after: Database<C>)
    requires
        after.history() == before.history() + Seq::<Op>::empty(),
    ensures
        after@ == before@,
{
    assert(after.history() =~= before.history());
}

/// What a snapshot taken of `then` reads stays as it was, whatever is
/// written to the store after it.
pub proof fn lemma_snapshot_isolation<C: Comparator>(then: Database<C>, now: Database<C>, later: Seq<Op>)
    requires
        now.history() == then.history() + later,
    ensures
        now.state_at(then.history().len()) == then@,
{
    let n = then.history().len() as int;
    assert(now.history().take(n) =~= then.history().take(n));
}

/// Opening a location that holds no store fails with `NotFound` unless
/// creation was asked for, and leaves the directory as it was; asking for
/// creation then succeeds with an empty store.
pub proof fn lemma_open_missing(dir: Seq<(Seq<char>, StoreRecord)>, location: Seq<char>, options: Options, name: Seq<char>)
    requires
        find_store(dir, location) is None,
    ensures
        !options.create_if_missing ==> open_outcome(dir, location, options, name) == Err::<Seq<Op>, ErrorKind>(ErrorKind::NotFound),
        options.create_if_missing ==> open_outcome(dir, location, options, name) == Ok::<Seq<Op>, ErrorKind>(Seq::empty()),
{
}

/// An `i8` key read back from its stored bytes is the key.
pub proof fn lemma_key_round_trip_i8(x: i8)
    ensures
        i8::spec_from_u8(x.key_bytes()) == x,
{
    assert(pow(256, 1) == 256) by {
        reveal_with_fuel(pow, 2);
    }
    assert(((x as u8) as i8) == x) by (bit_vector);
    lemma_from_be_bytes((x as u8) as nat, 1);
}

/// An `i16` key read back from its stored bytes is the key.
pub proof fn lemma_key_round_trip_i16(x: i16)
    ensures
        i16::spec_from_u8(x.key_bytes()) == x,
{
    assert(pow(256, 2) == 65536) by {
        reveal_with_fuel(pow, 3);
    }
    assert(((x as u16) as i16) == x) by (bit_vector);
    lemma_from_be_bytes((x as u16) as nat, 2);
}

/// An `i32` key read back from its stored bytes is the key.
pub proof fn lemma_key_round_trip_i32(x: i32)
    ensures
        i32::spec_from_u8(x.key_bytes()) == x,
{
    assert(pow(256, 4) == 4294967296) by {
        reveal_with_fuel(pow, 5);
    }
    assert(((x as u32) as i32) == x) by (bit_vector);
    lemma_from_be_bytes((x as u32) as nat, 4);
}

/// An `i64` key read back from its stored bytes is the key.
pub proof fn lemma_key_round_trip_i64(x: i64)
    ensures
        i64::spec_from_u8(x.key_bytes()) == x,
{
    assert(pow(256, 8) == 18446744073709551616) by {
        reveal_with_fuel(pow, 9);
    }
    assert(((x as u64) as i64) == x) by (bit_vector);
    lemma_from_be_bytes((x as u64) as nat, 8);
}

/// An `i128` key read back from its stored bytes is the key.
pub proof fn lemma_key_round_trip_i128(x: i128)
    ensures
        i128::spec_from_u8(x.key_bytes()) == x,
{
    assert(pow(256, 16) == 340282366920938463463374607431768211456) by {
        reveal_with_fuel(pow, 17);
    }
    assert(((x as u128) as i128) == x) by (bit_vector);
    lemma_from_be_bytes((x as u128) as nat, 16);
}

/// A `u8` key read back from its stored bytes is the key.
pub proof fn lemma_key_round_trip_u8(x: u8)
    ensures
        u8::spec_from_u8(x.key_bytes()) == x,
{
    assert(pow(256, 1) == 256) by {
        reveal_with_fuel(pow, 2);
    }
    lemma_from_be_bytes((x as u8) as nat, 1);
}

/// A `u16` key read back from its stored bytes is the key.
pub proof fn lemma_key_round_trip_u16(x: u16)
    ensures
        u16::spec_from_u8(x.key_bytes()) == x,
{
    assert(pow(256, 2) == 65536) by {
        reveal_with_fuel(pow, 3);
    }
    lemma_from_be_bytes((x as u16) as nat, 2);
}

/// A `u32` key read back from its stored bytes is the key.
pub proof fn lemma_key_round_trip_u32(x: u32)
    ensures
        u32::spec_from_u8(x.key_bytes()) == x,
{
    assert(pow(256, 4) == 4294967296) by {
        reveal_with_fuel(pow, 5);
    }
    lemma_from_be_bytes((x as u32) as nat, 4);
}

/// A `u64` key read back from its stored bytes is the key.
pub proof fn lemma_key_round_trip_u64(x: u64)
    ensures
        u64::spec_from_u8(x.key_bytes()) == x,
{
    assert(pow(256, 8) == 18446744073709551616) by {
        reveal_with_fuel(pow, 9);
    }
    lemma_from_be_bytes((x as u64) as nat, 8);
}

/// A `u128` key read back from its stored bytes is the key.
pub proof fn lemma_key_round_trip_u128(x: u128)
    ensures
        u128::spec_from_u8(x.key_bytes()) == x,
{
    assert(pow(256, 16) == 340282366920938463463374607431768211456) by {
        reveal_with_fuel(pow, 17);
    }
    lemma_from_be_bytes((x as u128) as nat, 16);
}

} // verus!
