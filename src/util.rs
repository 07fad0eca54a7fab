//! Reading typed values back from stored bytes.
use vstd::prelude::*;
use crate::error::{Error, ErrorKind};
use crate::key::{from_be, lemma_from_be_bound};

verus! {

/// Reads big-endian bytes into a number.
pub fn from_be_slice(data: &[u8]) -> (r: u128)
    requires
        data@.len() <= 16,
    ensures
        r as nat == from_be(data@),
{
    let mut acc: u128 = 0;
    let mut i: usize = 0;
    while i < data.len()
        invariant
            i <= data@.len() <= 16,
            acc as nat == from_be(data@.take(i as int)),
        decreases data@.len() - i,
    {
        proof {
            assert(data@.take(i + 1).drop_last() =~= data@.take(i as int));
            lemma_from_be_bound(data@.take(i + 1));
            vstd::arithmetic::power::lemma_pow_increases(256, (i + 1) as nat, 16);
            assert(vstd::arithmetic::power::pow(256, 16) == 0x1_0000_0000_0000_0000_0000_0000_0000_0000int) by {
                reveal_with_fuel(vstd::arithmetic::power::pow, 17);
            }
        }
        acc = acc * 256 + data[i] as u128;
        i = i + 1;
    }
    assert(data@.take(i as int) =~= data@);
    acc
}

/// A value read back from the bytes it was stored under.
pub trait FromU8: Sized {
    /// The number of bytes a value is stored in.
    spec fn width() -> nat;

    /// The value whose stored bytes are `s`.
    spec fn spec_from_u8(s: Seq<u8>) -> Self;

    /// The number of bytes a value is stored in.
    fn byte_width() -> (r: usize)
        ensures
            r == Self::width(),
    ;

    fn from_u8(data: &[u8]) -> (r: Self)
        requires
            data@.len() == Self::width(),
        ensures
            r == Self::spec_from_u8(data@),
    ;

    /// Reads a value back, refusing bytes of the wrong length.
    fn try_from_u8(data: &[u8]) -> (r: Result<Self, Error>)
        ensures
            data@.len() == Self::width() ==> r == Ok::<Self, Error>(Self::spec_from_u8(data@)),
            data@.len() != Self::width() ==> r is Err && r->Err_0.kind == ErrorKind::InvalidArgument,
    {
        if data.len() == Self::byte_width() {
            Ok(Self::from_u8(data))
        } else {
            Err(Error::new(ErrorKind::InvalidArgument, "wrong number of bytes for this type".to_owned()))
        }
    }
}

impl FromU8 for i8 {
    open spec fn width() -> nat {
        1
    }

    open spec fn spec_from_u8(s: Seq<u8>) -> i8 {
        (from_be(s) as u8) as i8
    }

    fn byte_width() -> (r: usize) {
        1
    }

    fn from_u8(data: &[u8]) -> (r: i8) {
        proof { lemma_from_be_bound(data@); }
        (from_be_slice(data) as u8) as i8
    }
}

impl FromU8 for i16 {
    open spec fn width() -> nat {
        2
    }

    open spec fn spec_from_u8(s: Seq<u8>) -> i16 {
        (from_be(s) as u16) as i16
    }

    fn byte_width() -> (r: usize) {
        2
    }

    fn from_u8(data: &[u8]) -> (r: i16) {
        proof { lemma_from_be_bound(data@); }
        (from_be_slice(data) as u16) as i16
    }
}

impl FromU8 for i32 {
    open spec fn width() -> nat {
        4
    }

    open spec fn spec_from_u8(s: Seq<u8>) -> i32 {
        (from_be(s) as u32) as i32
    }

    fn byte_width() -> (r: usize) {
        4
    }

    fn from_u8(data: &[u8]) -> (r: i32) {
        proof { lemma_from_be_bound(data@); }
        (from_be_slice(data) as u32) as i32
    }
}

impl FromU8 for i64 {
    open spec fn width() -> nat {
        8
    }

    open spec fn spec_from_u8(s: Seq<u8>) -> i64 {
        (from_be(s) as u64) as i64
    }

    fn byte_width() -> (r: usize) {
        8
    }

    fn from_u8(data: &[u8]) -> (r: i64) {
        proof { lemma_from_be_bound(data@); }
        (from_be_slice(data) as u64) as i64
    }
}

impl FromU8 for i128 {
    open spec fn width() -> nat {
        16
    }

    open spec fn spec_from_u8(s: Seq<u8>) -> i128 {
        (from_be(s) as u128) as i128
    }

    fn byte_width() -> (r: usize) {
        16
    }

    fn from_u8(data: &[u8]) -> (r: i128) {
        proof { lemma_from_be_bound(data@); }
        (from_be_slice(data) as u128) as i128
    }
}

impl FromU8 for u8 {
    open spec fn width() -> nat {
        1
    }

    open spec fn spec_from_u8(s: Seq<u8>) -> u8 {
        (from_be(s) as u8) as u8
    }

    fn byte_width() -> (r: usize) {
        1
    }

    fn from_u8(data: &[u8]) -> (r: u8) {
        proof { lemma_from_be_bound(data@); }
        (from_be_slice(data) as u8) as u8
    }
}

impl FromU8 for u16 {
    open spec fn width() -> nat {
        2
    }

    open spec fn spec_from_u8(s: Seq<u8>) -> u16 {
        (from_be(s) as u16) as u16
    }

    fn byte_width() -> (r: usize) {
        2
    }

    fn from_u8(data: &[u8]) -> (r: u16) {
        proof { lemma_from_be_bound(data@); }
        (from_be_slice(data) as u16) as u16
    }
}

impl FromU8 for u32 {
    open spec fn width() -> nat {
        4
    }

    open spec fn spec_from_u8(s: Seq<u8>) -> u32 {
        (from_be(s) as u32) as u32
    }

    fn byte_width() -> (r: usize) {
        4
    }

    fn from_u8(data: &[u8]) -> (r: u32) {
        proof { lemma_from_be_bound(data@); }
        (from_be_slice(data) as u32) as u32
    }
}

impl FromU8 for u64 {
    open spec fn width() -> nat {
        8
    }

    open spec fn spec_from_u8(s: Seq<u8>) -> u64 {
        (from_be(s) as u64) as u64
    }

    fn byte_width() -> (r: usize) {
        8
    }

    fn from_u8(data: &[u8]) -> (r: u64) {
        proof { lemma_from_be_bound(data@); }
        (from_be_slice(data) as u64) as u64
    }
}

impl FromU8 for u128 {
    open spec fn width() -> nat {
        16
    }

    open spec fn spec_from_u8(s: Seq<u8>) -> u128 {
        (from_be(s) as u128) as u128
    }

    fn byte_width() -> (r: usize) {
        16
    }

    fn from_u8(data: &[u8]) -> (r: u128) {
        proof { lemma_from_be_bound(data@); }
        (from_be_slice(data) as u128) as u128
    }
}

} // verus!
