//! Typed keys and the raw bytes they are stored under.
use vstd::prelude::*;
use vstd::slice::slice_to_vec;
use vstd::string::StringSliceAdditionalSpecFns;
use vstd::arithmetic::power::pow;

verus! {

/// The `n` big-endian bytes of `v`, most significant first.
pub open spec fn be_bytes(v: nat, n: nat) -> Seq<u8>
    decreases n,
{
    if n == 0 {
        Seq::empty()
    } else {
        be_bytes(v / 256, (n - 1) as nat).push((v % 256) as u8)
    }
}

/// The number whose big-endian bytes are `s`.
pub open spec fn from_be(s: Seq<u8>) -> nat
    decreases s.len(),
{
    if s.len() == 0 {
        0
    } else {
        (from_be(s.drop_last()) * 256 + s.last()) as nat
    }
}

/// Bytes read back give the number they were written from.
pub proof fn lemma_from_be_bytes(v: nat, n: nat)
    requires
        v < pow(256, n),
    ensures
        from_be(be_bytes(v, n)) == v,
    decreases n,
{
    if n > 0 {
        vstd::arithmetic::power::lemma_pow_positive(256, (n - 1) as nat);
        assert(pow(256, n) == 256 * pow(256, (n - 1) as nat)) by {
            vstd::arithmetic::power::lemma_pow_adds(256, 1, (n - 1) as nat);
            vstd::arithmetic::power::lemma_pow1(256);
        }
        assert(v / 256 < pow(256, (n - 1) as nat)) by (nonlinear_arith)
            requires
                v < 256 * pow(256, (n - 1) as nat),
        ;
        lemma_from_be_bytes(v / 256, (n - 1) as nat);
        assert(be_bytes(v, n).drop_last() =~= be_bytes(v / 256, (n - 1) as nat));
    } else {
        vstd::arithmetic::power::lemma_pow0(256);
    }
}

/// A number of `s.len()` bytes is below `256` to that power.
pub proof fn lemma_from_be_bound(s: Seq<u8>)
    ensures
        from_be(s) < pow(256, s.len()),
    decreases s.len(),
{
    if s.len() == 0 {
        vstd::arithmetic::power::lemma_pow0(256);
    } else {
        lemma_from_be_bound(s.drop_last());
        let p = pow(256, (s.len() - 1) as nat);
        assert(pow(256, s.len()) == 256 * p) by {
            vstd::arithmetic::power::lemma_pow_adds(256, 1, (s.len() - 1) as nat);
            vstd::arithmetic::power::lemma_pow1(256);
        }
        let a = from_be(s.drop_last());
        let b = s.last() as int;
        assert(a * 256 + b < 256 * p) by (nonlinear_arith)
            requires
                a < p,
                0 <= b < 256,
        ;
    }
}

/// The `n` big-endian bytes of `v`.
pub fn be_bytes_of(v: u128, n: usize) -> (r: Vec<u8>)
    ensures
        r@ == be_bytes(v as nat, n as nat),
    decreases n,
{
    if n == 0 {
        Vec::new()
    } else {
        let mut r = be_bytes_of(v / 256, n - 1);
        r.push((v % 256) as u8);
        r
    }
}

/// A value that can serve as a key, and the bytes it is stored under.
pub trait IntoLevelDBKey {
    spec fn key_bytes(&self) -> Seq<u8>;

    fn to_key_bytes(&self) -> (r: Vec<u8>)
        ensures
            r@ == self.key_bytes(),
    ;
}

impl IntoLevelDBKey for [u8] {
    open spec fn key_bytes(&self) -> Seq<u8> {
        self@
    }

    fn to_key_bytes(&self) -> (r: Vec<u8>) {
        slice_to_vec(self)
    }
}

impl IntoLevelDBKey for Vec<u8> {
    open spec fn key_bytes(&self) -> Seq<u8> {
        self@
    }

    fn to_key_bytes(&self) -> (r: Vec<u8>) {
        slice_to_vec(self.as_slice())
    }
}

impl IntoLevelDBKey for str {
    open spec fn key_bytes(&self) -> Seq<u8> {
        self.spec_bytes()
    }

    fn to_key_bytes(&self) -> (r: Vec<u8>) {
        slice_to_vec(self.as_bytes())
    }
}

impl IntoLevelDBKey for String {
    open spec fn key_bytes(&self) -> Seq<u8> {
        vstd::utf8::encode_utf8(self@)
    }

    fn to_key_bytes(&self) -> (r: Vec<u8>) {
        slice_to_vec(self.as_str().as_bytes())
    }
}

impl IntoLevelDBKey for i8 {
    open spec fn key_bytes(&self) -> Seq<u8> {
        be_bytes((*self as u8) as nat, 1)
    }

    fn to_key_bytes(&self) -> (r: Vec<u8>) {
        be_bytes_of((*self as u8) as u128, 1)
    }
}

impl IntoLevelDBKey for i16 {
    open spec fn key_bytes(&self) -> Seq<u8> {
        be_bytes((*self as u16) as nat, 2)
    }

    fn to_key_bytes(&self) -> (r: Vec<u8>) {
        be_bytes_of((*self as u16) as u128, 2)
    }
}

impl IntoLevelDBKey for i32 {
    open spec fn key_bytes(&self) -> Seq<u8> {
        be_bytes((*self as u32) as nat, 4)
    }

    fn to_key_bytes(&self) -> (r: Vec<u8>) {
        be_bytes_of((*self as u32) as u128, 4)
    }
}

impl IntoLevelDBKey for i64 {
    open spec fn key_bytes(&self) -> Seq<u8> {
        be_bytes((*self as u64) as nat, 8)
    }

    fn to_key_bytes(&self) -> (r: Vec<u8>) {
        be_bytes_of((*self as u64) as u128, 8)
    }
}

impl IntoLevelDBKey for i128 {
    open spec fn key_bytes(&self) -> Seq<u8> {
        be_bytes((*self as u128) as nat, 16)
    }

    fn to_key_bytes(&self) -> (r: Vec<u8>) {
        be_bytes_of((*self as u128) as u128, 16)
    }
}

impl IntoLevelDBKey for u8 {
    open spec fn key_bytes(&self) -> Seq<u8> {
        be_bytes((*self as u8) as nat, 1)
    }

    fn to_key_bytes(&self) -> (r: Vec<u8>) {
        be_bytes_of((*self as u8) as u128, 1)
    }
}

impl IntoLevelDBKey for u16 {
    open spec fn key_bytes(&self) -> Seq<u8> {
        be_bytes((*self as u16) as nat, 2)
    }

    fn to_key_bytes(&self) -> (r: Vec<u8>) {
        be_bytes_of((*self as u16) as u128, 2)
    }
}

impl IntoLevelDBKey for u32 {
    open spec fn key_bytes(&self) -> Seq<u8> {
        be_bytes((*self as u32) as nat, 4)
    }

    fn to_key_bytes(&self) -> (r: Vec<u8>) {
        be_bytes_of((*self as u32) as u128, 4)
    }
}

impl IntoLevelDBKey for u64 {
    open spec fn key_bytes(&self) -> Seq<u8> {
        be_bytes((*self as u64) as nat, 8)
    }

    fn to_key_bytes(&self) -> (r: Vec<u8>) {
        be_bytes_of((*self as u64) as u128, 8)
    }
}

impl IntoLevelDBKey for u128 {
    open spec fn key_bytes(&self) -> Seq<u8> {
        be_bytes((*self as u128) as nat, 16)
    }

    fn to_key_bytes(&self) -> (r: Vec<u8>) {
        be_bytes_of((*self as u128) as u128, 16)
    }
}

} // verus!
