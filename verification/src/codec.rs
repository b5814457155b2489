//! The wire format of the messages.
//!
//! Integers are written in network order, the most significant byte first.
//! What a value is written as, is a sequence of bytes that a spec function
//! gives; a decoder reads a value at a position of a buffer and says where
//! the value ends.
use crate::error::{Error, ErrorKind};
use vstd::prelude::*;

pub mod frame;
pub mod hyparview;
pub mod net;
pub mod node;
pub mod plumtree;

verus! {

/// The bytes `e` stand in `b` from position `at` on.
pub open spec fn holds_at(b: Seq<u8>, at: int, e: Seq<u8>) -> bool {
    &&& 0 <= at
    &&& at + e.len() <= b.len()
    &&& forall|i: int| 0 <= i < e.len() ==> b[at + i] == #[trigger] e[i]
}

/// Where `e1 + e2` stands, `e1` stands, and `e2` right behind it.
pub proof fn lemma_holds_at_concat(b: Seq<u8>, at: int, e1: Seq<u8>, e2: Seq<u8>)
    requires
        holds_at(b, at, e1 + e2),
    ensures
        holds_at(b, at, e1),
        holds_at(b, at + e1.len(), e2),
{
    assert forall|i: int| 0 <= i < e1.len() implies b[at + i] == #[trigger] e1[i] by {
        assert((e1 + e2)[i] == e1[i]);
    }
    assert forall|i: int| 0 <= i < e2.len() implies b[at + e1.len() + i] == #[trigger] e2[i] by {
        assert((e1 + e2)[e1.len() + i] == e2[i]);
    }
}

/// Joining three sequences of bytes gives the same, whichever two are joined first.
pub proof fn lemma_concat_assoc(a: Seq<u8>, b: Seq<u8>, c: Seq<u8>)
    ensures
        (a + b) + c == a + (b + c),
{
    assert((a + b) + c =~= a + (b + c));
}

/// Every sequence of bytes stands in itself from the start on.
pub proof fn lemma_holds_at_self(e: Seq<u8>)
    ensures
        holds_at(e, 0, e),
{
}

/// The two bytes of a 16-bit number.
pub open spec fn be_u16(x: u16) -> Seq<u8> {
    seq![(x / 0x100) as u8, (x % 0x100) as u8]
}

/// The four bytes of a 32-bit number.
pub open spec fn be_u32(x: u32) -> Seq<u8> {
    be_u16((x / 0x1_0000) as u16) + be_u16((x % 0x1_0000) as u16)
}

/// The eight bytes of a 64-bit number.
pub open spec fn be_u64(x: u64) -> Seq<u8> {
    be_u32((x / 0x1_0000_0000) as u32) + be_u32((x % 0x1_0000_0000) as u32)
}

/// The sixteen bytes of a 128-bit number.
pub open spec fn be_u128(x: u128) -> Seq<u8> {
    be_u64((x / 0x1_0000_0000_0000_0000) as u64) + be_u64((x % 0x1_0000_0000_0000_0000) as u64)
}

/// The byte of a truth value: one for true, zero for false.
pub open spec fn be_bool(x: bool) -> Seq<u8> {
    seq![if x { 1u8 } else { 0u8 }]
}

/// The 16-bit number whose bytes stand in `b` at `at`.
pub open spec fn u16_at(b: Seq<u8>, at: int) -> u16 {
    (b[at] as int * 0x100 + b[at + 1] as int) as u16
}

/// The 32-bit number whose bytes stand in `b` at `at`.
pub open spec fn u32_at(b: Seq<u8>, at: int) -> u32 {
    (u16_at(b, at) as int * 0x1_0000 + u16_at(b, at + 2) as int) as u32
}

/// The 64-bit number whose bytes stand in `b` at `at`.
pub open spec fn u64_at(b: Seq<u8>, at: int) -> u64 {
    (u32_at(b, at) as int * 0x1_0000_0000 + u32_at(b, at + 4) as int) as u64
}

/// The 128-bit number whose bytes stand in `b` at `at`.
pub open spec fn u128_at(b: Seq<u8>, at: int) -> u128 {
    (u64_at(b, at) as int * 0x1_0000_0000_0000_0000 + u64_at(b, at + 8) as int) as u128
}

/// A 16-bit number has two bytes.
pub proof fn lemma_be_u16_len(x: u16)
    ensures
        be_u16(x).len() == 2,
{
}

/// A 32-bit number has four bytes.
pub proof fn lemma_be_u32_len(x: u32)
    ensures
        be_u32(x).len() == 4,
{
    lemma_be_u16_len((x / 0x1_0000) as u16);
    lemma_be_u16_len((x % 0x1_0000) as u16);
}

/// A 64-bit number has eight bytes.
pub proof fn lemma_be_u64_len(x: u64)
    ensures
        be_u64(x).len() == 8,
{
    lemma_be_u32_len((x / 0x1_0000_0000) as u32);
    lemma_be_u32_len((x % 0x1_0000_0000) as u32);
}

/// A 128-bit number has sixteen bytes.
pub proof fn lemma_be_u128_len(x: u128)
    ensures
        be_u128(x).len() == 16,
{
    lemma_be_u64_len((x / 0x1_0000_0000_0000_0000) as u64);
    lemma_be_u64_len((x % 0x1_0000_0000_0000_0000) as u64);
}

/// A 16-bit number is read as it was written.
pub proof fn lemma_u16_round_trip(b: Seq<u8>, at: int, x: u16)
    requires
        holds_at(b, at, be_u16(x)),
    ensures
        u16_at(b, at) == x,
        be_u16(x).len() == 2,
{
    assert(b[at + 0] == be_u16(x)[0]);
    assert(b[at + 1] == be_u16(x)[1]);
}

/// A 32-bit number is read as it was written.
pub proof fn lemma_u32_round_trip(b: Seq<u8>, at: int, x: u32)
    requires
        holds_at(b, at, be_u32(x)),
    ensures
        u32_at(b, at) == x,
        be_u32(x).len() == 4,
{
    let hi = (x / 0x1_0000) as u16;
    let lo = (x % 0x1_0000) as u16;
    lemma_holds_at_concat(b, at, be_u16(hi), be_u16(lo));
    lemma_u16_round_trip(b, at, hi);
    lemma_u16_round_trip(b, at + 2, lo);
}

/// A 64-bit number is read as it was written.
pub proof fn lemma_u64_round_trip(b: Seq<u8>, at: int, x: u64)
    requires
        holds_at(b, at, be_u64(x)),
    ensures
        u64_at(b, at) == x,
        be_u64(x).len() == 8,
{
    let hi = (x / 0x1_0000_0000) as u32;
    let lo = (x % 0x1_0000_0000) as u32;
    lemma_holds_at_concat(b, at, be_u32(hi), be_u32(lo));
    lemma_u32_round_trip(b, at, hi);
    lemma_u32_round_trip(b, at + 4, lo);
}

/// A 128-bit number is read as it was written.
pub proof fn lemma_u128_round_trip(b: Seq<u8>, at: int, x: u128)
    requires
        holds_at(b, at, be_u128(x)),
    ensures
        u128_at(b, at) == x,
        be_u128(x).len() == 16,
{
    let hi = (x / 0x1_0000_0000_0000_0000) as u64;
    let lo = (x % 0x1_0000_0000_0000_0000) as u64;
    lemma_holds_at_concat(b, at, be_u64(hi), be_u64(lo));
    lemma_u64_round_trip(b, at, hi);
    lemma_u64_round_trip(b, at + 8, lo);
}

/// Makes the error of a frame that cannot be read.
pub fn invalid_input() -> (e: Error)
    ensures
        e == (Error { kind: ErrorKind::InvalidInput }),
{
    Error::new(ErrorKind::InvalidInput)
}

/// Writes a byte.
pub fn put_u8(out: &mut Vec<u8>, x: u8)
    ensures
        final(out)@ == old(out)@ + seq![x],
{
    out.push(x);
}

/// Writes a truth value.
pub fn put_bool(out: &mut Vec<u8>, x: bool)
    ensures
        final(out)@ == old(out)@ + be_bool(x),
{
    out.push(if x { 1 } else { 0 });
}

/// Writes a 16-bit number.
pub fn put_u16(out: &mut Vec<u8>, x: u16)
    ensures
        final(out)@ == old(out)@ + be_u16(x),
{
    out.push((x / 0x100) as u8);
    out.push((x % 0x100) as u8);
    proof {
        assert(out@ =~= old(out)@ + be_u16(x));
    }
}

/// Writes a 32-bit number.
pub fn put_u32(out: &mut Vec<u8>, x: u32)
    ensures
        final(out)@ == old(out)@ + be_u32(x),
{
    put_u16(out, (x / 0x1_0000) as u16);
    put_u16(out, (x % 0x1_0000) as u16);
    proof {
        assert(out@ =~= old(out)@ + be_u32(x));
    }
}

/// Writes a 64-bit number.
pub fn put_u64(out: &mut Vec<u8>, x: u64)
    ensures
        final(out)@ == old(out)@ + be_u64(x),
{
    put_u32(out, (x / 0x1_0000_0000) as u32);
    put_u32(out, (x % 0x1_0000_0000) as u32);
    proof {
        assert(out@ =~= old(out)@ + be_u64(x));
    }
}

/// Writes a 128-bit number.
pub fn put_u128(out: &mut Vec<u8>, x: u128)
    ensures
        final(out)@ == old(out)@ + be_u128(x),
{
    put_u64(out, (x / 0x1_0000_0000_0000_0000) as u64);
    put_u64(out, (x % 0x1_0000_0000_0000_0000) as u64);
    proof {
        assert(out@ =~= old(out)@ + be_u128(x));
    }
}

/// Reads the byte at `at`.
pub(crate) fn get_u8(buf: &[u8], at: usize) -> (r: u8)
    requires
        at < buf.len(),
    ensures
        r == buf@[at as int],
{
    buf[at]
}

/// Reads the 16-bit number at `at`.
pub(crate) fn get_u16(buf: &[u8], at: usize) -> (r: u16)
    requires
        at + 2 <= buf.len(),
    ensures
        r == u16_at(buf@, at as int),
{
    let hi: u16 = buf[at] as u16;
    let lo: u16 = buf[at + 1] as u16;
    hi * 0x100 + lo
}

/// Reads the 32-bit number at `at`.
pub(crate) fn get_u32(buf: &[u8], at: usize) -> (r: u32)
    requires
        at + 4 <= buf.len(),
    ensures
        r == u32_at(buf@, at as int),
{
    let hi: u32 = get_u16(buf, at) as u32;
    let lo: u32 = get_u16(buf, at + 2) as u32;
    hi * 0x1_0000 + lo
}

/// Reads the 64-bit number at `at`.
pub(crate) fn get_u64(buf: &[u8], at: usize) -> (r: u64)
    requires
        at + 8 <= buf.len(),
    ensures
        r == u64_at(buf@, at as int),
{
    let hi: u64 = get_u32(buf, at) as u64;
    let lo: u64 = get_u32(buf, at + 4) as u64;
    hi * 0x1_0000_0000 + lo
}

/// Reads the 128-bit number at `at`.
pub(crate) fn get_u128(buf: &[u8], at: usize) -> (r: u128)
    requires
        at + 16 <= buf.len(),
    ensures
        r == u128_at(buf@, at as int),
{
    let hi: u128 = get_u64(buf, at) as u128;
    let lo: u128 = get_u64(buf, at + 8) as u128;
    hi * 0x1_0000_0000_0000_0000 + lo
}

} // verus!
