//! Big-endian integer layout, as a mathematical model.
//!
//! Every multi-byte integer on the wire is big-endian; signed integers are
//! two's complement. The functions here say which bytes stand for which
//! number, in both directions, and the lemmas show the two directions agree.

use vstd::prelude::*;

verus! {

/// The two bytes of `n`, most significant first, for `0 <= n < 2^16`.
pub open spec fn be16(n: int) -> Seq<u8> {
    seq![(n / 0x100) as u8, (n % 0x100) as u8]
}

/// The four bytes of `n`, most significant first, for `0 <= n < 2^32`.
pub open spec fn be32(n: int) -> Seq<u8> {
    seq![
        (n / 0x100_0000) as u8,
        ((n / 0x1_0000) % 0x100) as u8,
        ((n / 0x100) % 0x100) as u8,
        (n % 0x100) as u8,
    ]
}

/// The eight bytes of `n`, most significant first, for `0 <= n < 2^64`.
pub open spec fn be64(n: int) -> Seq<u8> {
    be32(n / 0x1_0000_0000) + be32(n % 0x1_0000_0000)
}

/// The unsigned number below `modulus` that is congruent to `n`, for
/// `-modulus / 2 <= n < modulus / 2`: the two's complement pattern of `n`.
pub open spec fn twos_complement(n: int, modulus: int) -> int {
    if n < 0 {
        n + modulus
    } else {
        n
    }
}

/// The wire bytes of an `i16`.
pub open spec fn be_i16(n: i16) -> Seq<u8> {
    be16(twos_complement(n as int, 0x1_0000))
}

/// The wire bytes of an `i32`.
pub open spec fn be_i32(n: i32) -> Seq<u8> {
    be32(twos_complement(n as int, 0x1_0000_0000))
}

/// The wire bytes of an `i64`.
pub open spec fn be_i64(n: i64) -> Seq<u8> {
    be64(twos_complement(n as int, 0x1_0000_0000_0000_0000))
}

/// The unsigned number that the first two bytes of `s` stand for.
pub open spec fn u16_at(s: Seq<u8>) -> int
    recommends
        s.len() >= 2,
{
    s[0] as int * 0x100 + s[1] as int
}

/// The unsigned number that the first four bytes of `s` stand for.
pub open spec fn u32_at(s: Seq<u8>) -> int
    recommends
        s.len() >= 4,
{
    s[0] as int * 0x100_0000 + s[1] as int * 0x1_0000 + s[2] as int * 0x100 + s[3] as int
}

/// The signed number that the first two bytes of `s` stand for.
pub open spec fn i16_at(s: Seq<u8>) -> int
    recommends
        s.len() >= 2,
{
    let u = u16_at(s);
    if u >= 0x8000 {
        u - 0x1_0000
    } else {
        u
    }
}

/// The signed number that the first four bytes of `s` stand for.
pub open spec fn i32_at(s: Seq<u8>) -> int
    recommends
        s.len() >= 4,
{
    let u = u32_at(s);
    if u >= 0x8000_0000 {
        u - 0x1_0000_0000
    } else {
        u
    }
}

/// Reading back what `be32` wrote gives the number written.
pub proof fn lemma_be32_roundtrip(n: int)
    requires
        0 <= n < 0x1_0000_0000,
    ensures
        be32(n).len() == 4,
        u32_at(be32(n)) == n,
{
}

/// Reading back the bytes of an `i32` gives that `i32`.
pub proof fn lemma_be_i32_roundtrip(n: i32)
    ensures
        be_i32(n).len() == 4,
        i32_at(be_i32(n)) == n,
{
    lemma_be32_roundtrip(twos_complement(n as int, 0x1_0000_0000));
}

/// Reads a big-endian `u16` off the front of `s`.
pub fn read_u16_be(s: &[u8]) -> (n: u16)
    requires
        s@.len() >= 2,
    ensures
        n == u16_at(s@),
{
    let hi: u16 = s[0] as u16;
    let lo: u16 = s[1] as u16;
    hi * 0x100 + lo
}

/// Reads a big-endian `i16` off the front of `s`.
pub fn read_i16_be(s: &[u8]) -> (n: i16)
    requires
        s@.len() >= 2,
    ensures
        n == i16_at(s@),
{
    let u: u16 = read_u16_be(s);
    if u >= 0x8000 {
        (u as i32 - 0x1_0000) as i16
    } else {
        u as i16
    }
}

/// Reads a big-endian `u32` off the front of `s`.
pub fn read_u32_be(s: &[u8]) -> (n: u32)
    requires
        s@.len() >= 4,
    ensures
        n == u32_at(s@),
{
    let b0: u32 = s[0] as u32;
    let b1: u32 = s[1] as u32;
    let b2: u32 = s[2] as u32;
    let b3: u32 = s[3] as u32;
    b0 * 0x100_0000 + b1 * 0x1_0000 + b2 * 0x100 + b3
}

/// Reads a big-endian `i32` off the front of `s`.
pub fn read_i32_be(s: &[u8]) -> (n: i32)
    requires
        s@.len() >= 4,
    ensures
        n == i32_at(s@),
{
    let u: u32 = read_u32_be(s);
    if u >= 0x8000_0000 {
        (u as i64 - 0x1_0000_0000) as i32
    } else {
        u as i32
    }
}

} // verus!
