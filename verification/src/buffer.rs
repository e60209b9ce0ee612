//! The boundary to `bytes::BytesMut`.
//!
//! Verus cannot look inside a `BytesMut`, so its contents are given a name,
//! [`buf_bytes`], and each method the codec calls is wrapped by a function
//! whose contract restates the method's documentation over that name. Nothing
//! in this module is proved; everything else in the crate is proved from it.

use crate::wire::{be16, be32, be_i16, be_i32, be_i64};
use bytes::{Buf, BufMut, BytesMut};
use vstd::prelude::*;

verus! {

/// `bytes::BytesMut`, as a type whose inside the verifier does not see.
#[verifier::external_type_specification]
#[verifier::external_body]
pub struct ExBytesMut(bytes::BytesMut);

/// The bytes a buffer holds, front to back.
pub uninterp spec fn buf_bytes(b: BytesMut) -> Seq<u8>;

/// The largest length a buffer can reach: a `BytesMut` reports
/// `isize::MAX - len` as the room it has left.
pub open spec fn buf_limit() -> int {
    isize::MAX as int
}

/// `BytesMut::len`: the number of bytes held.
#[verifier::external_body]
pub(crate) fn buf_len(b: &BytesMut) -> (n: usize)
    ensures
        n == buf_bytes(*b).len(),
{
    b.len()
}

/// `AsRef<[u8]>::as_ref` on a `BytesMut`: the contents as a slice.
#[verifier::external_body]
pub(crate) fn buf_as_slice(b: &BytesMut) -> (s: &[u8])
    ensures
        s@ == buf_bytes(*b),
{
    b.as_ref()
}

/// `Buf::advance` on a `BytesMut`: drops the first `cnt` bytes. It panics
/// when `cnt` exceeds the length, so that is excluded.
#[verifier::external_body]
pub(crate) fn buf_advance(b: &mut BytesMut, cnt: usize)
    requires
        cnt <= buf_bytes(*old(b)).len(),
    ensures
        buf_bytes(*final(b)) == buf_bytes(*old(b)).skip(cnt as int),
{
    b.advance(cnt)
}

/// `BytesMut::split_to`: removes the first `at` bytes and returns them as a
/// buffer of their own. It panics when `at` exceeds the length, so that is
/// excluded.
#[verifier::external_body]
pub(crate) fn buf_split_to(b: &mut BytesMut, at: usize) -> (head: BytesMut)
    requires
        at <= buf_bytes(*old(b)).len(),
    ensures
        buf_bytes(head) == buf_bytes(*old(b)).take(at as int),
        buf_bytes(*final(b)) == buf_bytes(*old(b)).skip(at as int),
{
    b.split_to(at)
}

/// `BytesMut::reserve`: makes room for `additional` more bytes and leaves
/// the contents as they are. It panics when the capacity asked for
/// overflows, so that is excluded.
#[verifier::external_body]
pub(crate) fn buf_reserve(b: &mut BytesMut, additional: usize)
    requires
        buf_bytes(*old(b)).len() + additional <= buf_limit(),
    ensures
        buf_bytes(*final(b)) == buf_bytes(*old(b)),
{
    b.reserve(additional)
}

/// `BufMut::put_slice` on a `BytesMut`: appends `src`. Growing past
/// `buf_limit()` panics, so that is excluded.
#[verifier::external_body]
pub(crate) fn buf_put_slice(b: &mut BytesMut, src: &[u8])
    requires
        buf_bytes(*old(b)).len() + src@.len() <= buf_limit(),
    ensures
        buf_bytes(*final(b)) == buf_bytes(*old(b)) + src@,
{
    b.put_slice(src)
}

/// `BufMut::put_u8` on a `BytesMut`: appends one byte. Growing past
/// `buf_limit()` panics, so that is excluded.
#[verifier::external_body]
pub(crate) fn buf_put_u8(b: &mut BytesMut, n: u8)
    requires
        buf_bytes(*old(b)).len() + 1 <= buf_limit(),
    ensures
        buf_bytes(*final(b)) == buf_bytes(*old(b)).push(n),
{
    b.put_u8(n)
}

/// `BufMut::put_u16` on a `BytesMut`: appends `n` in big-endian byte order.
/// Growing past `buf_limit()` panics, so that is excluded.
#[verifier::external_body]
pub(crate) fn buf_put_u16(b: &mut BytesMut, n: u16)
    requires
        buf_bytes(*old(b)).len() + 2 <= buf_limit(),
    ensures
        buf_bytes(*final(b)) == buf_bytes(*old(b)) + be16(n as int),
{
    b.put_u16(n)
}

/// `BufMut::put_i16` on a `BytesMut`: appends `n` in big-endian byte order,
/// two's complement. Growing past `buf_limit()` panics, so that is excluded.
#[verifier::external_body]
pub(crate) fn buf_put_i16(b: &mut BytesMut, n: i16)
    requires
        buf_bytes(*old(b)).len() + 2 <= buf_limit(),
    ensures
        buf_bytes(*final(b)) == buf_bytes(*old(b)) + be_i16(n),
{
    b.put_i16(n)
}

/// `BufMut::put_u32` on a `BytesMut`: appends `n` in big-endian byte order.
/// Growing past `buf_limit()` panics, so that is excluded.
#[verifier::external_body]
pub(crate) fn buf_put_u32(b: &mut BytesMut, n: u32)
    requires
        buf_bytes(*old(b)).len() + 4 <= buf_limit(),
    ensures
        buf_bytes(*final(b)) == buf_bytes(*old(b)) + be32(n as int),
{
    b.put_u32(n)
}

/// `BufMut::put_i32` on a `BytesMut`: appends `n` in big-endian byte order,
/// two's complement. Growing past `buf_limit()` panics, so that is excluded.
#[verifier::external_body]
pub(crate) fn buf_put_i32(b: &mut BytesMut, n: i32)
    requires
        buf_bytes(*old(b)).len() + 4 <= buf_limit(),
    ensures
        buf_bytes(*final(b)) == buf_bytes(*old(b)) + be_i32(n),
{
    b.put_i32(n)
}

/// `BufMut::put_i64` on a `BytesMut`: appends `n` in big-endian byte order,
/// two's complement. Growing past `buf_limit()` panics, so that is excluded.
#[verifier::external_body]
pub(crate) fn buf_put_i64(b: &mut BytesMut, n: i64)
    requires
        buf_bytes(*old(b)).len() + 8 <= buf_limit(),
    ensures
        buf_bytes(*final(b)) == buf_bytes(*old(b)) + be_i64(n),
{
    b.put_i64(n)
}

/// `AsMut<[u8]>::as_mut` on a `BytesMut`: the contents as a slice that can
/// be written through. What the slice holds when the borrow ends is what
/// the buffer holds from then on.
#[verifier::external_body]
pub(crate) fn buf_as_mut_slice(b: &mut BytesMut) -> (s: &mut [u8])
    ensures
        s@ == buf_bytes(*old(b)),
        buf_bytes(*final(b)) == final(s)@,
{
    b.as_mut()
}

} // verus!
