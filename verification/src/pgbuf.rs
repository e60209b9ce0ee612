//! Writing protocol values into an output buffer.
//!
//! A buffer cannot grow past [`buf_limit`], so every write here first asks
//! whether what it is about to append still fits, and reports
//! [`EncodeError::BufferFull`] without touching the buffer when it does not.
//! What a write appends is stated as an [`Emit`]: the bytes, and the error,
//! if any, that stopped the write after them.

use crate::buffer::{
    buf_bytes,
    buf_len,
    buf_limit,
    buf_put_i16,
    buf_put_i32,
    buf_put_i64,
    buf_put_slice,
    buf_put_u16,
    buf_put_u32,
    buf_put_u8,
};
use crate::error::EncodeError;
use crate::format::Format;
use crate::wire::{be16, be32, be_i16, be_i32, be_i64};
use bytes::BytesMut;
use vstd::prelude::*;
use vstd::string::*;
use vstd::utf8::encode_utf8;

verus! {

/// What an encoder appends when nothing limits the buffer: `bytes`, and then
/// either it is done (`err` is `None`) or it stops with an error of its own.
pub struct Emit {
    pub bytes: Seq<u8>,
    pub err: Option<EncodeError>,
}

impl Emit {
    /// Appends `bytes` and is done.
    pub open spec fn done(bytes: Seq<u8>) -> Emit {
        Emit { bytes, err: None }
    }

    /// Appends `bytes` and stops with `e`.
    pub open spec fn failed(bytes: Seq<u8>, e: EncodeError) -> Emit {
        Emit { bytes, err: Some(e) }
    }

    /// This, and then `next` unless this stopped with an error.
    pub open spec fn followed_by(self, next: Emit) -> Emit {
        if self.err is Some {
            self
        } else {
            Emit { bytes: self.bytes + next.bytes, err: next.err }
        }
    }

    /// What the encoder returns.
    pub open spec fn result(self) -> Result<(), EncodeError> {
        match self.err {
            None => Ok(()),
            Some(e) => Err(e),
        }
    }
}

/// Whether `n` more bytes fit into the buffer. Nothing always fits.
pub open spec fn fits(b: BytesMut, n: int) -> bool {
    n == 0 || buf_bytes(b).len() + n <= buf_limit()
}

/// The outcome of a write that is all or nothing: where `chunk` fits it is
/// appended; where it does not, the buffer is left alone and the write
/// fails with `BufferFull`.
pub open spec fn wrote(
    before: BytesMut,
    after: BytesMut,
    r: Result<(), EncodeError>,
    chunk: Seq<u8>,
) -> bool {
    if fits(before, chunk.len() as int) {
        r == Ok::<(), EncodeError>(()) && buf_bytes(after) == buf_bytes(before) + chunk
    } else {
        r == Err::<(), EncodeError>(EncodeError::BufferFull) && buf_bytes(after) == buf_bytes(
            before,
        )
    }
}

/// The outcome of an encoder that emits `em`: where the bytes of `em` fit,
/// exactly they are appended and the result is that of `em`; where they do
/// not, the encoder fails with `BufferFull`, having appended some of them.
pub open spec fn emitted(
    before: BytesMut,
    after: BytesMut,
    r: Result<(), EncodeError>,
    em: Emit,
) -> bool {
    if fits(before, em.bytes.len() as int) {
        r == em.result() && buf_bytes(after) == buf_bytes(before) + em.bytes
    } else {
        r == Err::<(), EncodeError>(EncodeError::BufferFull) && buf_bytes(before).is_prefix_of(
            buf_bytes(after),
        )
    }
}

/// A string as it goes on the wire: its UTF-8 bytes and a NUL.
pub open spec fn cstr(text: Seq<char>) -> Seq<u8> {
    encode_utf8(text).push(0u8)
}

/// A list length as it goes on the wire: a signed 16-bit count, which
/// cannot say more than `i16::MAX`.
pub open spec fn spec_length_i16(len: nat) -> Emit {
    if len > i16::MAX {
        Emit::failed(Seq::empty(), EncodeError::LengthOverflow)
    } else {
        Emit::done(be_i16(len as i16))
    }
}

/// A format as a 16-bit format code.
pub open spec fn format_i16(format: Format) -> Seq<u8> {
    seq![0u8, format.spec_code()]
}

/// A write that is all or nothing emits its chunk.
pub proof fn lemma_wrote_emitted(
    before: BytesMut,
    after: BytesMut,
    r: Result<(), EncodeError>,
    chunk: Seq<u8>,
)
    requires
        wrote(before, after, r, chunk),
    ensures
        emitted(before, after, r, Emit::done(chunk)),
{
    assert(buf_bytes(before).is_prefix_of(buf_bytes(before)));
}

/// Two encoders in a row emit what the first emits and then what the second
/// emits: `mid` is the buffer between them, and where the first failed the
/// second did not run.
pub proof fn lemma_emitted_then(
    before: BytesMut,
    mid: BytesMut,
    after: BytesMut,
    first: Result<(), EncodeError>,
    r: Result<(), EncodeError>,
    em1: Emit,
    em2: Emit,
)
    requires
        emitted(before, mid, first, em1),
        first is Ok ==> emitted(mid, after, r, em2),
        first is Err ==> r == first && after == mid,
    ensures
        emitted(before, after, r, em1.followed_by(em2)),
{
    let b0 = buf_bytes(before);
    let b1 = buf_bytes(mid);
    let b2 = buf_bytes(after);
    if first is Ok {
        assert(b1 == b0 + em1.bytes);
        if fits(mid, em2.bytes.len() as int) {
            assert(b2 =~= b0 + (em1.bytes + em2.bytes));
        } else {
            assert(b0.is_prefix_of(b1));
            assert(b1.is_prefix_of(b2));
            assert(b0.is_prefix_of(b2));
        }
    }
}

/// Whether `n` more bytes fit into `dst`.
pub fn has_room(dst: &BytesMut, n: usize) -> (b: bool)
    ensures
        b == fits(*dst, n as int),
{
    let limit: usize = isize::MAX as usize;
    n == 0 || (n <= limit && buf_len(dst) <= limit - n)
}

/// Appends one byte.
pub fn put_u8(dst: &mut BytesMut, n: u8) -> (r: Result<(), EncodeError>)
    ensures
        wrote(*old(dst), *final(dst), r, seq![n]),
{
    if !has_room(dst, 1) {
        return Err(EncodeError::BufferFull);
    }
    buf_put_u8(dst, n);
    assert(buf_bytes(*dst) =~= buf_bytes(*old(dst)) + seq![n]);
    Ok(())
}

/// Appends an unsigned 16-bit integer, big-endian.
pub fn put_u16(dst: &mut BytesMut, n: u16) -> (r: Result<(), EncodeError>)
    ensures
        wrote(*old(dst), *final(dst), r, be16(n as int)),
{
    if !has_room(dst, 2) {
        return Err(EncodeError::BufferFull);
    }
    buf_put_u16(dst, n);
    Ok(())
}

/// Appends a signed 16-bit integer, big-endian.
pub fn put_i16(dst: &mut BytesMut, n: i16) -> (r: Result<(), EncodeError>)
    ensures
        wrote(*old(dst), *final(dst), r, be_i16(n)),
{
    if !has_room(dst, 2) {
        return Err(EncodeError::BufferFull);
    }
    buf_put_i16(dst, n);
    Ok(())
}

/// Appends an unsigned 32-bit integer, big-endian.
pub fn put_u32(dst: &mut BytesMut, n: u32) -> (r: Result<(), EncodeError>)
    ensures
        wrote(*old(dst), *final(dst), r, be32(n as int)),
{
    if !has_room(dst, 4) {
        return Err(EncodeError::BufferFull);
    }
    buf_put_u32(dst, n);
    Ok(())
}

/// Appends a signed 32-bit integer, big-endian.
pub fn put_i32(dst: &mut BytesMut, n: i32) -> (r: Result<(), EncodeError>)
    ensures
        wrote(*old(dst), *final(dst), r, be_i32(n)),
{
    if !has_room(dst, 4) {
        return Err(EncodeError::BufferFull);
    }
    buf_put_i32(dst, n);
    Ok(())
}

/// Appends a signed 64-bit integer, big-endian.
pub fn put_i64(dst: &mut BytesMut, n: i64) -> (r: Result<(), EncodeError>)
    ensures
        wrote(*old(dst), *final(dst), r, be_i64(n)),
{
    if !has_room(dst, 8) {
        return Err(EncodeError::BufferFull);
    }
    buf_put_i64(dst, n);
    Ok(())
}

/// Appends the bytes of `src`.
pub fn put_slice(dst: &mut BytesMut, src: &[u8]) -> (r: Result<(), EncodeError>)
    ensures
        wrote(*old(dst), *final(dst), r, src@),
{
    if src.len() == 0 {
        assert(buf_bytes(*dst) =~= buf_bytes(*dst) + src@);
        return Ok(());
    }
    if !has_room(dst, src.len()) {
        return Err(EncodeError::BufferFull);
    }
    buf_put_slice(dst, src);
    Ok(())
}

/// Appends a string and the NUL that ends it.
pub fn put_string(dst: &mut BytesMut, s: &str) -> (r: Result<(), EncodeError>)
    ensures
        wrote(*old(dst), *final(dst), r, cstr(s@)),
{
    let text = s.as_bytes();
    if text.len() >= isize::MAX as usize || !has_room(dst, text.len() + 1) {
        return Err(EncodeError::BufferFull);
    }
    buf_put_slice(dst, text);
    buf_put_u8(dst, 0);
    Ok(())
}

/// Appends the length of a list as a signed 16-bit count, or fails where
/// the length is more than such a count can say.
pub fn put_length_i16(dst: &mut BytesMut, len: usize) -> (r: Result<(), EncodeError>)
    ensures
        emitted(*old(dst), *final(dst), r, spec_length_i16(len as nat)),
{
    if len > i16::MAX as usize {
        assert(buf_bytes(*dst) =~= buf_bytes(*dst) + Seq::<u8>::empty());
        return Err(EncodeError::LengthOverflow);
    }
    let r = put_i16(dst, len as i16);
    proof {
        lemma_wrote_emitted(*old(dst), *dst, r, be_i16(len as i16));
    }
    r
}

/// Appends a format as a one-byte format code.
pub fn put_format_i8(dst: &mut BytesMut, format: Format) -> (r: Result<(), EncodeError>)
    ensures
        wrote(*old(dst), *final(dst), r, seq![format.spec_code()]),
{
    put_u8(dst, format.code())
}

/// Appends a format as a 16-bit format code.
pub fn put_format_i16(dst: &mut BytesMut, format: Format) -> (r: Result<(), EncodeError>)
    ensures
        wrote(*old(dst), *final(dst), r, format_i16(format)),
{
    if !has_room(dst, 2) {
        return Err(EncodeError::BufferFull);
    }
    buf_put_u8(dst, 0);
    buf_put_u8(dst, format.code());
    assert(buf_bytes(*dst) =~= buf_bytes(*old(dst)) + format_i16(format));
    Ok(())
}

} // verus!
