//! Values of result rows and how each reads in the two wire formats.
//!
//! The text format is what `psql` would show; the binary format is the
//! type's network layout. The logical type of the column is handed to the
//! encoder along with the format, as the protocol has it, but every type
//! here is a scalar with one layout per format, so the format alone decides.

use crate::buffer::{buf_bytes, buf_put_u8};
use crate::error::EncodeError;
use crate::format::{Format, Type};
use crate::pgbuf::{has_room, put_i16, put_i32, put_i64, put_slice, put_u8, wrote};
use crate::text::{signed_decimal, signed_decimal_string};
use crate::wire::{be_i16, be_i32, be_i64};
use bytes::BytesMut;
use vstd::prelude::*;
use vstd::string::*;
use vstd::utf8::encode_utf8;

verus! {

/// A value of one of the logical types in [`Type`].
#[derive(Debug, PartialEq, Eq)]
pub enum Value {
    /// A boolean.
    Bool(bool),
    /// A byte string.
    Bytea(Vec<u8>),
    /// A 16-bit signed integer.
    Int2(i16),
    /// A 32-bit signed integer.
    Int4(i32),
    /// A 64-bit signed integer.
    Int8(i64),
    /// A character string.
    Text(String),
}

/// The ASCII code of the lowercase hexadecimal digit `d`.
pub open spec fn hex_digit(d: int) -> u8
    recommends
        0 <= d < 16,
{
    if d < 10 {
        (0x30 + d) as u8
    } else {
        (0x61 + d - 10) as u8
    }
}

/// Two lowercase hexadecimal digits for each byte of `b`, high nibble
/// first.
pub open spec fn hex(b: Seq<u8>) -> Seq<u8> {
    Seq::new(
        2 * b.len(),
        |i: int|
            if i % 2 == 0 {
                hex_digit(b[i / 2] as int / 16)
            } else {
                hex_digit(b[i / 2] as int % 16)
            },
    )
}

impl Value {
    /// The value in text format: `t` or `f`; a decimal number; for a byte
    /// string `\x` and its hexadecimal digits; a character string as it is.
    pub open spec fn spec_text(&self) -> Seq<u8> {
        match self {
            Value::Bool(b) => if *b {
                seq![0x74u8]
            } else {
                seq![0x66u8]
            },
            Value::Bytea(b) => seq![0x5cu8, 0x78u8] + hex(b@),
            Value::Int2(n) => encode_utf8(signed_decimal(*n as int)),
            Value::Int4(n) => encode_utf8(signed_decimal(*n as int)),
            Value::Int8(n) => encode_utf8(signed_decimal(*n as int)),
            Value::Text(s) => encode_utf8(s@),
        }
    }

    /// The value in binary format: one byte, 1 or 0; a big-endian integer
    /// of the type's width; strings of either kind as they are.
    pub open spec fn spec_binary(&self) -> Seq<u8> {
        match self {
            Value::Bool(b) => if *b {
                seq![1u8]
            } else {
                seq![0u8]
            },
            Value::Bytea(b) => b@,
            Value::Int2(n) => be_i16(*n),
            Value::Int4(n) => be_i32(*n),
            Value::Int8(n) => be_i64(*n),
            Value::Text(s) => encode_utf8(s@),
        }
    }

    /// The value as a column of type `ty` in the given format.
    pub open spec fn spec_wire(&self, ty: Type, format: Format) -> Seq<u8> {
        match format {
            Format::Text => self.spec_text(),
            Format::Binary => self.spec_binary(),
        }
    }

    /// Appends the value to `dst` as a column of type `ty` in the given
    /// format, all of it or, where it does not fit, nothing.
    pub fn encode(&self, ty: &Type, format: Format, dst: &mut BytesMut) -> (r: Result<
        (),
        EncodeError,
    >)
        ensures
            wrote(*old(dst), *final(dst), r, self.spec_wire(*ty, format)),
    {
        match format {
            Format::Text => self.encode_text(dst),
            Format::Binary => self.encode_binary(dst),
        }
    }

    /// Appends the value in text format.
    pub fn encode_text(&self, dst: &mut BytesMut) -> (r: Result<(), EncodeError>)
        ensures
            wrote(*old(dst), *final(dst), r, self.spec_text()),
    {
        match self {
            Value::Bool(b) => put_u8(
                dst,
                if *b {
                    0x74
                } else {
                    0x66
                },
            ),
            Value::Bytea(b) => put_hex(dst, b.as_slice()),
            Value::Int2(n) => put_slice(dst, signed_decimal_string(*n as i64).as_str().as_bytes()),
            Value::Int4(n) => put_slice(dst, signed_decimal_string(*n as i64).as_str().as_bytes()),
            Value::Int8(n) => put_slice(dst, signed_decimal_string(*n).as_str().as_bytes()),
            Value::Text(s) => put_slice(dst, s.as_str().as_bytes()),
        }
    }

    /// Appends the value in binary format.
    pub fn encode_binary(&self, dst: &mut BytesMut) -> (r: Result<(), EncodeError>)
        ensures
            wrote(*old(dst), *final(dst), r, self.spec_binary()),
    {
        match self {
            Value::Bool(b) => put_u8(
                dst,
                if *b {
                    1
                } else {
                    0
                },
            ),
            Value::Bytea(b) => put_slice(dst, b.as_slice()),
            Value::Int2(n) => put_i16(dst, *n),
            Value::Int4(n) => put_i32(dst, *n),
            Value::Int8(n) => put_i64(dst, *n),
            Value::Text(s) => put_slice(dst, s.as_str().as_bytes()),
        }
    }
}

/// The ASCII code of the lowercase hexadecimal digit `d`.
fn hex_digit_of(d: u8) -> (c: u8)
    requires
        d < 16,
    ensures
        c == hex_digit(d as int),
{
    if d < 10 {
        0x30 + d
    } else {
        0x61 + (d - 10)
    }
}

/// Appends `\x` and the hexadecimal digits of `src`.
fn put_hex(dst: &mut BytesMut, src: &[u8]) -> (r: Result<(), EncodeError>)
    ensures
        wrote(*old(dst), *final(dst), r, seq![0x5cu8, 0x78u8] + hex(src@)),
{
    let limit: usize = isize::MAX as usize;
    let n = src.len();
    if n > (limit - 2) / 2 || !has_room(dst, 2 * n + 2) {
        return Err(EncodeError::BufferFull);
    }
    let ghost start = buf_bytes(*dst);
    buf_put_u8(dst, 0x5c);
    buf_put_u8(dst, 0x78);
    let mut i: usize = 0;
    assert(buf_bytes(*dst) =~= start + (seq![0x5cu8, 0x78u8] + hex(src@.take(0))));
    while i < n
        invariant
            n == src@.len(),
            i <= n,
            start.len() + 2 + 2 * n <= isize::MAX,
            buf_bytes(*dst) == start + (seq![0x5cu8, 0x78u8] + hex(src@.take(i as int))),
        decreases n - i,
    {
        let byte = src[i];
        let ghost before = buf_bytes(*dst);
        buf_put_u8(dst, hex_digit_of(byte / 16));
        buf_put_u8(dst, hex_digit_of(byte % 16));
        i += 1;
        proof {
            let shorter = src@.take(i - 1);
            let longer = src@.take(i as int);
            assert(hex(longer) =~= hex(shorter).push(hex_digit(byte as int / 16)).push(
                hex_digit(byte as int % 16),
            )) by {
                assert forall|k: int| 0 <= k < 2 * (i - 1) implies hex(longer)[k] == hex(
                    shorter,
                )[k] by {
                    assert(longer[k / 2] == shorter[k / 2]);
                }
            }
            assert(buf_bytes(*dst) =~= start + (seq![0x5cu8, 0x78u8] + hex(longer)));
        }
    }
    assert(src@.take(n as int) =~= src@);
    Ok(())
}

} // verus!
