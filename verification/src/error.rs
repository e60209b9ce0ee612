//! What can go wrong while decoding and encoding, and how it reads.
//!
//! Every failure is fatal to the connection it occurs on: the codec never
//! tries to find the next frame after one. The variants carry the offending
//! value so that a caller can report it.

use crate::text::{decimal, decimal_string, prefixed_hex, prefixed_hex_string, signed_decimal, signed_decimal_string};
use bytesize::ByteSize;
use vstd::prelude::*;
use vstd::string::*;

verus! {

/// The largest number of bytes the decoder lets a connection buffer.
pub const MAX_REQUEST_SIZE: usize = 2_000_000;

/// The largest value a frame's length field may declare.
pub const MAX_FRAME_SIZE: usize = 0x400_0000;

/// A failure to decode what a client sent.
#[derive(Clone, Copy, Debug, PartialEq, Eq, Structural)]
pub enum DecodeError {
    /// A byte was expected where the payload ends.
    NoByte,
    /// A 16-bit integer was expected where fewer than two bytes are left.
    ShortInt16,
    /// A signed 32-bit integer was expected where fewer than four bytes are
    /// left.
    ShortInt32,
    /// An unsigned 32-bit integer was expected where fewer than four bytes
    /// are left.
    ShortUint32,
    /// A string runs to the end of the payload without a NUL.
    NoTerminator,
    /// A string is not UTF-8.
    InvalidUtf8,
    /// A format code is neither 0 (text) nor 1 (binary).
    UnknownFormat(i16),
    /// A Close message names neither a statement nor a portal.
    InvalidCloseTarget(u8),
    /// A Describe message names neither a statement nor a portal.
    InvalidDescribeTarget(u8),
    /// The frame's type byte belongs to no frontend message.
    UnknownMessageType(u8),
    /// More than `MAX_REQUEST_SIZE` bytes are buffered.
    RequestTooLarge,
    /// The frame declares a length above `MAX_FRAME_SIZE`.
    FrameTooBig,
    /// The frame declares a length too small to cover the length field.
    InvalidFrameLength,
}

/// A failure to encode a backend message.
#[derive(Clone, Copy, Debug, PartialEq, Eq, Structural)]
pub enum EncodeError {
    /// A list has more entries than a signed 16-bit count can say.
    LengthOverflow,
    /// The encoding of one row field is longer than `i32::MAX` bytes.
    FieldTooLong,
    /// The message is longer than `i32::MAX` bytes, length field included.
    MessageTooLong,
    /// The output buffer cannot grow by what is to be written.
    BufferFull,
}

/// How a number of bytes reads as a human-readable size, such as `2.0 MB`
/// for two million.
pub uninterp spec fn byte_size_display(n: u64) -> Seq<char>;

/// `ByteSize::b(n).to_string()`: the human-readable size of `n` bytes. The
/// text is computed from the number alone; which text it is for which
/// number is not claimed.
#[verifier::external_body]
fn byte_size_text(n: u64) -> (s: String)
    ensures
        s@ == byte_size_display(n),
{
    ByteSize::b(n).to_string()
}

impl DecodeError {
    /// The message for this error, where `limit` is how the request size
    /// limit reads.
    pub open spec fn spec_describe(self, limit: Seq<char>) -> Seq<char> {
        match self {
            DecodeError::NoByte => "No byte to read"@,
            DecodeError::ShortInt16 => "not enough buffer for an Int16"@,
            DecodeError::ShortInt32 => "not enough buffer for an Int32"@,
            DecodeError::ShortUint32 => "not enough buffer for an Uint32"@,
            DecodeError::NoTerminator => "No null-terminator found"@,
            DecodeError::InvalidUtf8 => "invalid utf-8 sequence"@,
            DecodeError::UnknownFormat(n) => "unknown format code: "@ + signed_decimal(n as int),
            DecodeError::InvalidCloseTarget(b) => "invalid type byte in close message: "@
                + decimal(b as nat),
            DecodeError::InvalidDescribeTarget(b) => "Invalid describe type: "@ + prefixed_hex(b),
            DecodeError::UnknownMessageType(b) => "unknown message type "@ + decimal(b as nat),
            DecodeError::RequestTooLarge => "request larger than "@ + limit,
            DecodeError::FrameTooBig => "maximum frame size exceeded"@,
            DecodeError::InvalidFrameLength => "invalid frame length"@,
        }
    }

    /// Renders this error, given how the request size limit reads.
    pub fn describe(&self, limit: &str) -> (s: String)
        ensures
            s@ == self.spec_describe(limit@),
    {
        match self {
            DecodeError::NoByte => String::from_str("No byte to read"),
            DecodeError::ShortInt16 => String::from_str("not enough buffer for an Int16"),
            DecodeError::ShortInt32 => String::from_str("not enough buffer for an Int32"),
            DecodeError::ShortUint32 => String::from_str("not enough buffer for an Uint32"),
            DecodeError::NoTerminator => String::from_str("No null-terminator found"),
            DecodeError::InvalidUtf8 => String::from_str("invalid utf-8 sequence"),
            DecodeError::UnknownFormat(n) => {
                let mut s = String::from_str("unknown format code: ");
                s.append(signed_decimal_string(*n as i64).as_str());
                s
            },
            DecodeError::InvalidCloseTarget(b) => {
                let mut s = String::from_str("invalid type byte in close message: ");
                s.append(decimal_string(*b as u64).as_str());
                s
            },
            DecodeError::InvalidDescribeTarget(b) => {
                let mut s = String::from_str("Invalid describe type: ");
                s.append(prefixed_hex_string(*b).as_str());
                s
            },
            DecodeError::UnknownMessageType(b) => {
                let mut s = String::from_str("unknown message type ");
                s.append(decimal_string(*b as u64).as_str());
                s
            },
            DecodeError::RequestTooLarge => {
                let mut s = String::from_str("request larger than ");
                s.append(limit);
                s
            },
            DecodeError::FrameTooBig => String::from_str("maximum frame size exceeded"),
            DecodeError::InvalidFrameLength => String::from_str("invalid frame length"),
        }
    }

    /// Renders this error, with the request size limit in human-readable
    /// form.
    pub fn message(&self) -> (s: String)
        ensures
            s@ == self.spec_describe(byte_size_display(MAX_REQUEST_SIZE as u64)),
    {
        let limit = byte_size_text(MAX_REQUEST_SIZE as u64);
        self.describe(limit.as_str())
    }
}

impl EncodeError {
    /// The message for this error.
    pub open spec fn spec_message(self) -> Seq<char> {
        match self {
            EncodeError::LengthOverflow => "length does not fit in an i16"@,
            EncodeError::FieldTooLong =>
                "length of encoded data row field does not fit into an i32"@,
            EncodeError::MessageTooLong => "length of encoded message does not fit into an i32"@,
            EncodeError::BufferFull => "output buffer cannot grow any further"@,
        }
    }

    /// Renders this error.
    pub fn message(&self) -> (s: String)
        ensures
            s@ == self.spec_message(),
    {
        match self {
            EncodeError::LengthOverflow => String::from_str("length does not fit in an i16"),
            EncodeError::FieldTooLong => String::from_str(
                "length of encoded data row field does not fit into an i32",
            ),
            EncodeError::MessageTooLong => String::from_str(
                "length of encoded message does not fit into an i32",
            ),
            EncodeError::BufferFull => String::from_str("output buffer cannot grow any further"),
        }
    }
}

} // verus!
