//! A cursor over the payload of one frame.
//!
//! Each read either takes a value off the front of what is left, or fails
//! and leaves the cursor where it was. The `spec_read_*` functions are the
//! model: they say, for any byte sequence, what a read returns and what is
//! left afterwards.

use crate::error::DecodeError;
use crate::format::Format;
use crate::wire::{i16_at, i32_at, read_i16_be, read_i32_be, read_u32_be, u32_at};
use vstd::prelude::*;
use vstd::slice::{slice_subrange, slice_to_vec};
use vstd::string::*;
use vstd::utf8::{decode_utf8, valid_utf8};

verus! {

/// `core::str::Utf8Error`, as a type whose inside the verifier does not
/// see.
#[verifier::external_type_specification]
#[verifier::external_body]
pub struct ExUtf8Error(core::str::Utf8Error);

/// `core::str::from_utf8` succeeds exactly on well-formed UTF-8, and the
/// string it returns has the given bytes.
pub assume_specification[ core::str::from_utf8 ](v: &[u8]) -> (r: Result<&str, core::str::Utf8Error>)
    ensures
        r is Ok <==> valid_utf8(v@),
        r matches Ok(s) ==> s.spec_bytes() == v@,
;

/// A value read off the front of a byte sequence, with what is left.
pub type Parsed<T> = Result<(T, Seq<u8>), DecodeError>;

/// Whether `i` is the position of the first NUL in `s`.
pub open spec fn is_first_nul(s: Seq<u8>, i: int) -> bool {
    &&& 0 <= i < s.len()
    &&& s[i] == 0
    &&& forall|j: int| 0 <= j < i ==> s[j] != 0
}

/// The position of the first NUL in `s`, where there is one.
pub open spec fn first_nul(s: Seq<u8>) -> int {
    choose|i: int| is_first_nul(s, i)
}

/// One byte.
pub open spec fn spec_read_byte(s: Seq<u8>) -> Parsed<u8> {
    if s.len() >= 1 {
        Ok((s[0], s.skip(1)))
    } else {
        Err(DecodeError::NoByte)
    }
}

/// A big-endian signed 16-bit integer.
pub open spec fn spec_read_i16(s: Seq<u8>) -> Parsed<i16> {
    if s.len() >= 2 {
        Ok((i16_at(s) as i16, s.skip(2)))
    } else {
        Err(DecodeError::ShortInt16)
    }
}

/// A big-endian signed 32-bit integer.
pub open spec fn spec_read_i32(s: Seq<u8>) -> Parsed<i32> {
    if s.len() >= 4 {
        Ok((i32_at(s) as i32, s.skip(4)))
    } else {
        Err(DecodeError::ShortInt32)
    }
}

/// A big-endian unsigned 32-bit integer.
pub open spec fn spec_read_u32(s: Seq<u8>) -> Parsed<u32> {
    if s.len() >= 4 {
        Ok((u32_at(s) as u32, s.skip(4)))
    } else {
        Err(DecodeError::ShortUint32)
    }
}

/// A string: the UTF-8 text before the first NUL. The NUL is consumed.
pub open spec fn spec_read_cstr(s: Seq<u8>) -> Parsed<Seq<char>> {
    if !s.contains(0u8) {
        Err(DecodeError::NoTerminator)
    } else {
        let pos = first_nul(s);
        if valid_utf8(s.take(pos)) {
            Ok((decode_utf8(s.take(pos)), s.skip(pos + 1)))
        } else {
            Err(DecodeError::InvalidUtf8)
        }
    }
}

/// A format code: a 16-bit integer that must be 0 or 1.
pub open spec fn spec_read_format(s: Seq<u8>) -> Parsed<Format> {
    match spec_read_i16(s) {
        Ok((code, rest)) => match Format::spec_from_code(code) {
            Ok(format) => Ok((format, rest)),
            Err(e) => Err(e),
        },
        Err(e) => Err(e),
    }
}

/// Whether a read that returned `r` and left `after` behaves as the model
/// result `model` says: the value and the rest on success, the error and an
/// unmoved cursor on failure.
pub open spec fn read_as<T>(
    r: Result<T, DecodeError>,
    before: Seq<u8>,
    after: Seq<u8>,
    model: Parsed<T>,
) -> bool {
    match model {
        Ok((v, rest)) => r == Ok::<T, DecodeError>(v) && after == rest,
        Err(e) => r == Err::<T, DecodeError>(e) && after == before,
    }
}

/// The position of the first NUL is unique.
pub proof fn lemma_first_nul_unique(s: Seq<u8>, i: int)
    requires
        is_first_nul(s, i),
    ensures
        s.contains(0u8),
        first_nul(s) == i,
{
    let j = first_nul(s);
    assert(is_first_nul(s, j));
    if j < i {
        assert(s[j] != 0);
    }
    if i < j {
        assert(s[i] != 0);
    }
}

/// A cursor over a byte slice.
pub struct Cursor<'a> {
    buf: &'a [u8],
}

impl<'a> View for Cursor<'a> {
    type V = Seq<u8>;

    /// The bytes not yet read.
    closed spec fn view(&self) -> Seq<u8> {
        self.buf@
    }
}

impl<'a> Cursor<'a> {
    /// A cursor at the start of `buf`.
    pub fn new(buf: &'a [u8]) -> (c: Cursor<'a>)
        ensures
            c@ == buf@,
    {
        Cursor { buf }
    }

    /// The number of bytes not yet read.
    pub fn remaining(&self) -> (n: usize)
        ensures
            n == self@.len(),
    {
        self.buf.len()
    }

    /// Moves past the next `n` bytes.
    pub fn advance(&mut self, n: usize)
        requires
            n <= old(self)@.len(),
        ensures
            final(self)@ == old(self)@.skip(n as int),
    {
        self.buf = slice_subrange(self.buf, n, self.buf.len());
    }

    /// Returns the next byte without moving past it.
    pub fn peek_byte(&self) -> (r: Result<u8, DecodeError>)
        ensures
            self@.len() >= 1 ==> r == Ok::<u8, DecodeError>(self@[0]),
            self@.len() == 0 ==> r == Err::<u8, DecodeError>(DecodeError::NoByte),
    {
        if self.buf.len() >= 1 {
            Ok(self.buf[0])
        } else {
            Err(DecodeError::NoByte)
        }
    }

    /// Reads one byte.
    pub fn read_byte(&mut self) -> (r: Result<u8, DecodeError>)
        ensures
            read_as(r, old(self)@, final(self)@, spec_read_byte(old(self)@)),
    {
        let byte = self.peek_byte()?;
        self.advance(1);
        Ok(byte)
    }

    /// Reads a big-endian signed 16-bit integer.
    pub fn read_i16(&mut self) -> (r: Result<i16, DecodeError>)
        ensures
            read_as(r, old(self)@, final(self)@, spec_read_i16(old(self)@)),
    {
        if self.buf.len() < 2 {
            return Err(DecodeError::ShortInt16);
        }
        let val = read_i16_be(self.buf);
        self.advance(2);
        Ok(val)
    }

    /// Reads a big-endian signed 32-bit integer.
    pub fn read_i32(&mut self) -> (r: Result<i32, DecodeError>)
        ensures
            read_as(r, old(self)@, final(self)@, spec_read_i32(old(self)@)),
    {
        if self.buf.len() < 4 {
            return Err(DecodeError::ShortInt32);
        }
        let val = read_i32_be(self.buf);
        self.advance(4);
        Ok(val)
    }

    /// Reads a big-endian unsigned 32-bit integer.
    pub fn read_u32(&mut self) -> (r: Result<u32, DecodeError>)
        ensures
            read_as(r, old(self)@, final(self)@, spec_read_u32(old(self)@)),
    {
        if self.buf.len() < 4 {
            return Err(DecodeError::ShortUint32);
        }
        let val = read_u32_be(self.buf);
        self.advance(4);
        Ok(val)
    }

    /// Reads the next `n` bytes.
    pub fn read_bytes(&mut self, n: usize) -> (r: Result<Vec<u8>, DecodeError>)
        ensures
            old(self)@.len() >= n ==> (r matches Ok(bytes) && bytes@ == old(self)@.take(n as int)
                && final(self)@ == old(self)@.skip(n as int)),
            old(self)@.len() < n ==> (r matches Err(e) && e == DecodeError::NoByte && final(self)@
                == old(self)@),
    {
        if self.buf.len() < n {
            return Err(DecodeError::NoByte);
        }
        let bytes = slice_to_vec(slice_subrange(self.buf, 0, n));
        self.advance(n);
        Ok(bytes)
    }

    /// Reads a format code.
    pub fn read_format(&mut self) -> (r: Result<Format, DecodeError>)
        ensures
            read_as(r, old(self)@, final(self)@, spec_read_format(old(self)@)),
    {
        if self.buf.len() < 2 {
            return Err(DecodeError::ShortInt16);
        }
        let format = Format::from_code(read_i16_be(self.buf))?;
        self.advance(2);
        Ok(format)
    }

    /// Reads a NUL-terminated UTF-8 string and moves past the NUL.
    pub fn read_cstr(&mut self) -> (r: Result<&'a str, DecodeError>)
        ensures
            match spec_read_cstr(old(self)@) {
                Ok((text, rest)) => r matches Ok(s) && s@ == text && final(self)@ == rest,
                Err(e) => r matches Err(x) && x == e && final(self)@ == old(self)@,
            },
    {
        let mut pos: usize = 0;
        while pos < self.buf.len() && self.buf[pos] != 0
            invariant
                pos <= self.buf@.len(),
                forall|j: int| 0 <= j < pos ==> self.buf@[j] != 0,
            decreases self.buf@.len() - pos,
        {
            pos += 1;
        }
        if pos == self.buf.len() {
            assert(!self.buf@.contains(0u8));
            return Err(DecodeError::NoTerminator);
        }
        proof {
            lemma_first_nul_unique(self.buf@, pos as int);
        }
        let head = slice_subrange(self.buf, 0, pos);
        assert(head@ == self.buf@.take(pos as int));
        match core::str::from_utf8(head) {
            Ok(s) => {
                proof {
                    vstd::utf8::encode_utf8_decode_utf8(s@);
                }
                self.advance(pos + 1);
                Ok(s)
            },
            Err(_) => Err(DecodeError::InvalidUtf8),
        }
    }
}

} // verus!
