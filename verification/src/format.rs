//! Wire formats and logical types.

use crate::error::DecodeError;
use vstd::prelude::*;

verus! {

/// How a value is laid out on the wire.
#[derive(Clone, Copy, Debug, PartialEq, Eq, Structural)]
pub enum Format {
    /// Human-readable text; format code 0.
    Text,
    /// The type's binary layout; format code 1.
    Binary,
}

impl Format {
    /// The format code that stands for this format.
    pub open spec fn spec_code(self) -> u8 {
        match self {
            Format::Text => 0,
            Format::Binary => 1,
        }
    }

    /// The format a code stands for, or the error for a code that stands
    /// for none.
    pub open spec fn spec_from_code(code: i16) -> Result<Format, DecodeError> {
        if code == 0 {
            Ok(Format::Text)
        } else if code == 1 {
            Ok(Format::Binary)
        } else {
            Err(DecodeError::UnknownFormat(code))
        }
    }

    /// The format code that stands for this format.
    pub fn code(self) -> (c: u8)
        ensures
            c == self.spec_code(),
    {
        match self {
            Format::Text => 0,
            Format::Binary => 1,
        }
    }

    /// The format a code stands for; any code but 0 and 1 is an error.
    pub fn from_code(code: i16) -> (r: Result<Format, DecodeError>)
        ensures
            r == Format::spec_from_code(code),
    {
        if code == 0 {
            Ok(Format::Text)
        } else if code == 1 {
            Ok(Format::Binary)
        } else {
            Err(DecodeError::UnknownFormat(code))
        }
    }
}

/// The logical type of a column or parameter.
#[derive(Clone, Copy, Debug, PartialEq, Eq, Structural)]
pub enum Type {
    /// A boolean.
    Bool,
    /// A byte string.
    Bytea,
    /// A 16-bit signed integer.
    Int2,
    /// A 32-bit signed integer.
    Int4,
    /// A 64-bit signed integer.
    Int8,
    /// A character string.
    Text,
}

impl Type {
    /// The object identifier under which PostgreSQL catalogs this type.
    pub open spec fn spec_oid(self) -> u32 {
        match self {
            Type::Bool => 16,
            Type::Bytea => 17,
            Type::Int8 => 20,
            Type::Int2 => 21,
            Type::Int4 => 23,
            Type::Text => 25,
        }
    }

    /// The object identifier under which PostgreSQL catalogs this type.
    pub fn oid(&self) -> (oid: u32)
        ensures
            oid == self.spec_oid(),
    {
        match self {
            Type::Bool => 16,
            Type::Bytea => 17,
            Type::Int8 => 20,
            Type::Int2 => 21,
            Type::Int4 => 23,
            Type::Text => 25,
        }
    }
}

} // verus!
