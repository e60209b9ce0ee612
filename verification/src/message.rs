//! Backend messages: what the server can send, and the bytes each stands
//! for.
//!
//! The functions named `spec_*` are the model of the wire format. For a
//! message and the column layout installed in the codec they give the
//! [`Emit`] of its payload and of its whole frame.

use crate::error::EncodeError;
use crate::format::{Format, Type};
use crate::pgbuf::{cstr, format_i16, spec_length_i16, Emit};
use crate::tag;
use crate::text::decimal;
use crate::value::Value;
use crate::wire::{be16, be32, be_i16, be_i32};
use vstd::prelude::*;
use vstd::string::*;

verus! {

/// How grave an error or notice is.
#[derive(Clone, Copy, Debug, PartialEq, Eq, Structural)]
pub enum Severity {
    Panic,
    Fatal,
    Error,
    Warning,
    Notice,
    Debug,
    Info,
    Log,
}

impl Severity {
    /// Whether a response of this severity is an error rather than a
    /// notice.
    pub open spec fn spec_is_error(self) -> bool {
        self == Severity::Panic || self == Severity::Fatal || self == Severity::Error
    }

    /// The severity as the protocol spells it.
    pub open spec fn spec_text(self) -> Seq<char> {
        match self {
            Severity::Panic => "PANIC"@,
            Severity::Fatal => "FATAL"@,
            Severity::Error => "ERROR"@,
            Severity::Warning => "WARNING"@,
            Severity::Notice => "NOTICE"@,
            Severity::Debug => "DEBUG"@,
            Severity::Info => "INFO"@,
            Severity::Log => "LOG"@,
        }
    }

    /// Whether a response of this severity is an error rather than a
    /// notice.
    pub fn is_error(&self) -> (b: bool)
        ensures
            b == self.spec_is_error(),
    {
        match self {
            Severity::Panic | Severity::Fatal | Severity::Error => true,
            _ => false,
        }
    }

    /// The severity as the protocol spells it.
    pub fn as_str(&self) -> (s: &'static str)
        ensures
            s@ == self.spec_text(),
    {
        match self {
            Severity::Panic => "PANIC",
            Severity::Fatal => "FATAL",
            Severity::Error => "ERROR",
            Severity::Warning => "WARNING",
            Severity::Notice => "NOTICE",
            Severity::Debug => "DEBUG",
            Severity::Info => "INFO",
            Severity::Log => "LOG",
        }
    }
}

/// Where the session stands with respect to transactions, as reported by
/// ReadyForQuery.
#[derive(Clone, Copy, Debug, PartialEq, Eq, Structural)]
pub enum TransactionStatus {
    /// No transaction is open.
    Idle,
    /// A transaction is open.
    InTransaction,
    /// The open transaction has failed.
    Failed,
}

impl TransactionStatus {
    /// The status byte of ReadyForQuery.
    pub open spec fn spec_code(self) -> u8 {
        match self {
            TransactionStatus::Idle => tag::STATUS_IDLE,
            TransactionStatus::InTransaction => tag::STATUS_IN_TRANSACTION,
            TransactionStatus::Failed => tag::STATUS_FAILED,
        }
    }

    /// The status byte of ReadyForQuery.
    pub fn code(&self) -> (c: u8)
        ensures
            c == self.spec_code(),
    {
        match self {
            TransactionStatus::Idle => tag::STATUS_IDLE,
            TransactionStatus::InTransaction => tag::STATUS_IN_TRANSACTION,
            TransactionStatus::Failed => tag::STATUS_FAILED,
        }
    }
}

/// One column of a RowDescription.
#[derive(Debug, PartialEq, Eq)]
pub struct FieldDescription {
    pub name: String,
    pub table_id: u32,
    pub column_id: u16,
    pub type_oid: u32,
    pub type_len: i16,
    pub type_mod: i32,
    pub format: Format,
}

/// An error or notice for the client.
#[derive(Debug, PartialEq, Eq)]
pub struct ErrorResponse {
    pub severity: Severity,
    /// The five-character SQLSTATE code.
    pub code: String,
    pub message: String,
    pub detail: Option<String>,
    pub hint: Option<String>,
    /// The character position in the query text that the error is about.
    pub position: Option<usize>,
}

/// A message from the server.
#[derive(Debug, PartialEq, Eq)]
pub enum BackendMessage {
    AuthenticationOk,
    AuthenticationCleartextPassword,
    CommandComplete { tag: String },
    EmptyQueryResponse,
    ReadyForQuery(TransactionStatus),
    RowDescription(Vec<FieldDescription>),
    /// One row; a field that is `None` is SQL NULL. The fields are laid out
    /// by the column layout installed in the codec, position by position.
    DataRow(Vec<Option<Value>>),
    ParameterStatus(&'static str, String),
    BackendKeyData { conn_id: u32, secret_key: u32 },
    ParameterDescription(Vec<Type>),
    PortalSuspended,
    NoData,
    ParseComplete,
    BindComplete,
    CloseComplete,
    ErrorResponse(ErrorResponse),
    CopyInResponse { overall_format: Format, column_formats: Vec<Format> },
    CopyOutResponse { overall_format: Format, column_formats: Vec<Format> },
    CopyData(Vec<u8>),
    CopyDone,
}

/// One column of a RowDescription: its name, the table and column it comes
/// from, the type's identifier, length and modifier, and its format.
pub open spec fn spec_field(f: FieldDescription) -> Seq<u8> {
    cstr(f.name@) + be32(f.table_id as int) + be16(f.column_id as int) + be32(f.type_oid as int)
        + be_i16(f.type_len) + be_i32(f.type_mod) + format_i16(f.format)
}

/// The first `n` columns of a RowDescription.
pub open spec fn spec_fields(fields: Seq<FieldDescription>, n: nat) -> Seq<u8>
    decreases n,
{
    if n == 0 {
        Seq::empty()
    } else {
        spec_fields(fields, (n - 1) as nat) + spec_field(fields[n - 1])
    }
}

/// The type identifiers of the first `n` parameters.
pub open spec fn spec_oids(params: Seq<Type>, n: nat) -> Seq<u8>
    decreases n,
{
    if n == 0 {
        Seq::empty()
    } else {
        spec_oids(params, (n - 1) as nat) + be32(params[n - 1].spec_oid() as int)
    }
}

/// The format codes of the columns, one byte each, in order.
pub open spec fn spec_format_codes(formats: Seq<Format>) -> Seq<u8> {
    Seq::new(formats.len(), |i: int| formats[i].spec_code())
}

/// One field of a row, in a column of type `col.0` and format `col.1`: the
/// length -1 for NULL; else the value's length and the value. Where the
/// value is longer than a 32-bit length can say, the value goes out behind
/// a zero length and the encoder stops.
pub open spec fn spec_datum(field: Option<Value>, col: (Type, Format)) -> Emit {
    match field {
        None => Emit::done(be_i32(-1i32)),
        Some(value) => {
            let wire = value.spec_wire(col.0, col.1);
            if wire.len() > i32::MAX {
                Emit::failed(be32(0) + wire, EncodeError::FieldTooLong)
            } else {
                Emit::done(be_i32(wire.len() as i32) + wire)
            }
        },
    }
}

/// The first `n` fields of a row, up to the first that stops the encoder.
pub open spec fn spec_row(fields: Seq<Option<Value>>, cols: Seq<(Type, Format)>, n: nat) -> Emit
    decreases n,
{
    if n == 0 {
        Emit::done(Seq::empty())
    } else {
        spec_row(fields, cols, (n - 1) as nat).followed_by(
            spec_datum(fields[n - 1], cols[n - 1]),
        )
    }
}

/// A field of an ErrorResponse: its tag and its text.
pub open spec fn spec_tagged_field(field_tag: u8, text: Seq<char>) -> Seq<u8> {
    seq![field_tag] + cstr(text)
}

/// An optional field of an ErrorResponse: its tag and text where there is
/// one, nothing where there is none.
pub open spec fn spec_optional_field(field_tag: u8, text: Option<Seq<char>>) -> Seq<u8> {
    match text {
        Some(t) => spec_tagged_field(field_tag, t),
        None => Seq::empty(),
    }
}

/// The view of an optional string.
pub open spec fn spec_optional_text(s: Option<String>) -> Option<Seq<char>> {
    match s {
        Some(t) => Some(t@),
        None => None,
    }
}

/// The decimal rendering of an optional position.
pub open spec fn spec_optional_position(p: Option<usize>) -> Option<Seq<char>> {
    match p {
        Some(n) => Some(decimal(n as nat)),
        None => None,
    }
}

/// The fields every ErrorResponse has: severity, SQLSTATE code, message.
pub open spec fn spec_required_fields(r: ErrorResponse) -> Seq<u8> {
    spec_tagged_field(tag::FIELD_SEVERITY, r.severity.spec_text()) + spec_tagged_field(
        tag::FIELD_CODE,
        r.code@,
    ) + spec_tagged_field(tag::FIELD_MESSAGE, r.message@)
}

/// The fields an ErrorResponse may have: detail, hint, and the position
/// rendered in decimal.
pub open spec fn spec_optional_fields(r: ErrorResponse) -> Seq<u8> {
    spec_optional_field(tag::FIELD_DETAIL, spec_optional_text(r.detail)) + spec_optional_field(
        tag::FIELD_HINT,
        spec_optional_text(r.hint),
    ) + spec_optional_field(tag::FIELD_POSITION, spec_optional_position(r.position))
}

/// The fields of an ErrorResponse: those it must have, those it may have,
/// and the NUL that ends the list.
pub open spec fn spec_error_fields(r: ErrorResponse) -> Seq<u8> {
    spec_required_fields(r) + spec_optional_fields(r) + seq![0u8]
}

/// The payload of a CopyInResponse or CopyOutResponse: the overall format
/// as one byte, the number of columns as a 16-bit count, then the format of
/// each column as one byte.
pub open spec fn spec_copy_response(overall_format: Format, column_formats: Seq<Format>) -> Emit {
    Emit::done(seq![overall_format.spec_code()]).followed_by(
        spec_length_i16(column_formats.len()),
    ).followed_by(Emit::done(spec_format_codes(column_formats)))
}

impl BackendMessage {
    /// The type byte of the message's frame.
    pub open spec fn spec_tag(&self) -> u8 {
        match self {
            BackendMessage::AuthenticationOk => tag::AUTHENTICATION,
            BackendMessage::AuthenticationCleartextPassword => tag::AUTHENTICATION,
            BackendMessage::CommandComplete { .. } => tag::COMMAND_COMPLETE,
            BackendMessage::EmptyQueryResponse => tag::EMPTY_QUERY_RESPONSE,
            BackendMessage::ReadyForQuery(_) => tag::READY_FOR_QUERY,
            BackendMessage::RowDescription(_) => tag::ROW_DESCRIPTION,
            BackendMessage::DataRow(_) => tag::DATA_ROW,
            BackendMessage::ParameterStatus(_, _) => tag::PARAMETER_STATUS,
            BackendMessage::BackendKeyData { .. } => tag::BACKEND_KEY_DATA,
            BackendMessage::ParameterDescription(_) => tag::PARAMETER_DESCRIPTION,
            BackendMessage::PortalSuspended => tag::PORTAL_SUSPENDED,
            BackendMessage::NoData => tag::NO_DATA,
            BackendMessage::ParseComplete => tag::PARSE_COMPLETE,
            BackendMessage::BindComplete => tag::BIND_COMPLETE,
            BackendMessage::CloseComplete => tag::CLOSE_COMPLETE,
            BackendMessage::ErrorResponse(r) => if r.severity.spec_is_error() {
                tag::ERROR_RESPONSE
            } else {
                tag::NOTICE_RESPONSE
            },
            BackendMessage::CopyInResponse { .. } => tag::COPY_IN_RESPONSE,
            BackendMessage::CopyOutResponse { .. } => tag::COPY_OUT_RESPONSE,
            BackendMessage::CopyData(_) => tag::COPY_DATA,
            BackendMessage::CopyDone => tag::COPY_DONE,
        }
    }

    /// What the message's payload emits, given the column layout `cols`
    /// that rows are encoded by.
    pub open spec fn spec_payload(&self, cols: Seq<(Type, Format)>) -> Emit {
        match self {
            BackendMessage::AuthenticationOk => Emit::done(be32(0)),
            BackendMessage::AuthenticationCleartextPassword => Emit::done(be32(3)),
            BackendMessage::CommandComplete { tag } => Emit::done(cstr(tag@)),
            BackendMessage::EmptyQueryResponse => Emit::done(Seq::empty()),
            BackendMessage::ReadyForQuery(status) => Emit::done(seq![status.spec_code()]),
            BackendMessage::RowDescription(fields) => spec_length_i16(fields@.len()).followed_by(
                Emit::done(spec_fields(fields@, fields@.len())),
            ),
            BackendMessage::DataRow(fields) => spec_length_i16(fields@.len()).followed_by(
                spec_row(fields@, cols, fields@.len()),
            ),
            BackendMessage::ParameterStatus(name, value) => Emit::done(cstr(name@) + cstr(value@)),
            BackendMessage::BackendKeyData { conn_id, secret_key } => Emit::done(
                be32(*conn_id as int) + be32(*secret_key as int),
            ),
            BackendMessage::ParameterDescription(params) => spec_length_i16(
                params@.len(),
            ).followed_by(Emit::done(spec_oids(params@, params@.len()))),
            BackendMessage::PortalSuspended => Emit::done(Seq::empty()),
            BackendMessage::NoData => Emit::done(Seq::empty()),
            BackendMessage::ParseComplete => Emit::done(Seq::empty()),
            BackendMessage::BindComplete => Emit::done(Seq::empty()),
            BackendMessage::CloseComplete => Emit::done(Seq::empty()),
            BackendMessage::ErrorResponse(r) => Emit::done(spec_error_fields(*r)),
            BackendMessage::CopyInResponse { overall_format, column_formats } => spec_copy_response(
                *overall_format,
                column_formats@,
            ),
            BackendMessage::CopyOutResponse {
                overall_format,
                column_formats,
            } => spec_copy_response(*overall_format, column_formats@),
            BackendMessage::CopyData(data) => Emit::done(data@),
            BackendMessage::CopyDone => Emit::done(Seq::empty()),
        }
    }

    /// What the message's frame emits: the type byte, the length of the
    /// rest as a signed 32-bit integer, and the payload. While the payload
    /// is written the length is zero; it is filled in when the payload is
    /// complete and proves short enough for the length to say.
    pub open spec fn spec_frame(&self, cols: Seq<(Type, Format)>) -> Emit {
        let payload = self.spec_payload(cols);
        if payload.err is Some {
            Emit::failed(seq![self.spec_tag()] + be32(0) + payload.bytes, payload.err->0)
        } else if 4 + payload.bytes.len() > i32::MAX {
            Emit::failed(
                seq![self.spec_tag()] + be32(0) + payload.bytes,
                EncodeError::MessageTooLong,
            )
        } else {
            Emit::done(
                seq![self.spec_tag()] + be_i32((4 + payload.bytes.len()) as i32) + payload.bytes,
            )
        }
    }

    /// The type byte of the message's frame.
    pub fn tag(&self) -> (t: u8)
        ensures
            t == self.spec_tag(),
    {
        match self {
            BackendMessage::AuthenticationOk => tag::AUTHENTICATION,
            BackendMessage::AuthenticationCleartextPassword => tag::AUTHENTICATION,
            BackendMessage::CommandComplete { .. } => tag::COMMAND_COMPLETE,
            BackendMessage::EmptyQueryResponse => tag::EMPTY_QUERY_RESPONSE,
            BackendMessage::ReadyForQuery(_) => tag::READY_FOR_QUERY,
            BackendMessage::RowDescription(_) => tag::ROW_DESCRIPTION,
            BackendMessage::DataRow(_) => tag::DATA_ROW,
            BackendMessage::ParameterStatus(_, _) => tag::PARAMETER_STATUS,
            BackendMessage::BackendKeyData { .. } => tag::BACKEND_KEY_DATA,
            BackendMessage::ParameterDescription(_) => tag::PARAMETER_DESCRIPTION,
            BackendMessage::PortalSuspended => tag::PORTAL_SUSPENDED,
            BackendMessage::NoData => tag::NO_DATA,
            BackendMessage::ParseComplete => tag::PARSE_COMPLETE,
            BackendMessage::BindComplete => tag::BIND_COMPLETE,
            BackendMessage::CloseComplete => tag::CLOSE_COMPLETE,
            BackendMessage::ErrorResponse(r) => if r.severity.is_error() {
                tag::ERROR_RESPONSE
            } else {
                tag::NOTICE_RESPONSE
            },
            BackendMessage::CopyInResponse { .. } => tag::COPY_IN_RESPONSE,
            BackendMessage::CopyOutResponse { .. } => tag::COPY_OUT_RESPONSE,
            BackendMessage::CopyData(_) => tag::COPY_DATA,
            BackendMessage::CopyDone => tag::COPY_DONE,
        }
    }
}

} // verus!
