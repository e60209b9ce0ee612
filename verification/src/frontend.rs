//! Frontend messages: what a client can send, and how each is decoded from
//! the payload of its frame.
//!
//! The `spec_decode_*` functions are the model: for any payload they give
//! the message it stands for, or the error that rejects it. Each decoder is
//! proved to return exactly that.

use crate::cursor::{
    spec_read_byte,
    spec_read_cstr,
    spec_read_format,
    spec_read_i16,
    spec_read_i32,
    spec_read_u32,
    Cursor,
    Parsed,
};
use crate::error::DecodeError;
use crate::format::Format;
use crate::tag;
use vstd::prelude::*;
use vstd::string::*;

verus! {

/// A message from a client.
#[derive(Debug, PartialEq, Eq)]
pub enum FrontendMessage {
    /// Run the statements in `sql` as a simple query.
    Query { sql: String },
    /// Prepare `sql` under `name`; `param_types` are the type identifiers
    /// the client asks for, one per parameter it specifies.
    Parse { name: String, sql: String, param_types: Vec<u32> },
    /// Describe the prepared statement `name`.
    DescribeStatement { name: String },
    /// Describe the portal `name`.
    DescribePortal { name: String },
    /// Bind parameters to the statement `statement_name`, making the portal
    /// `portal_name`. A raw parameter that is `None` is SQL NULL.
    Bind {
        portal_name: String,
        statement_name: String,
        param_formats: Vec<Format>,
        raw_params: Vec<Option<Vec<u8>>>,
        result_formats: Vec<Format>,
    },
    /// Run the portal `portal_name`, returning at most `max_rows` rows
    /// (zero: no limit).
    Execute { portal_name: String, max_rows: i32 },
    /// Send what has been buffered.
    Flush,
    /// End the current extended-query cycle.
    Sync,
    /// Close the prepared statement `name`.
    CloseStatement { name: String },
    /// Close the portal `name`.
    ClosePortal { name: String },
    /// End the session.
    Terminate,
    /// A cleartext password.
    Password { password: String },
    /// A chunk of copy data.
    CopyData(Vec<u8>),
    /// The end of the copy data.
    CopyDone,
    /// The copy failed on the client's side, for the given reason.
    CopyFail(String),
}

/// The mathematical content of a [`FrontendMessage`].
pub enum FrontendMessageView {
    Query { sql: Seq<char> },
    Parse { name: Seq<char>, sql: Seq<char>, param_types: Seq<u32> },
    DescribeStatement { name: Seq<char> },
    DescribePortal { name: Seq<char> },
    Bind {
        portal_name: Seq<char>,
        statement_name: Seq<char>,
        param_formats: Seq<Format>,
        raw_params: Seq<Option<Seq<u8>>>,
        result_formats: Seq<Format>,
    },
    Execute { portal_name: Seq<char>, max_rows: i32 },
    Flush,
    Sync,
    CloseStatement { name: Seq<char> },
    ClosePortal { name: Seq<char> },
    Terminate,
    Password { password: Seq<char> },
    CopyData(Seq<u8>),
    CopyDone,
    CopyFail(Seq<char>),
}

impl View for FrontendMessage {
    type V = FrontendMessageView;

    open spec fn view(&self) -> FrontendMessageView {
        match self {
            FrontendMessage::Query { sql } => FrontendMessageView::Query { sql: sql@ },
            FrontendMessage::Parse { name, sql, param_types } => FrontendMessageView::Parse {
                name: name@,
                sql: sql@,
                param_types: param_types@,
            },
            FrontendMessage::DescribeStatement { name } => FrontendMessageView::DescribeStatement {
                name: name@,
            },
            FrontendMessage::DescribePortal { name } => FrontendMessageView::DescribePortal {
                name: name@,
            },
            FrontendMessage::Bind {
                portal_name,
                statement_name,
                param_formats,
                raw_params,
                result_formats,
            } => FrontendMessageView::Bind {
                portal_name: portal_name@,
                statement_name: statement_name@,
                param_formats: param_formats@,
                raw_params: raw_params.deep_view(),
                result_formats: result_formats@,
            },
            FrontendMessage::Execute { portal_name, max_rows } => FrontendMessageView::Execute {
                portal_name: portal_name@,
                max_rows: *max_rows,
            },
            FrontendMessage::Flush => FrontendMessageView::Flush,
            FrontendMessage::Sync => FrontendMessageView::Sync,
            FrontendMessage::CloseStatement { name } => FrontendMessageView::CloseStatement {
                name: name@,
            },
            FrontendMessage::ClosePortal { name } => FrontendMessageView::ClosePortal {
                name: name@,
            },
            FrontendMessage::Terminate => FrontendMessageView::Terminate,
            FrontendMessage::Password { password } => FrontendMessageView::Password {
                password: password@,
            },
            FrontendMessage::CopyData(data) => FrontendMessageView::CopyData(data@),
            FrontendMessage::CopyDone => FrontendMessageView::CopyDone,
            FrontendMessage::CopyFail(reason) => FrontendMessageView::CopyFail(reason@),
        }
    }
}

/// The result of a decoder as the model sees it.
pub type Decoded = Result<FrontendMessageView, DecodeError>;

/// Whether a decoder that returned `r` did what the model result says: a
/// message with that content, or that error.
pub open spec fn decodes_to(r: Result<FrontendMessage, DecodeError>, model: Decoded) -> bool {
    match model {
        Ok(v) => r matches Ok(m) && m@ == v,
        Err(e) => r matches Err(x) && x == e,
    }
}

/// How many items a 16-bit count announces: a negative count announces none.
pub open spec fn spec_count(n: i16) -> nat {
    if n < 0 {
        0
    } else {
        n as nat
    }
}

/// `n` items in a row, each read by `item`.
pub open spec fn spec_repeat<T>(s: Seq<u8>, n: nat, item: spec_fn(Seq<u8>) -> Parsed<T>) -> Parsed<
    Seq<T>,
>
    decreases n,
{
    if n == 0 {
        Ok((Seq::empty(), s))
    } else {
        match item(s) {
            Err(e) => Err(e),
            Ok((first, rest)) => match spec_repeat(rest, (n - 1) as nat, item) {
                Err(e) => Err(e),
                Ok((others, rest)) => Ok((seq![first] + others, rest)),
            },
        }
    }
}

/// A 16-bit count, then that many items, each read by `item`.
pub open spec fn spec_counted<T>(s: Seq<u8>, item: spec_fn(Seq<u8>) -> Parsed<T>) -> Parsed<
    Seq<T>,
> {
    match spec_read_i16(s) {
        Err(e) => Err(e),
        Ok((n, rest)) => spec_repeat(rest, spec_count(n), item),
    }
}

/// One raw parameter value: a 32-bit length, then that many bytes. The
/// length -1 stands for SQL NULL and is followed by nothing; any other
/// negative length is followed by nothing either and stands for the empty
/// value.
pub open spec fn spec_read_raw_param(s: Seq<u8>) -> Parsed<Option<Seq<u8>>> {
    match spec_read_i32(s) {
        Err(e) => Err(e),
        Ok((len, rest)) => if len == -1 {
            Ok((None, rest))
        } else {
            let n: int = if len < 0 {
                0
            } else {
                len as int
            };
            if rest.len() >= n {
                Ok((Some(rest.take(n)), rest.skip(n)))
            } else {
                Err(DecodeError::NoByte)
            }
        },
    }
}

/// The items already read, followed by those a later read gives.
pub open spec fn spec_prepend<T>(head: Seq<T>, tail: Parsed<Seq<T>>) -> Parsed<Seq<T>> {
    match tail {
        Ok((items, rest)) => Ok((head + items, rest)),
        Err(e) => Err(e),
    }
}

/// The reader of one parameter type identifier.
pub open spec fn type_id_item() -> spec_fn(Seq<u8>) -> Parsed<u32> {
    |b: Seq<u8>| spec_read_u32(b)
}

/// The reader of one format code.
pub open spec fn format_item() -> spec_fn(Seq<u8>) -> Parsed<Format> {
    |b: Seq<u8>| spec_read_format(b)
}

/// The reader of one raw parameter value.
pub open spec fn raw_param_item() -> spec_fn(Seq<u8>) -> Parsed<Option<Seq<u8>>> {
    |b: Seq<u8>| spec_read_raw_param(b)
}

/// Query: one string.
pub open spec fn spec_decode_query(s: Seq<u8>) -> Decoded {
    match spec_read_cstr(s) {
        Err(e) => Err(e),
        Ok((sql, _)) => Ok(FrontendMessageView::Query { sql }),
    }
}

/// Password: one string.
pub open spec fn spec_decode_password(s: Seq<u8>) -> Decoded {
    match spec_read_cstr(s) {
        Err(e) => Err(e),
        Ok((password, _)) => Ok(FrontendMessageView::Password { password }),
    }
}

/// CopyFail: one string.
pub open spec fn spec_decode_copy_fail(s: Seq<u8>) -> Decoded {
    match spec_read_cstr(s) {
        Err(e) => Err(e),
        Ok((reason, _)) => Ok(FrontendMessageView::CopyFail(reason)),
    }
}

/// CopyData: the first `frame_len` bytes, as they are.
pub open spec fn spec_decode_copy_data(s: Seq<u8>, frame_len: nat) -> Decoded {
    if s.len() >= frame_len {
        Ok(FrontendMessageView::CopyData(s.take(frame_len as int)))
    } else {
        Err(DecodeError::NoByte)
    }
}

/// Parse: the statement's name, its text, and a counted list of parameter
/// type identifiers.
pub open spec fn spec_decode_parse(s: Seq<u8>) -> Decoded {
    match spec_read_cstr(s) {
        Err(e) => Err(e),
        Ok((name, s)) => match spec_read_cstr(s) {
            Err(e) => Err(e),
            Ok((sql, s)) => match spec_counted(s, type_id_item()) {
                Err(e) => Err(e),
                Ok((param_types, _)) => Ok(FrontendMessageView::Parse { name, sql, param_types }),
            },
        },
    }
}

/// Close: a selector byte, `S` for a statement or `P` for a portal, then
/// the name. The selector is judged before the name is read.
pub open spec fn spec_decode_close(s: Seq<u8>) -> Decoded {
    match spec_read_byte(s) {
        Err(e) => Err(e),
        Ok((selector, s)) => if selector == tag::TARGET_STATEMENT {
            match spec_read_cstr(s) {
                Err(e) => Err(e),
                Ok((name, _)) => Ok(FrontendMessageView::CloseStatement { name }),
            }
        } else if selector == tag::TARGET_PORTAL {
            match spec_read_cstr(s) {
                Err(e) => Err(e),
                Ok((name, _)) => Ok(FrontendMessageView::ClosePortal { name }),
            }
        } else {
            Err(DecodeError::InvalidCloseTarget(selector))
        },
    }
}

/// Describe: a selector byte, `S` for a statement or `P` for a portal, then
/// the name. The name is read before the selector is judged.
pub open spec fn spec_decode_describe(s: Seq<u8>) -> Decoded {
    match spec_read_byte(s) {
        Err(e) => Err(e),
        Ok((selector, s)) => match spec_read_cstr(s) {
            Err(e) => Err(e),
            Ok((name, _)) => if selector == tag::TARGET_STATEMENT {
                Ok(FrontendMessageView::DescribeStatement { name })
            } else if selector == tag::TARGET_PORTAL {
                Ok(FrontendMessageView::DescribePortal { name })
            } else {
                Err(DecodeError::InvalidDescribeTarget(selector))
            },
        },
    }
}

/// Execute: the portal's name and a 32-bit row limit.
pub open spec fn spec_decode_execute(s: Seq<u8>) -> Decoded {
    match spec_read_cstr(s) {
        Err(e) => Err(e),
        Ok((portal_name, s)) => match spec_read_i32(s) {
            Err(e) => Err(e),
            Ok((max_rows, _)) => Ok(FrontendMessageView::Execute { portal_name, max_rows }),
        },
    }
}

/// Bind: the portal's name, the statement's name, a counted list of
/// parameter format codes, a counted list of raw parameter values, and a
/// counted list of result format codes.
pub open spec fn spec_decode_bind(s: Seq<u8>) -> Decoded {
    match spec_read_cstr(s) {
        Err(e) => Err(e),
        Ok((portal_name, s)) => match spec_read_cstr(s) {
            Err(e) => Err(e),
            Ok((statement_name, s)) => match spec_counted(s, format_item()) {
                Err(e) => Err(e),
                Ok((param_formats, s)) => match spec_counted(s, raw_param_item()) {
                    Err(e) => Err(e),
                    Ok((raw_params, s)) => match spec_counted(s, format_item()) {
                        Err(e) => Err(e),
                        Ok((result_formats, _)) => Ok(
                            FrontendMessageView::Bind {
                                portal_name,
                                statement_name,
                                param_formats,
                                raw_params,
                                result_formats,
                            },
                        ),
                    },
                },
            },
        },
    }
}

/// The message that a frame of type `msg_type` with the given payload
/// stands for.
pub open spec fn spec_decode_frame(msg_type: u8, payload: Seq<u8>) -> Decoded {
    if msg_type == tag::QUERY {
        spec_decode_query(payload)
    } else if msg_type == tag::PARSE {
        spec_decode_parse(payload)
    } else if msg_type == tag::DESCRIBE {
        spec_decode_describe(payload)
    } else if msg_type == tag::BIND {
        spec_decode_bind(payload)
    } else if msg_type == tag::EXECUTE {
        spec_decode_execute(payload)
    } else if msg_type == tag::FLUSH {
        Ok(FrontendMessageView::Flush)
    } else if msg_type == tag::SYNC {
        Ok(FrontendMessageView::Sync)
    } else if msg_type == tag::CLOSE {
        spec_decode_close(payload)
    } else if msg_type == tag::TERMINATE {
        Ok(FrontendMessageView::Terminate)
    } else if msg_type == tag::PASSWORD {
        spec_decode_password(payload)
    } else if msg_type == tag::COPY_FAIL {
        spec_decode_copy_fail(payload)
    } else if msg_type == tag::COPY_DATA {
        spec_decode_copy_data(payload, payload.len())
    } else if msg_type == tag::COPY_DONE {
        Ok(FrontendMessageView::CopyDone)
    } else {
        Err(DecodeError::UnknownMessageType(msg_type))
    }
}

/// Reading `n` items after none have been read is reading `n` items.
proof fn lemma_repeat_start<T>(s: Seq<u8>, n: nat, item: spec_fn(Seq<u8>) -> Parsed<T>)
    ensures
        spec_prepend(Seq::empty(), spec_repeat(s, n, item)) == spec_repeat(s, n, item),
{
    match spec_repeat(s, n, item) {
        Ok((items, _)) => {
            assert(Seq::<T>::empty() + items =~= items);
        },
        Err(_) => {},
    }
}

/// Reading one more item moves it from what is still to be read to what has
/// been read.
proof fn lemma_repeat_next<T>(
    head: Seq<T>,
    s: Seq<u8>,
    n: nat,
    item: spec_fn(Seq<u8>) -> Parsed<T>,
    first: T,
    rest: Seq<u8>,
)
    requires
        n > 0,
        item(s) == Ok::<(T, Seq<u8>), DecodeError>((first, rest)),
    ensures
        spec_prepend(head, spec_repeat(s, n, item)) == spec_prepend(
            head.push(first),
            spec_repeat(rest, (n - 1) as nat, item),
        ),
{
    match spec_repeat(rest, (n - 1) as nat, item) {
        Ok((others, _)) => {
            assert(head + (seq![first] + others) =~= head.push(first) + others);
        },
        Err(_) => {},
    }
}

/// Reading no more items leaves what has been read.
proof fn lemma_repeat_end<T>(head: Seq<T>, s: Seq<u8>, item: spec_fn(Seq<u8>) -> Parsed<T>)
    ensures
        spec_prepend(head, spec_repeat(s, 0, item)) == Ok::<(Seq<T>, Seq<u8>), DecodeError>(
            (head, s),
        ),
{
    assert(head + Seq::<T>::empty() =~= head);
}

/// Reads a counted list of parameter type identifiers.
fn read_type_ids(buf: &mut Cursor) -> (r: Result<Vec<u32>, DecodeError>)
    ensures
        match spec_counted(old(buf)@, type_id_item()) {
            Ok((items, rest)) => r matches Ok(v) && v@ == items && final(buf)@ == rest,
            Err(e) => r matches Err(x) && x == e,
        },
{
    let count = buf.read_i16()?;
    let ghost start = buf@;
    let ghost n = spec_count(count);
    let mut out: Vec<u32> = Vec::new();
    let mut i: i16 = 0;
    proof {
        lemma_repeat_start(start, n, type_id_item());
    }
    while i < count
        invariant
            0 <= i <= n,
            n == spec_count(count),
            spec_counted(old(buf)@, type_id_item()) == spec_prepend(
                out@,
                spec_repeat(buf@, (n - i) as nat, type_id_item()),
            ),
        decreases n - i,
    {
        let ghost here = buf@;
        let v = buf.read_u32()?;
        proof {
            lemma_repeat_next(out@, here, (n - i) as nat, type_id_item(), v, buf@);
        }
        out.push(v);
        i += 1;
    }
    proof {
        lemma_repeat_end(out@, buf@, type_id_item());
    }
    Ok(out)
}

/// Reads a counted list of format codes.
fn read_formats(buf: &mut Cursor) -> (r: Result<Vec<Format>, DecodeError>)
    ensures
        match spec_counted(old(buf)@, format_item()) {
            Ok((items, rest)) => r matches Ok(v) && v@ == items && final(buf)@ == rest,
            Err(e) => r matches Err(x) && x == e,
        },
{
    let count = buf.read_i16()?;
    let ghost start = buf@;
    let ghost n = spec_count(count);
    let mut out: Vec<Format> = Vec::new();
    let mut i: i16 = 0;
    proof {
        lemma_repeat_start(start, n, format_item());
    }
    while i < count
        invariant
            0 <= i <= n,
            n == spec_count(count),
            spec_counted(old(buf)@, format_item()) == spec_prepend(
                out@,
                spec_repeat(buf@, (n - i) as nat, format_item()),
            ),
        decreases n - i,
    {
        let ghost here = buf@;
        let v = buf.read_format()?;
        proof {
            lemma_repeat_next(out@, here, (n - i) as nat, format_item(), v, buf@);
        }
        out.push(v);
        i += 1;
    }
    proof {
        lemma_repeat_end(out@, buf@, format_item());
    }
    Ok(out)
}

/// Reads one raw parameter value.
fn read_raw_param(buf: &mut Cursor) -> (r: Result<Option<Vec<u8>>, DecodeError>)
    ensures
        match spec_read_raw_param(old(buf)@) {
            Ok((item, rest)) => r matches Ok(v) && v.deep_view() == item && final(buf)@ == rest,
            Err(e) => r matches Err(x) && x == e,
        },
{
    let len = buf.read_i32()?;
    if len == -1 {
        return Ok(None);
    }
    let n: usize = if len < 0 {
        0
    } else {
        len as usize
    };
    let value = buf.read_bytes(n)?;
    assert(value.deep_view() =~= value@);
    Ok(Some(value))
}

/// Reads a counted list of raw parameter values.
fn read_raw_params(buf: &mut Cursor) -> (r: Result<Vec<Option<Vec<u8>>>, DecodeError>)
    ensures
        match spec_counted(old(buf)@, raw_param_item()) {
            Ok((items, rest)) => r matches Ok(v) && v.deep_view() == items && final(buf)@ == rest,
            Err(e) => r matches Err(x) && x == e,
        },
{
    let count = buf.read_i16()?;
    let ghost start = buf@;
    let ghost n = spec_count(count);
    let mut out: Vec<Option<Vec<u8>>> = Vec::new();
    let mut i: i16 = 0;
    proof {
        lemma_repeat_start(start, n, raw_param_item());
        assert(out.deep_view() =~= Seq::<Option<Seq<u8>>>::empty());
    }
    while i < count
        invariant
            0 <= i <= n,
            n == spec_count(count),
            spec_counted(old(buf)@, raw_param_item()) == spec_prepend(
                out.deep_view(),
                spec_repeat(buf@, (n - i) as nat, raw_param_item()),
            ),
        decreases n - i,
    {
        let ghost here = buf@;
        let ghost head = out.deep_view();
        let v = read_raw_param(buf)?;
        proof {
            lemma_repeat_next(head, here, (n - i) as nat, raw_param_item(), v.deep_view(), buf@);
        }
        out.push(v);
        assert(out.deep_view() =~= head.push(v.deep_view()));
        i += 1;
    }
    proof {
        lemma_repeat_end(out.deep_view(), buf@, raw_param_item());
    }
    Ok(out)
}

/// Decodes a Terminate message, which has no payload to look at.
pub fn decode_terminate(buf: Cursor) -> (r: Result<FrontendMessage, DecodeError>)
    ensures
        decodes_to(r, Ok(FrontendMessageView::Terminate)),
{
    Ok(FrontendMessage::Terminate)
}

/// Decodes a Flush message, which has no payload to look at.
pub fn decode_flush(buf: Cursor) -> (r: Result<FrontendMessage, DecodeError>)
    ensures
        decodes_to(r, Ok(FrontendMessageView::Flush)),
{
    Ok(FrontendMessage::Flush)
}

/// Decodes a Sync message, which has no payload to look at.
pub fn decode_sync(buf: Cursor) -> (r: Result<FrontendMessage, DecodeError>)
    ensures
        decodes_to(r, Ok(FrontendMessageView::Sync)),
{
    Ok(FrontendMessage::Sync)
}

/// Decodes a CopyDone message, which has no payload to look at.
pub fn decode_copy_done(buf: Cursor) -> (r: Result<FrontendMessage, DecodeError>)
    ensures
        decodes_to(r, Ok(FrontendMessageView::CopyDone)),
{
    Ok(FrontendMessage::CopyDone)
}

/// Decodes a Password message.
pub fn decode_password(buf: Cursor) -> (r: Result<FrontendMessage, DecodeError>)
    ensures
        decodes_to(r, spec_decode_password(buf@)),
{
    let mut buf = buf;
    Ok(FrontendMessage::Password { password: buf.read_cstr()?.to_owned() })
}

/// Decodes a Query message.
pub fn decode_query(buf: Cursor) -> (r: Result<FrontendMessage, DecodeError>)
    ensures
        decodes_to(r, spec_decode_query(buf@)),
{
    let mut buf = buf;
    Ok(FrontendMessage::Query { sql: buf.read_cstr()?.to_owned() })
}

/// Decodes a CopyFail message.
pub fn decode_copy_fail(buf: Cursor) -> (r: Result<FrontendMessage, DecodeError>)
    ensures
        decodes_to(r, spec_decode_copy_fail(buf@)),
{
    let mut buf = buf;
    Ok(FrontendMessage::CopyFail(buf.read_cstr()?.to_owned()))
}

/// Decodes a Close message.
pub fn decode_close(buf: Cursor) -> (r: Result<FrontendMessage, DecodeError>)
    ensures
        decodes_to(r, spec_decode_close(buf@)),
{
    let mut buf = buf;
    let selector = buf.read_byte()?;
    if selector == tag::TARGET_STATEMENT {
        Ok(FrontendMessage::CloseStatement { name: buf.read_cstr()?.to_owned() })
    } else if selector == tag::TARGET_PORTAL {
        Ok(FrontendMessage::ClosePortal { name: buf.read_cstr()?.to_owned() })
    } else {
        Err(DecodeError::InvalidCloseTarget(selector))
    }
}

/// Decodes a Describe message.
pub fn decode_describe(buf: Cursor) -> (r: Result<FrontendMessage, DecodeError>)
    ensures
        decodes_to(r, spec_decode_describe(buf@)),
{
    let mut buf = buf;
    let selector = buf.read_byte()?;
    let name = buf.read_cstr()?.to_owned();
    if selector == tag::TARGET_STATEMENT {
        Ok(FrontendMessage::DescribeStatement { name })
    } else if selector == tag::TARGET_PORTAL {
        Ok(FrontendMessage::DescribePortal { name })
    } else {
        Err(DecodeError::InvalidDescribeTarget(selector))
    }
}

/// Decodes an Execute message.
pub fn decode_execute(buf: Cursor) -> (r: Result<FrontendMessage, DecodeError>)
    ensures
        decodes_to(r, spec_decode_execute(buf@)),
{
    let mut buf = buf;
    let portal_name = buf.read_cstr()?.to_owned();
    let max_rows = buf.read_i32()?;
    Ok(FrontendMessage::Execute { portal_name, max_rows })
}

/// Decodes a Parse message.
pub fn decode_parse(buf: Cursor) -> (r: Result<FrontendMessage, DecodeError>)
    ensures
        decodes_to(r, spec_decode_parse(buf@)),
{
    let mut buf = buf;
    let name = buf.read_cstr()?;
    let sql = buf.read_cstr()?;
    let param_types = read_type_ids(&mut buf)?;
    Ok(FrontendMessage::Parse { name: name.to_owned(), sql: sql.to_owned(), param_types })
}

/// Decodes a Bind message.
pub fn decode_bind(buf: Cursor) -> (r: Result<FrontendMessage, DecodeError>)
    ensures
        decodes_to(r, spec_decode_bind(buf@)),
{
    let mut buf = buf;
    let portal_name = buf.read_cstr()?.to_owned();
    let statement_name = buf.read_cstr()?.to_owned();
    let param_formats = read_formats(&mut buf)?;
    let raw_params = read_raw_params(&mut buf)?;
    let result_formats = read_formats(&mut buf)?;
    Ok(
        FrontendMessage::Bind {
            portal_name,
            statement_name,
            param_formats,
            raw_params,
            result_formats,
        },
    )
}

/// Decodes a CopyData message whose data is `frame_len` bytes long.
pub fn decode_copy_data(buf: Cursor, frame_len: usize) -> (r: Result<FrontendMessage, DecodeError>)
    ensures
        decodes_to(r, spec_decode_copy_data(buf@, frame_len as nat)),
{
    let mut buf = buf;
    let data = buf.read_bytes(frame_len)?;
    Ok(FrontendMessage::CopyData(data))
}

} // verus!
