//! Writing the payload of each backend message.

use crate::buffer::{buf_as_mut_slice, buf_bytes, buf_len};
use crate::error::EncodeError;
use crate::format::{Format, Type};
use crate::message::{
    spec_copy_response,
    spec_datum,
    spec_error_fields,
    spec_field,
    spec_fields,
    spec_format_codes,
    spec_oids,
    spec_optional_field,
    spec_optional_fields,
    spec_optional_text,
    spec_required_fields,
    spec_row,
    spec_tagged_field,
    BackendMessage,
    ErrorResponse,
    FieldDescription,
};
use crate::pgbuf::{
    cstr,
    emitted,
    fits,
    lemma_emitted_then,
    lemma_wrote_emitted,
    put_format_i16,
    put_format_i8,
    put_i16,
    put_i32,
    put_length_i16,
    put_slice,
    put_string,
    put_u16,
    put_u32,
    put_u8,
    spec_length_i16,
    Emit,
};
use crate::tag;
use crate::text::decimal_string;
use crate::value::Value;
use crate::wire::{be32, be_i32};
use bytes::BytesMut;
use vstd::prelude::*;
use vstd::string::*;

verus! {

/// Appends one column of a RowDescription.
fn encode_field(dst: &mut BytesMut, f: &FieldDescription) -> (r: Result<(), EncodeError>)
    ensures
        emitted(*old(dst), *final(dst), r, Emit::done(spec_field(*f))),
{
    put_string(dst, f.name.as_str())?;
    put_u32(dst, f.table_id)?;
    put_u16(dst, f.column_id)?;
    put_u32(dst, f.type_oid)?;
    put_i16(dst, f.type_len)?;
    put_i32(dst, f.type_mod)?;
    put_format_i16(dst, f.format)?;
    assert(buf_bytes(*dst) =~= buf_bytes(*old(dst)) + spec_field(*f));
    Ok(())
}

/// The columns of a RowDescription grow with their number.
proof fn lemma_fields_grow(fields: Seq<FieldDescription>, i: nat, n: nat)
    requires
        i <= n,
    ensures
        spec_fields(fields, i).len() <= spec_fields(fields, n).len(),
    decreases n,
{
    if i < n {
        lemma_fields_grow(fields, i, (n - 1) as nat);
    }
}

/// Each type identifier takes four bytes.
proof fn lemma_oids_len(params: Seq<Type>, n: nat)
    ensures
        spec_oids(params, n).len() == 4 * n,
    decreases n,
{
    if n > 0 {
        lemma_oids_len(params, (n - 1) as nat);
    }
}

/// Once a field has stopped the encoder, more fields change nothing; until
/// then, more fields emit no less.
proof fn lemma_row_settles(
    fields: Seq<Option<Value>>,
    cols: Seq<(Type, Format)>,
    i: nat,
    n: nat,
)
    requires
        i <= n,
    ensures
        spec_row(fields, cols, i).err is Some ==> spec_row(fields, cols, n) == spec_row(
            fields,
            cols,
            i,
        ),
        spec_row(fields, cols, i).bytes.len() <= spec_row(fields, cols, n).bytes.len(),
    decreases n,
{
    if i < n {
        lemma_row_settles(fields, cols, i, (n - 1) as nat);
    }
}

/// Appends the columns of a RowDescription.
fn encode_fields(dst: &mut BytesMut, fields: &Vec<FieldDescription>) -> (r: Result<
    (),
    EncodeError,
>)
    ensures
        emitted(*old(dst), *final(dst), r, Emit::done(spec_fields(fields@, fields@.len()))),
{
    let ghost start = *dst;
    let mut i: usize = 0;
    assert(buf_bytes(*dst) =~= buf_bytes(start) + spec_fields(fields@, 0));
    while i < fields.len()
        invariant
            i <= fields@.len(),
            start == *old(dst),
            buf_bytes(*dst) == buf_bytes(start) + spec_fields(fields@, i as nat),
            fits(start, spec_fields(fields@, i as nat).len() as int),
        decreases fields@.len() - i,
    {
        let ghost mid = *dst;
        let r = encode_field(dst, &fields[i]);
        proof {
            lemma_emitted_then(
                start,
                mid,
                *dst,
                Ok(()),
                r,
                Emit::done(spec_fields(fields@, i as nat)),
                Emit::done(spec_field(fields@[i as int])),
            );
            lemma_fields_grow(fields@, (i + 1) as nat, fields@.len());
        }
        match r {
            Err(e) => {
                return Err(e);
            },
            Ok(()) => {},
        }
        i += 1;
    }
    Ok(())
}

/// Appends the type identifiers of the parameters.
fn encode_oids(dst: &mut BytesMut, params: &Vec<Type>) -> (r: Result<(), EncodeError>)
    ensures
        emitted(*old(dst), *final(dst), r, Emit::done(spec_oids(params@, params@.len()))),
{
    let ghost start = *dst;
    let mut i: usize = 0;
    assert(buf_bytes(*dst) =~= buf_bytes(start) + spec_oids(params@, 0));
    while i < params.len()
        invariant
            i <= params@.len(),
            start == *old(dst),
            buf_bytes(*dst) == buf_bytes(start) + spec_oids(params@, i as nat),
            fits(start, spec_oids(params@, i as nat).len() as int),
        decreases params@.len() - i,
    {
        let ghost mid = *dst;
        let r = put_u32(dst, params[i].oid());
        proof {
            lemma_wrote_emitted(mid, *dst, r, be32(params@[i as int].spec_oid() as int));
            lemma_emitted_then(
                start,
                mid,
                *dst,
                Ok(()),
                r,
                Emit::done(spec_oids(params@, i as nat)),
                Emit::done(be32(params@[i as int].spec_oid() as int)),
            );
            lemma_oids_len(params@, (i + 1) as nat);
            lemma_oids_len(params@, params@.len());
        }
        match r {
            Err(e) => {
                return Err(e);
            },
            Ok(()) => {},
        }
        i += 1;
    }
    Ok(())
}

/// Appends the format codes of the columns, one byte each.
fn encode_format_codes(dst: &mut BytesMut, formats: &Vec<Format>) -> (r: Result<(), EncodeError>)
    ensures
        emitted(*old(dst), *final(dst), r, Emit::done(spec_format_codes(formats@))),
{
    let ghost start = *dst;
    let mut i: usize = 0;
    assert(buf_bytes(*dst) =~= buf_bytes(start) + spec_format_codes(formats@.take(0)));
    while i < formats.len()
        invariant
            i <= formats@.len(),
            start == *old(dst),
            buf_bytes(*dst) == buf_bytes(start) + spec_format_codes(formats@.take(i as int)),
            fits(start, i as int),
        decreases formats@.len() - i,
    {
        let ghost mid = *dst;
        let r = put_format_i8(dst, formats[i]);
        match r {
            Err(e) => {
                assert(buf_bytes(start).is_prefix_of(buf_bytes(mid)));
                return Err(e);
            },
            Ok(()) => {},
        }
        i += 1;
        assert(buf_bytes(*dst) =~= buf_bytes(start) + spec_format_codes(formats@.take(i as int)));
    }
    assert(formats@.take(i as int) =~= formats@);
    Ok(())
}

/// Fills in a length: overwrites the four bytes of `dst` from `base` on
/// with `len`, big-endian, and leaves the rest alone.
pub fn patch_length(dst: &mut BytesMut, base: usize, len: u32)
    requires
        base + 4 <= buf_bytes(*old(dst)).len(),
    ensures
        buf_bytes(*final(dst)) == buf_bytes(*old(dst)).take(base as int) + be32(len as int)
            + buf_bytes(*old(dst)).skip(base + 4),
{
    let bytes = buf_as_mut_slice(dst);
    bytes[base] = (len / 0x100_0000) as u8;
    bytes[base + 1] = ((len / 0x1_0000) % 0x100) as u8;
    bytes[base + 2] = ((len / 0x100) % 0x100) as u8;
    bytes[base + 3] = (len % 0x100) as u8;
    assert(bytes@ =~= buf_bytes(*old(dst)).take(base as int) + be32(len as int) + buf_bytes(
        *old(dst),
    ).skip(base + 4));
}

/// Appends one field of a row: a four-byte length that is filled in once
/// the value has been written behind it, or the length -1 for NULL.
fn encode_datum(dst: &mut BytesMut, field: &Option<Value>, ty: &Type, format: Format) -> (r:
    Result<(), EncodeError>)
    ensures
        emitted(*old(dst), *final(dst), r, spec_datum(*field, (*ty, format))),
{
    match field {
        None => {
            let r = put_i32(dst, -1);
            proof {
                lemma_wrote_emitted(*old(dst), *dst, r, be_i32(-1i32));
            }
            r
        },
        Some(value) => {
            let ghost wire = value.spec_wire(*ty, format);
            let base = buf_len(dst);
            put_u32(dst, 0)?;
            value.encode(ty, format, dst)?;
            assert(buf_bytes(*dst) =~= buf_bytes(*old(dst)) + (be32(0) + wire));
            let len = buf_len(dst) - base - 4;
            if len > i32::MAX as usize {
                return Err(EncodeError::FieldTooLong);
            }
            patch_length(dst, base, len as u32);
            assert(buf_bytes(*dst) =~= buf_bytes(*old(dst)) + (be_i32(len as i32) + wire));
            Ok(())
        },
    }
}

/// Appends the fields of a row, each laid out by the column at its
/// position.
fn encode_row(dst: &mut BytesMut, fields: &Vec<Option<Value>>, cols: &Vec<(Type, Format)>) -> (r:
    Result<(), EncodeError>)
    requires
        fields@.len() == cols@.len(),
    ensures
        emitted(*old(dst), *final(dst), r, spec_row(fields@, cols@, fields@.len())),
{
    let ghost start = *dst;
    let mut i: usize = 0;
    assert(buf_bytes(*dst) =~= buf_bytes(start) + spec_row(fields@, cols@, 0).bytes);
    while i < fields.len()
        invariant
            i <= fields@.len(),
            fields@.len() == cols@.len(),
            start == *old(dst),
            spec_row(fields@, cols@, i as nat).err is None,
            buf_bytes(*dst) == buf_bytes(start) + spec_row(fields@, cols@, i as nat).bytes,
            fits(start, spec_row(fields@, cols@, i as nat).bytes.len() as int),
        decreases fields@.len() - i,
    {
        let ghost mid = *dst;
        let (ty, format) = cols[i];
        let r = encode_datum(dst, &fields[i], &ty, format);
        proof {
            lemma_emitted_then(
                start,
                mid,
                *dst,
                Ok(()),
                r,
                spec_row(fields@, cols@, i as nat),
                spec_datum(fields@[i as int], cols@[i as int]),
            );
            lemma_row_settles(fields@, cols@, (i + 1) as nat, fields@.len());
        }
        match r {
            Err(e) => {
                return Err(e);
            },
            Ok(()) => {},
        }
        i += 1;
    }
    Ok(())
}

/// Appends a field of an ErrorResponse.
fn encode_tagged_field(dst: &mut BytesMut, field_tag: u8, text: &str) -> (r: Result<
    (),
    EncodeError,
>)
    ensures
        emitted(*old(dst), *final(dst), r, Emit::done(spec_tagged_field(field_tag, text@))),
{
    put_u8(dst, field_tag)?;
    put_string(dst, text)?;
    assert(buf_bytes(*dst) =~= buf_bytes(*old(dst)) + spec_tagged_field(field_tag, text@));
    Ok(())
}

/// Appends an optional field of an ErrorResponse.
fn encode_optional_field(dst: &mut BytesMut, field_tag: u8, text: &Option<String>) -> (r: Result<
    (),
    EncodeError,
>)
    ensures
        emitted(
            *old(dst),
            *final(dst),
            r,
            Emit::done(spec_optional_field(field_tag, spec_optional_text(*text))),
        ),
{
    match text {
        Some(t) => encode_tagged_field(dst, field_tag, t.as_str()),
        None => {
            assert(buf_bytes(*dst) =~= buf_bytes(*old(dst)) + Seq::<u8>::empty());
            Ok(())
        },
    }
}

/// Appends the severity, code and message of an ErrorResponse.
fn encode_required_fields(dst: &mut BytesMut, response: &ErrorResponse) -> (r: Result<
    (),
    EncodeError,
>)
    ensures
        emitted(*old(dst), *final(dst), r, Emit::done(spec_required_fields(*response))),
{
    encode_tagged_field(dst, tag::FIELD_SEVERITY, response.severity.as_str())?;
    encode_tagged_field(dst, tag::FIELD_CODE, response.code.as_str())?;
    encode_tagged_field(dst, tag::FIELD_MESSAGE, response.message.as_str())?;
    assert(buf_bytes(*dst) =~= buf_bytes(*old(dst)) + spec_required_fields(*response));
    Ok(())
}

/// Appends the detail, hint and position of an ErrorResponse, as far as it
/// has them.
fn encode_optional_fields(dst: &mut BytesMut, response: &ErrorResponse) -> (r: Result<
    (),
    EncodeError,
>)
    ensures
        emitted(*old(dst), *final(dst), r, Emit::done(spec_optional_fields(*response))),
{
    encode_optional_field(dst, tag::FIELD_DETAIL, &response.detail)?;
    encode_optional_field(dst, tag::FIELD_HINT, &response.hint)?;
    let position: Option<String> = match response.position {
        Some(p) => Some(decimal_string(p as u64)),
        None => None,
    };
    encode_optional_field(dst, tag::FIELD_POSITION, &position)?;
    assert(buf_bytes(*dst) =~= buf_bytes(*old(dst)) + spec_optional_fields(*response));
    Ok(())
}

/// Appends the fields of an ErrorResponse and the NUL that ends them.
fn encode_error_fields(dst: &mut BytesMut, response: &ErrorResponse) -> (r: Result<
    (),
    EncodeError,
>)
    ensures
        emitted(*old(dst), *final(dst), r, Emit::done(spec_error_fields(*response))),
{
    encode_required_fields(dst, response)?;
    encode_optional_fields(dst, response)?;
    put_u8(dst, 0)?;
    assert(buf_bytes(*dst) =~= buf_bytes(*old(dst)) + spec_error_fields(*response));
    Ok(())
}

/// Appends the payload of a CopyInResponse or CopyOutResponse.
fn encode_copy_response(dst: &mut BytesMut, overall_format: Format, column_formats: &Vec<Format>)
    -> (r: Result<(), EncodeError>)
    ensures
        emitted(*old(dst), *final(dst), r, spec_copy_response(overall_format, column_formats@)),
{
    put_format_i8(dst, overall_format)?;
    let ghost mid = *dst;
    let counted = put_length_i16(dst, column_formats.len());
    let ghost mid2 = *dst;
    let ghost head = Emit::done(seq![overall_format.spec_code()]);
    let ghost count = spec_length_i16(column_formats@.len());
    proof {
        lemma_wrote_emitted(*old(dst), mid, Ok(()), seq![overall_format.spec_code()]);
        lemma_emitted_then(*old(dst), mid, mid2, Ok(()), counted, head, count);
    }
    match counted {
        Err(e) => {
            return Err(e);
        },
        Ok(()) => {},
    }
    let r = encode_format_codes(dst, column_formats);
    proof {
        lemma_emitted_then(
            *old(dst),
            mid2,
            *dst,
            Ok(()),
            r,
            head.followed_by(count),
            Emit::done(spec_format_codes(column_formats@)),
        );
    }
    r
}

/// Appends a list length and then what `rest` stands for, which has
/// already been shown to be what the list's encoder emits.
proof fn lemma_counted(
    before: BytesMut,
    mid: BytesMut,
    after: BytesMut,
    counted: Result<(), EncodeError>,
    r: Result<(), EncodeError>,
    len: nat,
    rest: Emit,
)
    requires
        emitted(before, mid, counted, spec_length_i16(len)),
        counted is Ok ==> emitted(mid, after, r, rest),
        counted is Err ==> r == counted && after == mid,
    ensures
        emitted(before, after, r, spec_length_i16(len).followed_by(rest)),
{
    lemma_emitted_then(before, mid, after, counted, r, spec_length_i16(len), rest);
}

/// Appends the payload of `msg`, with rows laid out by `cols`.
pub fn encode_payload(cols: &Vec<(Type, Format)>, msg: BackendMessage, dst: &mut BytesMut) -> (r:
    Result<(), EncodeError>)
    requires
        msg matches BackendMessage::DataRow(fields) ==> fields@.len() == cols@.len(),
    ensures
        emitted(*old(dst), *final(dst), r, msg.spec_payload(cols@)),
{
    let ghost start = *dst;
    match msg {
        BackendMessage::CopyInResponse { overall_format, column_formats }
        | BackendMessage::CopyOutResponse {
            overall_format,
            column_formats,
        } => encode_copy_response(dst, overall_format, &column_formats),
        BackendMessage::CopyData(data) => {
            let r = put_slice(dst, data.as_slice());
            proof {
                lemma_wrote_emitted(start, *dst, r, data@);
            }
            r
        },
        BackendMessage::AuthenticationOk => {
            let r = put_u32(dst, 0);
            proof {
                lemma_wrote_emitted(start, *dst, r, be32(0));
            }
            r
        },
        BackendMessage::AuthenticationCleartextPassword => {
            let r = put_u32(dst, 3);
            proof {
                lemma_wrote_emitted(start, *dst, r, be32(3));
            }
            r
        },
        BackendMessage::RowDescription(fields) => {
            let counted = put_length_i16(dst, fields.len());
            let ghost mid = *dst;
            match counted {
                Err(e) => {
                    proof {
                        lemma_counted(
                            start,
                            mid,
                            mid,
                            counted,
                            counted,
                            fields@.len(),
                            Emit::done(spec_fields(fields@, fields@.len())),
                        );
                    }
                    Err(e)
                },
                Ok(()) => {
                    let r = encode_fields(dst, &fields);
                    proof {
                        lemma_counted(
                            start,
                            mid,
                            *dst,
                            counted,
                            r,
                            fields@.len(),
                            Emit::done(spec_fields(fields@, fields@.len())),
                        );
                    }
                    r
                },
            }
        },
        BackendMessage::DataRow(fields) => {
            let counted = put_length_i16(dst, fields.len());
            let ghost mid = *dst;
            match counted {
                Err(e) => {
                    proof {
                        lemma_counted(
                            start,
                            mid,
                            mid,
                            counted,
                            counted,
                            fields@.len(),
                            spec_row(fields@, cols@, fields@.len()),
                        );
                    }
                    Err(e)
                },
                Ok(()) => {
                    let r = encode_row(dst, &fields, cols);
                    proof {
                        lemma_counted(
                            start,
                            mid,
                            *dst,
                            counted,
                            r,
                            fields@.len(),
                            spec_row(fields@, cols@, fields@.len()),
                        );
                    }
                    r
                },
            }
        },
        BackendMessage::CommandComplete { tag } => {
            let r = put_string(dst, tag.as_str());
            proof {
                lemma_wrote_emitted(start, *dst, r, cstr(tag@));
            }
            r
        },
        BackendMessage::ParseComplete
        | BackendMessage::BindComplete
        | BackendMessage::CloseComplete
        | BackendMessage::EmptyQueryResponse
        | BackendMessage::PortalSuspended
        | BackendMessage::NoData
        | BackendMessage::CopyDone => {
            assert(buf_bytes(*dst) =~= buf_bytes(start) + Seq::<u8>::empty());
            Ok(())
        },
        BackendMessage::ReadyForQuery(status) => {
            let r = put_u8(dst, status.code());
            proof {
                lemma_wrote_emitted(start, *dst, r, seq![status.spec_code()]);
            }
            r
        },
        BackendMessage::ParameterStatus(name, value) => {
            put_string(dst, name)?;
            put_string(dst, value.as_str())?;
            assert(buf_bytes(*dst) =~= buf_bytes(start) + (cstr(name@) + cstr(value@)));
            Ok(())
        },
        BackendMessage::BackendKeyData { conn_id, secret_key } => {
            put_u32(dst, conn_id)?;
            put_u32(dst, secret_key)?;
            assert(buf_bytes(*dst) =~= buf_bytes(start) + (be32(conn_id as int) + be32(
                secret_key as int,
            )));
            Ok(())
        },
        BackendMessage::ParameterDescription(params) => {
            let counted = put_length_i16(dst, params.len());
            let ghost mid = *dst;
            match counted {
                Err(e) => {
                    proof {
                        lemma_counted(
                            start,
                            mid,
                            mid,
                            counted,
                            counted,
                            params@.len(),
                            Emit::done(spec_oids(params@, params@.len())),
                        );
                    }
                    Err(e)
                },
                Ok(()) => {
                    let r = encode_oids(dst, &params);
                    proof {
                        lemma_counted(
                            start,
                            mid,
                            *dst,
                            counted,
                            r,
                            params@.len(),
                            Emit::done(spec_oids(params@, params@.len())),
                        );
                    }
                    r
                },
            }
        },
        BackendMessage::ErrorResponse(response) => encode_error_fields(dst, &response),
    }
}

} // verus!
