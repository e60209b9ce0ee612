//! What holds of the codec as a whole.
//!
//! Each proof function here states a law of the protocol model over the
//! same spec functions that the contracts of the executable functions use,
//! so that what is proved of the model holds of the code.

use crate::codec::{
    spec_concat,
    spec_drain,
    spec_feed,
    spec_parse_frame_len,
    spec_step,
    spec_step_data,
    DecodeState,
    Outcome,
    Run,
    Step,
};
use crate::cursor::{spec_read_cstr, spec_read_format, spec_read_i16};
use crate::error::{DecodeError, MAX_FRAME_SIZE, MAX_REQUEST_SIZE};
use crate::format::{Format, Type};
use crate::frontend::{
    format_item,
    raw_param_item,
    spec_count,
    spec_counted,
    spec_decode_bind,
    spec_decode_frame,
    spec_read_raw_param,
    spec_repeat,
    FrontendMessageView,
};
use crate::message::{spec_copy_response, spec_format_codes, BackendMessage};
use crate::pgbuf::format_i16;
use crate::tag;
use crate::wire::{
    be32,
    be_i16,
    be_i32,
    i16_at,
    i32_at,
    lemma_be32_roundtrip,
    lemma_be_i32_roundtrip,
    u32_at,
};
use vstd::prelude::*;

verus! {

/// A step with more bytes at hand. Where the step with `buf` alone returns
/// a message or fails, the step with `buf + more` does the same and leaves
/// `more` behind what the first left. Where the step with `buf` alone
/// waits, going on from what it left with `more` added is the same as
/// starting over with `buf + more`.
pub proof fn lemma_step_with_more(state: DecodeState, buf: Seq<u8>, more: Seq<u8>)
    requires
        buf.len() + more.len() <= MAX_REQUEST_SIZE,
    ensures
        ({
            let alone = spec_step(state, buf);
            let whole = spec_step(state, buf + more);
            if alone.outcome is NeedMore {
                whole == spec_step(alone.state, alone.rest + more)
            } else {
                whole == Step { outcome: alone.outcome, state: alone.state, rest: alone.rest + more }
            }
        }),
{
    let joined = buf + more;
    match state {
        DecodeState::Head => {
            if buf.len() >= 5 {
                assert(joined.subrange(1, 5) =~= buf.subrange(1, 5));
                assert(joined[0] == buf[0]);
                assert(joined.skip(5) =~= buf.skip(5) + more);
                match spec_parse_frame_len(buf.subrange(1, 5)) {
                    Ok(frame_len) => {
                        lemma_step_data_with_more(buf[0], frame_len, buf.skip(5), more);
                    },
                    Err(_) => {},
                }
            }
        },
        DecodeState::Data(msg_type, frame_len) => {
            lemma_step_data_with_more(msg_type, frame_len, buf, more);
        },
    }
}

/// The same for a step that starts with the header already read.
proof fn lemma_step_data_with_more(msg_type: u8, frame_len: usize, buf: Seq<u8>, more: Seq<u8>)
    ensures
        ({
            let alone = spec_step_data(msg_type, frame_len, buf);
            let whole = spec_step_data(msg_type, frame_len, buf + more);
            if alone.outcome is NeedMore {
                alone.state == DecodeState::Data(msg_type, frame_len) && alone.rest == buf
            } else {
                whole == Step { outcome: alone.outcome, state: alone.state, rest: alone.rest + more }
            }
        }),
{
    if buf.len() >= frame_len {
        assert((buf + more).take(frame_len as int) =~= buf.take(frame_len as int));
        assert((buf + more).skip(frame_len as int) =~= buf.skip(frame_len as int) + more);
    }
}

/// Delivery in two parts changes nothing. Decoding `buf` as far as it goes
/// and then, with `more` added to what is left, decoding again, returns the
/// same messages in the same order, ends in the same failure if any, and
/// leaves the same state and bytes as decoding `buf + more` in one go. The
/// bytes must stay within `MAX_REQUEST_SIZE`: beyond it the decoder refuses
/// a buffer that it would have accepted in parts.
pub proof fn lemma_split_delivery(state: DecodeState, buf: Seq<u8>, more: Seq<u8>)
    requires
        buf.len() + more.len() <= MAX_REQUEST_SIZE,
    ensures
        ({
            let first = spec_drain(state, buf);
            let whole = spec_drain(state, buf + more);
            match first.error {
                Some(e) => whole == Run {
                    messages: first.messages,
                    state: first.state,
                    rest: first.rest + more,
                    error: Some(e),
                },
                None => {
                    let second = spec_drain(first.state, first.rest + more);
                    whole == Run {
                        messages: first.messages + second.messages,
                        state: second.state,
                        rest: second.rest,
                        error: second.error,
                    }
                },
            }
        }),
    decreases
            buf.len() + (if state is Head {
                0nat
            } else {
                1nat
            }),
{
    lemma_step_with_more(state, buf, more);
    let alone = spec_step(state, buf);
    let first = spec_drain(state, buf);
    let whole = spec_drain(state, buf + more);
    match alone.outcome {
        Outcome::NeedMore => {
            let second = spec_drain(first.state, first.rest + more);
            assert(first.messages + second.messages =~= second.messages);
        },
        Outcome::Failed(_) => {},
        Outcome::Message(m) => {
            lemma_split_delivery(alone.state, alone.rest, more);
            let later = spec_drain(alone.state, alone.rest);
            if later.error is None {
                let second = spec_drain(later.state, later.rest + more);
                assert(seq![m] + (later.messages + second.messages) =~= (seq![m]
                    + later.messages) + second.messages);
            }
        },
    }
}

/// Decoding takes bytes off the buffer and never adds any.
pub proof fn lemma_drain_shrinks(state: DecodeState, buf: Seq<u8>)
    ensures
        spec_drain(state, buf).rest.len() <= buf.len(),
    decreases
            buf.len() + (if state is Head {
                0nat
            } else {
                1nat
            }),
{
    let step = spec_step(state, buf);
    if step.outcome is Message {
        lemma_drain_shrinks(step.state, step.rest);
    }
}

/// Delivery in any number of parts changes nothing. However a stream of
/// bytes is cut into chunks, decoding as the chunks arrive returns the same
/// messages in the same order, ends in the same failure if any, and leaves
/// the same state and bytes as decoding the whole stream in one go. The
/// stream must stay within `MAX_REQUEST_SIZE`: beyond it the decoder
/// refuses a buffer that it would have accepted in parts.
pub proof fn lemma_chunked_delivery(state: DecodeState, buf: Seq<u8>, chunks: Seq<Seq<u8>>)
    requires
        buf.len() + spec_concat(chunks).len() <= MAX_REQUEST_SIZE,
    ensures
        spec_feed(state, buf, chunks) == spec_drain(state, buf + spec_concat(chunks)),
    decreases chunks.len(),
{
    let more = spec_concat(chunks);
    let first = spec_drain(state, buf);
    if chunks.len() == 0 {
        assert(buf + more =~= buf);
    } else {
        lemma_split_delivery(state, buf, more);
        if first.error is None {
            lemma_drain_shrinks(state, buf);
            assert((first.rest + chunks[0]) + spec_concat(chunks.skip(1)) =~= first.rest + more);
            lemma_chunked_delivery(first.state, first.rest + chunks[0], chunks.skip(1));
        }
    }
}

/// The payload is what the length field declares less the four bytes of
/// the field itself. With a header at hand whose length field declares
/// `declared`, between four and `MAX_FRAME_SIZE`, the payload length read
/// from it is `declared - 4`; and a step that then finds fewer payload bytes
/// than that takes the five bytes of the header off the buffer and waits
/// for exactly `declared - 4` bytes of a frame of the header's type.
pub proof fn lemma_payload_length(buf: Seq<u8>)
    requires
        5 <= buf.len() <= MAX_REQUEST_SIZE,
        4 <= u32_at(buf.subrange(1, 5)) <= MAX_FRAME_SIZE,
    ensures
        ({
            let declared = u32_at(buf.subrange(1, 5));
            let step = spec_step(DecodeState::Head, buf);
            &&& spec_parse_frame_len(buf.subrange(1, 5)) == Ok::<usize, DecodeError>(
                (declared - 4) as usize,
            )
            &&& buf.len() - 5 < declared - 4 ==> step == (Step {
                outcome: Outcome::NeedMore,
                state: DecodeState::Data(buf[0], (declared - 4) as usize),
                rest: buf.skip(5),
            })
        }),
{
}

/// A frame is its type byte, its length and its payload, and nothing
/// else: the frame of a message that encodes without error is five bytes
/// longer than its payload, starts with the message's type byte, declares
/// in its length field the payload's length plus the four bytes of the
/// field itself, and ends with the payload. A length field within
/// `MAX_FRAME_SIZE` reads back as the payload's length.
pub proof fn lemma_frame_layout(msg: BackendMessage, cols: Seq<(Type, Format)>)
    requires
        msg.spec_frame(cols).err is None,
    ensures
        ({
            let frame = msg.spec_frame(cols).bytes;
            let payload = msg.spec_payload(cols);
            &&& payload.err is None
            &&& frame == seq![msg.spec_tag()] + be32(4 + payload.bytes.len() as int)
                + payload.bytes
            &&& frame.len() == 5 + payload.bytes.len()
            &&& frame[0] == msg.spec_tag()
            &&& u32_at(frame.subrange(1, 5)) == 4 + payload.bytes.len()
            &&& frame.skip(5) == payload.bytes
            &&& 4 + payload.bytes.len() <= MAX_FRAME_SIZE ==> spec_parse_frame_len(
                frame.subrange(1, 5),
            ) == Ok::<usize, DecodeError>(payload.bytes.len() as usize)
        }),
{
    let frame = msg.spec_frame(cols).bytes;
    let payload = msg.spec_payload(cols);
    let declared = (4 + payload.bytes.len()) as i32;
    lemma_be_i32_roundtrip(declared);
    lemma_be32_roundtrip(declared as int);
    assert(frame.subrange(1, 5) =~= be_i32(declared));
    assert(frame.skip(5) =~= payload.bytes);
}

/// The decoder takes a frame off the buffer whole. From the state that
/// waits for a header, with a frame like those the encoder writes at the
/// front of the buffer and within `MAX_REQUEST_SIZE`, one step consumes the
/// header and the declared number of payload bytes and leaves what follows
/// the frame, whether or not the payload decodes.
pub proof fn lemma_frame_consumed(msg_type: u8, payload: Seq<u8>, more: Seq<u8>)
    requires
        5 + payload.len() + more.len() <= MAX_REQUEST_SIZE,
    ensures
        ({
            let frame = seq![msg_type] + be32(4 + payload.len() as int) + payload;
            let step = spec_step(DecodeState::Head, frame + more);
            &&& step.rest == more
            &&& match spec_decode_frame(msg_type, payload) {
                Ok(m) => step.outcome == Outcome::Message(m) && step.state == DecodeState::Head,
                Err(e) => step.outcome == Outcome::Failed(e) && step.state == DecodeState::Data(
                    msg_type,
                    payload.len() as usize,
                ),
            }
        }),
{
    let frame = seq![msg_type] + be32(4 + payload.len() as int) + payload;
    let buf = frame + more;
    lemma_be32_roundtrip(4 + payload.len() as int);
    assert(buf.subrange(1, 5) =~= be32(4 + payload.len() as int));
    assert(buf[0] == msg_type);
    assert(buf.skip(5).take(payload.len() as int) =~= payload);
    assert(buf.skip(5).skip(payload.len() as int) =~= more);
}

/// Copy data comes back as it went out. The two copy messages that both
/// sides send have the same layout in both directions: the frame that the
/// encoder writes for a chunk of copy data, within `MAX_REQUEST_SIZE`, is
/// decoded to a chunk with the same data, and the frame for the end of the
/// data to the end of the data; in both cases `more`, which follows the
/// frame, is left in the buffer.
pub proof fn lemma_copy_roundtrip(msg: BackendMessage, cols: Seq<(Type, Format)>, more: Seq<u8>)
    requires
        msg is CopyData || msg is CopyDone,
        msg.spec_frame(cols).bytes.len() + more.len() <= MAX_REQUEST_SIZE,
    ensures
        msg.spec_frame(cols).err is None,
        spec_step(DecodeState::Head, msg.spec_frame(cols).bytes + more) == (Step {
            outcome: Outcome::Message(
                match msg {
                    BackendMessage::CopyData(data) => FrontendMessageView::CopyData(data@),
                    _ => FrontendMessageView::CopyDone,
                },
            ),
            state: DecodeState::Head,
            rest: more,
        }),
{
    let payload = msg.spec_payload(cols).bytes;
    lemma_frame_layout(msg, cols);
    lemma_frame_consumed(msg.spec_tag(), payload, more);
    assert(payload.take(payload.len() as int) =~= payload);
}

/// NULL is not the empty value. A raw parameter whose length field is -1
/// decodes to no value and consumes the length field alone; one whose
/// length field is 0 decodes to the empty value and consumes as much.
pub proof fn lemma_null_is_not_empty(rest: Seq<u8>)
    ensures
        spec_read_raw_param(be_i32(-1i32) + rest) == Ok::<
            (Option<Seq<u8>>, Seq<u8>),
            DecodeError,
        >((None, rest)),
        spec_read_raw_param(be_i32(0i32) + rest) == Ok::<(Option<Seq<u8>>, Seq<u8>), DecodeError>(
            (Some(Seq::empty()), rest),
        ),
{
    lemma_be_i32_roundtrip(-1i32);
    lemma_be_i32_roundtrip(0i32);
    let null = be_i32(-1i32) + rest;
    let empty = be_i32(0i32) + rest;
    assert(i32_at(null) == i32_at(be_i32(-1i32)));
    assert(i32_at(empty) == i32_at(be_i32(0i32)));
    assert(null.skip(4) =~= rest);
    assert(empty.skip(4) =~= rest);
    assert(rest.take(0) =~= Seq::<u8>::empty());
    assert(rest.skip(0) =~= rest);
}

/// A format code is checked wherever one is read: with two bytes at hand,
/// reading a format succeeds exactly when they hold 0 or 1, and fails with
/// the offending code otherwise.
pub proof fn lemma_format_code_checked(s: Seq<u8>)
    requires
        s.len() >= 2,
    ensures
        i16_at(s) == 0 ==> spec_read_format(s) == Ok::<(Format, Seq<u8>), DecodeError>(
            (Format::Text, s.skip(2)),
        ),
        i16_at(s) == 1 ==> spec_read_format(s) == Ok::<(Format, Seq<u8>), DecodeError>(
            (Format::Binary, s.skip(2)),
        ),
        i16_at(s) != 0 && i16_at(s) != 1 ==> spec_read_format(s) == Err::<
            (Format, Seq<u8>),
            DecodeError,
        >(DecodeError::UnknownFormat(i16_at(s) as i16)),
{
}

/// The 16-bit code at position `j` of a list of codes that starts at `s`.
pub open spec fn code_at(s: Seq<u8>, j: int) -> int {
    i16_at(s.skip(2 * j))
}

/// One bad format code spoils the list. In a list of `n` format codes
/// starting at `s`, where the code at position `k` is the first that is
/// neither 0 nor 1, reading the list fails with that code.
pub proof fn lemma_first_bad_format(s: Seq<u8>, n: nat, k: nat)
    requires
        k < n,
        s.len() >= 2 * (k + 1),
        forall|j: int| 0 <= j < k ==> #[trigger] code_at(s, j) == 0 || code_at(s, j) == 1,
        code_at(s, k as int) != 0,
        code_at(s, k as int) != 1,
    ensures
        spec_repeat(s, n, format_item()) == Err::<(Seq<Format>, Seq<u8>), DecodeError>(
            DecodeError::UnknownFormat(code_at(s, k as int) as i16),
        ),
    decreases n,
{
    assert(s.skip(0) =~= s);
    lemma_format_code_checked(s);
    if k > 0 {
        let rest = s.skip(2);
        assert(code_at(s, 0) == 0 || code_at(s, 0) == 1);
        assert forall|j: int| 0 <= j < k - 1 implies #[trigger] code_at(rest, j) == 0 || code_at(
            rest,
            j,
        ) == 1 by {
            assert(rest.skip(2 * j) =~= s.skip(2 * (j + 1)));
            assert(code_at(s, j + 1) == 0 || code_at(s, j + 1) == 1);
        }
        assert(rest.skip(2 * (k - 1)) =~= s.skip(2 * k as int));
        lemma_first_bad_format(rest, (n - 1) as nat, (k - 1) as nat);
    }
}

/// Where the parameter format codes of a Bind payload stand: how many the
/// payload announces and the bytes from the first code on, provided the two
/// names before them can be read.
pub open spec fn bind_param_format_codes(payload: Seq<u8>) -> Option<(nat, Seq<u8>)> {
    match spec_read_cstr(payload) {
        Err(_) => None,
        Ok((_, s)) => match spec_read_cstr(s) {
            Err(_) => None,
            Ok((_, s)) => match spec_read_i16(s) {
                Err(_) => None,
                Ok((count, codes)) => Some((spec_count(count), codes)),
            },
        },
    }
}

/// Where the result format codes of a Bind payload stand: how many the
/// payload announces and the bytes from the first code on, provided all
/// that comes before them can be read.
pub open spec fn bind_result_format_codes(payload: Seq<u8>) -> Option<(nat, Seq<u8>)> {
    match spec_read_cstr(payload) {
        Err(_) => None,
        Ok((_, s)) => match spec_read_cstr(s) {
            Err(_) => None,
            Ok((_, s)) => match spec_counted(s, format_item()) {
                Err(_) => None,
                Ok((_, s)) => match spec_counted(s, raw_param_item()) {
                    Err(_) => None,
                    Ok((_, s)) => match spec_read_i16(s) {
                        Err(_) => None,
                        Ok((count, codes)) => Some((spec_count(count), codes)),
                    },
                },
            },
        },
    }
}

/// Bind rejects a bad format code among its parameter formats and among its
/// result formats alike: where the first code of either list that is
/// neither 0 nor 1 stands at position `k`, with the bytes before it at
/// hand, the whole message fails with that code.
pub proof fn lemma_bind_rejects_bad_format(payload: Seq<u8>, n: nat, codes: Seq<u8>, k: nat)
    requires
        bind_param_format_codes(payload) == Some((n, codes)) || bind_result_format_codes(payload)
            == Some((n, codes)),
        k < n,
        codes.len() >= 2 * (k + 1),
        forall|j: int| 0 <= j < k ==> #[trigger] code_at(codes, j) == 0 || code_at(codes, j) == 1,
        code_at(codes, k as int) != 0,
        code_at(codes, k as int) != 1,
    ensures
        spec_decode_bind(payload) == Err::<FrontendMessageView, DecodeError>(
            DecodeError::UnknownFormat(code_at(codes, k as int) as i16),
        ),
{
    lemma_first_bad_format(codes, n, k);
}

/// The 16-bit format code that the encoder writes for a column of a row
/// description is one that the decoder accepts, and reads back as the same
/// format.
pub proof fn lemma_format_roundtrip(format: Format, rest: Seq<u8>)
    ensures
        spec_read_format(format_i16(format) + rest) == Ok::<(Format, Seq<u8>), DecodeError>(
            (format, rest),
        ),
{
    let s = format_i16(format) + rest;
    assert(s.skip(2) =~= rest);
}

/// A copy response carries one format byte per column, and each is a
/// format code. With no more columns than a 16-bit count can say, the
/// payload of a CopyInResponse or CopyOutResponse is the code of the overall
/// format, the number of columns in two bytes, and then for each column, in
/// order, the one byte that is its code: 3 bytes and one more per column.
/// Every code in it is 0 or 1, so a reader that checks format codes accepts
/// each and reads back the format that was written.
pub proof fn lemma_copy_response_layout(overall_format: Format, column_formats: Seq<Format>)
    requires
        column_formats.len() <= i16::MAX,
    ensures
        ({
            let payload = spec_copy_response(overall_format, column_formats);
            let n = column_formats.len();
            &&& payload.err is None
            &&& payload.bytes == seq![overall_format.spec_code()] + be_i16(n as i16)
                + spec_format_codes(column_formats)
            &&& payload.bytes.len() == 3 + n
            &&& Format::spec_from_code(payload.bytes[0] as i16) == Ok::<Format, DecodeError>(
                overall_format,
            )
            &&& forall|i: int|
                0 <= i < n ==> payload.bytes[3 + i] == (#[trigger] column_formats[i]).spec_code()
                    && Format::spec_from_code(payload.bytes[3 + i] as i16) == Ok::<
                    Format,
                    DecodeError,
                >(column_formats[i])
        }),
{
    let payload = spec_copy_response(overall_format, column_formats);
    let n = column_formats.len();
    assert(payload.bytes =~= seq![overall_format.spec_code()] + be_i16(n as i16)
        + spec_format_codes(column_formats));
}

/// Whether `msg_type` is the type byte of some frontend message.
pub open spec fn is_frontend_type(msg_type: u8) -> bool {
    ||| msg_type == tag::QUERY
    ||| msg_type == tag::PARSE
    ||| msg_type == tag::DESCRIBE
    ||| msg_type == tag::BIND
    ||| msg_type == tag::EXECUTE
    ||| msg_type == tag::FLUSH
    ||| msg_type == tag::SYNC
    ||| msg_type == tag::CLOSE
    ||| msg_type == tag::TERMINATE
    ||| msg_type == tag::PASSWORD
    ||| msg_type == tag::COPY_FAIL
    ||| msg_type == tag::COPY_DATA
    ||| msg_type == tag::COPY_DONE
}

/// An unknown type byte is rejected by name, and for good. A frame whose
/// type byte belongs to no frontend message fails with that byte, whatever
/// its payload; and once the decoder waits for the payload of such a frame
/// it never returns a message again, and never leaves that state, whatever
/// bytes arrive.
pub proof fn lemma_unknown_type_rejected(msg_type: u8, frame_len: usize, buf: Seq<u8>)
    requires
        !is_frontend_type(msg_type),
    ensures
        forall|payload: Seq<u8>| #[trigger]
            spec_decode_frame(msg_type, payload) == Err::<FrontendMessageView, DecodeError>(
                DecodeError::UnknownMessageType(msg_type),
            ),
        ({
            let waiting = DecodeState::Data(msg_type, frame_len);
            let step = spec_step(waiting, buf);
            &&& frame_len <= buf.len() <= MAX_REQUEST_SIZE ==> step.outcome == Outcome::Failed(
                DecodeError::UnknownMessageType(msg_type),
            )
            &&& !(step.outcome is Message)
            &&& step.state == waiting
            &&& spec_drain(waiting, buf).messages.len() == 0
        }),
{
}

/// The size limit comes first. With more than `MAX_REQUEST_SIZE` bytes
/// buffered, a step fails whatever the state and the bytes, takes nothing
/// off the buffer and leaves the state as it was; no message is returned.
pub proof fn lemma_oversized_rejected(state: DecodeState, buf: Seq<u8>)
    requires
        buf.len() > MAX_REQUEST_SIZE,
    ensures
        spec_step(state, buf) == (Step {
            outcome: Outcome::Failed(DecodeError::RequestTooLarge),
            state,
            rest: buf,
        }),
        spec_drain(state, buf) == (Run {
            messages: Seq::empty(),
            state,
            rest: buf,
            error: Some(DecodeError::RequestTooLarge),
        }),
{
}

} // verus!
