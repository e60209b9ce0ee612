//! The frame codec: bytes to frontend messages, backend messages to bytes.
//!
//! Every message travels in a frame: one type byte, a four-byte big-endian
//! length that counts itself and the payload, and the payload. Decoding is a
//! two-state machine that is re-entered whenever more bytes have arrived;
//! [`spec_step`] is its model. Encoding writes the type byte and a
//! placeholder for the length, then the payload, then fills the length in;
//! [`BackendMessage::spec_frame`] is its model.

use crate::buffer::{
    buf_advance,
    buf_as_slice,
    buf_bytes,
    buf_len,
    buf_reserve,
    buf_split_to,
};
use crate::cursor::Cursor;
use crate::encoder::{encode_payload, patch_length};
use crate::error::{DecodeError, EncodeError, MAX_FRAME_SIZE, MAX_REQUEST_SIZE};
use crate::format::{Format, Type};
use crate::frontend::{
    decode_bind,
    decode_close,
    decode_copy_data,
    decode_copy_done,
    decode_copy_fail,
    decode_describe,
    decode_execute,
    decode_flush,
    decode_parse,
    decode_password,
    decode_query,
    decode_sync,
    decode_terminate,
    decodes_to,
    spec_decode_frame,
    FrontendMessage,
    FrontendMessageView,
};
use crate::message::BackendMessage;
use crate::pgbuf::{emitted, fits, put_u32, put_u8};
use crate::tag;
use crate::wire::{be32, be_i32, read_u32_be, u32_at};
use bytes::BytesMut;
use vstd::prelude::*;
use vstd::slice::slice_subrange;

verus! {

/// Where the decoder stands between two calls.
#[derive(Clone, Copy, Debug, PartialEq, Eq, Structural)]
pub enum DecodeState {
    /// Waiting for the five bytes of a frame's header.
    Head,
    /// The header has been read: waiting for the payload of a frame with
    /// the given type byte and payload length.
    Data(u8, usize),
}

/// What one call of the decoder comes to.
pub enum Outcome {
    /// The bytes at hand do not make a whole frame.
    NeedMore,
    /// A frame was complete and stood for this message.
    Message(FrontendMessageView),
    /// The bytes at hand can never be decoded.
    Failed(DecodeError),
}

/// One step of the decoder: what it comes to, the state it leaves, and the
/// bytes it leaves in the buffer.
pub struct Step {
    pub outcome: Outcome,
    pub state: DecodeState,
    pub rest: Seq<u8>,
}

/// The payload length that a frame's length field declares: the length
/// field counts its own four bytes, which are taken off. A field above
/// `MAX_FRAME_SIZE` or below four is rejected.
pub open spec fn spec_parse_frame_len(src: Seq<u8>) -> Result<usize, DecodeError>
    recommends
        src.len() >= 4,
{
    let declared = u32_at(src);
    if declared > MAX_FRAME_SIZE {
        Err(DecodeError::FrameTooBig)
    } else if declared < 4 {
        Err(DecodeError::InvalidFrameLength)
    } else {
        Ok((declared - 4) as usize)
    }
}

/// A step that starts with the header already read. With fewer than
/// `frame_len` bytes at hand it waits; else it takes exactly `frame_len`
/// bytes off the buffer and decodes them. After a message it is ready for
/// the next header; after a failure it stays where it is.
pub open spec fn spec_step_data(msg_type: u8, frame_len: usize, buf: Seq<u8>) -> Step {
    if buf.len() < frame_len {
        Step { outcome: Outcome::NeedMore, state: DecodeState::Data(msg_type, frame_len), rest: buf }
    } else {
        match spec_decode_frame(msg_type, buf.take(frame_len as int)) {
            Ok(message) => Step {
                outcome: Outcome::Message(message),
                state: DecodeState::Head,
                rest: buf.skip(frame_len as int),
            },
            Err(e) => Step {
                outcome: Outcome::Failed(e),
                state: DecodeState::Data(msg_type, frame_len),
                rest: buf.skip(frame_len as int),
            },
        }
    }
}

/// One step of the decoder from `state` with `buf` at hand. More than
/// `MAX_REQUEST_SIZE` bytes at hand is a failure whatever they hold. Waiting
/// for a header, the step waits until there are five bytes, then reads the
/// type byte and the length, takes the five bytes off the buffer and goes on
/// as a step that waits for the payload.
pub open spec fn spec_step(state: DecodeState, buf: Seq<u8>) -> Step {
    if buf.len() > MAX_REQUEST_SIZE {
        Step { outcome: Outcome::Failed(DecodeError::RequestTooLarge), state, rest: buf }
    } else {
        match state {
            DecodeState::Head => if buf.len() < 5 {
                Step { outcome: Outcome::NeedMore, state, rest: buf }
            } else {
                match spec_parse_frame_len(buf.subrange(1, 5)) {
                    Err(e) => Step { outcome: Outcome::Failed(e), state, rest: buf },
                    Ok(frame_len) => spec_step_data(buf[0], frame_len, buf.skip(5)),
                }
            },
            DecodeState::Data(msg_type, frame_len) => spec_step_data(msg_type, frame_len, buf),
        }
    }
}

/// What the decoder comes to when it is called again and again on the same
/// buffer until it waits or fails: the messages it returned, in order; the
/// state and the bytes it left; and the failure, if it ended in one.
pub struct Run {
    pub messages: Seq<FrontendMessageView>,
    pub state: DecodeState,
    pub rest: Seq<u8>,
    pub error: Option<DecodeError>,
}

/// The decoder called on `buf` from `state` until it waits or fails.
pub open spec fn spec_drain(state: DecodeState, buf: Seq<u8>) -> Run
    decreases
            buf.len() + (if state is Head {
                0nat
            } else {
                1nat
            }),
{
    let step = spec_step(state, buf);
    match step.outcome {
        Outcome::NeedMore => Run {
            messages: Seq::empty(),
            state: step.state,
            rest: step.rest,
            error: None,
        },
        Outcome::Failed(e) => Run {
            messages: Seq::empty(),
            state: step.state,
            rest: step.rest,
            error: Some(e),
        },
        Outcome::Message(m) => {
            let later = spec_drain(step.state, step.rest);
            Run {
                messages: seq![m] + later.messages,
                state: later.state,
                rest: later.rest,
                error: later.error,
            }
        },
    }
}

/// The chunks one after the other, as one sequence of bytes.
pub open spec fn spec_concat(chunks: Seq<Seq<u8>>) -> Seq<u8>
    decreases chunks.len(),
{
    if chunks.len() == 0 {
        Seq::empty()
    } else {
        chunks[0] + spec_concat(chunks.skip(1))
    }
}

/// The decoder as a connection drives it: called on what is at hand until
/// it waits, then again with the next chunk added, and so on through all
/// the chunks. After a failure no more is decoded, and the chunks not yet
/// looked at stay behind what the decoder left.
pub open spec fn spec_feed(state: DecodeState, buf: Seq<u8>, chunks: Seq<Seq<u8>>) -> Run
    decreases chunks.len(),
{
    let first = spec_drain(state, buf);
    if chunks.len() == 0 {
        first
    } else if first.error is Some {
        Run {
            messages: first.messages,
            state: first.state,
            rest: first.rest + spec_concat(chunks),
            error: first.error,
        }
    } else {
        let later = spec_feed(first.state, first.rest + chunks[0], chunks.skip(1));
        Run {
            messages: first.messages + later.messages,
            state: later.state,
            rest: later.rest,
            error: later.error,
        }
    }
}

/// Whether the decoder returned what the outcome of the step says.
pub open spec fn returns_outcome(
    r: Result<Option<FrontendMessage>, DecodeError>,
    outcome: Outcome,
) -> bool {
    match outcome {
        Outcome::NeedMore => r matches Ok(None),
        Outcome::Message(v) => r matches Ok(Some(m)) && m@ == v,
        Outcome::Failed(e) => r matches Err(x) && x == e,
    }
}

/// Reads the length field of a frame's header off the front of `src` and
/// returns the payload length it declares.
pub fn parse_frame_len(src: &[u8]) -> (r: Result<usize, DecodeError>)
    requires
        src@.len() >= 4,
    ensures
        r == spec_parse_frame_len(src@),
        r matches Ok(n) ==> n == u32_at(src@) - 4,
{
    let n = read_u32_be(src) as usize;
    if n > MAX_FRAME_SIZE {
        Err(DecodeError::FrameTooBig)
    } else if n < 4 {
        Err(DecodeError::InvalidFrameLength)
    } else {
        Ok(n - 4)
    }
}

/// Decodes the payload of a frame of type `msg_type`.
pub fn decode_message(msg_type: u8, buf: Cursor) -> (r: Result<FrontendMessage, DecodeError>)
    ensures
        decodes_to(r, spec_decode_frame(msg_type, buf@)),
{
    if msg_type == tag::QUERY {
        decode_query(buf)
    } else if msg_type == tag::PARSE {
        decode_parse(buf)
    } else if msg_type == tag::DESCRIBE {
        decode_describe(buf)
    } else if msg_type == tag::BIND {
        decode_bind(buf)
    } else if msg_type == tag::EXECUTE {
        decode_execute(buf)
    } else if msg_type == tag::FLUSH {
        decode_flush(buf)
    } else if msg_type == tag::SYNC {
        decode_sync(buf)
    } else if msg_type == tag::CLOSE {
        decode_close(buf)
    } else if msg_type == tag::TERMINATE {
        decode_terminate(buf)
    } else if msg_type == tag::PASSWORD {
        decode_password(buf)
    } else if msg_type == tag::COPY_FAIL {
        decode_copy_fail(buf)
    } else if msg_type == tag::COPY_DATA {
        let frame_len = buf.remaining();
        decode_copy_data(buf, frame_len)
    } else if msg_type == tag::COPY_DONE {
        decode_copy_done(buf)
    } else {
        Err(DecodeError::UnknownMessageType(msg_type))
    }
}

/// The codec of one connection: the decoder's state, and the column layout
/// by which rows are encoded.
pub struct Codec {
    decode_state: DecodeState,
    encode_state: Vec<(Type, Format)>,
}

impl Codec {
    /// Where the decoder stands.
    pub closed spec fn spec_decode_state(&self) -> DecodeState {
        self.decode_state
    }

    /// The column layout installed: one logical type and wire format per
    /// column of the rows to come.
    pub closed spec fn spec_encode_state(&self) -> Seq<(Type, Format)> {
        self.encode_state@
    }

    /// Creates a codec that waits for a header and has no columns
    /// installed.
    pub fn new() -> (codec: Codec)
        ensures
            codec.spec_decode_state() == DecodeState::Head,
            codec.spec_encode_state() == Seq::<(Type, Format)>::empty(),
    {
        Codec { decode_state: DecodeState::Head, encode_state: Vec::new() }
    }

    /// Where the decoder stands.
    pub fn decode_state(&self) -> (state: DecodeState)
        ensures
            state == self.spec_decode_state(),
    {
        self.decode_state
    }

    /// The number of columns installed.
    pub fn encode_state_len(&self) -> (n: usize)
        ensures
            n == self.spec_encode_state().len(),
    {
        self.encode_state.len()
    }

    /// Installs the column layout for the rows to come, in place of the one
    /// installed before.
    pub fn set_encode_state(&mut self, encode_state: Vec<(Type, Format)>)
        ensures
            final(self).spec_encode_state() == encode_state@,
            final(self).spec_decode_state() == old(self).spec_decode_state(),
    {
        self.encode_state = encode_state;
    }

    /// Takes one step of decoding with the bytes in `src`: returns the next
    /// message where a whole frame is at hand, `None` where more bytes are
    /// needed, and an error where the bytes can never be decoded. What has
    /// been decoded is taken off `src`.
    pub fn decode(&mut self, src: &mut BytesMut) -> (r: Result<Option<FrontendMessage>, DecodeError>)
        ensures
            ({
                let step = spec_step(old(self).spec_decode_state(), buf_bytes(*old(src)));
                &&& returns_outcome(r, step.outcome)
                &&& final(self).spec_decode_state() == step.state
                &&& buf_bytes(*final(src)) == step.rest
                &&& final(self).spec_encode_state() == old(self).spec_encode_state()
            }),
    {
        if buf_len(src) > MAX_REQUEST_SIZE {
            return Err(DecodeError::RequestTooLarge);
        }
        let (msg_type, frame_len) = match self.decode_state {
            DecodeState::Head => {
                if buf_len(src) < 5 {
                    return Ok(None);
                }
                let header = buf_as_slice(src);
                let msg_type = header[0];
                let frame_len = parse_frame_len(slice_subrange(header, 1, 5))?;
                buf_advance(src, 5);
                buf_reserve(src, frame_len);
                self.decode_state = DecodeState::Data(msg_type, frame_len);
                (msg_type, frame_len)
            },
            DecodeState::Data(msg_type, frame_len) => (msg_type, frame_len),
        };
        if buf_len(src) < frame_len {
            return Ok(None);
        }
        let frame = buf_split_to(src, frame_len);
        let msg = decode_message(msg_type, Cursor::new(buf_as_slice(&frame)))?;
        buf_reserve(src, 5);
        self.decode_state = DecodeState::Head;
        Ok(Some(msg))
    }

    /// Appends the frame of `msg` to `dst`. The fields of a row are laid
    /// out by the column layout installed, which must have one column per
    /// field.
    pub fn encode(&mut self, msg: BackendMessage, dst: &mut BytesMut) -> (r: Result<
        (),
        EncodeError,
    >)
        requires
            msg matches BackendMessage::DataRow(fields) ==> fields@.len() == old(
                self,
            ).spec_encode_state().len(),
        ensures
            emitted(*old(dst), *final(dst), r, msg.spec_frame(old(self).spec_encode_state())),
            final(self).spec_encode_state() == old(self).spec_encode_state(),
            final(self).spec_decode_state() == old(self).spec_decode_state(),
    {
        let ghost payload = msg.spec_payload(self.encode_state@);
        let ghost head = seq![msg.spec_tag()] + be32(0);
        put_u8(dst, msg.tag())?;
        let base = buf_len(dst);
        put_u32(dst, 0)?;
        assert(buf_bytes(*dst) =~= buf_bytes(*old(dst)) + head);
        let ghost mid = *dst;
        let r = encode_payload(&self.encode_state, msg, dst);
        match r {
            Err(e) => {
                proof {
                    assert(buf_bytes(*old(dst)).is_prefix_of(buf_bytes(mid)));
                    if fits(mid, payload.bytes.len() as int) {
                        assert(buf_bytes(*dst) =~= buf_bytes(*old(dst)) + (head + payload.bytes));
                    } else {
                        assert(buf_bytes(mid).is_prefix_of(buf_bytes(*dst)));
                    }
                }
                return Err(e);
            },
            Ok(()) => {},
        }
        assert(buf_bytes(*dst) =~= buf_bytes(*old(dst)) + (head + payload.bytes));
        let len = buf_len(dst) - base;
        if len > i32::MAX as usize {
            return Err(EncodeError::MessageTooLong);
        }
        patch_length(dst, base, len as u32);
        assert(buf_bytes(*dst) =~= buf_bytes(*old(dst)) + (seq![msg.spec_tag()] + be_i32(
            len as i32,
        ) + payload.bytes));
        Ok(())
    }
}

impl Default for Codec {
    /// A codec that waits for a header and has no columns installed.
    fn default() -> (codec: Codec)
        ensures
            codec.spec_decode_state() == DecodeState::Head,
            codec.spec_encode_state() == Seq::<(Type, Format)>::empty(),
    {
        Codec::new()
    }
}

} // verus!
