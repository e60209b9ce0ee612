use bytes::BytesMut;
use bytesize::ByteSize;
use pgwire_codec::codec::{Codec, DecodeState};
use pgwire_codec::conn::{verdict, Poll, Verdict, CLOSE_POLL_INTERVAL_SECS, SEND_BUFFER_CAPACITY};
use pgwire_codec::cursor::Cursor;
use pgwire_codec::encoder::{encode_payload, patch_length};
use pgwire_codec::error::{DecodeError, EncodeError, MAX_FRAME_SIZE, MAX_REQUEST_SIZE};
use pgwire_codec::format::Format;
use pgwire_codec::message::BackendMessage;
use pgwire_codec::pgbuf::{
    has_room, put_format_i16, put_format_i8, put_i16, put_i32, put_i64, put_length_i16, put_slice,
    put_string, put_u16, put_u32, put_u8,
};
use pgwire_codec::text::{decimal_string, prefixed_hex_string, signed_decimal_string};
use pgwire_codec::wire::{read_i16_be, read_i32_be, read_u16_be, read_u32_be};

#[test]
fn cursor_reads_in_order() {
    let bytes = b"\x07\xff\xfe\x80\0\0\x01\xff\xff\xff\xffname\0\0\x01rest";
    let mut c = Cursor::new(bytes);
    assert_eq!(c.remaining(), bytes.len());
    assert_eq!(c.peek_byte(), Ok(7));
    assert_eq!(c.read_byte(), Ok(7));
    assert_eq!(c.read_i16(), Ok(-2));
    assert_eq!(c.read_i32(), Ok(i32::MIN + 1));
    assert_eq!(c.read_u32(), Ok(u32::MAX));
    assert_eq!(c.read_cstr(), Ok("name"));
    assert_eq!(c.read_format(), Ok(Format::Binary));
    assert_eq!(c.read_bytes(2), Ok(b"re".to_vec()));
    c.advance(1);
    assert_eq!(c.remaining(), 1);
    assert_eq!(c.read_byte(), Ok(b't'));
    assert_eq!(c.remaining(), 0);
}

#[test]
fn cursor_failures_leave_it_in_place() {
    let mut c = Cursor::new(b"\x01");
    assert_eq!(c.read_i16(), Err(DecodeError::ShortInt16));
    assert_eq!(c.read_i32(), Err(DecodeError::ShortInt32));
    assert_eq!(c.read_u32(), Err(DecodeError::ShortUint32));
    assert_eq!(c.read_format(), Err(DecodeError::ShortInt16));
    assert_eq!(c.read_cstr(), Err(DecodeError::NoTerminator));
    assert_eq!(c.read_bytes(2), Err(DecodeError::NoByte));
    assert_eq!(c.remaining(), 1);
    assert_eq!(c.read_byte(), Ok(1));
    assert_eq!(c.read_byte(), Err(DecodeError::NoByte));
    assert_eq!(c.peek_byte(), Err(DecodeError::NoByte));

    let mut c = Cursor::new(b"\0\x02\0\0");
    assert_eq!(c.read_format(), Err(DecodeError::UnknownFormat(2)));
    assert_eq!(c.remaining(), 4);
    let mut c = Cursor::new(b"\xc3\x28\0");
    assert_eq!(c.read_cstr(), Err(DecodeError::InvalidUtf8));
    assert_eq!(c.remaining(), 3);
}

#[test]
fn cursor_format_codes() {
    assert_eq!(Cursor::new(b"\0\0").read_format(), Ok(Format::Text));
    assert_eq!(Cursor::new(b"\0\x01").read_format(), Ok(Format::Binary));
    assert_eq!(
        Cursor::new(b"\x01\0").read_format(),
        Err(DecodeError::UnknownFormat(256))
    );
    assert_eq!(
        Cursor::new(b"\xff\xff").read_format(),
        Err(DecodeError::UnknownFormat(-1))
    );
}

#[test]
fn big_endian_reads() {
    assert_eq!(read_u16_be(&[0x12, 0x34]), 0x1234);
    assert_eq!(read_u16_be(&[0xff, 0xff, 0]), 0xffff);
    assert_eq!(read_i16_be(&[0x80, 0x00]), i16::MIN);
    assert_eq!(read_i16_be(&[0x7f, 0xff]), i16::MAX);
    assert_eq!(read_u32_be(&[0x12, 0x34, 0x56, 0x78]), 0x1234_5678);
    assert_eq!(read_u32_be(&[0xff, 0xff, 0xff, 0xff]), u32::MAX);
    assert_eq!(read_i32_be(&[0x80, 0, 0, 0]), i32::MIN);
    assert_eq!(read_i32_be(&[0xff, 0xff, 0xff, 0xff]), -1);
    assert_eq!(read_i32_be(&[0x7f, 0xff, 0xff, 0xff, 9]), i32::MAX);
}

#[test]
fn patching_a_length_leaves_the_rest_alone() {
    let mut dst = BytesMut::from(&b"ab\0\0\0\0cd"[..]);
    patch_length(&mut dst, 2, 0x0102_0304);
    assert_eq!(&dst[..], b"ab\x01\x02\x03\x04cd");
    patch_length(&mut dst, 0, u32::MAX);
    assert_eq!(&dst[..], b"\xff\xff\xff\xff\x03\x04cd");
    patch_length(&mut dst, 4, 0);
    assert_eq!(&dst[..], b"\xff\xff\xff\xff\0\0\0\0");
}

#[test]
fn writers_append_big_endian() {
    let mut dst = BytesMut::new();
    assert!(has_room(&dst, 0));
    assert!(has_room(&dst, isize::MAX as usize));
    assert!(!has_room(&dst, isize::MAX as usize + 1));
    assert_eq!(put_u8(&mut dst, 0xab), Ok(()));
    assert!(!has_room(&dst, isize::MAX as usize));
    assert!(has_room(&dst, isize::MAX as usize - 1));
    assert_eq!(put_u16(&mut dst, 0x0102), Ok(()));
    assert_eq!(put_i16(&mut dst, -2), Ok(()));
    assert_eq!(put_u32(&mut dst, 0x0304_0506), Ok(()));
    assert_eq!(put_i32(&mut dst, -3), Ok(()));
    assert_eq!(put_i64(&mut dst, -4), Ok(()));
    assert_eq!(put_slice(&mut dst, b"xyz"), Ok(()));
    assert_eq!(put_slice(&mut dst, b""), Ok(()));
    assert_eq!(put_string(&mut dst, "hé"), Ok(()));
    assert_eq!(put_string(&mut dst, ""), Ok(()));
    assert_eq!(put_format_i8(&mut dst, Format::Binary), Ok(()));
    assert_eq!(put_format_i16(&mut dst, Format::Binary), Ok(()));
    assert_eq!(put_format_i16(&mut dst, Format::Text), Ok(()));
    assert_eq!(put_length_i16(&mut dst, 0x7fff), Ok(()));
    let mut expected = b"\xab\x01\x02\xff\xfe\x03\x04\x05\x06\xff\xff\xff\xfd".to_vec();
    expected.extend_from_slice(b"\xff\xff\xff\xff\xff\xff\xff\xfcxyz");
    expected.extend_from_slice("hé".as_bytes());
    expected.extend_from_slice(b"\0\0\x01\0\x01\0\0\x7f\xff");
    assert_eq!(&dst[..], &expected[..]);
    assert_eq!(
        put_length_i16(&mut dst, 0x8000),
        Err(EncodeError::LengthOverflow)
    );
    assert_eq!(&dst[..], &expected[..]);
}

#[test]
fn payload_without_frame() {
    let mut dst = BytesMut::new();
    assert_eq!(
        encode_payload(&vec![], BackendMessage::AuthenticationCleartextPassword, &mut dst),
        Ok(())
    );
    assert_eq!(&dst[..], &[0, 0, 0, 3]);
}

#[test]
fn numbers_as_text() {
    assert_eq!(decimal_string(0), "0");
    assert_eq!(decimal_string(9), "9");
    assert_eq!(decimal_string(10), "10");
    assert_eq!(decimal_string(1203), "1203");
    assert_eq!(decimal_string(u64::MAX), "18446744073709551615");
    assert_eq!(signed_decimal_string(0), "0");
    assert_eq!(signed_decimal_string(-1), "-1");
    assert_eq!(signed_decimal_string(i64::MIN), "-9223372036854775808");
    assert_eq!(signed_decimal_string(i64::MAX), "9223372036854775807");
    assert_eq!(prefixed_hex_string(0), "0x0");
    assert_eq!(prefixed_hex_string(0x0a), "0xa");
    assert_eq!(prefixed_hex_string(0x58), "0x58");
    assert_eq!(prefixed_hex_string(0xff), "0xff");
    for n in 0..=255u8 {
        assert_eq!(prefixed_hex_string(n), format!("{:#x?}", n));
        assert_eq!(decimal_string(n as u64), format!("{}", n));
    }
}

#[test]
fn decode_error_messages() {
    assert_eq!(DecodeError::NoByte.message(), "No byte to read");
    assert_eq!(
        DecodeError::ShortInt16.message(),
        "not enough buffer for an Int16"
    );
    assert_eq!(
        DecodeError::ShortInt32.message(),
        "not enough buffer for an Int32"
    );
    assert_eq!(
        DecodeError::ShortUint32.message(),
        "not enough buffer for an Uint32"
    );
    assert_eq!(
        DecodeError::NoTerminator.message(),
        "No null-terminator found"
    );
    assert_eq!(DecodeError::InvalidUtf8.message(), "invalid utf-8 sequence");
    assert_eq!(
        DecodeError::UnknownFormat(2).message(),
        "unknown format code: 2"
    );
    assert_eq!(
        DecodeError::UnknownFormat(-32768).message(),
        "unknown format code: -32768"
    );
    assert_eq!(
        DecodeError::InvalidCloseTarget(b'X').message(),
        "invalid type byte in close message: 88"
    );
    assert_eq!(
        DecodeError::InvalidDescribeTarget(b'X').message(),
        "Invalid describe type: 0x58"
    );
    assert_eq!(
        DecodeError::UnknownMessageType(b'z').message(),
        "unknown message type 122"
    );
    assert_eq!(
        DecodeError::FrameTooBig.message(),
        "maximum frame size exceeded"
    );
    assert_eq!(
        DecodeError::InvalidFrameLength.message(),
        "invalid frame length"
    );
}

#[test]
fn request_too_large_names_the_limit() {
    assert_eq!(
        DecodeError::RequestTooLarge.message(),
        format!("request larger than {}", ByteSize::b(MAX_REQUEST_SIZE as u64))
    );
    assert_eq!(DecodeError::RequestTooLarge.message(), "request larger than 2.0 MB");
    assert_eq!(
        DecodeError::RequestTooLarge.describe("a lot"),
        "request larger than a lot"
    );
    assert_eq!(DecodeError::NoByte.describe("a lot"), "No byte to read");
}

#[test]
fn encode_error_messages() {
    assert_eq!(
        EncodeError::LengthOverflow.message(),
        "length does not fit in an i16"
    );
    assert_eq!(
        EncodeError::FieldTooLong.message(),
        "length of encoded data row field does not fit into an i32"
    );
    assert_eq!(
        EncodeError::MessageTooLong.message(),
        "length of encoded message does not fit into an i32"
    );
    assert_eq!(
        EncodeError::BufferFull.message(),
        "output buffer cannot grow any further"
    );
}

#[test]
fn limits() {
    assert_eq!(MAX_REQUEST_SIZE, 2_000_000);
    assert_eq!(MAX_FRAME_SIZE, 64 * 1024 * 1024);
    assert_eq!(SEND_BUFFER_CAPACITY, 32);
    assert_eq!(CLOSE_POLL_INTERVAL_SECS, 1);
}

#[test]
fn closed_in_either_direction_is_closed() {
    let poll = |read_closed, write_closed| Poll::Ready {
        read_closed,
        write_closed,
    };
    assert_eq!(verdict(poll(false, false)), Verdict::KeepWaiting);
    assert_eq!(verdict(poll(true, false)), Verdict::Closed);
    assert_eq!(verdict(poll(false, true)), Verdict::Closed);
    assert_eq!(verdict(poll(true, true)), Verdict::Closed);
    assert_eq!(verdict(Poll::Failed), Verdict::Failed);
}

#[test]
fn default_codec_is_a_new_codec() {
    let mut codec = Codec::default();
    assert_eq!(codec.decode_state(), DecodeState::Head);
    assert_eq!(codec.encode_state_len(), 0);
    let mut dst = BytesMut::new();
    assert_eq!(codec.encode(BackendMessage::DataRow(vec![]), &mut dst), Ok(()));
    assert_eq!(&dst[..], b"D\0\0\0\x06\0\0");
}
