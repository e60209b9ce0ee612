use bytes::BytesMut;
use pgwire_codec::codec::{parse_frame_len, Codec};
use pgwire_codec::error::EncodeError;
use pgwire_codec::format::{Format, Type};
use pgwire_codec::frontend::FrontendMessage;
use pgwire_codec::message::{
    BackendMessage, ErrorResponse, FieldDescription, Severity, TransactionStatus,
};
use pgwire_codec::value::Value;

/// Encodes `msg` with a fresh codec that has `cols` installed and returns
/// the bytes written.
fn encoded(cols: Vec<(Type, Format)>, msg: BackendMessage) -> Vec<u8> {
    let mut codec = Codec::new();
    codec.set_encode_state(cols);
    let mut dst = BytesMut::new();
    assert_eq!(codec.encode(msg, &mut dst), Ok(()));
    dst.to_vec()
}

/// Checks the framing of `bytes` and returns the type byte and the payload.
fn unframe(bytes: &[u8]) -> (u8, &[u8]) {
    assert!(bytes.len() >= 5);
    let declared = u32::from_be_bytes([bytes[1], bytes[2], bytes[3], bytes[4]]) as usize;
    let payload = &bytes[5..];
    assert_eq!(declared, payload.len() + 4);
    assert_eq!(bytes.len(), payload.len() + 5);
    assert_eq!(parse_frame_len(&bytes[1..]), Ok(payload.len()));
    (bytes[0], payload)
}

fn error(severity: Severity) -> ErrorResponse {
    ErrorResponse {
        severity,
        code: "42601".to_string(),
        message: "syntax error".to_string(),
        detail: None,
        hint: None,
        position: None,
    }
}

fn every_message() -> Vec<BackendMessage> {
    vec![
        BackendMessage::AuthenticationOk,
        BackendMessage::AuthenticationCleartextPassword,
        BackendMessage::CommandComplete {
            tag: "SELECT 1".to_string(),
        },
        BackendMessage::EmptyQueryResponse,
        BackendMessage::ReadyForQuery(TransactionStatus::Idle),
        BackendMessage::RowDescription(vec![FieldDescription {
            name: "a".to_string(),
            table_id: 1,
            column_id: 2,
            type_oid: 23,
            type_len: 4,
            type_mod: -1,
            format: Format::Text,
        }]),
        BackendMessage::DataRow(vec![Some(Value::Int4(7)), None]),
        BackendMessage::ParameterStatus("server_version", "9.5.0".to_string()),
        BackendMessage::BackendKeyData {
            conn_id: 1,
            secret_key: 2,
        },
        BackendMessage::ParameterDescription(vec![Type::Int4, Type::Text]),
        BackendMessage::PortalSuspended,
        BackendMessage::NoData,
        BackendMessage::ParseComplete,
        BackendMessage::BindComplete,
        BackendMessage::CloseComplete,
        BackendMessage::ErrorResponse(error(Severity::Error)),
        BackendMessage::ErrorResponse(error(Severity::Notice)),
        BackendMessage::CopyInResponse {
            overall_format: Format::Text,
            column_formats: vec![Format::Text, Format::Text],
        },
        BackendMessage::CopyOutResponse {
            overall_format: Format::Binary,
            column_formats: vec![Format::Binary],
        },
        BackendMessage::CopyData(b"1\t2\n".to_vec()),
        BackendMessage::CopyDone,
    ]
}

#[test]
fn every_frame_declares_its_length() {
    let tags = b"RRCIZTDSKtsn123ENGHdc";
    let messages = every_message();
    assert_eq!(messages.len(), tags.len());
    for (msg, tag) in messages.into_iter().zip(tags) {
        let cols = vec![(Type::Int4, Format::Text), (Type::Text, Format::Text)];
        let bytes = encoded(cols, msg);
        let (t, _) = unframe(&bytes);
        assert_eq!(t, *tag);
    }
}

#[test]
fn frames_are_appended_in_order() {
    let mut codec = Codec::new();
    let mut dst = BytesMut::new();
    dst.extend_from_slice(b"before");
    assert_eq!(codec.encode(BackendMessage::ParseComplete, &mut dst), Ok(()));
    assert_eq!(codec.encode(BackendMessage::BindComplete, &mut dst), Ok(()));
    assert_eq!(
        codec.encode(
            BackendMessage::ReadyForQuery(TransactionStatus::Idle),
            &mut dst
        ),
        Ok(())
    );
    assert_eq!(&dst[..], b"before1\0\0\0\x042\0\0\0\x04Z\0\0\0\x05I");
}

#[test]
fn authentication_sentinels() {
    assert_eq!(
        encoded(vec![], BackendMessage::AuthenticationOk),
        b"R\0\0\0\x08\0\0\0\0"
    );
    assert_eq!(
        encoded(vec![], BackendMessage::AuthenticationCleartextPassword),
        b"R\0\0\0\x08\0\0\0\x03"
    );
}

#[test]
fn backend_messages_without_payload() {
    assert_eq!(encoded(vec![], BackendMessage::EmptyQueryResponse), b"I\0\0\0\x04");
    assert_eq!(encoded(vec![], BackendMessage::NoData), b"n\0\0\0\x04");
    assert_eq!(encoded(vec![], BackendMessage::PortalSuspended), b"s\0\0\0\x04");
    assert_eq!(encoded(vec![], BackendMessage::ParseComplete), b"1\0\0\0\x04");
    assert_eq!(encoded(vec![], BackendMessage::BindComplete), b"2\0\0\0\x04");
    assert_eq!(encoded(vec![], BackendMessage::CloseComplete), b"3\0\0\0\x04");
    assert_eq!(encoded(vec![], BackendMessage::CopyDone), b"c\0\0\0\x04");
}

#[test]
fn ready_for_query_status() {
    assert_eq!(
        encoded(vec![], BackendMessage::ReadyForQuery(TransactionStatus::Idle)),
        b"Z\0\0\0\x05I"
    );
    assert_eq!(
        encoded(
            vec![],
            BackendMessage::ReadyForQuery(TransactionStatus::InTransaction)
        ),
        b"Z\0\0\0\x05T"
    );
    assert_eq!(
        encoded(vec![], BackendMessage::ReadyForQuery(TransactionStatus::Failed)),
        b"Z\0\0\0\x05E"
    );
}

#[test]
fn command_complete_and_parameter_status() {
    assert_eq!(
        encoded(
            vec![],
            BackendMessage::CommandComplete {
                tag: "INSERT 0 1".to_string()
            }
        ),
        b"C\0\0\0\x0fINSERT 0 1\0"
    );
    assert_eq!(
        encoded(
            vec![],
            BackendMessage::ParameterStatus("TimeZone", "UTC".to_string())
        ),
        b"S\0\0\0\x11TimeZone\0UTC\0"
    );
}

#[test]
fn backend_key_data() {
    assert_eq!(
        encoded(
            vec![],
            BackendMessage::BackendKeyData {
                conn_id: 0x0102_0304,
                secret_key: 0xfffe_fdfc
            }
        ),
        b"K\0\0\0\x0c\x01\x02\x03\x04\xff\xfe\xfd\xfc"
    );
}

#[test]
fn parameter_description_lists_oids() {
    assert_eq!(
        encoded(
            vec![],
            BackendMessage::ParameterDescription(vec![
                Type::Bool,
                Type::Bytea,
                Type::Int8,
                Type::Int2,
                Type::Int4,
                Type::Text
            ])
        ),
        b"t\0\0\0\x1e\0\x06\0\0\0\x10\0\0\0\x11\0\0\0\x14\0\0\0\x15\0\0\0\x17\0\0\0\x19"
    );
    assert_eq!(
        encoded(vec![], BackendMessage::ParameterDescription(vec![])),
        b"t\0\0\0\x06\0\0"
    );
}

#[test]
fn row_description_layout() {
    let msg = BackendMessage::RowDescription(vec![
        FieldDescription {
            name: "id".to_string(),
            table_id: 0x0a0b_0c0d,
            column_id: 0x0102,
            type_oid: 23,
            type_len: 4,
            type_mod: -1,
            format: Format::Text,
        },
        FieldDescription {
            name: "n".to_string(),
            table_id: 0,
            column_id: 0xffff,
            type_oid: 25,
            type_len: -1,
            type_mod: 0x0100,
            format: Format::Binary,
        },
    ]);
    let mut expected = b"T\0\0\0\x2f\0\x02".to_vec();
    expected.extend_from_slice(b"id\0\x0a\x0b\x0c\x0d\x01\x02\0\0\0\x17\0\x04\xff\xff\xff\xff\0\0");
    expected.extend_from_slice(b"n\0\0\0\0\0\xff\xff\0\0\0\x19\xff\xff\0\0\x01\0\0\x01");
    assert_eq!(encoded(vec![], msg), expected);
}

#[test]
fn error_response_with_required_fields() {
    let bytes = encoded(vec![], BackendMessage::ErrorResponse(error(Severity::Error)));
    let (tag, payload) = unframe(&bytes);
    assert_eq!(tag, b'E');
    assert_eq!(payload, b"SERROR\0C42601\0Msyntax error\0\0");
    assert_eq!(&bytes[1..5], &[0, 0, 0, 33]);
}

#[test]
fn error_response_with_every_field() {
    let msg = BackendMessage::ErrorResponse(ErrorResponse {
        severity: Severity::Fatal,
        code: "XX000".to_string(),
        message: "boom".to_string(),
        detail: Some("it broke".to_string()),
        hint: Some("fix it".to_string()),
        position: Some(1203),
    });
    let bytes = encoded(vec![], msg);
    let (tag, payload) = unframe(&bytes);
    assert_eq!(tag, b'E');
    assert_eq!(
        payload,
        b"SFATAL\0CXX000\0Mboom\0Dit broke\0Hfix it\0P1203\0\0"
    );
}

#[test]
fn error_response_with_position_only() {
    let mut response = error(Severity::Error);
    response.position = Some(0);
    let bytes = encoded(vec![], BackendMessage::ErrorResponse(response));
    let (_, payload) = unframe(&bytes);
    assert_eq!(payload, b"SERROR\0C42601\0Msyntax error\0P0\0\0");
}

#[test]
fn severity_decides_between_error_and_notice() {
    let errors = [Severity::Panic, Severity::Fatal, Severity::Error];
    let notices = [
        Severity::Warning,
        Severity::Notice,
        Severity::Debug,
        Severity::Info,
        Severity::Log,
    ];
    let names = ["PANIC", "FATAL", "ERROR", "WARNING", "NOTICE", "DEBUG", "INFO", "LOG"];
    for (i, severity) in errors.iter().chain(notices.iter()).enumerate() {
        assert_eq!(severity.is_error(), i < 3);
        assert_eq!(severity.as_str(), names[i]);
        let bytes = encoded(vec![], BackendMessage::ErrorResponse(error(*severity)));
        let (tag, payload) = unframe(&bytes);
        assert_eq!(tag, if i < 3 { b'E' } else { b'N' });
        assert_eq!(payload[0], b'S');
        assert_eq!(&payload[1..1 + names[i].len()], names[i].as_bytes());
    }
}

#[test]
fn copy_responses() {
    assert_eq!(
        encoded(
            vec![],
            BackendMessage::CopyInResponse {
                overall_format: Format::Text,
                column_formats: vec![Format::Text, Format::Binary]
            }
        ),
        b"G\0\0\0\x09\0\0\x02\0\x01"
    );
    assert_eq!(
        encoded(
            vec![],
            BackendMessage::CopyOutResponse {
                overall_format: Format::Binary,
                column_formats: vec![]
            }
        ),
        b"H\0\0\0\x07\x01\0\0"
    );
}

#[test]
fn copy_response_format_codes_are_zero_or_one() {
    for overall in [Format::Text, Format::Binary] {
        for column in [Format::Text, Format::Binary] {
            let bytes = encoded(
                vec![],
                BackendMessage::CopyOutResponse {
                    overall_format: overall,
                    column_formats: vec![column, column],
                },
            );
            let (_, payload) = unframe(&bytes);
            assert_eq!(payload.len(), 5);
            assert_eq!(payload[0], overall.code());
            assert_eq!(Format::from_code(payload[0] as i16), Ok(overall));
            assert_eq!(&payload[1..3], &[0, 2]);
            for code in &payload[3..] {
                assert_eq!(*code, column.code());
                assert_eq!(Format::from_code(*code as i16), Ok(column));
            }
        }
    }
}

#[test]
fn copy_response_has_one_byte_per_column() {
    for n in [0usize, 1, 2, 7, 300] {
        let formats: Vec<Format> = (0..n)
            .map(|i| if i % 3 == 0 { Format::Binary } else { Format::Text })
            .collect();
        let bytes = encoded(
            vec![],
            BackendMessage::CopyInResponse {
                overall_format: Format::Binary,
                column_formats: formats.clone(),
            },
        );
        let (tag, payload) = unframe(&bytes);
        assert_eq!(tag, b'G');
        assert_eq!(payload.len(), 3 + n);
        assert_eq!(payload[0], 1);
        assert_eq!(&payload[1..3], &(n as i16).to_be_bytes());
        for (i, format) in formats.iter().enumerate() {
            assert_eq!(payload[3 + i], format.code());
        }
    }
}

#[test]
fn row_description_keeps_its_two_byte_format_code() {
    let field = |format| FieldDescription {
        name: String::new(),
        table_id: 0,
        column_id: 0,
        type_oid: 0,
        type_len: 0,
        type_mod: 0,
        format,
    };
    let bytes = encoded(
        vec![],
        BackendMessage::RowDescription(vec![field(Format::Binary), field(Format::Text)]),
    );
    let (_, payload) = unframe(&bytes);
    assert_eq!(payload.len(), 2 + 2 * 19);
    assert_eq!(&payload[19..21], &[0, 1]);
    assert_eq!(&payload[38..40], &[0, 0]);
}

#[test]
fn copy_data_is_written_as_it_is() {
    assert_eq!(
        encoded(vec![], BackendMessage::CopyData(vec![0, 1, 2, 0xff])),
        b"d\0\0\0\x08\0\x01\x02\xff"
    );
    assert_eq!(encoded(vec![], BackendMessage::CopyData(vec![])), b"d\0\0\0\x04");
}

#[test]
fn data_row_with_installed_int4_text() {
    let bytes = encoded(
        vec![(Type::Int4, Format::Text)],
        BackendMessage::DataRow(vec![Some(Value::Int4(-1234))]),
    );
    let (tag, payload) = unframe(&bytes);
    assert_eq!(tag, b'D');
    assert_eq!(payload, b"\0\x01\0\0\0\x05-1234");

    // The field is the routine's output behind its length.
    let mut field = BytesMut::new();
    assert_eq!(
        Value::Int4(-1234).encode(&Type::Int4, Format::Text, &mut field),
        Ok(())
    );
    assert_eq!(&payload[2..6], &(field.len() as i32).to_be_bytes());
    assert_eq!(&payload[6..], &field[..]);
}

#[test]
fn data_row_looks_up_format_by_position() {
    let cols = vec![
        (Type::Int4, Format::Text),
        (Type::Int4, Format::Binary),
        (Type::Text, Format::Text),
        (Type::Bool, Format::Binary),
    ];
    let row = vec![
        Some(Value::Int4(258)),
        Some(Value::Int4(258)),
        None,
        Some(Value::Bool(true)),
    ];
    let bytes = encoded(cols, BackendMessage::DataRow(row));
    let (_, payload) = unframe(&bytes);
    assert_eq!(
        payload,
        b"\0\x04\0\0\0\x03258\0\0\0\x04\0\0\x01\x02\xff\xff\xff\xff\0\0\0\x01\x01"
    );
}

#[test]
fn data_row_state_stays_until_replaced() {
    let mut codec = Codec::new();
    codec.set_encode_state(vec![(Type::Int2, Format::Binary)]);
    let mut dst = BytesMut::new();
    for _ in 0..2 {
        assert_eq!(
            codec.encode(BackendMessage::DataRow(vec![Some(Value::Int2(1))]), &mut dst),
            Ok(())
        );
    }
    assert_eq!(
        &dst[..],
        b"D\0\0\0\x0c\0\x01\0\0\0\x02\0\x01D\0\0\0\x0c\0\x01\0\0\0\x02\0\x01"
    );
    codec.set_encode_state(vec![(Type::Int2, Format::Text)]);
    dst.clear();
    assert_eq!(
        codec.encode(BackendMessage::DataRow(vec![Some(Value::Int2(1))]), &mut dst),
        Ok(())
    );
    assert_eq!(&dst[..], b"D\0\0\0\x0b\0\x01\0\0\0\x011");
}

#[test]
fn data_row_empty_and_all_null() {
    assert_eq!(
        encoded(vec![], BackendMessage::DataRow(vec![])),
        b"D\0\0\0\x06\0\0"
    );
    assert_eq!(
        encoded(
            vec![(Type::Text, Format::Text), (Type::Text, Format::Binary)],
            BackendMessage::DataRow(vec![None, None])
        ),
        b"D\0\0\0\x0e\0\x02\xff\xff\xff\xff\xff\xff\xff\xff"
    );
}

#[test]
fn data_row_with_empty_value_is_not_null() {
    assert_eq!(
        encoded(
            vec![(Type::Text, Format::Text)],
            BackendMessage::DataRow(vec![Some(Value::Text(String::new()))])
        ),
        b"D\0\0\0\x0a\0\x01\0\0\0\0"
    );
}

#[test]
fn too_many_columns_for_a_count() {
    let fields: Vec<FieldDescription> = (0..0x8000)
        .map(|_| FieldDescription {
            name: String::new(),
            table_id: 0,
            column_id: 0,
            type_oid: 0,
            type_len: 0,
            type_mod: 0,
            format: Format::Text,
        })
        .collect();
    let mut codec = Codec::new();
    let mut dst = BytesMut::new();
    dst.extend_from_slice(b"kept");
    assert_eq!(
        codec.encode(BackendMessage::RowDescription(fields), &mut dst),
        Err(EncodeError::LengthOverflow)
    );
    assert_eq!(&dst[..4], b"kept");

    let mut dst = BytesMut::new();
    assert_eq!(
        codec.encode(
            BackendMessage::ParameterDescription(vec![Type::Int4; 0x8000]),
            &mut dst
        ),
        Err(EncodeError::LengthOverflow)
    );
    let mut dst = BytesMut::new();
    assert_eq!(
        codec.encode(
            BackendMessage::CopyInResponse {
                overall_format: Format::Text,
                column_formats: vec![Format::Text; 0x8000]
            },
            &mut dst
        ),
        Err(EncodeError::LengthOverflow)
    );
    let mut dst = BytesMut::new();
    codec.set_encode_state(vec![(Type::Int4, Format::Text); 0x8000]);
    let row: Vec<Option<Value>> = (0..0x8000).map(|_| None).collect();
    assert_eq!(
        codec.encode(BackendMessage::DataRow(row), &mut dst),
        Err(EncodeError::LengthOverflow)
    );
}

#[test]
fn largest_count_is_accepted() {
    let bytes = encoded(
        vec![],
        BackendMessage::ParameterDescription(vec![Type::Bool; 0x7fff]),
    );
    let (tag, payload) = unframe(&bytes);
    assert_eq!(tag, b't');
    assert_eq!(payload.len(), 2 + 4 * 0x7fff);
    assert_eq!(&payload[..2], &[0x7f, 0xff]);
    assert_eq!(&payload[payload.len() - 4..], &[0, 0, 0, 16]);
}

#[test]
fn value_text_format() {
    fn text(v: Value) -> Vec<u8> {
        let mut dst = BytesMut::new();
        assert_eq!(v.encode_text(&mut dst), Ok(()));
        dst.to_vec()
    }
    assert_eq!(text(Value::Bool(true)), b"t");
    assert_eq!(text(Value::Bool(false)), b"f");
    assert_eq!(text(Value::Int2(0)), b"0");
    assert_eq!(text(Value::Int2(i16::MIN)), b"-32768");
    assert_eq!(text(Value::Int2(i16::MAX)), b"32767");
    assert_eq!(text(Value::Int4(42)), b"42");
    assert_eq!(text(Value::Int4(-7)), b"-7");
    assert_eq!(text(Value::Int4(i32::MIN)), b"-2147483648");
    assert_eq!(text(Value::Int4(i32::MAX)), b"2147483647");
    assert_eq!(text(Value::Int8(1_000_000_000_000)), b"1000000000000");
    assert_eq!(text(Value::Int8(i64::MIN)), b"-9223372036854775808");
    assert_eq!(text(Value::Int8(i64::MAX)), b"9223372036854775807");
    assert_eq!(text(Value::Text("héllo".to_string())), "héllo".as_bytes());
    assert_eq!(text(Value::Text(String::new())), b"");
    assert_eq!(text(Value::Bytea(vec![])), b"\\x");
    assert_eq!(
        text(Value::Bytea(vec![0x00, 0x0f, 0xa0, 0xff, 0x12])),
        b"\\x000fa0ff12"
    );
}

#[test]
fn value_binary_format() {
    fn binary(v: Value) -> Vec<u8> {
        let mut dst = BytesMut::new();
        assert_eq!(v.encode_binary(&mut dst), Ok(()));
        dst.to_vec()
    }
    assert_eq!(binary(Value::Bool(true)), [1]);
    assert_eq!(binary(Value::Bool(false)), [0]);
    assert_eq!(binary(Value::Int2(0x0102)), [1, 2]);
    assert_eq!(binary(Value::Int2(-2)), [0xff, 0xfe]);
    assert_eq!(binary(Value::Int4(0x0102_0304)), [1, 2, 3, 4]);
    assert_eq!(binary(Value::Int4(-1)), [0xff; 4]);
    assert_eq!(
        binary(Value::Int8(0x0102_0304_0506_0708)),
        [1, 2, 3, 4, 5, 6, 7, 8]
    );
    assert_eq!(binary(Value::Int8(i64::MIN)), [0x80, 0, 0, 0, 0, 0, 0, 0]);
    assert_eq!(binary(Value::Text("héllo".to_string())), "héllo".as_bytes());
    assert_eq!(binary(Value::Bytea(vec![0, 0xff, 7])), [0, 0xff, 7]);
}

#[test]
fn value_encode_appends_in_the_given_format() {
    let mut dst = BytesMut::new();
    dst.extend_from_slice(b">");
    assert_eq!(
        Value::Int8(-5).encode(&Type::Int8, Format::Text, &mut dst),
        Ok(())
    );
    assert_eq!(
        Value::Int8(-5).encode(&Type::Int8, Format::Binary, &mut dst),
        Ok(())
    );
    assert_eq!(&dst[..], b">-5\xff\xff\xff\xff\xff\xff\xff\xfb");
}

#[test]
fn type_oids_and_format_codes() {
    assert_eq!(Type::Bool.oid(), 16);
    assert_eq!(Type::Bytea.oid(), 17);
    assert_eq!(Type::Int8.oid(), 20);
    assert_eq!(Type::Int2.oid(), 21);
    assert_eq!(Type::Int4.oid(), 23);
    assert_eq!(Type::Text.oid(), 25);
    assert_eq!(Format::Text.code(), 0);
    assert_eq!(Format::Binary.code(), 1);
    assert_eq!(Format::from_code(0), Ok(Format::Text));
    assert_eq!(Format::from_code(1), Ok(Format::Binary));
    assert_eq!(
        Format::from_code(2),
        Err(pgwire_codec::error::DecodeError::UnknownFormat(2))
    );
    assert_eq!(
        Format::from_code(-1),
        Err(pgwire_codec::error::DecodeError::UnknownFormat(-1))
    );
    assert_eq!(
        Format::from_code(256),
        Err(pgwire_codec::error::DecodeError::UnknownFormat(256))
    );
}

#[test]
fn message_tags() {
    assert_eq!(BackendMessage::AuthenticationOk.tag(), b'R');
    assert_eq!(BackendMessage::DataRow(vec![]).tag(), b'D');
    assert_eq!(
        BackendMessage::ErrorResponse(error(Severity::Warning)).tag(),
        b'N'
    );
    assert_eq!(
        BackendMessage::ErrorResponse(error(Severity::Panic)).tag(),
        b'E'
    );
    assert_eq!(TransactionStatus::Idle.code(), b'I');
    assert_eq!(TransactionStatus::InTransaction.code(), b'T');
    assert_eq!(TransactionStatus::Failed.code(), b'E');
}

#[test]
fn copy_messages_come_back_as_they_went_out() {
    let mut codec = Codec::new();
    let mut wire = BytesMut::new();
    assert_eq!(
        codec.encode(BackendMessage::CopyData(b"1\t2\n\0".to_vec()), &mut wire),
        Ok(())
    );
    assert_eq!(codec.encode(BackendMessage::CopyData(vec![]), &mut wire), Ok(()));
    assert_eq!(codec.encode(BackendMessage::CopyDone, &mut wire), Ok(()));
    assert_eq!(
        codec.decode(&mut wire),
        Ok(Some(FrontendMessage::CopyData(b"1\t2\n\0".to_vec())))
    );
    assert_eq!(
        codec.decode(&mut wire),
        Ok(Some(FrontendMessage::CopyData(vec![])))
    );
    assert_eq!(codec.decode(&mut wire), Ok(Some(FrontendMessage::CopyDone)));
    assert_eq!(codec.decode(&mut wire), Ok(None));
    assert!(wire.is_empty());
}
