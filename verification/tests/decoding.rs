use radis::command::{decode, Command, DecodeError};
use radis::frame::PlainFrame;

fn bulk(text: &str) -> PlainFrame {
    PlainFrame::Bulk(text.as_bytes().to_vec())
}

fn malformed(message: &str) -> Result<Command, DecodeError> {
    Err(DecodeError { message: message.to_string() })
}

#[test]
fn decodes_get() {
    let frame = PlainFrame::Array(vec![bulk("get"), bulk("hello")]);
    assert_eq!(decode(&frame), Ok(Command::Get { key: "hello".to_string() }));
}

#[test]
fn decodes_set() {
    let frame = PlainFrame::Array(vec![bulk("set"), bulk("hello"), bulk("world")]);
    assert_eq!(
        decode(&frame),
        Ok(Command::SetKey { key: "hello".to_string(), value: b"world".to_vec() })
    );
}

#[test]
fn command_name_is_case_insensitive() {
    let frame = PlainFrame::Array(vec![bulk("GeT"), bulk("k")]);
    assert_eq!(decode(&frame), Ok(Command::Get { key: "k".to_string() }));
}

#[test]
fn simple_frames_are_accepted_as_tokens() {
    let frame = PlainFrame::Array(vec![
        PlainFrame::Simple("SET".to_string()),
        PlainFrame::Simple("k".to_string()),
        PlainFrame::Simple("v".to_string()),
    ]);
    assert_eq!(decode(&frame), Ok(Command::SetKey { key: "k".to_string(), value: b"v".to_vec() }));
}

#[test]
fn set_keeps_arbitrary_bytes() {
    let value = vec![0u8, 255, 13, 10, 128];
    let frame = PlainFrame::Array(vec![bulk("set"), bulk("k"), PlainFrame::Bulk(value.clone())]);
    assert_eq!(decode(&frame), Ok(Command::SetKey { key: "k".to_string(), value }));
}

#[test]
fn set_with_expiry_is_a_set() {
    let frame = PlainFrame::Array(vec![
        bulk("set"),
        bulk("k"),
        bulk("v"),
        bulk("EX"),
        PlainFrame::Integer(10),
    ]);
    assert_eq!(decode(&frame), Ok(Command::SetKey { key: "k".to_string(), value: b"v".to_vec() }));
}

#[test]
fn publish_is_unsupported() {
    let frame = PlainFrame::Array(vec![bulk("publish"), bulk("ch"), bulk("hi")]);
    assert_eq!(
        decode(&frame),
        Ok(Command::Unsupported {
            description: "Publish(Publish { channel: \"ch\", message: b\"hi\" })".to_string()
        })
    );
}

#[test]
fn unknown_command_is_unsupported() {
    let frame = PlainFrame::Array(vec![bulk("PING"), PlainFrame::Array(vec![PlainFrame::Null])]);
    assert_eq!(
        decode(&frame),
        Ok(Command::Unsupported {
            description: "Unknown(Unknown { command_name: \"ping\" })".to_string()
        })
    );
}

#[test]
fn frame_that_is_no_array_is_malformed() {
    assert_eq!(decode(&PlainFrame::Null), malformed("protocol error; expected array, got Null"));
    assert_eq!(
        decode(&PlainFrame::Integer(7)),
        malformed("protocol error; expected array, got Integer(7)")
    );
    assert_eq!(
        decode(&PlainFrame::Simple("get".to_string())),
        malformed("protocol error; expected array, got Simple(\"get\")")
    );
}

#[test]
fn empty_array_is_malformed() {
    assert_eq!(
        decode(&PlainFrame::Array(vec![])),
        malformed("protocol error; unexpected end of stream")
    );
}

#[test]
fn get_without_key_is_malformed() {
    let frame = PlainFrame::Array(vec![bulk("get")]);
    assert_eq!(decode(&frame), malformed("protocol error; unexpected end of stream"));
}

#[test]
fn get_with_two_keys_is_malformed() {
    let frame = PlainFrame::Array(vec![bulk("get"), bulk("a"), bulk("b")]);
    assert_eq!(
        decode(&frame),
        malformed("protocol error; expected end of frame, but there was more")
    );
}

#[test]
fn nested_array_as_key_is_malformed() {
    let nested = PlainFrame::Array(vec![bulk("inner"), PlainFrame::Error("e".to_string())]);
    let frame = PlainFrame::Array(vec![bulk("get"), nested]);
    assert_eq!(
        decode(&frame),
        malformed(
            "protocol error; expected simple frame or bulk frame, got Array([Bulk(b\"inner\"), Error(\"e\")])"
        )
    );
}

#[test]
fn key_that_is_no_text_is_malformed() {
    let frame = PlainFrame::Array(vec![bulk("get"), PlainFrame::Bulk(vec![0xff, 0xfe])]);
    assert_eq!(decode(&frame), malformed("protocol error; invalid string"));
}
