use chat_client::error::ClientError;
use chat_client::json::{Json, Member};
use chat_client::stream::{decode_reply, payload, terminal_record, MARKER_LEN};

fn object(members: Vec<(&str, Json)>) -> Json {
    Json::Object(
        members
            .into_iter()
            .map(|(key, value)| Member { key: key.to_string(), value })
            .collect(),
    )
}

#[test]
fn marker_has_six_characters() {
    assert_eq!(MARKER_LEN, 6);
}

#[test]
fn decodes_the_last_record_of_a_stream() {
    let body = "event: x\ndata1\ndata2\nPREFIX{\"a\":1}";
    assert_eq!(terminal_record(body), Some("PREFIX{\"a\":1}"));
    assert_eq!(payload(body), Some("{\"a\":1}"));
    let answer = decode_reply(body.as_bytes());
    assert_eq!(answer, Ok(object(vec![("a", Json::Number("1".to_string()))])));
}

#[test]
fn body_without_line_feed_is_one_record() {
    let body = "data: {\"completion\":\"hi\"}";
    assert_eq!(terminal_record(body), Some(body));
    assert_eq!(
        decode_reply(body.as_bytes()),
        Ok(object(vec![("completion", Json::Text("hi".to_string()))]))
    );
}

#[test]
fn empty_body_is_a_format_error() {
    assert_eq!(terminal_record(""), None);
    assert_eq!(payload(""), None);
    assert_eq!(decode_reply(b""), Err(ClientError::Format));
}

#[test]
fn blank_body_is_a_format_error() {
    assert_eq!(terminal_record(" \n\r\n\t\n"), None);
    assert_eq!(decode_reply(b" \n\r\n\t\n"), Err(ClientError::Format));
}

#[test]
fn trailing_blank_lines_are_skipped() {
    let body = "data: {\"n\":1}\n\ndata: {\"n\":2}\n\n";
    assert_eq!(terminal_record(body), Some("data: {\"n\":2}"));
    assert_eq!(
        decode_reply(body.as_bytes()),
        Ok(object(vec![("n", Json::Number("2".to_string()))]))
    );
}

#[test]
fn carriage_returns_at_the_end_are_trimmed() {
    let body = "data: {\"n\":1}\r\n\r\ndata: [true,null]\r\n\r\n";
    assert_eq!(terminal_record(body), Some("data: [true,null]"));
    assert_eq!(
        decode_reply(body.as_bytes()),
        Ok(Json::List(vec![Json::Bool(true), Json::Null]))
    );
}

#[test]
fn wide_whitespace_around_the_body_is_trimmed() {
    let body = "\u{3000}\u{a0}data: 7\u{2028}\u{85}";
    assert_eq!(terminal_record(body), Some("data: 7"));
    assert_eq!(payload(body), Some("7"));
}

#[test]
fn leading_whitespace_of_a_later_line_stays() {
    let body = "first\n  data: {}";
    assert_eq!(terminal_record(body), Some("  data: {}"));
    assert_eq!(payload(body), Some(": {}"));
    assert_eq!(decode_reply(body.as_bytes()), Err(ClientError::Format));
}

#[test]
fn record_shorter_than_the_marker_is_a_format_error() {
    assert_eq!(payload("a\ndata:"), None);
    assert_eq!(decode_reply(b"a\ndata:"), Err(ClientError::Format));
}

#[test]
fn record_of_the_marker_alone_has_an_empty_payload() {
    assert_eq!(payload("data: "), None);
    assert_eq!(payload("data:_"), Some(""));
    assert_eq!(decode_reply(b"data:_"), Err(ClientError::Format));
}

#[test]
fn marker_is_counted_in_characters() {
    let body = "d\u{e9}t\u{e4}: [1]";
    assert_eq!(payload(body), Some("[1]"));
    assert_eq!(
        decode_reply(body.as_bytes()),
        Ok(Json::List(vec![Json::Number("1".to_string())]))
    );
}

#[test]
fn payload_that_is_not_json_is_a_format_error() {
    assert_eq!(payload("data: {\"a\":"), Some("{\"a\":"));
    assert_eq!(decode_reply(b"data: {\"a\":"), Err(ClientError::Format));
    assert_eq!(decode_reply(b"data: {} trailing"), Err(ClientError::Format));
}

#[test]
fn body_that_is_not_utf8_is_a_format_error() {
    assert_eq!(decode_reply(&[0x64, 0x61, 0x74, 0x61, 0x3a, 0x20, 0xff, 0xfe]), Err(ClientError::Format));
}

#[test]
fn earlier_records_are_discarded() {
    let body = "data: not json at all\ndata: {\"final\":true}";
    assert_eq!(
        decode_reply(body.as_bytes()),
        Ok(object(vec![("final", Json::Bool(true))]))
    );
}
