use rustcracker::agent::{parse_usize_text, response_body, try_response_body};
use rustcracker::error::RtckErrorKind;

fn reply_with_body(body: &str) -> Vec<u8> {
    format!(
        "HTTP/1.1 200 OK\r\nContent-Type: application/json\r\nContent-Length: {}\r\n\r\n{}",
        body.len(),
        body
    )
    .into_bytes()
}

#[test]
fn body_of_a_complete_reply() {
    let bytes = reply_with_body("I've received correct request!");
    let body = response_body(&bytes, &bytes).unwrap();
    assert_eq!(body, b"I've received correct request!".to_vec());
}

#[test]
fn body_is_taken_from_the_last_chunk_read() {
    let mut chunk = reply_with_body("{\"firecracker_version\":\"demo-dev\"}");
    chunk.resize(1024, 0);
    let body = try_response_body(&chunk, &chunk).unwrap().unwrap();
    assert_eq!(body, b"{\"firecracker_version\":\"demo-dev\"}".to_vec());
}

#[test]
fn header_name_is_matched_in_any_case() {
    let bytes = b"HTTP/1.1 200 OK\r\nCONTENT-length: 2\r\n\r\nok".to_vec();
    assert_eq!(response_body(&bytes, &bytes).unwrap(), b"ok".to_vec());
}

#[test]
fn reply_without_length_gives_the_empty_placeholder() {
    let bytes = b"HTTP/1.1 204 No Content\r\nServer: Firecracker API\r\n\r\n".to_vec();
    assert_eq!(response_body(&bytes, &bytes).unwrap(), b"{ \"empty\": 0 }".to_vec());
    let zero = b"HTTP/1.1 204 No Content\r\nContent-Length: 0\r\n\r\n".to_vec();
    assert_eq!(response_body(&zero, &zero).unwrap(), b"{ \"empty\": 0 }".to_vec());
}

#[test]
fn incomplete_head_is_an_agent_error() {
    let bytes = b"HTTP/1.1 200 OK\r\nContent-Len".to_vec();
    let e = response_body(&bytes, &bytes).unwrap_err();
    assert_eq!(e.kind(), RtckErrorKind::Agent);
    assert_eq!(e.message(), "Incomplete response");
}

#[test]
fn malformed_replies_are_refused_before_reading() {
    let garbage = b"\x00\x01 not http".to_vec();
    assert!(try_response_body(&garbage, &garbage).is_none());
    let bad_len = b"HTTP/1.1 200 OK\r\nContent-Length: twelve\r\n\r\n".to_vec();
    assert!(try_response_body(&bad_len, &bad_len).is_none());
    let overrun = b"HTTP/1.1 200 OK\r\nContent-Length: 50\r\n\r\nshort".to_vec();
    assert!(try_response_body(&overrun, &overrun).is_none());
}

#[test]
fn usize_texts_parse_as_std_does() {
    for (text, want) in [
        ("0", Some(0usize)),
        ("81", Some(81)),
        ("+7", Some(7)),
        ("", None),
        ("+", None),
        ("-1", None),
        (" 5", None),
        ("5a", None),
        ("18446744073709551616", None),
    ] {
        assert_eq!(parse_usize_text(&text.as_bytes().to_vec()), want, "{text}");
        assert_eq!(text.parse::<usize>().ok(), want, "{text}");
    }
}

#[test]
fn content_length_written_is_read_back() {
    for n in [0usize, 9, 10, 12, 81, 1024, usize::MAX] {
        assert_eq!(parse_usize_text(&n.to_string().into_bytes()), Some(n));
    }
}
