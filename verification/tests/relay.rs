use surf_bridge::relay::{reply_payload, request_line, RelayError};

#[test]
fn sends_envelope_and_reads_reply() {
    let line = request_line(&br#"{"type":"ping"}"#.to_vec());
    assert_eq!(line, b"{\"type\":\"ping\"}\n".to_vec());
    let out = reply_payload(b"{\"type\":\"pong\"}\n".to_vec()).unwrap();
    assert!(String::from_utf8_lossy(&out).contains("pong"));
    assert_eq!(out, b"{\"type\":\"pong\"}".to_vec());
}

#[test]
fn closed_connection_is_an_error() {
    assert_eq!(reply_payload(vec![]), Err(RelayError::Closed));
}

#[test]
fn line_ends_are_stripped_and_nothing_else() {
    assert_eq!(reply_payload(b"a b\r\n".to_vec()), Ok(b"a b".to_vec()));
    assert_eq!(reply_payload(b"a\nb\n\r\n".to_vec()), Ok(b"a\nb".to_vec()));
    assert_eq!(reply_payload(b"no newline ".to_vec()), Ok(b"no newline ".to_vec()));
    assert_eq!(reply_payload(b"\n".to_vec()), Ok(vec![]));
}

#[test]
fn envelope_without_newline_is_one_line() {
    let line = request_line(&b"{}".to_vec());
    assert_eq!(line.iter().filter(|b| **b == b'\n').count(), 1);
    assert_eq!(line.last(), Some(&b'\n'));
    assert_eq!(reply_payload(line), Ok(b"{}".to_vec()));
}
