use fluent_http::connection::Connection;
use fluent_http::request::{Body, Method, WireRequest};
use fluent_http::response::{complete_buffered, content_length, TransportEvent};

/// A stub transport that echoes back the bytes it was handed.
fn echo_stub(wire: &WireRequest) -> TransportEvent {
    let bytes = match &wire.body {
        Some(b) => b.bytes().to_vec(),
        None => Vec::new(),
    };
    TransportEvent::Response { status: 200, body: Ok(bytes) }
}

/// A stub transport that answers with the path of the URL it was asked for.
fn path_stub(wire: &WireRequest) -> TransportEvent {
    TransportEvent::Response { status: 200, body: Ok(wire.url.clone().into_bytes()) }
}

#[test]
fn the_body_is_transmitted_byte_for_byte() {
    let conn: Connection<()> = Connection::new("http://localhost:3000", ()).unwrap();
    let data = [0u8, 255, 7, 42];
    let (wire, _engine) = conn
        .request(Method::Post)
        .with_path("/echo")
        .with_body(Body::Borrowed(&data))
        .into_wire();
    let out = complete_buffered(echo_stub(&wire)).unwrap();
    assert_eq!(out, vec![0u8, 255, 7, 42]);
}

#[test]
fn a_non_success_status_fails_with_the_body_text() {
    let ev = TransportEvent::Response { status: 404, body: Ok(b"not found".to_vec()) };
    let e = complete_buffered(ev).unwrap_err();
    assert_eq!(e.description(), "not found");
}

#[test]
fn a_success_status_yields_the_body_bytes_exactly() {
    let ev = TransportEvent::Response { status: 200, body: Ok(vec![1u8, 2, 3]) };
    let out = complete_buffered(ev).unwrap();
    assert_eq!(out, vec![1u8, 2, 3]);
    assert_eq!(
        content_length(&vec![("Content-Length".to_string(), "3".to_string())]),
        Some(3)
    );
}

#[test]
fn an_unreadable_error_body_substitutes_the_placeholder() {
    let ev = TransportEvent::Response { status: 500, body: Ok(vec![0xff, 0xfe]) };
    let e = complete_buffered(ev).unwrap_err();
    assert_eq!(e.description(), "Unknown error");
    let ev = TransportEvent::Response { status: 500, body: Err("boom".to_string()) };
    let e = complete_buffered(ev).unwrap_err();
    assert_eq!(e.description(), "Unknown error");
}

#[test]
fn a_transport_failure_is_propagated_unchanged() {
    let ev = TransportEvent::Failed("connection refused".to_string());
    let e = complete_buffered(ev).unwrap_err();
    assert_eq!(e.description(), "connection refused");
}

#[test]
fn a_failed_body_read_on_success_is_propagated() {
    let ev = TransportEvent::Response { status: 200, body: Err("read interrupted".to_string()) };
    let e = complete_buffered(ev).unwrap_err();
    assert_eq!(e.description(), "read interrupted");
}

#[test]
fn two_requests_from_one_connection_do_not_interfere() {
    let conn: Connection<()> = Connection::new("http://localhost:3000", ()).unwrap();
    let r1 = conn.request(Method::Get).with_path("/a");
    let r2 = conn.request(Method::Get).with_path("/b");
    let (w1, _) = r1.into_wire();
    let (w2, _) = r2.into_wire();
    let b1 = complete_buffered(path_stub(&w1)).unwrap();
    let b2 = complete_buffered(path_stub(&w2)).unwrap();
    assert_eq!(b1, b"http://localhost:3000/a".to_vec());
    assert_eq!(b2, b"http://localhost:3000/b".to_vec());
}

#[test]
fn content_length_reads_the_first_matching_header() {
    let headers = vec![
        ("Server".to_string(), "stub".to_string()),
        ("Content-Length".to_string(), "18".to_string()),
        ("Content-Length".to_string(), "99".to_string()),
    ];
    assert_eq!(content_length(&headers), Some(18));
}

#[test]
fn content_length_handles_malformed_and_extreme_values() {
    let cl = |v: &str| content_length(&vec![("Content-Length".to_string(), v.to_string())]);
    assert_eq!(cl("0"), Some(0));
    assert_eq!(cl("18446744073709551615"), Some(u64::MAX));
    assert_eq!(cl("18446744073709551616"), None);
    assert_eq!(cl("12a"), None);
    assert_eq!(cl(""), None);
    assert_eq!(content_length(&Vec::new()), None);
}
