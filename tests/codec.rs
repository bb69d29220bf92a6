use porco::egress::{dispatch, failure_response};
use porco::message::{DecodeError, Header, IncomingRequest, OutgoingResponse};
use porco::wire;

fn header(name: &str, value: &[u8]) -> Header {
    Header::new(name.as_bytes().to_vec(), value.to_vec())
}

fn wire_response(status: u32, headers: Vec<Header>, body: &[u8]) -> wire::OutgoingResponse {
    wire::OutgoingResponse { id: 1, status, headers, body: body.to_vec() }
}

#[test]
fn decode_keeps_status_headers_and_body() {
    let w = wire_response(
        200,
        vec![header("x-b", b"2"), header("set-cookie", b"a"), header("set-cookie", b"b")],
        b"hello",
    );
    let r = OutgoingResponse::decode(w).unwrap();
    assert_eq!(r.status, 200);
    assert_eq!(r.headers.len(), 3);
    assert_eq!(r.headers[0].name, b"x-b".to_vec());
    assert_eq!(r.headers[1].value, b"a".to_vec());
    assert_eq!(r.headers[2].name, b"set-cookie".to_vec());
    assert_eq!(r.headers[2].value, b"b".to_vec());
    assert_eq!(r.body, b"hello".to_vec());
}

#[test]
fn decode_lowercases_header_names() {
    let r = OutgoingResponse::decode(wire_response(200, vec![header("X-B", b"2")], b"")).unwrap();
    assert_eq!(r.headers[0].name, b"x-b".to_vec());
}

#[test]
fn decode_keeps_non_utf8_header_values() {
    let r = OutgoingResponse::decode(wire_response(200, vec![header("x-raw", &[0xff, 0xfe, b'a'])], b""))
        .unwrap();
    assert_eq!(r.headers[0].value, vec![0xff, 0xfe, b'a']);
}

#[test]
fn decode_empty_and_large_bodies() {
    let r = OutgoingResponse::decode(wire_response(204, vec![], b"")).unwrap();
    assert!(r.body.is_empty());
    let big: Vec<u8> = (0..16 * 1024).map(|i| (i % 251) as u8).collect();
    let r = OutgoingResponse::decode(wire_response(200, vec![], &big)).unwrap();
    assert_eq!(r.body, big);
}

#[test]
fn decode_refuses_bad_statuses() {
    let e = OutgoingResponse::decode(wire_response(70000, vec![], b"")).unwrap_err();
    assert_eq!(e, DecodeError::InvalidStatus);
    let e = OutgoingResponse::decode(wire_response(99, vec![], b"")).unwrap_err();
    assert_eq!(e, DecodeError::InvalidStatusCode);
    let e = OutgoingResponse::decode(wire_response(1000, vec![], b"")).unwrap_err();
    assert_eq!(e, DecodeError::InvalidStatusCode);
    assert!(OutgoingResponse::decode(wire_response(100, vec![], b"")).is_ok());
    assert!(OutgoingResponse::decode(wire_response(999, vec![], b"")).is_ok());
}

#[test]
fn decode_refuses_bad_headers() {
    let e = OutgoingResponse::decode(wire_response(200, vec![header("bad name", b"v")], b"")).unwrap_err();
    assert_eq!(e, DecodeError::InvalidHeaderName);
    let e = OutgoingResponse::decode(wire_response(200, vec![header("", b"v")], b"")).unwrap_err();
    assert_eq!(e, DecodeError::InvalidHeaderName);
    let e = OutgoingResponse::decode(wire_response(200, vec![header("x", b"a\nb")], b"")).unwrap_err();
    assert_eq!(e, DecodeError::InvalidHeaderValue);
    // the first bad header decides
    let e = OutgoingResponse::decode(wire_response(
        200,
        vec![header("x", b"\x7f"), header("bad name", b"v")],
        b"",
    ))
    .unwrap_err();
    assert_eq!(e, DecodeError::InvalidHeaderValue);
    assert_eq!(e.message(), "Invalid header value");
}

#[test]
fn request_codec_round_trip() {
    let req = IncomingRequest {
        method: "GET".to_string(),
        uri: "/x?y=1".to_string(),
        headers: vec![header("x-a", b"1")],
        body: vec![],
    };
    let w = wire::IncomingRequest::from_request(9, req);
    assert_eq!(w.id, 9);
    let back = IncomingRequest::decode(w).unwrap();
    assert_eq!(back.method, "GET");
    assert_eq!(back.uri, "/x?y=1");
    assert_eq!(back.headers[0].name, b"x-a".to_vec());
    assert_eq!(back.headers[0].value, b"1".to_vec());
}

#[test]
fn request_decode_errors() {
    let mk = |method: &str, uri: &str| wire::IncomingRequest {
        id: 3,
        uri: uri.to_string(),
        method: method.to_string(),
        headers: vec![],
        body: vec![],
    };
    assert_eq!(IncomingRequest::decode(mk("", "/")).unwrap_err(), DecodeError::InvalidMethod);
    assert_eq!(IncomingRequest::decode(mk("G T", "/")).unwrap_err(), DecodeError::InvalidMethod);
    assert_eq!(IncomingRequest::decode(mk("GET", "a b")).unwrap_err(), DecodeError::InvalidUri);
    assert!(IncomingRequest::decode(mk("PURGE", "/")).is_ok());
}

fn get(uri: &str) -> wire::IncomingRequest {
    wire::IncomingRequest {
        id: 6,
        uri: uri.to_string(),
        method: "GET".to_string(),
        headers: vec![],
        body: vec![],
    }
}

#[test]
fn dispatch_replaces_path_and_query_of_the_target() {
    let d = dispatch(get("/x?y=1"), "http://127.0.0.1:8123/base?old=1").ok().unwrap();
    assert_eq!(d.url, "http://127.0.0.1:8123/x?y=1");
    let d = dispatch(get("/x"), "https://local:8443/base?old=1").ok().unwrap();
    assert_eq!(d.url, "https://local:8443/x");
}

#[test]
fn dispatch_refuses_a_bad_target() {
    let f = dispatch(get("/x"), "not a url").err().unwrap();
    assert_eq!(f.id, 6);
    assert_eq!(f.status, 500);
    assert_eq!(f.body, b"Invalid uri".to_vec());
}

#[test]
fn dispatch_points_at_the_local_service() {
    let w = wire::IncomingRequest {
        id: 4,
        uri: "http://public.example/x?y=1#frag".to_string(),
        method: "GET".to_string(),
        headers: vec![header("X-A", b"1")],
        body: b"hi".to_vec(),
    };
    let d = dispatch(w, "http://127.0.0.1:8123").ok().unwrap();
    assert_eq!(d.id, 4);
    assert_eq!(d.method, "GET");
    assert_eq!(d.url, "http://127.0.0.1:8123/x?y=1");
    assert_eq!(d.headers[0].name, b"x-a".to_vec());
    assert_eq!(d.body, b"hi".to_vec());
}

#[test]
fn dispatch_failure_keeps_the_id() {
    let w = wire::IncomingRequest {
        id: 5,
        uri: "/x".to_string(),
        method: "BAD METHOD".to_string(),
        headers: vec![],
        body: vec![],
    };
    let f = dispatch(w, "http://127.0.0.1:8123").err().unwrap();
    assert_eq!(f.id, 5);
    assert_eq!(f.status, 500);
    assert!(f.headers.is_empty());
    assert_eq!(f.body, b"Conversion error: Invalid method".to_vec());
}

#[test]
fn failure_response_without_id_uses_zero() {
    let f = failure_response(None, "Received error: boom");
    assert_eq!(f.id, 0);
    assert_eq!(f.status, 500);
    assert_eq!(f.body, b"Received error: boom".to_vec());
    let f = failure_response(Some(12), "Call error");
    assert_eq!(f.id, 12);
}
