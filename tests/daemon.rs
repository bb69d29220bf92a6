use porco::ingress::{filtert_req, is_host, public_response, strip_host, tunneled_request, Reply};
use porco::message::{Header, IncomingRequest, OutgoingResponse};
use porco::service::{delivery_result, stream_item, Inner, RpcCode, RpcError};
use porco::wire;
use regex::Regex;

fn header(name: &str, value: &[u8]) -> Header {
    Header::new(name.as_bytes().to_vec(), value.to_vec())
}

fn public_get(path: &str, headers: Vec<Header>) -> IncomingRequest {
    tunneled_request("GET".to_string(), path.to_string(), &headers, vec![])
}

fn answer(id: u64, status: u32, headers: Vec<Header>, body: &[u8]) -> wire::OutgoingResponse {
    wire::OutgoingResponse { id, status, headers, body: body.to_vec() }
}

#[test]
fn happy_path() {
    let filters: Vec<Regex> = vec![];
    assert!(filtert_req(&filters, "/x"));
    let mut inner: Inner<&str> = Inner::new();
    let request = public_get("/x?y=1", vec![header("host", b"public.example"), header("x-a", b"1")]);
    let published = inner.register(request, "slot").unwrap();
    assert_eq!(published.method, "GET");
    assert_eq!(published.uri, "/x?y=1");
    assert_eq!(published.headers.len(), 1);
    assert_eq!(published.headers[0].name, b"x-a".to_vec());
    assert_eq!(published.headers[0].value, b"1".to_vec());

    let (slot, resp) = inner
        .send_response(answer(published.id, 200, vec![header("x-b", b"2")], b"hello"))
        .unwrap();
    assert_eq!(slot, "slot");
    assert!(delivery_result(true).is_ok());
    let public = inner.finish(published.id, Reply::Answered(resp));
    assert_eq!(public.status, 200);
    assert_eq!(public.headers.len(), 1);
    assert_eq!(public.headers[0].name, b"x-b".to_vec());
    assert_eq!(public.headers[0].value, b"2".to_vec());
    assert_eq!(public.body, b"hello".to_vec());
}

#[test]
fn filtered_path_is_not_found() {
    let filters = vec![Regex::new("^/api/").unwrap()];
    assert!(!filtert_req(&filters, "/other"));
    assert!(filtert_req(&filters, "/api/states"));
    let r = public_response(Reply::Filtered);
    assert_eq!(r.status, 404);
    assert!(r.body.is_empty());
    assert!(r.headers.is_empty());
}

#[test]
fn any_matching_filter_passes() {
    let filters = vec![Regex::new("^/api/").unwrap(), Regex::new("^/auth").unwrap()];
    assert!(filtert_req(&filters, "/auth/token"));
    assert!(!filtert_req(&filters, "/"));
}

#[test]
fn timeout_abandons_and_late_answer_is_refused() {
    let mut inner: Inner<u8> = Inner::new();
    let published = inner.register(public_get("/z", vec![]), 0).unwrap();
    let public = inner.finish(published.id, Reply::TimedOut);
    assert_eq!(public.status, 500);
    assert!(!inner.is_pending(published.id));
    let e = inner.send_response(answer(published.id, 200, vec![], b"late")).err().unwrap();
    assert_eq!(e, RpcError::InvalidRequestId);
    assert_eq!(e.code(), RpcCode::InvalidArgument);
    assert_eq!(e.message(), "Invalid request id");
}

#[test]
fn no_client_times_out_with_server_error() {
    let mut inner: Inner<u8> = Inner::new();
    let published = inner.register(public_get("/a", vec![]), 0).unwrap();
    let public = inner.finish(published.id, Reply::TimedOut);
    assert_eq!(public.status, 500);
    assert!(public.body.is_empty());
}

#[test]
fn second_client_answer_is_refused() {
    let mut inner: Inner<u8> = Inner::new();
    let published = inner.register(public_get("/p", vec![]), 1).unwrap();
    let (_, resp) = inner.send_response(answer(published.id, 200, vec![], b"A")).unwrap();
    let e = inner.send_response(answer(published.id, 200, vec![], b"B")).err().unwrap();
    assert_eq!(e, RpcError::InvalidRequestId);
    let public = inner.finish(published.id, Reply::Answered(resp));
    assert_eq!(public.status, 200);
    assert_eq!(public.body, b"A".to_vec());
}

#[test]
fn ids_follow_publication_order() {
    let mut inner: Inner<u8> = Inner::new();
    let a = inner.register(public_get("/1", vec![]), 1).unwrap().id;
    let b = inner.register(public_get("/2", vec![]), 2).unwrap().id;
    let c = inner.register(public_get("/3", vec![]), 3).unwrap().id;
    assert!(a >= 1);
    assert_eq!(b, a + 1);
    assert_eq!(c, a + 2);
}

#[test]
fn bad_answer_uses_up_the_id() {
    let mut inner: Inner<u8> = Inner::new();
    let id = inner.register(public_get("/", vec![]), 1).unwrap().id;
    let e = inner.send_response(answer(id, 42, vec![], b"")).err().unwrap();
    assert_eq!(e.code(), RpcCode::InvalidArgument);
    assert_eq!(e.message(), "Invalid status code");
    assert!(!inner.is_pending(id));
    let public = inner.finish(id, Reply::SlotDropped);
    assert_eq!(public.status, 500);
}

#[test]
fn dropped_slot_is_deadline_exceeded() {
    let e = delivery_result(false).unwrap_err();
    assert_eq!(e, RpcError::TimedOut);
    assert_eq!(e.code(), RpcCode::DeadlineExceeded);
    assert_eq!(e.message(), "Timed out");
}

#[test]
fn lagging_stream_is_resource_exhausted() {
    let e = stream_item(Err(3)).unwrap_err();
    assert_eq!(e, RpcError::Lagged(3));
    assert_eq!(e.code(), RpcCode::ResourceExhausted);
    let w = wire::IncomingRequest { id: 1, uri: "/".to_string(), method: "GET".to_string(), headers: vec![], body: vec![] };
    assert_eq!(stream_item(Ok(w)).unwrap().id, 1);
}

#[test]
fn host_lines_are_stripped_in_any_case() {
    let hs = vec![
        header("Host", b"a"),
        header("x-a", b"1"),
        header("HOST", b"b"),
        header("x-a", b"2"),
        header("hostname", b"c"),
    ];
    let kept = strip_host(&hs);
    assert_eq!(kept.len(), 3);
    assert_eq!(kept[0].value, b"1".to_vec());
    assert_eq!(kept[1].value, b"2".to_vec());
    assert_eq!(kept[2].name, b"hostname".to_vec());
    assert!(is_host(&b"hOsT".to_vec()));
    assert!(!is_host(&b"hosts".to_vec()));
}

#[test]
fn answered_reply_goes_out_unchanged() {
    let resp = OutgoingResponse {
        status: 201,
        headers: vec![header("a", b"1"), header("a", b"2")],
        body: vec![0, 1, 2],
    };
    let r = public_response(Reply::Answered(resp));
    assert_eq!(r.status, 201);
    assert_eq!(r.headers.len(), 2);
    assert_eq!(r.headers[1].value, b"2".to_vec());
    assert_eq!(r.body, vec![0, 1, 2]);
    assert_eq!(public_response(Reply::NotPublished).status, 500);
}

#[test]
fn local_response_round_trip() {
    let mut inner: Inner<u8> = Inner::new();
    let id = inner.register(public_get("/r", vec![]), 1).unwrap().id;
    let body: Vec<u8> = (0..16 * 1024).map(|i| (i % 256) as u8).collect();
    let local = OutgoingResponse {
        status: 418,
        headers: vec![header("x-dup", b"1"), header("x-dup", &[0xff])],
        body: body.clone(),
    };
    let w = wire::OutgoingResponse::from_response(id, local);
    assert_eq!(w.status, 418);
    let (_, decoded) = inner.send_response(w).unwrap();
    let public = inner.finish(id, Reply::Answered(decoded));
    assert_eq!(public.status, 418);
    assert_eq!(public.headers[1].value, vec![0xff]);
    assert_eq!(public.body, body);
}
