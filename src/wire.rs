//! The messages of the RPC channel between the daemon and its clients.
use vstd::prelude::*;
use crate::message::{headers_view, Header};

verus! {

/// The empty message.
#[derive(Clone, Copy, Debug, PartialEq, Eq, Structural)]
pub struct Void {}

/// A public request, numbered for correlation, as sent to the clients.
#[derive(Clone, Debug)]
pub struct IncomingRequest {
    pub id: u64,
    pub uri: String,
    pub method: String,
    pub headers: Vec<Header>,
    pub body: Vec<u8>,
}

/// A client's answer to the request numbered `id`.
#[derive(Clone, Debug)]
pub struct OutgoingResponse {
    pub id: u64,
    pub status: u32,
    pub headers: Vec<Header>,
    pub body: Vec<u8>,
}

impl IncomingRequest {
    /// Numbers a request for the wire; every part is carried unchanged.
    pub fn from_request(id: u64, request: crate::message::IncomingRequest) -> (r: IncomingRequest)
        ensures
            r.id == id,
            r.uri@ == request.uri@,
            r.method@ == request.method@,
            headers_view(r.headers@) == headers_view(request.headers@),
            r.body@ == request.body@,
    {
        let crate::message::IncomingRequest { method, uri, headers, body } = request;
        IncomingRequest { id, uri, method, headers, body }
    }
}

impl OutgoingResponse {
    /// Numbers a response for the wire; the status is widened, the rest is
    /// carried unchanged.
    pub fn from_response(id: u64, response: crate::message::OutgoingResponse) -> (r:
        OutgoingResponse)
        ensures
            r.id == id,
            r.status == response.status as u32,
            headers_view(r.headers@) == headers_view(response.headers@),
            r.body@ == response.body@,
    {
        let crate::message::OutgoingResponse { status, headers, body } = response;
        OutgoingResponse { id, status: status as u32, headers, body }
    }
}

} // verus!
