//! Requests and responses as the daemon and the client hold them, and the
//! checks that turn the wire form into them.
use vstd::prelude::*;
use crate::syntax::{
    header_name_normalized, header_value_is_valid, lower_bytes, method_is_valid, parse_uri,
    status_is_valid, uri_parts, valid_header_name, valid_header_value, valid_method, valid_status,
};
use crate::wire;

verus! {

/// One header line: raw name bytes and raw value bytes.
#[derive(Clone, Debug)]
pub struct Header {
    pub name: Vec<u8>,
    pub value: Vec<u8>,
}

impl View for Header {
    type V = (Seq<u8>, Seq<u8>);

    open spec fn view(&self) -> (Seq<u8>, Seq<u8>) {
        (self.name@, self.value@)
    }
}

impl Header {
    pub fn new(name: Vec<u8>, value: Vec<u8>) -> (r: Header)
        ensures
            r.name@ == name@,
            r.value@ == value@,
    {
        Header { name, value }
    }
}

/// The header list as name and value byte strings, in order.
pub open spec fn headers_view(hs: Seq<Header>) -> Seq<(Seq<u8>, Seq<u8>)> {
    hs.map_values(|h: Header| h@)
}

/// The header list after `http` has read each name: names in lower case,
/// values as they were.
pub open spec fn normalized_headers(hs: Seq<Header>) -> Seq<(Seq<u8>, Seq<u8>)> {
    hs.map_values(|h: Header| (lower_bytes(h.name@), h.value@))
}

/// Why a message from the wire was refused.
#[derive(Clone, Copy, Debug, PartialEq, Eq, Structural)]
pub enum DecodeError {
    /// The status does not fit in 16 bits.
    InvalidStatus,
    /// The status is not a code from 100 to 999.
    InvalidStatusCode,
    /// The method is not a token.
    InvalidMethod,
    /// The request-URI does not parse.
    InvalidUri,
    /// A header name is not a token.
    InvalidHeaderName,
    /// A header value holds a control byte.
    InvalidHeaderValue,
}

/// The text of each decode error.
pub open spec fn error_text(e: DecodeError) -> Seq<char> {
    match e {
        DecodeError::InvalidStatus => "Invalid status"@,
        DecodeError::InvalidStatusCode => "Invalid status code"@,
        DecodeError::InvalidMethod => "Invalid method"@,
        DecodeError::InvalidUri => "Invalid uri"@,
        DecodeError::InvalidHeaderName => "Invalid header name"@,
        DecodeError::InvalidHeaderValue => "Invalid header value"@,
    }
}

impl DecodeError {
    pub fn message(&self) -> (r: &'static str)
        ensures
            r@ == error_text(*self),
    {
        match self {
            DecodeError::InvalidStatus => "Invalid status",
            DecodeError::InvalidStatusCode => "Invalid status code",
            DecodeError::InvalidMethod => "Invalid method",
            DecodeError::InvalidUri => "Invalid uri",
            DecodeError::InvalidHeaderName => "Invalid header name",
            DecodeError::InvalidHeaderValue => "Invalid header value",
        }
    }
}

/// The error for the first header, from index `i` on, that `http` refuses:
/// its name is read before its value.
pub open spec fn header_error_from(hs: Seq<Header>, i: int) -> Option<DecodeError>
    decreases hs.len() - i,
{
    if i < 0 || i >= hs.len() {
        None
    } else if !valid_header_name(hs[i].name@) {
        Some(DecodeError::InvalidHeaderName)
    } else if !valid_header_value(hs[i].value@) {
        Some(DecodeError::InvalidHeaderValue)
    } else {
        header_error_from(hs, i + 1)
    }
}

/// The error for the first header that `http` refuses, if any.
pub open spec fn header_error(hs: Seq<Header>) -> Option<DecodeError> {
    header_error_from(hs, 0)
}

/// Header lines as `http` holds them: valid names in lower case, valid
/// values.
pub open spec fn headers_normal(hs: Seq<Header>) -> bool {
    forall|i: int|
        0 <= i < hs.len() ==> {
            &&& valid_header_name(#[trigger] hs[i].name@)
            &&& lower_bytes(hs[i].name@) == hs[i].name@
            &&& valid_header_value(hs[i].value@)
        }
}

/// The lower case of a valid header name is a valid header name, and is
/// its own lower case.
pub proof fn lemma_lower_name(s: Seq<u8>)
    requires
        valid_header_name(s),
    ensures
        valid_header_name(lower_bytes(s)),
        lower_bytes(lower_bytes(s)) == lower_bytes(s),
{
    assert(lower_bytes(lower_bytes(s)) =~= lower_bytes(s));
}

/// Reads each header as `http` does: the names in lower case, the values
/// unchanged; or the error for the first header refused.
pub fn decode_headers(hs: Vec<Header>) -> (r: Result<Vec<Header>, DecodeError>)
    ensures
        match r {
            Ok(out) => {
                &&& header_error(hs@).is_none()
                &&& headers_view(out@) == normalized_headers(hs@)
                &&& headers_normal(out@)
            },
            Err(e) => header_error(hs@) == Some(e),
        },
{
    let mut out: Vec<Header> = Vec::new();
    let mut i: usize = 0;
    while i < hs.len()
        invariant
            i <= hs@.len(),
            header_error_from(hs@, 0) == header_error_from(hs@, i as int),
            headers_view(out@) == normalized_headers(hs@.subrange(0, i as int)),
            headers_normal(out@),
        decreases hs@.len() - i,
    {
        let name = header_name_normalized(hs[i].name.as_slice());
        match name {
            None => {
                return Err(DecodeError::InvalidHeaderName);
            },
            Some(name) => {
                if !header_value_is_valid(hs[i].value.as_slice()) {
                    return Err(DecodeError::InvalidHeaderValue);
                }
                proof {
                    lemma_lower_name(hs@[i as int].name@);
                }
                let value = hs[i].value.clone();
                assert(value@ =~= hs@[i as int].value@);
                out.push(Header { name, value });
            },
        }
        i = i + 1;
        assert(normalized_headers(hs@.subrange(0, i as int)) =~= normalized_headers(
            hs@.subrange(0, i - 1),
        ).push((lower_bytes(hs@[i - 1].name@), hs@[i - 1].value@)));
        assert(headers_view(out@) =~= normalized_headers(hs@.subrange(0, i as int)));
    }
    assert(hs@.subrange(0, i as int) =~= hs@);
    Ok(out)
}

} // verus!

verus! {

/// A request as the HTTP layers hold it: method and request-URI as text,
/// headers in order with duplicates, and the whole body.
#[derive(Clone, Debug)]
pub struct IncomingRequest {
    pub method: String,
    pub uri: String,
    pub headers: Vec<Header>,
    pub body: Vec<u8>,
}

impl IncomingRequest {
    /// What `http` accepts: a token method, a request-URI that parses, and
    /// header lines as `http` holds them.
    pub open spec fn wf(&self) -> bool {
        &&& valid_method(self.method@)
        &&& uri_parts(self.uri@) is Some
        &&& headers_normal(self.headers@)
    }
}

/// A response as the HTTP layers hold it.
#[derive(Clone, Debug)]
pub struct OutgoingResponse {
    pub status: u16,
    pub headers: Vec<Header>,
    pub body: Vec<u8>,
}

impl OutgoingResponse {
    /// What `http` accepts: a status from 100 to 999, and header lines as
    /// `http` holds them.
    pub open spec fn wf(&self) -> bool {
        &&& valid_status(self.status as int)
        &&& headers_normal(self.headers@)
    }
}

/// The error for a response from the wire, if `http` refuses any part of it.
pub open spec fn response_error(w: wire::OutgoingResponse) -> Option<DecodeError> {
    if w.status > u16::MAX {
        Some(DecodeError::InvalidStatus)
    } else if !valid_status(w.status as int) {
        Some(DecodeError::InvalidStatusCode)
    } else {
        header_error(w.headers@)
    }
}

/// The error for a request from the wire, if `http` refuses any part of it.
pub open spec fn request_error(w: wire::IncomingRequest) -> Option<DecodeError> {
    if !valid_method(w.method@) {
        Some(DecodeError::InvalidMethod)
    } else if uri_parts(w.uri@).is_none() {
        Some(DecodeError::InvalidUri)
    } else {
        header_error(w.headers@)
    }
}

impl OutgoingResponse {
    /// Reads a response from the wire: the status must be a code from 100 to
    /// 999 and every header valid. The id is not looked at.
    pub fn decode(w: wire::OutgoingResponse) -> (r: Result<OutgoingResponse, DecodeError>)
        ensures
            match r {
                Ok(resp) => {
                    &&& response_error(w).is_none()
                    &&& resp.wf()
                    &&& resp.status as u32 == w.status
                    &&& headers_view(resp.headers@) == normalized_headers(w.headers@)
                    &&& resp.body@ == w.body@
                },
                Err(e) => response_error(w) == Some(e),
            },
    {
        let wire::OutgoingResponse { id: _, status, headers, body } = w;
        if status > 65535 {
            return Err(DecodeError::InvalidStatus);
        }
        let status = status as u16;
        if !status_is_valid(status) {
            return Err(DecodeError::InvalidStatusCode);
        }
        let headers = decode_headers(headers)?;
        Ok(OutgoingResponse { status, headers, body })
    }
}

impl IncomingRequest {
    /// Reads a request from the wire: the method must be a token, the
    /// request-URI must parse and every header be valid. The id is not
    /// looked at.
    pub fn decode(w: wire::IncomingRequest) -> (r: Result<IncomingRequest, DecodeError>)
        ensures
            match r {
                Ok(req) => {
                    &&& request_error(w).is_none()
                    &&& req.wf()
                    &&& req.method@ == w.method@
                    &&& req.uri@ == w.uri@
                    &&& headers_view(req.headers@) == normalized_headers(w.headers@)
                    &&& req.body@ == w.body@
                },
                Err(e) => request_error(w) == Some(e),
            },
    {
        let wire::IncomingRequest { id: _, uri, method, headers, body } = w;
        if !method_is_valid(method.as_str()) {
            return Err(DecodeError::InvalidMethod);
        }
        if parse_uri(uri.as_str()).is_none() {
            return Err(DecodeError::InvalidUri);
        }
        let headers = decode_headers(headers)?;
        Ok(IncomingRequest { method, uri, headers, body })
    }
}

proof fn lemma_normal_has_no_error(hs: Seq<Header>, i: int)
    requires
        headers_normal(hs),
        0 <= i <= hs.len(),
    ensures
        header_error_from(hs, i).is_none(),
        normalized_headers(hs) == headers_view(hs),
    decreases hs.len() - i,
{
    if i < hs.len() {
        lemma_normal_has_no_error(hs, i + 1);
    }
    assert(normalized_headers(hs) =~= headers_view(hs));
}

/// A request that `http` accepts decodes from its wire form: every part
/// comes back unchanged.
pub proof fn law_request_round_trip(req: IncomingRequest, w: wire::IncomingRequest)
    requires
        req.wf(),
        w.method@ == req.method@,
        w.uri@ == req.uri@,
        headers_view(w.headers@) == headers_view(req.headers@),
        w.body@ == req.body@,
    ensures
        request_error(w).is_none(),
        normalized_headers(w.headers@) == headers_view(req.headers@),
{
    lemma_view_keeps_normal(req.headers@, w.headers@);
    lemma_normal_has_no_error(w.headers@, 0);
}

/// A response that `http` accepts decodes from its wire form: every part
/// comes back unchanged.
pub proof fn law_response_round_trip(resp: OutgoingResponse, w: wire::OutgoingResponse)
    requires
        resp.wf(),
        w.status == resp.status as u32,
        headers_view(w.headers@) == headers_view(resp.headers@),
        w.body@ == resp.body@,
    ensures
        response_error(w).is_none(),
        normalized_headers(w.headers@) == headers_view(resp.headers@),
{
    lemma_view_keeps_normal(resp.headers@, w.headers@);
    lemma_normal_has_no_error(w.headers@, 0);
}

proof fn lemma_view_keeps_normal(a: Seq<Header>, b: Seq<Header>)
    requires
        headers_normal(a),
        headers_view(a) == headers_view(b),
    ensures
        headers_normal(b),
{
    assert(headers_view(a).len() == a.len());
    assert(headers_view(b).len() == b.len());
    assert forall|i: int| 0 <= i < b.len() implies {
        &&& valid_header_name(#[trigger] b[i].name@)
        &&& lower_bytes(b[i].name@) == b[i].name@
        &&& valid_header_value(b[i].value@)
    } by {
        assert(headers_view(a)[i] == headers_view(b)[i]);
        assert(a[i].name@ == b[i].name@);
    }
}

} // verus!
