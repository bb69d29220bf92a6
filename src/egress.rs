//! The client's decisions: where a tunneled request is replayed, and what is
//! answered when that cannot be done.
use vstd::prelude::*;
use vstd::slice::slice_to_vec;
use vstd::string::StringExecFns;
use vstd::utf8::encode_utf8;
use crate::message::{
    error_text, headers_normal, headers_view, normalized_headers, request_error, Header, IncomingRequest,
    OutgoingResponse,
};
use crate::syntax::{parse_uri, uri_parts, valid_method};
use crate::wire;

verus! {

/// Status of every answer the client makes up itself.
pub const INTERNAL_SERVER_ERROR: u16 = 500;

/// The answer sent when a request could not be replayed: status 500, no
/// headers, the error text as body, under the request's id, or under the
/// reserved id 0 where it is not known.
pub fn failure_response(id: Option<u64>, message: &str) -> (r: wire::OutgoingResponse)
    ensures
        r.id == match id {
            Some(i) => i,
            None => 0,
        },
        r.status == 500,
        r.headers@.len() == 0,
        r.body@ == encode_utf8(message@),
{
    let id = match id {
        Some(i) => i,
        None => 0,
    };
    let body = slice_to_vec(message.as_bytes());
    let r = wire::OutgoingResponse::from_response(
        id,
        OutgoingResponse { status: INTERNAL_SERVER_ERROR, headers: Vec::new(), body },
    );
    assert(headers_view(r.headers@).len() == r.headers@.len());
    r
}

/// Longest target, path or query, in bytes, that a replay URL is built
/// from; with three such parts the URL stays within what `url` can index.
pub const MAX_URL_PART: usize = 0x1000_0000;

/// The URL text that `url` makes of the target URL `target` with its path
/// and query replaced, or `None` where the target does not parse.
pub uninterp spec fn overlaid_url(
    target: Seq<char>,
    path: Seq<char>,
    query: Option<Seq<char>>,
) -> Option<Seq<char>>;

/// Whether a text is short enough to be a part of a replay URL.
pub open spec fn part_fits(s: Seq<char>) -> bool {
    encode_utf8(s).len() <= MAX_URL_PART
}

/// Relies on `reqwest::Url` (the `url` crate): `from_str` parses the target,
/// `set_path` and `set_query` replace its path and query, `as_str` gives the
/// text. The result depends on the three texts alone; `url` panics only on a
/// URL longer than 4 GiB, which the bound on the parts rules out.
#[verifier::external_body]
fn overlay_url(target: &str, path: &str, query: Option<&str>) -> (r: Option<String>)
    requires
        part_fits(target@),
        part_fits(path@),
        query matches Some(q) ==> part_fits(q@),
    ensures
        match r {
            None => overlaid_url(target@, path@, query_view(query)).is_none(),
            Some(u) => overlaid_url(target@, path@, query_view(query)) == Some(u@),
        },
{
    let mut url = <reqwest::Url as std::str::FromStr>::from_str(target).ok()?;
    url.set_path(path);
    url.set_query(query);
    Some(url.as_str().to_string())
}

/// The text of an optional query.
pub open spec fn query_view(query: Option<&str>) -> Option<Seq<char>> {
    match query {
        Some(q) => Some(q@),
        None => None,
    }
}

/// A request ready to be replayed against the local service.
pub struct Dispatch {
    pub id: u64,
    pub method: String,
    pub url: String,
    pub headers: Vec<Header>,
    pub body: Vec<u8>,
}

/// The path and the query of a request-URI that parses, and the target
/// fit in a replay URL.
pub open spec fn replay_fits(target: Seq<char>, uri: Seq<char>) -> bool {
    let (path, query) = uri_parts(uri).unwrap();
    &&& part_fits(target)
    &&& part_fits(path)
    &&& query matches Some(q) ==> part_fits(q)
}

/// The URL a tunneled request is replayed at: the target URL with the path
/// and the query of the request-URI.
pub open spec fn replay_url(target: Seq<char>, uri: Seq<char>) -> Option<Seq<char>> {
    overlaid_url(target, uri_parts(uri).unwrap().0, uri_parts(uri).unwrap().1)
}

/// Decodes a tunneled request and points it at the local service whose URL
/// is `target`: the request's path and query replace the target's, the
/// fragment is dropped. Where the request does not decode, or no URL can be
/// made, the failure answer to send instead, under the request's id.
pub fn dispatch(request: wire::IncomingRequest, target: &str) -> (r: Result<
    Dispatch,
    wire::OutgoingResponse,
>)
    ensures
        match r {
            Ok(d) => {
                &&& request_error(request).is_none()
                &&& replay_fits(target@, request.uri@)
                &&& replay_url(target@, request.uri@) == Some(d.url@)
                &&& d.id == request.id
                &&& d.method@ == request.method@
                &&& valid_method(d.method@)
                &&& headers_view(d.headers@) == normalized_headers(request.headers@)
                &&& headers_normal(d.headers@)
                &&& d.body@ == request.body@
            },
            Err(f) => {
                &&& f.id == request.id
                &&& f.status == 500
                &&& f.headers@.len() == 0
                &&& request_error(request) matches Some(e) ==> f.body@ == encode_utf8(
                    "Conversion error: "@ + error_text(e),
                )
                &&& request_error(request) is None ==> {
                    &&& f.body@ == encode_utf8("Invalid uri"@)
                    &&& !replay_fits(target@, request.uri@) || replay_url(target@, request.uri@)
                        is None
                }
            },
        },
{
    let id = request.id;
    let decoded = IncomingRequest::decode(request);
    match decoded {
        Err(e) => {
            let text = String::from_str("Conversion error: ").concat(e.message());
            Err(failure_response(Some(id), text.as_str()))
        },
        Ok(req) => {
            let IncomingRequest { method, uri, headers, body } = req;
            let parts = parse_uri(uri.as_str());
            let (path, query) = match parts {
                None => {
                    // the request-URI was read once already
                    proof {
                        assert(false);
                    }
                    return Err(failure_response(Some(id), "Invalid uri"));
                },
                Some(parts) => parts,
            };
            let query_fits = match &query {
                Some(q) => q.as_str().as_bytes().len() <= MAX_URL_PART,
                None => true,
            };
            if target.as_bytes().len() > MAX_URL_PART || path.as_str().as_bytes().len() > MAX_URL_PART || !query_fits {
                return Err(failure_response(Some(id), "Invalid uri"));
            }
            let url = match &query {
                Some(q) => overlay_url(target, path.as_str(), Some(q.as_str())),
                None => overlay_url(target, path.as_str(), None),
            };
            match url {
                None => Err(failure_response(Some(id), "Invalid uri")),
                Some(url) => Ok(Dispatch { id, method, url, headers, body }),
            }
        },
    }
}

} // verus!
