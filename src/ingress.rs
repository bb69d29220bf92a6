//! The public HTTP front end's decisions: which paths are tunneled, what is
//! tunneled of a request, and what the public client gets back.
use vstd::prelude::*;
use crate::message::{headers_view, Header, IncomingRequest, OutgoingResponse};
use crate::syntax::lower_bytes;

verus! {

#[verifier::external_type_specification]
#[verifier::external_body]
pub struct ExRegex(regex::Regex);

/// Whether a compiled pattern of the `regex` crate matches somewhere in the
/// text.
pub uninterp spec fn regex_matches(re: regex::Regex, haystack: Seq<char>) -> bool;

/// Relies on `regex::Regex::is_match`: whether the pattern matches anywhere
/// in the haystack, which depends on the pattern and the haystack alone.
pub assume_specification[ regex::Regex::is_match ](re: &regex::Regex, haystack: &str) -> (r: bool)
    ensures
        r == regex_matches(*re, haystack@),
;

/// A path passes the filter list when the list is empty or one of its
/// patterns matches the path.
pub open spec fn path_passes(filters: Seq<regex::Regex>, path: Seq<char>) -> bool {
    filters.len() == 0 || exists|i: int| 0 <= i < filters.len() && regex_matches(#[trigger] filters[i], path)
}

/// Applies the filter list to a request path.
pub fn filtert_req(filters: &Vec<regex::Regex>, path: &str) -> (r: bool)
    ensures
        r == path_passes(filters@, path@),
{
    if filters.len() == 0 {
        return true;
    }
    let mut i: usize = 0;
    while i < filters.len()
        invariant
            i <= filters@.len(),
            forall|j: int| 0 <= j < i ==> !regex_matches(#[trigger] filters@[j], path@),
        decreases filters@.len() - i,
    {
        if filters[i].is_match(path) {
            return true;
        }
        i = i + 1;
    }
    false
}

/// The name `host`, in any case.
pub open spec fn is_host_name(name: Seq<u8>) -> bool {
    lower_bytes(name) == seq![104u8, 111u8, 115u8, 116u8]
}

/// The header list without its `Host` lines, in order.
pub open spec fn without_host(hs: Seq<(Seq<u8>, Seq<u8>)>) -> Seq<(Seq<u8>, Seq<u8>)>
    decreases hs.len(),
{
    if hs.len() == 0 {
        hs
    } else if is_host_name(hs.last().0) {
        without_host(hs.drop_last())
    } else {
        without_host(hs.drop_last()).push(hs.last())
    }
}

/// No `Host` line is left in a list stripped of them.
pub proof fn lemma_without_host(hs: Seq<(Seq<u8>, Seq<u8>)>)
    ensures
        forall|i: int| 0 <= i < without_host(hs).len() ==> !is_host_name(#[trigger] without_host(hs)[i].0),
        without_host(hs).len() <= hs.len(),
    decreases hs.len(),
{
    if hs.len() > 0 {
        lemma_without_host(hs.drop_last());
    }
}

fn ascii_lower(b: u8) -> (r: u8)
    ensures
        r == crate::syntax::lower_byte(b),
{
    if 65 <= b && b <= 90 {
        b + 32
    } else {
        b
    }
}

/// Whether a header name is `host`, in any case.
pub fn is_host(name: &Vec<u8>) -> (r: bool)
    ensures
        r == is_host_name(name@),
{
    let expected: [u8; 4] = [104u8, 111u8, 115u8, 116u8];
    if name.len() != 4 {
        assert(lower_bytes(name@).len() != 4);
        return false;
    }
    let mut i: usize = 0;
    while i < 4
        invariant
            name@.len() == 4,
            i <= 4,
            expected@ == seq![104u8, 111u8, 115u8, 116u8],
            forall|j: int| 0 <= j < i ==> lower_bytes(name@)[j] == expected@[j],
        decreases 4 - i,
    {
        if ascii_lower(name[i]) != expected[i] {
            assert(lower_bytes(name@)[i as int] != expected@[i as int]);
            return false;
        }
        i = i + 1;
    }
    assert(lower_bytes(name@) =~= seq![104u8, 111u8, 115u8, 116u8]);
    true
}

/// Drops every `Host` line and keeps the others, with their order and
/// duplicates.
pub fn strip_host(hs: &Vec<Header>) -> (r: Vec<Header>)
    ensures
        headers_view(r@) == without_host(headers_view(hs@)),
{
    let mut r: Vec<Header> = Vec::new();
    let ghost all = headers_view(hs@);
    let mut i: usize = 0;
    while i < hs.len()
        invariant
            i <= hs@.len(),
            all == headers_view(hs@),
            headers_view(r@) == without_host(all.subrange(0, i as int)),
        decreases hs@.len() - i,
    {
        assert(all.subrange(0, i + 1).drop_last() =~= all.subrange(0, i as int));
        assert(all.subrange(0, i + 1).last() == hs@[i as int]@);
        if !is_host(&hs[i].name) {
            let h = Header { name: hs[i].name.clone(), value: hs[i].value.clone() };
            assert(h.name@ =~= hs@[i as int].name@);
            assert(h.value@ =~= hs@[i as int].value@);
            r.push(h);
            assert(headers_view(r@) =~= without_host(all.subrange(0, i as int)).push(h@));
        }
        i = i + 1;
    }
    assert(all.subrange(0, i as int) =~= all);
    r
}

/// The request to tunnel for a public request: everything kept as it came
/// but the `Host` lines, which name the public host.
pub fn tunneled_request(method: String, uri: String, headers: &Vec<Header>, body: Vec<u8>) -> (r:
    IncomingRequest)
    ensures
        r.method@ == method@,
        r.uri@ == uri@,
        headers_view(r.headers@) == without_host(headers_view(headers@)),
        forall|i: int| 0 <= i < r.headers@.len() ==> !is_host_name(#[trigger] r.headers@[i].name@),
        r.body@ == body@,
{
    let stripped = strip_host(headers);
    proof {
        lemma_without_host(headers_view(headers@));
        assert forall|i: int| 0 <= i < stripped@.len() implies !is_host_name(
            #[trigger] stripped@[i].name@,
        ) by {
            assert(headers_view(stripped@).len() == stripped@.len());
            assert(headers_view(stripped@)[i] == stripped@[i]@);
            assert(without_host(headers_view(headers@))[i].0 == stripped@[i].name@);
        }
    }
    IncomingRequest { method, uri, headers: stripped, body }
}

/// How the wait for a tunneled reply ended.
pub enum Reply {
    /// The path did not pass the filter list; nothing was tunneled.
    Filtered,
    /// The request could not be numbered or handed to the bus.
    NotPublished,
    /// A client answered.
    Answered(OutgoingResponse),
    /// The reply slot was dropped without an answer.
    SlotDropped,
    /// No answer came in time.
    TimedOut,
}

/// Status of the response the public client gets for a reply.
pub open spec fn reply_status(reply: Reply) -> u16 {
    match reply {
        Reply::Filtered => 404,
        Reply::Answered(resp) => resp.status,
        _ => 500,
    }
}

/// Header lines of the response the public client gets for a reply.
pub open spec fn reply_headers(reply: Reply) -> Seq<(Seq<u8>, Seq<u8>)> {
    match reply {
        Reply::Answered(resp) => headers_view(resp.headers@),
        _ => Seq::empty(),
    }
}

/// Body of the response the public client gets for a reply.
pub open spec fn reply_body(reply: Reply) -> Seq<u8> {
    match reply {
        Reply::Answered(resp) => resp.body@,
        _ => Seq::empty(),
    }
}

/// The response the public client gets: a filtered path is not found, a
/// client's answer goes out as it came, anything else is a server error with
/// an empty body.
pub fn public_response(reply: Reply) -> (r: OutgoingResponse)
    ensures
        r.status == reply_status(reply),
        headers_view(r.headers@) == reply_headers(reply),
        r.body@ == reply_body(reply),
{
    match reply {
        Reply::Filtered => empty_response(404),
        Reply::Answered(resp) => resp,
        _ => empty_response(500),
    }
}

fn empty_response(status: u16) -> (r: OutgoingResponse)
    ensures
        r.status == status,
        r.headers@.len() == 0,
        r.body@.len() == 0,
{
    OutgoingResponse { status, headers: Vec::new(), body: Vec::new() }
}

} // verus!
