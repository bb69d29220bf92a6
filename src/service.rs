//! The daemon's RPC service: numbers public requests for the bus, routes each
//! client answer to the reply slot of its request, and releases the slot of
//! every request that ends.
use vstd::prelude::*;
use crate::ingress::{public_response, reply_body, reply_headers, reply_status, Reply};
use crate::message::{
    error_text, headers_view, normalized_headers, response_error, DecodeError, IncomingRequest, OutgoingResponse,
};
use crate::message::Header;
use crate::store::{allocated, claimed, RequestStore};
use crate::syntax::lower_bytes;
use crate::wire;

verus! {

/// Why an RPC call was refused, and the code it carries.
#[derive(Clone, Copy, Debug, PartialEq, Eq, Structural)]
pub enum RpcError {
    /// `SendResponse` for an id that is not outstanding: invalid argument.
    InvalidRequestId,
    /// `SendResponse` with a status or a header that does not decode:
    /// invalid argument.
    InvalidResponse(DecodeError),
    /// The requester gave up before the answer came: deadline exceeded.
    TimedOut,
    /// A stream fell behind the bus by this many requests: resource
    /// exhausted.
    Lagged(u64),
}

/// The codes of the RPC protocol that the service answers with.
#[derive(Clone, Copy, Debug, PartialEq, Eq, Structural)]
pub enum RpcCode {
    InvalidArgument,
    DeadlineExceeded,
    ResourceExhausted,
}

impl RpcError {
    pub fn code(&self) -> (r: RpcCode)
        ensures
            r == match *self {
                RpcError::InvalidRequestId | RpcError::InvalidResponse(_) => RpcCode::InvalidArgument,
                RpcError::TimedOut => RpcCode::DeadlineExceeded,
                RpcError::Lagged(_) => RpcCode::ResourceExhausted,
            },
    {
        match self {
            RpcError::InvalidRequestId => RpcCode::InvalidArgument,
            RpcError::InvalidResponse(_) => RpcCode::InvalidArgument,
            RpcError::TimedOut => RpcCode::DeadlineExceeded,
            RpcError::Lagged(_) => RpcCode::ResourceExhausted,
        }
    }

    pub fn message(&self) -> (r: &'static str)
        ensures
            r@ == match *self {
                RpcError::InvalidRequestId => "Invalid request id"@,
                RpcError::InvalidResponse(e) => error_text(e),
                RpcError::TimedOut => "Timed out"@,
                RpcError::Lagged(_) => "Lagged behind the request stream"@,
            },
    {
        match self {
            RpcError::InvalidRequestId => "Invalid request id",
            RpcError::InvalidResponse(e) => e.message(),
            RpcError::TimedOut => "Timed out",
            RpcError::Lagged(_) => "Lagged behind the request stream",
        }
    }
}

/// State of the RPC service: the request store, with a reply slot `S` for
/// each outstanding request.
pub struct Inner<S> {
    store: RequestStore<S>,
}

impl<S> Inner<S> {
    pub closed spec fn store(&self) -> RequestStore<S> {
        self.store
    }

    pub open spec fn wf(&self) -> bool {
        self.store().wf()
    }

    pub fn new() -> (r: Inner<S>)
        ensures
            r.wf(),
            r.store().next_id() == 1,
            r.store().pending() == Map::<u64, S>::empty(),
            r.store().issued() == Set::<u64>::empty(),
            r.store().released() == Set::<u64>::empty(),
    {
        Inner { store: RequestStore::new() }
    }

    /// Whether `id` is outstanding.
    pub fn is_pending(&self, id: u64) -> (r: bool)
        requires
            self.wf(),
        ensures
            r == self.store().pending().contains_key(id),
    {
        self.store.is_pending(id)
    }

    /// Numbers a request and keeps its reply slot; returns what to publish
    /// on the bus, or `None` once the ids are used up.
    pub fn register(&mut self, request: IncomingRequest, slot: S) -> (r: Option<wire::IncomingRequest>)
        requires
            old(self).wf(),
        ensures
            allocated(
                old(self).store(),
                final(self).store(),
                slot,
                match r {
                    Some(w) => Some(w.id),
                    None => None,
                },
            ),
            r matches Some(w) ==> {
                &&& w.method@ == request.method@
                &&& w.uri@ == request.uri@
                &&& headers_view(w.headers@) == headers_view(request.headers@)
                &&& w.body@ == request.body@
            },
    {
        match self.store.allocate(slot) {
            None => None,
            Some(id) => Some(wire::IncomingRequest::from_request(id, request)),
        }
    }

    /// `SendResponse`: takes the reply slot of the response's id out of the
    /// store and hands it back with the decoded response. An unknown id
    /// changes nothing; a response that does not decode still uses up its
    /// id.
    pub fn send_response(&mut self, response: wire::OutgoingResponse) -> (r: Result<
        (S, OutgoingResponse),
        RpcError,
    >)
        requires
            old(self).wf(),
        ensures
            !old(self).store().pending().contains_key(response.id) ==> {
                &&& r == Err::<(S, OutgoingResponse), RpcError>(RpcError::InvalidRequestId)
                &&& claimed(old(self).store(), final(self).store(), response.id, None)
            },
            old(self).store().pending().contains_key(response.id) ==> {
                &&& claimed(
                    old(self).store(),
                    final(self).store(),
                    response.id,
                    Some(old(self).store().pending()[response.id]),
                )
                &&& match r {
                    Ok((slot, resp)) => {
                        &&& slot == old(self).store().pending()[response.id]
                        &&& response_error(response).is_none()
                        &&& resp.status as u32 == response.status
                        &&& headers_view(resp.headers@) == normalized_headers(response.headers@)
                        &&& resp.body@ == response.body@
                    },
                    Err(e) => response_error(response) matches Some(d) && e == RpcError::InvalidResponse(d),
                }
            },
    {
        let slot = match self.store.claim(response.id) {
            None => {
                return Err(RpcError::InvalidRequestId);
            },
            Some(slot) => slot,
        };
        match OutgoingResponse::decode(response) {
            Ok(resp) => Ok((slot, resp)),
            Err(e) => Err(RpcError::InvalidResponse(e)),
        }
    }

    /// Ends the request numbered `id`: its slot leaves the store if it is
    /// still there, and the public client gets the response for `reply`.
    pub fn finish(&mut self, id: u64, reply: Reply) -> (r: OutgoingResponse)
        requires
            old(self).wf(),
        ensures
            claimed(
                old(self).store(),
                final(self).store(),
                id,
                if old(self).store().pending().contains_key(id) {
                    Some(old(self).store().pending()[id])
                } else {
                    None
                },
            ),
            !final(self).store().pending().contains_key(id),
            r.status == reply_status(reply),
            headers_view(r.headers@) == reply_headers(reply),
            r.body@ == reply_body(reply),
    {
        let _ = self.store.abandon(id);
        public_response(reply)
    }
}

/// The outcome of `SendResponse` once the slot has been offered the
/// response: it fails only where the requester had already gone.
pub fn delivery_result(delivered: bool) -> (r: Result<wire::Void, RpcError>)
    ensures
        delivered <==> r is Ok,
        !delivered ==> r == Err::<wire::Void, RpcError>(RpcError::TimedOut),
{
    if delivered {
        Ok(wire::Void {})
    } else {
        Err(RpcError::TimedOut)
    }
}

/// One item of a client's request stream: a request from the bus, or the
/// number of requests the stream fell behind by, which ends the stream.
pub fn stream_item(item: Result<wire::IncomingRequest, u64>) -> (r: Result<
    wire::IncomingRequest,
    RpcError,
>)
    ensures
        match item {
            Ok(w) => r matches Ok(x) && x == w,
            Err(n) => r == Err::<wire::IncomingRequest, RpcError>(RpcError::Lagged(n)),
        },
{
    match item {
        Ok(w) => Ok(w),
        Err(n) => Err(RpcError::Lagged(n)),
    }
}

/// Header names as `http` writes them: already in lower case.
pub open spec fn names_lowercase(hs: Seq<Header>) -> bool {
    forall|i: int| 0 <= i < hs.len() ==> lower_bytes(#[trigger] hs[i].name@) == hs[i].name@
}

proof fn lemma_normalized_is_identity(hs: Seq<Header>)
    requires
        names_lowercase(hs),
    ensures
        normalized_headers(hs) == headers_view(hs),
{
    assert(normalized_headers(hs) =~= headers_view(hs));
}

/// The public client gets the status, the header lines (order and
/// duplicates included) and the body that `SendResponse` received, where the
/// names are in lower case as `http` writes them.
pub proof fn law_answer_reaches_public_client(w: wire::OutgoingResponse, resp: OutgoingResponse)
    requires
        response_error(w).is_none(),
        resp.status as u32 == w.status,
        headers_view(resp.headers@) == normalized_headers(w.headers@),
        resp.body@ == w.body@,
        names_lowercase(w.headers@),
    ensures
        reply_status(Reply::Answered(resp)) as u32 == w.status,
        reply_headers(Reply::Answered(resp)) == headers_view(w.headers@),
        reply_body(Reply::Answered(resp)) == w.body@,
{
    lemma_normalized_is_identity(w.headers@);
}

/// A local response that the client sends through the wire and the daemon
/// decodes and hands to the public client arrives with its status, its
/// header lines and its body unchanged.
pub proof fn law_round_trip(
    local: OutgoingResponse,
    id: u64,
    w: wire::OutgoingResponse,
    decoded: OutgoingResponse,
    public: OutgoingResponse,
)
    requires
        local.wf(),
        w.id == id,
        w.status == local.status as u32,
        headers_view(w.headers@) == headers_view(local.headers@),
        w.body@ == local.body@,
        response_error(w).is_none(),
        decoded.status as u32 == w.status,
        headers_view(decoded.headers@) == normalized_headers(w.headers@),
        decoded.body@ == w.body@,
        public.status == reply_status(Reply::Answered(decoded)),
        headers_view(public.headers@) == reply_headers(Reply::Answered(decoded)),
        public.body@ == reply_body(Reply::Answered(decoded)),
    ensures
        public.status == local.status,
        headers_view(public.headers@) == headers_view(local.headers@),
        public.body@ == local.body@,
{
    assert(headers_view(w.headers@).len() == w.headers@.len());
    assert(headers_view(local.headers@).len() == local.headers@.len());
    assert(normalized_headers(w.headers@) =~= headers_view(w.headers@)) by {
        assert forall|i: int| 0 <= i < w.headers@.len() implies lower_bytes(
            #[trigger] w.headers@[i].name@,
        ) == w.headers@[i].name@ by {
            assert(headers_view(w.headers@)[i] == headers_view(local.headers@)[i]);
            assert(w.headers@[i].name@ == local.headers@[i].name@);
            assert(lower_bytes(local.headers@[i].name@) == local.headers@[i].name@);
            assert(0 <= i < local.headers@.len());
        }
        lemma_normalized_is_identity(w.headers@);
    }
}

/// Once `SendResponse` has taken the slot of an id, or the requester has
/// abandoned it, the id is no longer outstanding: a further `SendResponse`
/// for it is refused as an invalid request id.
pub proof fn law_answer_taken_once<S>(s0: RequestStore<S>, s1: RequestStore<S>, id: u64, slot: S)
    requires
        claimed(s0, s1, id, Some(slot)),
    ensures
        !s1.pending().contains_key(id),
        s1.released().contains(id),
{
}

} // verus!
