//! The whole pipeline, run against in-memory backends.
//!
//! [`serve_video`] drives the gateway state machine through one complete
//! request — identifier validation, metadata lookup, storage fetch, stream
//! copy, view-event submission — against a [`MemoryStore`], a
//! [`MemoryAdapter`] and a [`MemoryRecorder`].  Its contract ties the
//! client's observation and every backend's call count to
//! [`gateway_outcome`], the functional model of the pipeline, for every
//! combination of records, objects and backend failures.

use vstd::prelude::*;
use vstd::string::StringExecFns;

use crate::backend::{
    chunk_views, find_object, lookup_path, object_bytes, recorded_paths, MemoryAdapter,
    MemoryRecorder, MemoryStore, MemoryStream,
};
use crate::gateway::{
    gateway_begin, gateway_step, Directive, GatewayAction, GatewayEvent, GatewayState, Status,
    StreamMeta,
};
use crate::ids::valid_video_id;

verus! {

/// Everything a client observes of one response.
pub struct ClientResponse {
    /// HTTP status code.
    pub status: u16,
    /// The committed content type, absent on bodyless error responses.
    pub content_type: Option<String>,
    /// The committed content length, absent when the backend knew none.
    pub content_length: Option<u64>,
    /// The body, exactly as the chunks arrived.
    pub body: Vec<u8>,
}

/// The mathematical value of a [`ClientResponse`].
#[verifier::ext_equal]
pub struct ResponseView {
    /// HTTP status code.
    pub status: u16,
    /// The committed content type, absent on bodyless error responses.
    pub content_type: Option<Seq<char>>,
    /// The committed content length, absent when the backend knew none.
    pub content_length: Option<u64>,
    /// The body bytes.
    pub body: Seq<u8>,
}

impl View for ClientResponse {
    type V = ResponseView;

    open spec fn view(&self) -> ResponseView {
        ResponseView {
            status: self.status,
            content_type: match self.content_type {
                Some(s) => Some(s@),
                None => None,
            },
            content_length: self.content_length,
            body: self.body@,
        }
    }
}

/// What one request does, in the model: the response the client sees, the
/// view event submitted to the recorder (if any), and how often each
/// backend was called.
#[verifier::ext_equal]
pub struct Outcome {
    /// The response the client observes.
    pub response: ResponseView,
    /// The storage path submitted to the history recorder, present exactly
    /// when the storage adapter confirmed success.
    pub notified: Option<Seq<char>>,
    /// Lookups made against the metadata store.
    pub lookups: nat,
    /// Fetches made against the storage adapter.
    pub fetches: nat,
    /// Submissions made to the history recorder.
    pub submissions: nat,
}

/// A bodyless response carrying only a status code.
pub open spec fn bodyless(status: u16) -> ResponseView {
    ResponseView { status, content_type: None, content_length: None, body: Seq::empty() }
}

/// A short-circuited request: no stream, no view event, and only the
/// backend calls made up to the failing stage.
pub open spec fn short_circuit(status: u16, lookups: nat, fetches: nat) -> Outcome {
    Outcome { response: bodyless(status), notified: None, lookups, fetches, submissions: 0 }
}

/// The functional model of one request.
///
/// A malformed identifier is rejected (400) before any backend call.  An
/// unreachable metadata store answers 500 after one lookup; an unknown
/// identifier answers 404.  With the path resolved, an unreachable storage
/// adapter answers 500 after one fetch; a missing object answers 404.
/// Success serves the object's bytes and metadata under 200 and submits
/// exactly one view event for the resolved path.  The recorder plays no
/// part in the model: nothing the client observes depends on it.
pub open spec fn gateway_outcome(store: MemoryStore, adapter: MemoryAdapter, id: Seq<char>) -> Outcome {
    if !valid_video_id(id) {
        short_circuit(400, 0, 0)
    } else if store.mode is Unavailable {
        short_circuit(500, 1, 0)
    } else {
        match lookup_path(store.entries@, id) {
            None => short_circuit(404, 1, 0),
            Some(path) => {
                if adapter.mode is Unavailable {
                    short_circuit(500, 1, 1)
                } else {
                    match find_object(adapter.objects@, path) {
                        None => short_circuit(404, 1, 1),
                        Some(o) => Outcome {
                            response: ResponseView {
                                status: 200,
                                content_type: Some(o.content_type@),
                                content_length: o.content_length,
                                body: object_bytes(o),
                            },
                            notified: Some(path),
                            lookups: 1,
                            fetches: 1,
                            submissions: 1,
                        },
                    }
                }
            },
        }
    }
}

/// Serves one video request against in-memory backends.
///
/// The client's observation and all side effects follow
/// [`gateway_outcome`]; the backends themselves keep their records and
/// only their call counts move.  A view event is recorded exactly when the
/// model owes one and the recorder accepts it; whether it does leaves the
/// response untouched.
pub fn serve_video(
    store: &mut MemoryStore,
    adapter: &mut MemoryAdapter,
    recorder: &mut MemoryRecorder,
    id: &str,
) -> (r: ClientResponse)
    requires
        old(store).lookups < u64::MAX,
        old(adapter).fetches < u64::MAX,
        old(recorder).submissions < u64::MAX,
    ensures
        ({
            let o = gateway_outcome(*old(store), *old(adapter), id@);
            &&& r@ == o.response
            &&& final(store).entries == old(store).entries
            &&& final(store).mode == old(store).mode
            &&& final(store).lookups == old(store).lookups + o.lookups
            &&& final(adapter).objects == old(adapter).objects
            &&& final(adapter).mode == old(adapter).mode
            &&& final(adapter).fetches == old(adapter).fetches + o.fetches
            &&& final(recorder).mode == old(recorder).mode
            &&& final(recorder).submissions == old(recorder).submissions + o.submissions
            &&& recorded_paths(*final(recorder)) == (match o.notified {
                Some(p) => if old(recorder).mode is Available {
                    recorded_paths(*old(recorder)).push(p)
                } else {
                    recorded_paths(*old(recorder))
                },
                None => recorded_paths(*old(recorder)),
            })
        }),
{
    let d0 = gateway_begin(String::from_str(id));
    match d0.action {
        GatewayAction::RespondStatus { status } => status_response(status),
        GatewayAction::LookupMetadata { id: lookup_id } => {
            let ev = store.lookup(lookup_id.as_str());
            let d1 = gateway_step(d0.next, ev);
            match d1.action {
                GatewayAction::RespondStatus { status } => status_response(status),
                GatewayAction::FetchStream { path } => {
                    let (fev, stream_opt) = adapter.fetch(path.as_str());
                    let d2 = gateway_step(d1.next, fev);
                    let Directive { next: st, action, view_event } = d2;
                    if let Some(event) = view_event {
                        let _accepted = recorder.submit(event);
                    }
                    match action {
                        GatewayAction::RespondStatus { status } => status_response(status),
                        GatewayAction::CommitResponse { status, meta } => {
                            let stream = match stream_opt {
                                Some(s) => s,
                                None => vstd::pervasive::unreached(),
                            };
                            stream_response(status, meta, stream, st)
                        },
                        _ => vstd::pervasive::unreached(),
                    }
                },
                _ => vstd::pervasive::unreached(),
            }
        },
        _ => vstd::pervasive::unreached(),
    }
}

/// A bodyless response for a short-circuited request.
fn status_response(status: Status) -> (r: ClientResponse)
    ensures
        r@ == bodyless(status.spec_code()),
{
    let r = ClientResponse {
        status: status.code(),
        content_type: None,
        content_length: None,
        body: Vec::new(),
    };
    proof {
        assert(r@ =~= bodyless(status.spec_code()));
    }
    r
}

/// Commits the response and copies the stream to the client, chunk by
/// chunk, through the gateway machine.
fn stream_response(status: Status, meta: StreamMeta, stream: MemoryStream, state: GatewayState) -> (r:
    ClientResponse)
    requires
        stream.cursor == 0,
        state is Streaming,
    ensures
        r@.status == status.spec_code(),
        r@.content_type == Some(meta.content_type@),
        r@.content_length == meta.content_length,
        r@.body == chunk_views(stream.chunks@).flatten(),
{
    let ghost all = stream.chunks@;
    let ghost ct = meta.content_type@;
    let mut stream = stream;
    let mut st = state;
    let mut response = ClientResponse {
        status: status.code(),
        content_type: Some(meta.content_type),
        content_length: meta.content_length,
        body: Vec::new(),
    };
    proof {
        assert(all.take(0) =~= Seq::<Vec<u8>>::empty());
        assert(chunk_views(all.take(0)) =~= Seq::<Seq<u8>>::empty());
        assert(response.body@ =~= chunk_views(all.take(0)).flatten());
    }
    while stream.cursor < stream.chunks.len()
        invariant
            stream.cursor <= stream.chunks@.len(),
            stream.chunks@ == all,
            st is Streaming,
            response.status == status.spec_code(),
            response.content_type matches Some(s) && s@ == ct,
            response.content_length == meta.content_length,
            response.body@ == chunk_views(all.take(stream.cursor as int)).flatten(),
        decreases stream.chunks@.len() - stream.cursor,
    {
        let ghost cur = stream.cursor as int;
        let chunk = match stream.next() {
            Some(c) => c,
            None => vstd::pervasive::unreached(),
        };
        let d = gateway_step(st, GatewayEvent::ChunkReceived { chunk });
        st = d.next;
        let mut forwarded = match d.action {
            GatewayAction::ForwardChunk { chunk } => chunk,
            _ => vstd::pervasive::unreached(),
        };
        response.body.append(&mut forwarded);
        proof {
            assert(chunk_views(all.take(cur + 1)) =~= chunk_views(all.take(cur)).push(all[cur]@));
            chunk_views(all.take(cur)).lemma_flatten_push(all[cur]@);
        }
    }
    let _closed = gateway_step(st, GatewayEvent::StreamEnded);
    proof {
        assert(all.take(stream.cursor as int) =~= all);
    }
    response
}

} // verus!
