//! The gateway's request state machine.
//!
//! One client request moves through three strictly sequential backend
//! stages: metadata lookup (identifier to storage path), storage fetch
//! (path to byte stream plus metadata), and the chunk-by-chunk copy of the
//! stream to the client.  The decisions of the gateway are the transitions
//! of this machine: a server loop performs the I/O an action asks for and
//! hands the result back as the next event.
//!
//! A view-event submission to the history recorder is not an action on the
//! critical path: it is carried separately in a [`Directive`], owed exactly
//! when the storage adapter confirmed success, and whatever becomes of it
//! must not influence the response.

use vstd::prelude::*;
use vstd::string::StringExecFns;

use crate::ids::valid_video_id;

verus! {

/// The client-visible result classes of a request.
#[derive(Clone, Copy, Debug, PartialEq, Eq, Structural)]
pub enum Status {
    /// The stream was served (HTTP 200).
    Success,
    /// The identifier was malformed (HTTP 400).
    BadRequest,
    /// The identifier is unknown or the storage object is missing (HTTP 404).
    NotFound,
    /// A backend was unreachable, timed out, or failed (HTTP 500).
    InternalError,
}

impl Status {
    /// The HTTP status code of this result class.
    pub open spec fn spec_code(&self) -> u16 {
        match self {
            Status::Success => 200,
            Status::BadRequest => 400,
            Status::NotFound => 404,
            Status::InternalError => 500,
        }
    }

    /// The HTTP status code of this result class.
    #[verifier::when_used_as_spec(spec_code)]
    pub fn code(&self) -> (c: u16)
        ensures
            c == self.spec_code(),
    {
        match self {
            Status::Success => 200,
            Status::BadRequest => 400,
            Status::NotFound => 404,
            Status::InternalError => 500,
        }
    }
}

/// Content metadata accompanying a byte stream.
#[derive(Debug)]
pub struct StreamMeta {
    /// MIME type of the payload.
    pub content_type: String,
    /// Payload length in bytes, when the backend knows it; an unknown
    /// length is valid and calls for a chunked transfer.
    pub content_length: Option<u64>,
}

/// A view event: the record that one storage path was served once.
#[derive(Debug)]
pub struct ViewEvent {
    /// The storage path that was served.
    pub video_path: String,
}

/// Where one request stands.
#[derive(Debug)]
pub enum GatewayState {
    /// The identifier was accepted; the metadata store has been asked.
    AwaitingMetadata {
        /// The validated identifier being looked up.
        id: String,
    },
    /// The path is resolved; the storage adapter has been asked.
    AwaitingStream {
        /// The storage path being fetched.
        path: String,
    },
    /// The response is committed and bytes are being copied.
    Streaming {
        /// The storage path being streamed.
        path: String,
    },
    /// The request is finished.
    Done {
        /// The status the client was given.
        status: Status,
    },
}

/// What a backend reported, handed to the machine by the server loop.
#[derive(Debug)]
pub enum GatewayEvent {
    /// The metadata store resolved the identifier to a storage path.
    MetadataFound {
        /// The resolved storage path.
        path: String,
    },
    /// The metadata store holds no record for the identifier.
    MetadataMissing,
    /// The metadata store was unreachable, timed out, or failed.
    MetadataFailed,
    /// The storage adapter began serving the object.
    StreamReady {
        /// Content metadata of the stream.
        meta: StreamMeta,
    },
    /// The storage adapter reports that the object does not exist.
    StreamMissing,
    /// The storage adapter was unreachable, timed out, or failed.
    StreamFailed,
    /// One chunk of the payload arrived from the storage adapter.
    ChunkReceived {
        /// The bytes of the chunk.
        chunk: Vec<u8>,
    },
    /// The storage adapter's stream ended.
    StreamEnded,
    /// The client disconnected mid-stream.  Not an error.
    ClientGone,
}

/// What the server loop must do next on the critical path.
#[derive(Debug)]
pub enum GatewayAction {
    /// Ask the metadata store for the record of `id`.
    LookupMetadata {
        /// The identifier to look up.
        id: String,
    },
    /// Ask the storage adapter for the object at `path`.
    FetchStream {
        /// The storage path to fetch.
        path: String,
    },
    /// Commit status and headers to the client from the stream's metadata.
    CommitResponse {
        /// The status to commit; mirrors the storage adapter's success.
        status: Status,
        /// Content metadata for the response headers.
        meta: StreamMeta,
    },
    /// Forward one chunk to the client unchanged.
    ForwardChunk {
        /// The bytes to forward.
        chunk: Vec<u8>,
    },
    /// Respond with a bodyless error status.
    RespondStatus {
        /// The status to send.
        status: Status,
    },
    /// Release the stream handle and finish the response.
    CloseResponse,
}

/// One decision of the gateway: the next state, the next action on the
/// critical path, and — decoupled from both — a view event to submit to
/// the history recorder, present exactly when the response was committed
/// with success.
#[derive(Debug)]
pub struct Directive {
    /// The state the request moves to.
    pub next: GatewayState,
    /// The action the server loop performs next.
    pub action: GatewayAction,
    /// A view event owed to the history recorder, fire-and-forget.
    pub view_event: Option<ViewEvent>,
}

/// The directive that ends a request with a bodyless `status`.
pub open spec fn spec_respond(status: Status) -> Directive {
    Directive {
        next: GatewayState::Done { status },
        action: GatewayAction::RespondStatus { status },
        view_event: None,
    }
}

/// The gateway's first decision: reject a malformed identifier before any
/// backend call, else ask the metadata store.
pub open spec fn gateway_entry(id: String) -> Directive {
    if valid_video_id(id@) {
        Directive {
            next: GatewayState::AwaitingMetadata { id },
            action: GatewayAction::LookupMetadata { id },
            view_event: None,
        }
    } else {
        spec_respond(Status::BadRequest)
    }
}

/// Which events may arrive in which state: the three backend stages of a
/// request are strictly sequential, and a finished request sees nothing.
pub open spec fn accepts(state: GatewayState, event: GatewayEvent) -> bool {
    match state {
        GatewayState::AwaitingMetadata { .. } => {
            ||| event is MetadataFound
            ||| event is MetadataMissing
            ||| event is MetadataFailed
        },
        GatewayState::AwaitingStream { .. } => {
            ||| event is StreamReady
            ||| event is StreamMissing
            ||| event is StreamFailed
        },
        GatewayState::Streaming { .. } => {
            ||| event is ChunkReceived
            ||| event is StreamEnded
            ||| event is ClientGone
        },
        GatewayState::Done { .. } => false,
    }
}

/// The transition table of the gateway.
///
/// Metadata and storage errors short-circuit the request: a missing record
/// or object answers not-found, a failed backend answers internal-error.
/// Success commits the response, and only then is a view event owed.
/// Chunks are forwarded unchanged; the stream ending and the client
/// leaving both close the response without error.
pub open spec fn gateway_transition(state: GatewayState, event: GatewayEvent) -> Directive
    recommends
        accepts(state, event),
{
    match (state, event) {
        (GatewayState::AwaitingMetadata { .. }, GatewayEvent::MetadataFound { path }) => Directive {
            next: GatewayState::AwaitingStream { path },
            action: GatewayAction::FetchStream { path },
            view_event: None,
        },
        (GatewayState::AwaitingMetadata { .. }, GatewayEvent::MetadataMissing) => spec_respond(
            Status::NotFound,
        ),
        (GatewayState::AwaitingMetadata { .. }, GatewayEvent::MetadataFailed) => spec_respond(
            Status::InternalError,
        ),
        (GatewayState::AwaitingStream { path }, GatewayEvent::StreamReady { meta }) => Directive {
            next: GatewayState::Streaming { path },
            action: GatewayAction::CommitResponse { status: Status::Success, meta },
            view_event: Some(ViewEvent { video_path: path }),
        },
        (GatewayState::AwaitingStream { .. }, GatewayEvent::StreamMissing) => spec_respond(
            Status::NotFound,
        ),
        (GatewayState::AwaitingStream { .. }, GatewayEvent::StreamFailed) => spec_respond(
            Status::InternalError,
        ),
        (GatewayState::Streaming { path }, GatewayEvent::ChunkReceived { chunk }) => Directive {
            next: GatewayState::Streaming { path },
            action: GatewayAction::ForwardChunk { chunk },
            view_event: None,
        },
        (GatewayState::Streaming { .. }, GatewayEvent::StreamEnded) => Directive {
            next: GatewayState::Done { status: Status::Success },
            action: GatewayAction::CloseResponse,
            view_event: None,
        },
        (GatewayState::Streaming { .. }, GatewayEvent::ClientGone) => Directive {
            next: GatewayState::Done { status: Status::Success },
            action: GatewayAction::CloseResponse,
            view_event: None,
        },
        _ => spec_respond(Status::InternalError),
    }
}

/// Starts a request for `id`.
///
/// A malformed identifier is rejected here, before any backend call; a
/// well-formed one is sent to the metadata store.
pub fn gateway_begin(id: String) -> (d: Directive)
    ensures
        d == gateway_entry(id),
{
    if crate::ids::check_video_id(id.as_str()) {
        let id_for_action = id.clone();
        Directive {
            next: GatewayState::AwaitingMetadata { id },
            action: GatewayAction::LookupMetadata { id: id_for_action },
            view_event: None,
        }
    } else {
        respond_status(Status::BadRequest)
    }
}

/// Applies one event to the machine and returns the gateway's decision.
pub fn gateway_step(state: GatewayState, event: GatewayEvent) -> (d: Directive)
    requires
        accepts(state, event),
    ensures
        d == gateway_transition(state, event),
{
    match (state, event) {
        (GatewayState::AwaitingMetadata { .. }, GatewayEvent::MetadataFound { path }) => {
            let path_for_action = path.clone();
            Directive {
                next: GatewayState::AwaitingStream { path },
                action: GatewayAction::FetchStream { path: path_for_action },
                view_event: None,
            }
        },
        (GatewayState::AwaitingMetadata { .. }, GatewayEvent::MetadataMissing) => respond_status(
            Status::NotFound,
        ),
        (GatewayState::AwaitingMetadata { .. }, GatewayEvent::MetadataFailed) => respond_status(
            Status::InternalError,
        ),
        (GatewayState::AwaitingStream { path }, GatewayEvent::StreamReady { meta }) => {
            let path_for_event = path.clone();
            Directive {
                next: GatewayState::Streaming { path },
                action: GatewayAction::CommitResponse { status: Status::Success, meta },
                view_event: Some(ViewEvent { video_path: path_for_event }),
            }
        },
        (GatewayState::AwaitingStream { .. }, GatewayEvent::StreamMissing) => respond_status(
            Status::NotFound,
        ),
        (GatewayState::AwaitingStream { .. }, GatewayEvent::StreamFailed) => respond_status(
            Status::InternalError,
        ),
        (GatewayState::Streaming { path }, GatewayEvent::ChunkReceived { chunk }) => Directive {
            next: GatewayState::Streaming { path },
            action: GatewayAction::ForwardChunk { chunk },
            view_event: None,
        },
        (GatewayState::Streaming { .. }, GatewayEvent::StreamEnded) => Directive {
            next: GatewayState::Done { status: Status::Success },
            action: GatewayAction::CloseResponse,
            view_event: None,
        },
        (GatewayState::Streaming { .. }, GatewayEvent::ClientGone) => Directive {
            next: GatewayState::Done { status: Status::Success },
            action: GatewayAction::CloseResponse,
            view_event: None,
        },
        _ => vstd::pervasive::unreached(),
    }
}

fn respond_status(status: Status) -> (d: Directive)
    ensures
        d == spec_respond(status),
{
    Directive {
        next: GatewayState::Done { status },
        action: GatewayAction::RespondStatus { status },
        view_event: None,
    }
}

/// The MIME type a storage backend reports when it cannot determine one.
pub fn default_content_type() -> (r: String)
    ensures
        r@ == "application/octet-stream"@,
{
    String::from_str("application/octet-stream")
}

/// The content type to put in response headers: the backend's own when it
/// knows one, else the generic binary type.
pub fn content_type_or_default(ct: Option<String>) -> (r: String)
    ensures
        match ct {
            Some(s) => r@ == s@,
            None => r@ == "application/octet-stream"@,
        },
{
    match ct {
        Some(s) => s,
        None => default_content_type(),
    }
}

} // verus!
