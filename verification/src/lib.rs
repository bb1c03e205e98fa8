//! Verified core of a small video-delivery pipeline.
//!
//! A client asks a gateway for a video by identifier.  The gateway resolves
//! the identifier to a storage path through a metadata store, streams the
//! video bytes from a storage adapter back to the client, and — decoupled
//! from the response — submits a view event to a history recorder.
//!
//! This crate holds the decision logic of that pipeline, verified:
//! identifier validation, the gateway's request state machine, a driver that
//! runs the machine against in-memory backends, and the wire format of the
//! view-event notification.  The surrounding network servers perform the
//! actual I/O and feed their results to the state machine as events.

pub mod backend;
pub mod gateway;
pub mod ids;
pub mod laws;
pub mod message;
pub mod pipeline;
