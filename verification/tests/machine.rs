use video_gateway::gateway::{
    content_type_or_default, gateway_begin, gateway_step, GatewayAction, GatewayEvent,
    GatewayState, Status, StreamMeta,
};

#[test]
fn begin_with_valid_id_asks_metadata_store() {
    let d = gateway_begin("000000000000000000000001".to_string());
    match d.next {
        GatewayState::AwaitingMetadata { id } => assert_eq!(id, "000000000000000000000001"),
        other => panic!("unexpected state: {other:?}"),
    }
    match d.action {
        GatewayAction::LookupMetadata { id } => assert_eq!(id, "000000000000000000000001"),
        other => panic!("unexpected action: {other:?}"),
    }
    assert!(d.view_event.is_none());
}

#[test]
fn begin_with_malformed_id_rejects_without_backend_call() {
    let d = gateway_begin("not-a-video-id".to_string());
    match d.next {
        GatewayState::Done { status } => assert_eq!(status.code(), 400),
        other => panic!("unexpected state: {other:?}"),
    }
    match d.action {
        GatewayAction::RespondStatus { status } => assert_eq!(status, Status::BadRequest),
        other => panic!("unexpected action: {other:?}"),
    }
    assert!(d.view_event.is_none());
}

#[test]
fn metadata_found_moves_to_fetch() {
    let state = GatewayState::AwaitingMetadata { id: "000000000000000000000001".to_string() };
    let d = gateway_step(state, GatewayEvent::MetadataFound { path: "sample.mp4".to_string() });
    match d.action {
        GatewayAction::FetchStream { path } => assert_eq!(path, "sample.mp4"),
        other => panic!("unexpected action: {other:?}"),
    }
    assert!(matches!(d.next, GatewayState::AwaitingStream { .. }));
    assert!(d.view_event.is_none());
}

#[test]
fn metadata_missing_is_not_found() {
    let state = GatewayState::AwaitingMetadata { id: "000000000000000000000001".to_string() };
    let d = gateway_step(state, GatewayEvent::MetadataMissing);
    match d.action {
        GatewayAction::RespondStatus { status } => assert_eq!(status.code(), 404),
        other => panic!("unexpected action: {other:?}"),
    }
    assert!(d.view_event.is_none());
}

#[test]
fn metadata_failure_is_internal_error() {
    let state = GatewayState::AwaitingMetadata { id: "000000000000000000000001".to_string() };
    let d = gateway_step(state, GatewayEvent::MetadataFailed);
    match d.action {
        GatewayAction::RespondStatus { status } => assert_eq!(status.code(), 500),
        other => panic!("unexpected action: {other:?}"),
    }
    assert!(d.view_event.is_none());
}

#[test]
fn stream_ready_commits_and_owes_exactly_one_view_event() {
    let state = GatewayState::AwaitingStream { path: "sample.mp4".to_string() };
    let meta = StreamMeta {
        content_type: "video/mp4".to_string(),
        content_length: Some(2560),
    };
    let d = gateway_step(state, GatewayEvent::StreamReady { meta });
    match d.action {
        GatewayAction::CommitResponse { status, meta } => {
            assert_eq!(status.code(), 200);
            assert_eq!(meta.content_type, "video/mp4");
            assert_eq!(meta.content_length, Some(2560));
        },
        other => panic!("unexpected action: {other:?}"),
    }
    let event = d.view_event.expect("a view event is owed on success");
    assert_eq!(event.video_path, "sample.mp4");
    assert!(matches!(d.next, GatewayState::Streaming { .. }));
}

#[test]
fn stream_missing_is_not_found_without_view_event() {
    let state = GatewayState::AwaitingStream { path: "sample.mp4".to_string() };
    let d = gateway_step(state, GatewayEvent::StreamMissing);
    match d.action {
        GatewayAction::RespondStatus { status } => assert_eq!(status.code(), 404),
        other => panic!("unexpected action: {other:?}"),
    }
    assert!(d.view_event.is_none());
}

#[test]
fn stream_failure_is_internal_error_without_view_event() {
    let state = GatewayState::AwaitingStream { path: "sample.mp4".to_string() };
    let d = gateway_step(state, GatewayEvent::StreamFailed);
    match d.action {
        GatewayAction::RespondStatus { status } => assert_eq!(status.code(), 500),
        other => panic!("unexpected action: {other:?}"),
    }
    assert!(d.view_event.is_none());
}

#[test]
fn chunks_are_forwarded_unchanged() {
    let state = GatewayState::Streaming { path: "sample.mp4".to_string() };
    let d = gateway_step(state, GatewayEvent::ChunkReceived { chunk: vec![1, 2, 3] });
    match d.action {
        GatewayAction::ForwardChunk { chunk } => assert_eq!(chunk, vec![1, 2, 3]),
        other => panic!("unexpected action: {other:?}"),
    }
    assert!(matches!(d.next, GatewayState::Streaming { .. }));
    assert!(d.view_event.is_none());
}

#[test]
fn stream_end_closes_successfully() {
    let state = GatewayState::Streaming { path: "sample.mp4".to_string() };
    let d = gateway_step(state, GatewayEvent::StreamEnded);
    assert!(matches!(d.action, GatewayAction::CloseResponse));
    match d.next {
        GatewayState::Done { status } => assert_eq!(status, Status::Success),
        other => panic!("unexpected state: {other:?}"),
    }
}

#[test]
fn client_disconnect_closes_without_error() {
    let state = GatewayState::Streaming { path: "sample.mp4".to_string() };
    let d = gateway_step(state, GatewayEvent::ClientGone);
    assert!(matches!(d.action, GatewayAction::CloseResponse));
    match d.next {
        GatewayState::Done { status } => assert_eq!(status, Status::Success),
        other => panic!("unexpected state: {other:?}"),
    }
    assert!(d.view_event.is_none());
}

#[test]
fn unknown_content_type_defaults_to_generic_binary() {
    assert_eq!(content_type_or_default(None), "application/octet-stream");
    assert_eq!(
        content_type_or_default(Some("video/mp4".to_string())),
        "video/mp4"
    );
}

#[test]
fn status_codes_follow_the_error_taxonomy() {
    assert_eq!(Status::Success.code(), 200);
    assert_eq!(Status::BadRequest.code(), 400);
    assert_eq!(Status::NotFound.code(), 404);
    assert_eq!(Status::InternalError.code(), 500);
}
