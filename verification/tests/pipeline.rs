use video_gateway::backend::{
    BackendMode, MemoryAdapter, MemoryRecorder, MemoryStore, StoredObject,
};
use video_gateway::pipeline::serve_video;

const KNOWN_ID: &str = "000000000000000000000001";

fn store_with_sample() -> MemoryStore {
    MemoryStore {
        entries: vec![(KNOWN_ID.to_string(), "sample.mp4".to_string())],
        mode: BackendMode::Available,
        lookups: 0,
    }
}

fn three_chunk_payload() -> Vec<Vec<u8>> {
    let chunk = |len: usize, fill: u8| vec![fill; len];
    vec![chunk(1024, 0xaa), chunk(1024, 0xbb), chunk(512, 0xcc)]
}

fn adapter_with_sample() -> MemoryAdapter {
    MemoryAdapter {
        objects: vec![(
            "sample.mp4".to_string(),
            StoredObject {
                content_type: "video/mp4".to_string(),
                content_length: Some(2560),
                chunks: three_chunk_payload(),
            },
        )],
        mode: BackendMode::Available,
        fetches: 0,
    }
}

fn fresh_recorder() -> MemoryRecorder {
    MemoryRecorder { mode: BackendMode::Available, events: vec![], submissions: 0 }
}

#[test]
fn known_id_streams_all_bytes_and_notifies_once() {
    let mut store = store_with_sample();
    let mut adapter = adapter_with_sample();
    let mut recorder = fresh_recorder();
    let r = serve_video(&mut store, &mut adapter, &mut recorder, KNOWN_ID);

    assert_eq!(r.status, 200);
    assert_eq!(r.content_type.as_deref(), Some("video/mp4"));
    assert_eq!(r.content_length, Some(2560));
    assert_eq!(r.body.len(), 2560);
    let mut expected: Vec<u8> = Vec::new();
    for chunk in three_chunk_payload() {
        expected.extend_from_slice(&chunk);
    }
    assert_eq!(r.body, expected);

    assert_eq!(store.lookups, 1);
    assert_eq!(adapter.fetches, 1);
    assert_eq!(recorder.submissions, 1);
    assert_eq!(recorder.events, vec!["sample.mp4".to_string()]);
}

#[test]
fn unknown_id_is_not_found_with_no_fetch_and_no_notification() {
    let mut store = store_with_sample();
    let mut adapter = adapter_with_sample();
    let mut recorder = fresh_recorder();
    let r = serve_video(
        &mut store,
        &mut adapter,
        &mut recorder,
        "ffffffffffffffffffffffff",
    );

    assert_eq!(r.status, 404);
    assert!(r.content_type.is_none());
    assert!(r.body.is_empty());
    assert_eq!(store.lookups, 1);
    assert_eq!(adapter.fetches, 0);
    assert_eq!(recorder.submissions, 0);
    assert!(recorder.events.is_empty());
}

#[test]
fn malformed_id_is_rejected_before_any_backend_call() {
    let mut store = store_with_sample();
    let mut adapter = adapter_with_sample();
    let mut recorder = fresh_recorder();
    for bad in ["", "short", "thisisnotahexidentifier!", "00000000000000000000001"] {
        let r = serve_video(&mut store, &mut adapter, &mut recorder, bad);
        assert_eq!(r.status, 400);
        assert!(r.body.is_empty());
    }
    assert_eq!(store.lookups, 0);
    assert_eq!(adapter.fetches, 0);
    assert_eq!(recorder.submissions, 0);
}

#[test]
fn store_timeout_is_internal_error_with_no_fetch_and_no_notification() {
    let mut store = store_with_sample();
    store.mode = BackendMode::Unavailable;
    let mut adapter = adapter_with_sample();
    let mut recorder = fresh_recorder();
    let r = serve_video(&mut store, &mut adapter, &mut recorder, KNOWN_ID);

    assert_eq!(r.status, 500);
    assert!(r.body.is_empty());
    assert_eq!(store.lookups, 1);
    assert_eq!(adapter.fetches, 0);
    assert_eq!(recorder.submissions, 0);
}

#[test]
fn adapter_failure_after_resolution_is_internal_error_not_not_found() {
    let mut store = store_with_sample();
    let mut adapter = adapter_with_sample();
    adapter.mode = BackendMode::Unavailable;
    let mut recorder = fresh_recorder();
    let r = serve_video(&mut store, &mut adapter, &mut recorder, KNOWN_ID);

    assert_eq!(r.status, 500);
    assert_ne!(r.status, 404);
    assert_eq!(store.lookups, 1);
    assert_eq!(adapter.fetches, 1);
    assert_eq!(recorder.submissions, 0);
    assert!(recorder.events.is_empty());
}

#[test]
fn missing_object_is_not_found_without_notification() {
    let mut store = MemoryStore {
        entries: vec![(KNOWN_ID.to_string(), "gone.mp4".to_string())],
        mode: BackendMode::Available,
        lookups: 0,
    };
    let mut adapter = adapter_with_sample();
    let mut recorder = fresh_recorder();
    let r = serve_video(&mut store, &mut adapter, &mut recorder, KNOWN_ID);

    assert_eq!(r.status, 404);
    assert_eq!(adapter.fetches, 1);
    assert_eq!(recorder.submissions, 0);
}

#[test]
fn recorder_failure_leaves_the_response_untouched() {
    let mut store_a = store_with_sample();
    let mut adapter_a = adapter_with_sample();
    let mut good = fresh_recorder();
    let served = serve_video(&mut store_a, &mut adapter_a, &mut good, KNOWN_ID);

    let mut store_b = store_with_sample();
    let mut adapter_b = adapter_with_sample();
    let mut faulty = fresh_recorder();
    faulty.mode = BackendMode::Unavailable;
    let despite = serve_video(&mut store_b, &mut adapter_b, &mut faulty, KNOWN_ID);

    assert_eq!(despite.status, served.status);
    assert_eq!(despite.content_type, served.content_type);
    assert_eq!(despite.content_length, served.content_length);
    assert_eq!(despite.body, served.body);

    // The submission was still attempted, exactly once, but nothing was kept.
    assert_eq!(faulty.submissions, 1);
    assert!(faulty.events.is_empty());
    assert_eq!(good.events, vec!["sample.mp4".to_string()]);
}

#[test]
fn empty_stream_is_a_valid_zero_length_response() {
    let mut store = MemoryStore {
        entries: vec![(KNOWN_ID.to_string(), "empty.bin".to_string())],
        mode: BackendMode::Available,
        lookups: 0,
    };
    let mut adapter = MemoryAdapter {
        objects: vec![(
            "empty.bin".to_string(),
            StoredObject {
                content_type: "application/octet-stream".to_string(),
                content_length: Some(0),
                chunks: vec![],
            },
        )],
        mode: BackendMode::Available,
        fetches: 0,
    };
    let mut recorder = fresh_recorder();
    let r = serve_video(&mut store, &mut adapter, &mut recorder, KNOWN_ID);

    assert_eq!(r.status, 200);
    assert!(r.body.is_empty());
    assert_eq!(r.content_length, Some(0));
    assert_eq!(recorder.events, vec!["empty.bin".to_string()]);
}

#[test]
fn chunk_boundaries_do_not_change_the_body() {
    let payload: Vec<u8> = (0u16..1000).map(|n| (n % 251) as u8).collect();
    let cuts: [Vec<Vec<u8>>; 3] = [
        vec![payload.clone()],
        vec![payload[..1].to_vec(), payload[1..999].to_vec(), payload[999..].to_vec()],
        payload.chunks(7).map(|c| c.to_vec()).collect(),
    ];
    let mut bodies = Vec::new();
    for chunks in cuts {
        let mut store = MemoryStore {
            entries: vec![(KNOWN_ID.to_string(), "cut.bin".to_string())],
            mode: BackendMode::Available,
            lookups: 0,
        };
        let mut adapter = MemoryAdapter {
            objects: vec![(
                "cut.bin".to_string(),
                StoredObject {
                    content_type: "application/octet-stream".to_string(),
                    content_length: None,
                    chunks,
                },
            )],
            mode: BackendMode::Available,
            fetches: 0,
        };
        let mut recorder = fresh_recorder();
        let r = serve_video(&mut store, &mut adapter, &mut recorder, KNOWN_ID);
        assert_eq!(r.status, 200);
        assert_eq!(r.content_length, None);
        bodies.push(r.body);
    }
    assert_eq!(bodies[0], payload);
    assert_eq!(bodies[1], payload);
    assert_eq!(bodies[2], payload);
}

#[test]
fn first_matching_record_wins() {
    let mut store = MemoryStore {
        entries: vec![
            (KNOWN_ID.to_string(), "first.mp4".to_string()),
            (KNOWN_ID.to_string(), "second.mp4".to_string()),
        ],
        mode: BackendMode::Available,
        lookups: 0,
    };
    let mut adapter = MemoryAdapter {
        objects: vec![
            (
                "first.mp4".to_string(),
                StoredObject {
                    content_type: "video/mp4".to_string(),
                    content_length: Some(1),
                    chunks: vec![vec![1]],
                },
            ),
            (
                "second.mp4".to_string(),
                StoredObject {
                    content_type: "video/mp4".to_string(),
                    content_length: Some(1),
                    chunks: vec![vec![2]],
                },
            ),
        ],
        mode: BackendMode::Available,
        fetches: 0,
    };
    let mut recorder = fresh_recorder();
    let r = serve_video(&mut store, &mut adapter, &mut recorder, KNOWN_ID);
    assert_eq!(r.body, vec![1]);
    assert_eq!(recorder.events, vec!["first.mp4".to_string()]);
}

#[test]
fn repeated_requests_are_independent_round_trips() {
    let mut store = store_with_sample();
    let mut adapter = adapter_with_sample();
    let mut recorder = fresh_recorder();
    let first = serve_video(&mut store, &mut adapter, &mut recorder, KNOWN_ID);
    let second = serve_video(&mut store, &mut adapter, &mut recorder, KNOWN_ID);

    assert_eq!(first.status, 200);
    assert_eq!(second.status, 200);
    assert_eq!(first.body, second.body);
    assert_eq!(store.lookups, 2);
    assert_eq!(adapter.fetches, 2);
    assert_eq!(recorder.submissions, 2);
    assert_eq!(
        recorder.events,
        vec!["sample.mp4".to_string(), "sample.mp4".to_string()]
    );
}
