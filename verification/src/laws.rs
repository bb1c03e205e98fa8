//! The pipeline's guarantees, proved once and for all.
//!
//! The first laws quantify over all backend contents and identifiers;
//! together with the contract of [`crate::pipeline::serve_video`], which
//! equates a real run with [`gateway_outcome`], they hold of every run
//! against the in-memory backends.  The final laws speak of the state
//! machine itself, for every event sequence an environment could deliver.

use vstd::prelude::*;

use crate::backend::{
    find_object, lookup_path, object_bytes, MemoryAdapter, MemoryStore, StoredObject,
};
use crate::gateway::{
    gateway_entry, gateway_transition, Directive, GatewayAction, GatewayEvent, GatewayState,
    Status,
};
use crate::ids::valid_video_id;
use crate::pipeline::gateway_outcome;

verus! {

/// For every unknown identifier — well formed, but with no record in an
/// answering metadata store — the request ends not-found, no storage fetch
/// is made, and no history notification is issued.
pub proof fn lemma_unknown_identifier(store: MemoryStore, adapter: MemoryAdapter, id: Seq<char>)
    requires
        valid_video_id(id),
        store.mode is Available,
        lookup_path(store.entries@, id) is None,
    ensures
        ({
            let o = gateway_outcome(store, adapter, id);
            &&& o.response.status == 404
            &&& o.notified is None
            &&& o.fetches == 0
            &&& o.submissions == 0
        }),
{
}

/// For every malformed identifier the request is rejected as a client
/// error and no backend — metadata store, storage adapter or history
/// recorder — is called at all.
pub proof fn lemma_malformed_identifier(store: MemoryStore, adapter: MemoryAdapter, id: Seq<char>)
    requires
        !valid_video_id(id),
    ensures
        ({
            let o = gateway_outcome(store, adapter, id);
            &&& o.response.status == 400
            &&& o.notified is None
            &&& o.lookups == 0
            &&& o.fetches == 0
            &&& o.submissions == 0
        }),
{
}

/// For every successful fetch the client receives exactly the bytes of the
/// stored object: the concatenation of the chunks its stream yields.
pub proof fn lemma_served_bytes_exact(
    store: MemoryStore,
    adapter: MemoryAdapter,
    id: Seq<char>,
    path: Seq<char>,
    o: StoredObject,
)
    requires
        valid_video_id(id),
        store.mode is Available,
        adapter.mode is Available,
        lookup_path(store.entries@, id) == Some(path),
        find_object(adapter.objects@, path) == Some(o),
    ensures
        gateway_outcome(store, adapter, id).response.status == 200,
        gateway_outcome(store, adapter, id).response.body == object_bytes(o),
        gateway_outcome(store, adapter, id).response.content_type == Some(o.content_type@),
        gateway_outcome(store, adapter, id).response.content_length == o.content_length,
{
}

/// Two stored objects that carry the same payload, possibly cut at
/// different chunk boundaries, and report the same content metadata.
pub open spec fn same_payload(a: StoredObject, b: StoredObject) -> bool {
    &&& a.content_type@ == b.content_type@
    &&& a.content_length == b.content_length
    &&& object_bytes(a) == object_bytes(b)
}

/// Two object lists that agree on paths and payloads, differing at most in
/// where each payload is cut into chunks.
pub open spec fn aligned_objects(
    o1: Seq<(String, StoredObject)>,
    o2: Seq<(String, StoredObject)>,
) -> bool {
    &&& o1.len() == o2.len()
    &&& forall|i: int|
        0 <= i < o1.len() ==> (#[trigger] o1[i]).0@ == (#[trigger] o2[i]).0@ && same_payload(
            o1[i].1,
            o2[i].1,
        )
}

proof fn lemma_find_object_aligned(
    o1: Seq<(String, StoredObject)>,
    o2: Seq<(String, StoredObject)>,
    path: Seq<char>,
)
    requires
        aligned_objects(o1, o2),
    ensures
        find_object(o1, path) is Some <==> find_object(o2, path) is Some,
        find_object(o1, path) is Some ==> same_payload(
            find_object(o1, path)->0,
            find_object(o2, path)->0,
        ),
    decreases o1.len(),
{
    if o1.len() == 0 {
    } else if o1[0].0@ == path {
        assert(o2[0].0@ == path);
    } else {
        assert(o2[0].0@ != path);
        assert forall|i: int| 0 <= i < o1.drop_first().len() implies (#[trigger] o1.drop_first()[i]).0@
            == (#[trigger] o2.drop_first()[i]).0@ && same_payload(
            o1.drop_first()[i].1,
            o2.drop_first()[i].1,
        ) by {
            assert(o1.drop_first()[i] == o1[i + 1]);
            assert(o2.drop_first()[i] == o2[i + 1]);
        }
        lemma_find_object_aligned(o1.drop_first(), o2.drop_first(), path);
    }
}

/// The chunk boundaries of a stream are immaterial: against two storage
/// adapters whose objects agree on paths, payload bytes and metadata —
/// however differently each payload is cut into chunks — every request
/// produces the same client response, the same notification and the same
/// call counts.
pub proof fn lemma_chunk_boundaries_immaterial(
    store: MemoryStore,
    a1: MemoryAdapter,
    a2: MemoryAdapter,
    id: Seq<char>,
)
    requires
        a1.mode == a2.mode,
        aligned_objects(a1.objects@, a2.objects@),
    ensures
        gateway_outcome(store, a1, id) == gateway_outcome(store, a2, id),
{
    if valid_video_id(id) && store.mode is Available {
        match lookup_path(store.entries@, id) {
            None => {},
            Some(path) => {
                if a1.mode is Available {
                    lemma_find_object_aligned(a1.objects@, a2.objects@, path);
                }
            },
        }
    }
    assert(gateway_outcome(store, a1, id) =~= gateway_outcome(store, a2, id));
}

/// A history notification is owed if and only if the storage adapter
/// reported success — the response status is 200 — and then it names
/// exactly the storage path that was served; on every not-found and every
/// backend-error path nothing is submitted to the recorder.
pub proof fn lemma_notification_iff_success(
    store: MemoryStore,
    adapter: MemoryAdapter,
    id: Seq<char>,
)
    ensures
        ({
            let o = gateway_outcome(store, adapter, id);
            &&& (o.notified is Some <==> o.response.status == 200)
            &&& (o.notified is Some <==> o.submissions == 1)
            &&& (o.notified is None <==> o.submissions == 0)
            &&& (o.notified matches Some(p) ==> lookup_path(store.entries@, id) == Some(p))
        }),
{
}

/// A storage-adapter failure after the metadata store resolved the
/// identifier is an internal error, not a not-found: the two failure
/// stages stay distinguishable to the client.
pub proof fn lemma_adapter_failure_is_internal(
    store: MemoryStore,
    adapter: MemoryAdapter,
    id: Seq<char>,
    path: Seq<char>,
)
    requires
        valid_video_id(id),
        store.mode is Available,
        lookup_path(store.entries@, id) == Some(path),
        adapter.mode is Unavailable,
    ensures
        ({
            let o = gateway_outcome(store, adapter, id);
            &&& o.response.status == 500
            &&& o.response.status != 404
            &&& o.notified is None
            &&& o.submissions == 0
        }),
{
}

/// A metadata-store failure — unreachable or timed out — is an internal
/// error and stops the request before the storage adapter or the history
/// recorder is ever called.
pub proof fn lemma_store_failure_is_internal(
    store: MemoryStore,
    adapter: MemoryAdapter,
    id: Seq<char>,
)
    requires
        valid_video_id(id),
        store.mode is Unavailable,
    ensures
        ({
            let o = gateway_outcome(store, adapter, id);
            &&& o.response.status == 500
            &&& o.notified is None
            &&& o.fetches == 0
            &&& o.submissions == 0
        }),
{
}

/// How far through its stages a request has moved.
pub open spec fn stage(s: GatewayState) -> int {
    match s {
        GatewayState::AwaitingMetadata { .. } => 0,
        GatewayState::AwaitingStream { .. } => 1,
        GatewayState::Streaming { .. } => 2,
        GatewayState::Done { .. } => 3,
    }
}

/// A run of the machine: the first decision for `id`, then one transition
/// per event — whatever events the environment delivers, well formed for
/// the state or not.  Yields the final state and every decision taken.
pub open spec fn machine_run(id: String, events: Seq<GatewayEvent>) -> (GatewayState, Seq<
    Directive,
>)
    decreases events.len(),
{
    if events.len() == 0 {
        let d = gateway_entry(id);
        (d.next, seq![d])
    } else {
        let prior = machine_run(id, events.drop_last());
        let d = gateway_transition(prior.0, events.last());
        (d.next, prior.1.push(d))
    }
}

/// How many decisions of a run carry a view event.
pub open spec fn view_events_of(ds: Seq<Directive>) -> nat
    decreases ds.len(),
{
    if ds.len() == 0 {
        0
    } else {
        view_events_of(ds.drop_last()) + (if ds.last().view_event is Some {
            1nat
        } else {
            0nat
        })
    }
}

/// One transition never moves a request back to an earlier stage, and it
/// owes a view event only when it commits: from awaiting the stream into
/// streaming.
proof fn lemma_transition_stage(s: GatewayState, e: GatewayEvent)
    ensures
        stage(gateway_transition(s, e).next) >= stage(s),
        gateway_transition(s, e).view_event is Some ==> s is AwaitingStream
            && gateway_transition(s, e).next is Streaming,
{
}

proof fn lemma_run_view_events(id: String, events: Seq<GatewayEvent>)
    ensures
        view_events_of(machine_run(id, events).1) <= 1,
        stage(machine_run(id, events).0) <= 1 ==> view_events_of(machine_run(id, events).1) == 0,
    decreases events.len(),
{
    if events.len() == 0 {
        let d = gateway_entry(id);
        assert(seq![d].drop_last() =~= Seq::<Directive>::empty());
        assert(seq![d].last() == d);
        assert(view_events_of(Seq::<Directive>::empty()) == 0);
        assert(d.view_event is None);
        assert(view_events_of(seq![d]) == 0);
    } else {
        lemma_run_view_events(id, events.drop_last());
        let prior = machine_run(id, events.drop_last());
        let d = gateway_transition(prior.0, events.last());
        lemma_transition_stage(prior.0, events.last());
        let ds = machine_run(id, events).1;
        assert(ds == prior.1.push(d));
        assert(ds.last() == d);
        assert(ds.drop_last() =~= prior.1);
        assert(view_events_of(ds) == view_events_of(prior.1) + (if d.view_event is Some {
            1nat
        } else {
            0nat
        }));
        if d.view_event is Some {
            assert(prior.0 is AwaitingStream);
            assert(stage(prior.0) <= 1);
            assert(view_events_of(prior.1) == 0);
        }
    }
}

/// The gateway's delivery attempt to the history recorder is at most once:
/// no run of the machine, under any event sequence, owes more than one
/// view event.
pub proof fn lemma_view_event_at_most_once(id: String, events: Seq<GatewayEvent>)
    ensures
        view_events_of(machine_run(id, events).1) <= 1,
{
    lemma_run_view_events(id, events);
}

/// A view event is owed only by the decision that commits a successful
/// response: wherever a run carries one, that same decision commits the
/// response with success and moves the request into streaming.
pub proof fn lemma_view_event_only_with_commit(id: String, events: Seq<GatewayEvent>, i: int)
    requires
        0 <= i < machine_run(id, events).1.len(),
        machine_run(id, events).1[i].view_event is Some,
    ensures
        machine_run(id, events).1[i].action matches GatewayAction::CommitResponse { status, .. }
            && status == Status::Success,
        machine_run(id, events).1[i].next is Streaming,
    decreases events.len(),
{
    if events.len() == 0 {
        assert(machine_run(id, events).1[i] == gateway_entry(id));
    } else {
        let prior = machine_run(id, events.drop_last());
        if i < prior.1.len() {
            lemma_view_event_only_with_commit(id, events.drop_last(), i);
        } else {
            lemma_transition_stage(prior.0, events.last());
        }
    }
}

} // verus!
