//! In-memory backends for the gateway pipeline.
//!
//! Each backend fills one of the three capability interfaces the gateway
//! consumes — metadata store, storage adapter, history recorder — from plain
//! values held in memory, and counts how often it was called.  A backend can
//! be switched to an unavailable mode in which every call reports the
//! connectivity failure a lost or timed-out network backend would produce.

use vstd::prelude::*;

use crate::gateway::{GatewayEvent, StreamMeta, ViewEvent};
use crate::ids::str_eq;

verus! {

/// Whether a backend answers, or simulates a lost or timed-out connection.
#[derive(Clone, Copy, Debug, PartialEq, Eq, Structural)]
pub enum BackendMode {
    /// The backend answers normally.
    Available,
    /// Every call fails as an unreachable backend would.
    Unavailable,
}

/// The byte sequences of a sequence of chunks.
pub open spec fn chunk_views(chunks: Seq<Vec<u8>>) -> Seq<Seq<u8>> {
    chunks.map_values(|c: Vec<u8>| c@)
}

/// An in-memory metadata store: an association list from video identifier
/// to storage path, answered by first match.
pub struct MemoryStore {
    /// The records, as (identifier, storage path) pairs.
    pub entries: Vec<(String, String)>,
    /// Whether lookups answer or fail.
    pub mode: BackendMode,
    /// How many lookups were made.
    pub lookups: u64,
}

/// The storage path of the first record for `id`, if any.
pub open spec fn lookup_path(entries: Seq<(String, String)>, id: Seq<char>) -> Option<Seq<char>>
    decreases entries.len(),
{
    if entries.len() == 0 {
        None
    } else if entries[0].0@ == id {
        Some(entries[0].1@)
    } else {
        lookup_path(entries.drop_first(), id)
    }
}

impl MemoryStore {
    /// Looks `id` up and reports the result as a gateway event.
    pub fn lookup(&mut self, id: &str) -> (ev: GatewayEvent)
        requires
            old(self).lookups < u64::MAX,
        ensures
            final(self).entries == old(self).entries,
            final(self).mode == old(self).mode,
            final(self).lookups == old(self).lookups + 1,
            old(self).mode is Unavailable ==> ev is MetadataFailed,
            old(self).mode is Available ==> match lookup_path(old(self).entries@, id@) {
                Some(p) => ev matches GatewayEvent::MetadataFound { path } && path@ == p,
                None => ev is MetadataMissing,
            },
    {
        self.lookups = self.lookups + 1;
        if let BackendMode::Unavailable = self.mode {
            return GatewayEvent::MetadataFailed;
        }
        let n = self.entries.len();
        let mut i: usize = 0;
        proof {
            assert(self.entries@.skip(0) =~= self.entries@);
        }
        while i < n
            invariant
                0 <= i <= n,
                n == self.entries@.len(),
                self.entries == old(self).entries,
                self.mode == old(self).mode,
                self.mode is Available,
                self.lookups == old(self).lookups + 1,
                lookup_path(self.entries@.skip(i as int), id@) == lookup_path(
                    self.entries@,
                    id@,
                ),
            decreases n - i,
        {
            proof {
                assert(self.entries@.skip(i as int)[0] == self.entries@[i as int]);
                assert(self.entries@.skip(i as int).drop_first() =~= self.entries@.skip(
                    i as int + 1,
                ));
            }
            let entry = &self.entries[i];
            if str_eq(entry.0.as_str(), id) {
                return GatewayEvent::MetadataFound { path: entry.1.clone() };
            }
            i = i + 1;
        }
        proof {
            assert(self.entries@.skip(n as int) =~= Seq::<(String, String)>::empty());
        }
        GatewayEvent::MetadataMissing
    }
}

/// One object held by the in-memory storage adapter.
pub struct StoredObject {
    /// MIME type the backend reports for the object.
    pub content_type: String,
    /// Length the backend reports, when it knows one.
    pub content_length: Option<u64>,
    /// The payload, already cut into the chunks the stream will yield.
    pub chunks: Vec<Vec<u8>>,
}

/// The whole payload of an object: its chunks, concatenated.
pub open spec fn object_bytes(o: StoredObject) -> Seq<u8> {
    chunk_views(o.chunks@).flatten()
}

/// An in-memory storage adapter: an association list from storage path to
/// stored object, answered by first match.
pub struct MemoryAdapter {
    /// The objects, as (storage path, object) pairs.
    pub objects: Vec<(String, StoredObject)>,
    /// Whether fetches answer or fail.
    pub mode: BackendMode,
    /// How many fetches were made.
    pub fetches: u64,
}

/// The first object stored under `path`, if any.
pub open spec fn find_object(objects: Seq<(String, StoredObject)>, path: Seq<char>) -> Option<
    StoredObject,
>
    decreases objects.len(),
{
    if objects.len() == 0 {
        None
    } else if objects[0].0@ == path {
        Some(objects[0].1)
    } else {
        find_object(objects.drop_first(), path)
    }
}

/// A live, single-consumer, forward-only byte source: the stream handle an
/// adapter hands out for one response.  It is not restartable; a second
/// read of the same object requires a fresh fetch.
pub struct MemoryStream {
    /// The chunks the stream yields, in order.
    pub chunks: Vec<Vec<u8>>,
    /// How many chunks were already yielded.
    pub cursor: usize,
}

impl MemoryStream {
    /// The cursor never passes the end of the chunk list.
    pub open spec fn wf(&self) -> bool {
        self.cursor <= self.chunks@.len()
    }

    /// Yields the next chunk, or reports the end of the stream.
    pub fn next(&mut self) -> (r: Option<Vec<u8>>)
        requires
            old(self).wf(),
        ensures
            final(self).wf(),
            final(self).chunks == old(self).chunks,
            if old(self).cursor < old(self).chunks@.len() {
                &&& final(self).cursor == old(self).cursor + 1
                &&& r matches Some(c) && c@ == old(self).chunks@[old(self).cursor as int]@
            } else {
                &&& final(self).cursor == old(self).cursor
                &&& r is None
            },
    {
        if self.cursor < self.chunks.len() {
            let c = clone_bytes(&self.chunks[self.cursor]);
            self.cursor = self.cursor + 1;
            Some(c)
        } else {
            None
        }
    }
}

impl MemoryAdapter {
    /// Fetches the object at `path`, reporting the result as a gateway
    /// event together with a fresh stream handle on success.
    pub fn fetch(&mut self, path: &str) -> (r: (GatewayEvent, Option<MemoryStream>))
        requires
            old(self).fetches < u64::MAX,
        ensures
            final(self).objects == old(self).objects,
            final(self).mode == old(self).mode,
            final(self).fetches == old(self).fetches + 1,
            old(self).mode is Unavailable ==> r.0 is StreamFailed && r.1 is None,
            old(self).mode is Available ==> match find_object(old(self).objects@, path@) {
                Some(o) => {
                    &&& r.0 matches GatewayEvent::StreamReady { meta }
                        && meta.content_type@ == o.content_type@ && meta.content_length
                        == o.content_length
                    &&& r.1 matches Some(s) && s.cursor == 0 && chunk_views(s.chunks@)
                        == chunk_views(o.chunks@)
                },
                None => r.0 is StreamMissing && r.1 is None,
            },
    {
        self.fetches = self.fetches + 1;
        if let BackendMode::Unavailable = self.mode {
            return (GatewayEvent::StreamFailed, None);
        }
        let n = self.objects.len();
        let mut i: usize = 0;
        proof {
            assert(self.objects@.skip(0) =~= self.objects@);
        }
        while i < n
            invariant
                0 <= i <= n,
                n == self.objects@.len(),
                self.objects == old(self).objects,
                self.mode == old(self).mode,
                self.mode is Available,
                self.fetches == old(self).fetches + 1,
                find_object(self.objects@.skip(i as int), path@) == find_object(
                    self.objects@,
                    path@,
                ),
            decreases n - i,
        {
            proof {
                assert(self.objects@.skip(i as int)[0] == self.objects@[i as int]);
                assert(self.objects@.skip(i as int).drop_first() =~= self.objects@.skip(
                    i as int + 1,
                ));
            }
            let entry = &self.objects[i];
            if str_eq(entry.0.as_str(), path) {
                let meta = StreamMeta {
                    content_type: entry.1.content_type.clone(),
                    content_length: entry.1.content_length,
                };
                let stream = MemoryStream { chunks: clone_chunks(&entry.1.chunks), cursor: 0 };
                return (GatewayEvent::StreamReady { meta }, Some(stream));
            }
            i = i + 1;
        }
        proof {
            assert(self.objects@.skip(n as int) =~= Seq::<(String, StoredObject)>::empty());
        }
        (GatewayEvent::StreamMissing, None)
    }
}

/// An in-memory history recorder: it keeps the storage paths of the view
/// events it accepted, in the order they were submitted.
pub struct MemoryRecorder {
    /// Whether submissions are accepted or fail.
    pub mode: BackendMode,
    /// The storage paths of the accepted view events.
    pub events: Vec<String>,
    /// How many submissions were made.
    pub submissions: u64,
}

/// The storage paths recorded so far, as character sequences.
pub open spec fn recorded_paths(rec: MemoryRecorder) -> Seq<Seq<char>> {
    rec.events@.map_values(|s: String| s@)
}

impl MemoryRecorder {
    /// Submits one view event.  The result tells whether the recorder
    /// accepted it; a caller on the response path ignores it.
    pub fn submit(&mut self, event: ViewEvent) -> (ok: bool)
        requires
            old(self).submissions < u64::MAX,
        ensures
            final(self).mode == old(self).mode,
            final(self).submissions == old(self).submissions + 1,
            ok == (old(self).mode is Available),
            ok ==> recorded_paths(*final(self)) == recorded_paths(*old(self)).push(
                event.video_path@,
            ),
            !ok ==> final(self).events == old(self).events,
    {
        self.submissions = self.submissions + 1;
        if let BackendMode::Unavailable = self.mode {
            return false;
        }
        let ghost p = event.video_path@;
        self.events.push(event.video_path);
        proof {
            assert(recorded_paths(*self) =~= recorded_paths(*old(self)).push(p));
        }
        true
    }
}

/// Copies a byte vector.
fn clone_bytes(v: &Vec<u8>) -> (r: Vec<u8>)
    ensures
        r@ == v@,
{
    let n = v.len();
    let mut r: Vec<u8> = Vec::new();
    let mut i: usize = 0;
    while i < n
        invariant
            0 <= i <= n,
            n == v@.len(),
            r@ == v@.take(i as int),
        decreases n - i,
    {
        r.push(v[i]);
        proof {
            assert(r@ =~= v@.take(i as int + 1));
        }
        i = i + 1;
    }
    proof {
        assert(v@.take(n as int) =~= v@);
    }
    r
}

/// Copies a chunk list, chunk by chunk.
fn clone_chunks(v: &Vec<Vec<u8>>) -> (r: Vec<Vec<u8>>)
    ensures
        chunk_views(r@) == chunk_views(v@),
{
    let n = v.len();
    let mut r: Vec<Vec<u8>> = Vec::new();
    let mut i: usize = 0;
    while i < n
        invariant
            0 <= i <= n,
            n == v@.len(),
            r@.len() == i,
            forall|j: int| 0 <= j < i ==> #[trigger] r@[j]@ == v@[j]@,
        decreases n - i,
    {
        r.push(clone_bytes(&v[i]));
        i = i + 1;
    }
    proof {
        assert forall|j: int| 0 <= j < n implies #[trigger] chunk_views(r@)[j] == chunk_views(
            v@,
        )[j] by {
            assert(r@[j]@ == v@[j]@);
        }
        assert(chunk_views(r@) =~= chunk_views(v@));
    }
    r
}

} // verus!
