//! The in-process backend: entries in a concurrent map, each with the time
//! it was written at.
//!
//! An entry is live while `create_at + ttl` lies after the time of the read.
//! A stale entry is never swept: it stays in the map and is treated as absent
//! by every read that finds it stale.

use vstd::prelude::*;
use crate::actor::{
    delete_reply, get_reply, lookup_view, set_reply, Key, StoreRequest, StoreResponse, Value,
    CACHE_EXPIRE,
};
use crate::error::StorageError;
use crate::store::model::{CacheView, Entries};
use crate::store::Store;

verus! {

/// Most entries a map may be sized for in advance. Sizing is arithmetic on the
/// requested capacity and one allocation per shard, and both stay in range
/// below this bound on every supported word size.
pub const MAX_CAPACITY: usize = 0x0100_0000;

/// `dashmap::DashMap`, a concurrent hash map. Nothing inside it is visible
/// here; what it holds is spoken of through `dash_entries`.
#[verifier::external_type_specification]
#[verifier::external_body]
#[verifier::reject_recursive_types(K)]
#[verifier::reject_recursive_types(V)]
#[verifier::reject_recursive_types(S)]
pub struct ExDashMap<K, V, S>(::dashmap::DashMap<K, V, S>);

/// What a map holds: for each key that has an entry, the payload and the
/// second the entry was written at. Keys are told apart byte for byte.
pub uninterp spec fn dash_entries(map: ::dashmap::DashMap<Key, DashMapValue>) -> Entries;

/// The wall clock, in whole seconds since the Unix epoch:
/// `chrono::Utc::now().timestamp()`. Nothing is claimed of the value. The
/// call takes no input; it gives up only on a machine whose clock stands
/// before 1970 or beyond the years that `chrono` can name.
#[verifier::external_body]
fn unix_now() -> (now: i64) {
    chrono::Utc::now().timestamp()
}

/// `DashMap::new`: a map that holds nothing.
#[verifier::external_body]
fn dash_new() -> (map: ::dashmap::DashMap<Key, DashMapValue>)
    ensures
        dash_entries(map) == Entries::empty(),
{
    ::dashmap::DashMap::new()
}

/// `DashMap::with_capacity`: a map that holds nothing, sized in advance for
/// `capacity` entries. The crate rounds the capacity up to a multiple of its
/// shard count and sizes each shard's table for its share; the bound keeps
/// that sum and those sizes in range.
#[verifier::external_body]
fn dash_with_capacity(capacity: usize) -> (map: ::dashmap::DashMap<Key, DashMapValue>)
    requires
        capacity <= MAX_CAPACITY,
    ensures
        dash_entries(map) == Entries::empty(),
{
    ::dashmap::DashMap::with_capacity(capacity)
}

/// `DashMap::insert`: afterwards `key` holds `entry`, whatever it held
/// before, and every other key holds what it held. The map is borrowed
/// mutably, so no reference into it is alive during the call.
#[verifier::external_body]
fn dash_insert(map: &mut ::dashmap::DashMap<Key, DashMapValue>, key: Key, entry: DashMapValue)
    ensures
        dash_entries(*final(map)) == dash_entries(*old(map)).insert(key@, entry@),
{
    map.insert(key, entry);
}

/// `DashMap::get`: a copy of the entry that `key` holds, or `None` where it
/// holds none. The map is left as it was.
#[verifier::external_body]
fn dash_get(map: &::dashmap::DashMap<Key, DashMapValue>, key: &Key) -> (found: Option<
    DashMapValue,
>)
    ensures
        found matches Some(entry) ==> dash_entries(*map).contains_key(key@) && dash_entries(
            *map,
        )[key@] == entry@,
        found is None ==> !dash_entries(*map).contains_key(key@),
{
    map.get(key).map(|held| held.value().clone())
}

/// `DashMap::remove`: afterwards `key` holds nothing, and every other key
/// holds what it held.
#[verifier::external_body]
fn dash_remove(map: &mut ::dashmap::DashMap<Key, DashMapValue>, key: &Key)
    ensures
        dash_entries(*final(map)) == dash_entries(*old(map)).remove(key@),
{
    map.remove(key);
}

/// A stored payload with the second it was written at.
#[derive(Debug, Clone)]
pub struct DashMapValue {
    pub bytes: Value,
    pub create_at: i64,
}

impl View for DashMapValue {
    type V = (Seq<u8>, int);

    open spec fn view(&self) -> (Seq<u8>, int) {
        (self.bytes@, self.create_at as int)
    }
}

impl DashMapValue {
    /// An entry written now.
    pub fn new(bytes: Value) -> (entry: Self)
        ensures
            entry.bytes == bytes,
    {
        DashMapValue { bytes, create_at: unix_now() }
    }

    /// The payload, if the entry has not expired at second `now` under a TTL
    /// of `ttl` seconds.
    pub fn into_live(self, ttl: i64, now: i64) -> (payload: Option<Value>)
        ensures
            self.create_at + ttl > now ==> payload == Some(self.bytes),
            self.create_at + ttl <= now ==> payload is None,
    {
        if (self.create_at as i128) + (ttl as i128) > (now as i128) {
            Some(self.bytes)
        } else {
            None
        }
    }
}

/// The in-process backend. One map holds every entry; one TTL, in seconds,
/// holds for all of them.
pub struct DashMapActor {
    map: ::dashmap::DashMap<Key, DashMapValue>,
    ttl: i64,
}

impl View for DashMapActor {
    type V = CacheView;

    closed spec fn view(&self) -> CacheView {
        CacheView { entries: dash_entries(self.map), ttl: self.ttl as int }
    }
}

impl Default for DashMapActor {
    /// An empty store with a TTL of zero seconds, in which nothing is ever live.
    fn default() -> (actor: Self)
        ensures
            actor@ == CacheView::empty(0),
    {
        DashMapActor { map: dash_new(), ttl: 0 }
    }
}

impl DashMapActor {
    /// An empty store whose entries live for `ttl` seconds.
    pub fn new(ttl: i64) -> (actor: Self)
        ensures
            actor@ == CacheView::empty(ttl as int),
    {
        DashMapActor { map: dash_new(), ttl }
    }

    /// An empty store sized in advance for `capacity` entries, with the
    /// default TTL.
    pub fn with_capacity(capacity: usize) -> (actor: Self)
        requires
            capacity <= MAX_CAPACITY,
        ensures
            actor@ == CacheView::empty(CACHE_EXPIRE as int),
    {
        DashMapActor { map: dash_with_capacity(capacity), ttl: CACHE_EXPIRE as i64 }
    }

    /// The same store with a TTL of `ttl` seconds. The TTL is not kept with
    /// each entry: it holds at once for the entries that are already there.
    pub fn set_ttl(self, ttl: i64) -> (actor: Self)
        ensures
            actor@ == (CacheView { entries: self@.entries, ttl: ttl as int }),
    {
        let mut actor = self;
        actor.ttl = ttl;
        actor
    }

    /// Performs `msg` as at second `now`.
    pub fn handle_at(&mut self, msg: StoreRequest, now: i64) -> (response: StoreResponse)
        ensures
            (final(self)@, response@) == old(self)@.step(msg@, now as int),
    {
        match msg {
            StoreRequest::Put(key, value) => {
                dash_insert(&mut self.map, key, DashMapValue { bytes: value, create_at: now });
                StoreResponse::Put(Ok(()))
            },
            StoreRequest::Get(key) => {
                let value = match dash_get(&self.map, &key) {
                    Some(entry) => entry.into_live(self.ttl, now),
                    None => None,
                };
                StoreResponse::Get(Ok(value))
            },
            StoreRequest::Delete(key) => {
                dash_remove(&mut self.map, &key);
                StoreResponse::Delete(Ok(()))
            },
        }
    }

    /// Performs `msg` at the second the wall clock shows: whatever that
    /// second is, the store and the response are what `step` gives for it.
    pub fn handle(&mut self, msg: StoreRequest) -> (response: StoreResponse)
        ensures
            exists|now: i64| (final(self)@, response@) == #[trigger] old(self)@.step(msg@, now as int),
    {
        match msg {
            StoreRequest::Put(key, value) => {
                let entry = DashMapValue::new(value);
                let ghost now = entry.create_at;
                dash_insert(&mut self.map, key, entry);
                let response = StoreResponse::Put(Ok(()));
                assert((self@, response@) == old(self)@.step(msg@, now as int));
                response
            },
            StoreRequest::Get(key) => {
                match dash_get(&self.map, &key) {
                    Some(entry) => {
                        let now = unix_now();
                        let response = StoreResponse::Get(Ok(entry.into_live(self.ttl, now)));
                        assert((self@, response@) == old(self)@.step(msg@, now as int));
                        response
                    },
                    None => {
                        let response = StoreResponse::Get(Ok(None));
                        assert((self@, response@) == old(self)@.step(msg@, 0i64 as int));
                        response
                    },
                }
            },
            StoreRequest::Delete(key) => {
                dash_remove(&mut self.map, &key);
                let response = StoreResponse::Delete(Ok(()));
                assert((self@, response@) == old(self)@.step(msg@, 0i64 as int));
                response
            },
        }
    }
}

/// Without a clock in hand: a write through the store succeeds, and a read
/// that follows it hands out the written payload or, where the entry's TTL
/// has run out by then, nothing. It never fails and never hands out other
/// bytes.
pub proof fn lemma_store_read_after_write(
    before: DashMapActor,
    after: DashMapActor,
    key: Seq<u8>,
    value: Seq<u8>,
    done: Result<(), StorageError>,
    found: Result<Option<Seq<u8>>, StorageError>,
)
    requires
        DashMapActor::set_spec(&before, key, value, &after, done),
        after.get_spec(key, found),
    ensures
        done == Ok::<(), StorageError>(()),
        found == Ok::<Option<Seq<u8>>, StorageError>(Some(value)) || found == Ok::<
            Option<Seq<u8>>,
            StorageError,
        >(None),
{
}

/// Without a clock in hand: a delete through the store succeeds, and a read
/// that follows it hands out nothing.
pub proof fn lemma_store_read_after_delete(
    before: DashMapActor,
    after: DashMapActor,
    key: Seq<u8>,
    done: Result<(), StorageError>,
    found: Result<Option<Seq<u8>>, StorageError>,
)
    requires
        DashMapActor::delete_spec(&before, key, &after, done),
        after.get_spec(key, found),
    ensures
        done == Ok::<(), StorageError>(()),
        found == Ok::<Option<Seq<u8>>, StorageError>(None),
{
}

impl Store for DashMapActor {
    open spec fn set_spec(
        before: &Self,
        key: Seq<u8>,
        value: Seq<u8>,
        after: &Self,
        outcome: Result<(), StorageError>,
    ) -> bool {
        &&& outcome == Ok::<(), StorageError>(())
        &&& exists|now: i64| after@ == #[trigger] before@.put(key, value, now as int)
    }

    open spec fn get_spec(
        &self,
        key: Seq<u8>,
        outcome: Result<Option<Seq<u8>>, StorageError>,
    ) -> bool {
        exists|now: i64| outcome == Ok::<Option<Seq<u8>>, StorageError>(
            #[trigger] self@.lookup(key, now as int),
        )
    }

    open spec fn delete_spec(
        before: &Self,
        key: Seq<u8>,
        after: &Self,
        outcome: Result<(), StorageError>,
    ) -> bool {
        &&& outcome == Ok::<(), StorageError>(())
        &&& after@ == before@.remove(key)
    }

    fn set(&mut self, key: Key, value: Value) -> (outcome: Result<(), StorageError>) {
        let response = self.handle(StoreRequest::Put(key, value));
        set_reply(Ok(response))
    }

    fn get(&self, key: Key) -> (outcome: Result<Option<Value>, StorageError>) {
        let found = match dash_get(&self.map, &key) {
            Some(entry) => {
                let now = unix_now();
                let payload = entry.into_live(self.ttl, now);
                assert(lookup_view(Ok(payload)) == Ok::<Option<Seq<u8>>, StorageError>(
                    self@.lookup(key@, now as int),
                ));
                payload
            },
            None => {
                assert(self@.lookup(key@, 0i64 as int) is None);
                None
            },
        };
        get_reply(Ok(StoreResponse::Get(Ok(found))))
    }

    fn delete(&mut self, key: Key) -> (outcome: Result<(), StorageError>) {
        let response = self.handle(StoreRequest::Delete(key));
        delete_reply(Ok(response))
    }
}

} // verus!
