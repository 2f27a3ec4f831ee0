//! The in-process store as mathematics: its entries, its TTL, what each
//! request does to them at a given second, and what follows from that.

use vstd::prelude::*;
use crate::actor::{RequestView, ResponseView};

verus! {

/// Entries by key: the payload stored under the key and the second it was
/// written at.
pub type Entries = Map<Seq<u8>, (Seq<u8>, int)>;

/// An in-process store as contracts see it. The TTL, in seconds, is one value
/// for the whole store; it may be zero or negative, and then no entry is ever
/// live.
pub ghost struct CacheView {
    pub entries: Entries,
    pub ttl: int,
}

/// A request and the second at which the store performs it.
pub type Event = (RequestView, int);

impl CacheView {
    /// A store that holds nothing.
    pub open spec fn empty(ttl: int) -> CacheView {
        CacheView { entries: Map::empty(), ttl }
    }

    /// The store after `value` was written under `key` at second `now`.
    pub open spec fn put(self, key: Seq<u8>, value: Seq<u8>, now: int) -> CacheView {
        CacheView { entries: self.entries.insert(key, (value, now)), ttl: self.ttl }
    }

    /// The store after `key` was deleted.
    pub open spec fn remove(self, key: Seq<u8>) -> CacheView {
        CacheView { entries: self.entries.remove(key), ttl: self.ttl }
    }

    /// Whether `key` holds an entry that has not expired at second `now`.
    pub open spec fn is_live(self, key: Seq<u8>, now: int) -> bool {
        self.entries.contains_key(key) && self.entries[key].1 + self.ttl > now
    }

    /// What a read of `key` at second `now` hands out.
    pub open spec fn lookup(self, key: Seq<u8>, now: int) -> Option<Seq<u8>> {
        if self.is_live(key, now) {
            Some(self.entries[key].0)
        } else {
            None
        }
    }

    /// The store after `request` was performed at second `now`, and the
    /// response to it.
    pub open spec fn step(self, request: RequestView, now: int) -> (CacheView, ResponseView) {
        match request {
            RequestView::Put(key, value) => (self.put(key, value, now), ResponseView::Put(Ok(()))),
            RequestView::Get(key) => (self, ResponseView::Get(Ok(self.lookup(key, now)))),
            RequestView::Delete(key) => (self.remove(key), ResponseView::Delete(Ok(()))),
        }
    }

    /// The store after every event of `history` was performed, first to last.
    pub open spec fn run(self, history: Seq<Event>) -> CacheView
        decreases history.len(),
    {
        if history.len() == 0 {
            self
        } else {
            self.run(history.drop_last()).step(history.last().0, history.last().1).0
        }
    }
}

/// Whether `request` writes under `key`.
pub open spec fn writes_to(request: RequestView, key: Seq<u8>) -> bool {
    request matches RequestView::Put(written, _) && written == key
}

/// Every request is answered in its own kind and without an error.
pub proof fn lemma_every_request_succeeds(store: CacheView, request: RequestView, now: int)
    ensures
        store.step(request, now).1.answers(request),
        store.step(request, now).1 matches ResponseView::Get(found) ==> found is Ok,
        store.step(request, now).1 matches ResponseView::Put(done) ==> done is Ok,
        store.step(request, now).1 matches ResponseView::Delete(done) ==> done is Ok,
        store.step(request, now).0.ttl == store.ttl,
{
}

/// A value that was written is read back whole by every read that comes
/// before the entry's TTL has run out.
pub proof fn lemma_write_then_read(
    store: CacheView,
    key: Seq<u8>,
    value: Seq<u8>,
    written_at: int,
    read_at: int,
)
    requires
        read_at < written_at + store.ttl,
    ensures
        store.step(RequestView::Put(key, value), written_at).1 == ResponseView::Put(Ok(())),
        store.step(RequestView::Put(key, value), written_at).0.step(
            RequestView::Get(key),
            read_at,
        ).1 == ResponseView::Get(Ok(Some(value))),
{
}

/// A key that no request of the store's history wrote under holds nothing:
/// a read of it hands out `None`, at any second.
pub proof fn lemma_unwritten_key_is_absent(
    ttl: int,
    history: Seq<Event>,
    key: Seq<u8>,
    now: int,
)
    requires
        forall|i: int| 0 <= i < history.len() ==> !writes_to(#[trigger] history[i].0, key),
    ensures
        !CacheView::empty(ttl).run(history).entries.contains_key(key),
        CacheView::empty(ttl).run(history).step(RequestView::Get(key), now).1 == ResponseView::Get(
            Ok(None),
        ),
    decreases history.len(),
{
    if history.len() > 0 {
        let earlier = history.drop_last();
        assert forall|i: int| 0 <= i < earlier.len() implies !writes_to(
            #[trigger] earlier[i].0,
            key,
        ) by {
            assert(earlier[i] == history[i]);
        }
        lemma_unwritten_key_is_absent(ttl, earlier, key, now);
        assert(!writes_to(history[history.len() - 1].0, key));
    }
}

/// A delete succeeds whether or not the key held anything, and a read that
/// follows it hands out `None`, at any second.
pub proof fn lemma_delete_then_read(store: CacheView, key: Seq<u8>, deleted_at: int, read_at: int)
    ensures
        store.step(RequestView::Delete(key), deleted_at).1 == ResponseView::Delete(Ok(())),
        store.step(RequestView::Delete(key), deleted_at).0.step(
            RequestView::Get(key),
            read_at,
        ).1 == ResponseView::Get(Ok(None)),
{
}

/// Of two writes under one key the later one wins: a read before its TTL has
/// run out hands out the second value, whatever the first one was.
pub proof fn lemma_last_write_wins(
    store: CacheView,
    key: Seq<u8>,
    first: Seq<u8>,
    second: Seq<u8>,
    first_at: int,
    second_at: int,
    read_at: int,
)
    requires
        read_at < second_at + store.ttl,
    ensures
        store.step(RequestView::Put(key, first), first_at).0.step(
            RequestView::Put(key, second),
            second_at,
        ).0.step(RequestView::Get(key), read_at).1 == ResponseView::Get(Ok(Some(second))),
{
}

/// An entry written at second `written_at` is handed out by exactly the reads
/// before second `written_at + ttl`; from that second on it is treated as
/// absent, though it stays in the map.
pub proof fn lemma_entry_expires_at_ttl(
    store: CacheView,
    key: Seq<u8>,
    value: Seq<u8>,
    written_at: int,
    read_at: int,
)
    ensures
        read_at < written_at + store.ttl ==> store.put(key, value, written_at).lookup(key, read_at)
            == Some(value),
        read_at >= written_at + store.ttl ==> store.put(key, value, written_at).lookup(
            key,
            read_at,
        ) == None::<Seq<u8>>,
        store.put(key, value, written_at).step(RequestView::Get(key), read_at).0.entries.contains_key(
            key,
        ),
{
}

/// Two writes under one key, taking effect in either order, leave the key
/// with one of the two values whole: a read before the TTL of both has run
/// out hands out the one or the other, and both writes succeed.
pub proof fn lemma_two_writers_leave_one_value(
    store: CacheView,
    key: Seq<u8>,
    a: Seq<u8>,
    b: Seq<u8>,
    a_at: int,
    b_at: int,
    read_at: int,
)
    requires
        read_at < a_at + store.ttl,
        read_at < b_at + store.ttl,
    ensures
        ({
            let a_then_b = store.put(key, a, a_at).put(key, b, b_at);
            let b_then_a = store.put(key, b, b_at).put(key, a, a_at);
            &&& a_then_b.lookup(key, read_at) == Some(b)
            &&& b_then_a.lookup(key, read_at) == Some(a)
        }),
        store.step(RequestView::Put(key, a), a_at).1 == ResponseView::Put(Ok(())),
        store.step(RequestView::Put(key, b), b_at).1 == ResponseView::Put(Ok(())),
{
}

/// Whether `request` deletes `key`.
pub open spec fn deletes(request: RequestView, key: Seq<u8>) -> bool {
    request matches RequestView::Delete(deleted) && deleted == key
}

/// The TTL of a store is the same after any history.
pub proof fn lemma_history_keeps_the_ttl(store: CacheView, history: Seq<Event>)
    ensures
        store.run(history).ttl == store.ttl,
    decreases history.len(),
{
    if history.len() > 0 {
        lemma_history_keeps_the_ttl(store, history.drop_last());
    }
}

/// However the requests of several callers fall into one history, a read
/// sees the latest write to its key: where event `at` wrote `value` under
/// `key` and nothing after it wrote under or deleted that key, a read hands
/// out `value` whole until that write's TTL has run out, and nothing after.
pub proof fn lemma_read_sees_the_latest_write(
    store: CacheView,
    history: Seq<Event>,
    at: int,
    key: Seq<u8>,
    value: Seq<u8>,
    now: int,
)
    requires
        0 <= at < history.len(),
        history[at].0 == RequestView::Put(key, value),
        forall|j: int|
            at < j < history.len() ==> !writes_to(#[trigger] history[j].0, key) && !deletes(
                history[j].0,
                key,
            ),
    ensures
        store.run(history).lookup(key, now) == (if now < history[at].1 + store.ttl {
            Some(value)
        } else {
            None
        }),
    decreases history.len(),
{
    let earlier = history.drop_last();
    lemma_history_keeps_the_ttl(store, earlier);
    if at < history.len() - 1 {
        assert(earlier[at] == history[at]);
        assert forall|j: int| at < j < earlier.len() implies !writes_to(
            #[trigger] earlier[j].0,
            key,
        ) && !deletes(earlier[j].0, key) by {
            assert(earlier[j] == history[j]);
        }
        lemma_read_sees_the_latest_write(store, earlier, at, key, value, now);
        let last = history[history.len() - 1];
        assert(!writes_to(last.0, key) && !deletes(last.0, key));
        lemma_other_keys_are_untouched(store.run(earlier), last.0, last.1, key, now);
    }
}

/// A request that names one key leaves what every other key holds, and what
/// a read of it hands out, as it was.
pub proof fn lemma_other_keys_are_untouched(
    store: CacheView,
    request: RequestView,
    now: int,
    other: Seq<u8>,
    read_at: int,
)
    requires
        request matches RequestView::Put(key, _) ==> key != other,
        request matches RequestView::Delete(key) ==> key != other,
    ensures
        store.step(request, now).0.lookup(other, read_at) == store.lookup(other, read_at),
{
}

} // verus!
