//! The remote service as the network backend takes it to be, and what the
//! backend's commands and responses come to on such a service.
//!
//! Nothing here is claimed of a real service. These are the consequences of
//! the backend's own logic, for a service that stores, hands out and deletes
//! as told, and drops an entry once its seconds have passed.

use vstd::prelude::*;
use crate::actor::{RequestView, ResponseView};
use crate::store::redis::{
    done_or_failed, found_or_failed, full_key, lemma_full_key_is_one_to_one, msg_command,
    CommandView,
};

verus! {

/// What a service holds: under each name, a payload and the second at which
/// it lapses.
pub ghost struct ServiceView {
    pub held: Map<Seq<u8>, (Seq<u8>, int)>,
}

impl ServiceView {
    /// A service that holds nothing.
    pub open spec fn empty() -> ServiceView {
        ServiceView { held: Map::empty() }
    }

    /// The bytes a `GET` of `name` is answered with at second `now`: the
    /// payload while it has not lapsed, and no bytes at all otherwise.
    pub open spec fn fetch(self, name: Seq<u8>, now: int) -> Seq<u8> {
        if self.held.contains_key(name) && now < self.held[name].1 {
            self.held[name].0
        } else {
            Seq::empty()
        }
    }

    /// The service after `command` was performed at second `now`, and the
    /// bytes it answered with.
    pub open spec fn serve(self, command: CommandView, now: int) -> (ServiceView, Seq<u8>) {
        match command {
            CommandView::SetEx { key, seconds, value } => (
                ServiceView { held: self.held.insert(key, (value, now + seconds)) },
                Seq::empty(),
            ),
            CommandView::Get { key } => (self, self.fetch(key, now)),
            CommandView::Del { key } => (ServiceView { held: self.held.remove(key) }, Seq::empty()),
        }
    }

    /// The service after a backend with a TTL of `expire` seconds performed
    /// `request` on it at second `now`, and the response the caller is given.
    pub open spec fn step(self, expire: usize, request: RequestView, now: int) -> (
        ServiceView,
        ResponseView,
    ) {
        let (after, bytes) = self.serve(msg_command(expire, request), now);
        let response = match request {
            RequestView::Put(_, _) => ResponseView::Put(done_or_failed(Ok(()))),
            RequestView::Get(_) => ResponseView::Get(found_or_failed(Ok(bytes))),
            RequestView::Delete(_) => ResponseView::Delete(done_or_failed(Ok(()))),
        };
        (after, response)
    }
}

/// A payload that is not empty is read back whole by every read that comes
/// before its seconds have passed.
pub proof fn lemma_service_write_then_read(
    service: ServiceView,
    expire: usize,
    key: Seq<u8>,
    value: Seq<u8>,
    written_at: int,
    read_at: int,
)
    requires
        value.len() > 0,
        read_at < written_at + expire,
    ensures
        service.step(expire, RequestView::Put(key, value), written_at).1 == ResponseView::Put(
            Ok(()),
        ),
        service.step(expire, RequestView::Put(key, value), written_at).0.step(
            expire,
            RequestView::Get(key),
            read_at,
        ).1 == ResponseView::Get(Ok(Some(value))),
{
}

/// An empty payload is stored and then read as a miss, at any second: the
/// backend cannot tell it from a key that holds nothing.
pub proof fn lemma_service_empty_payload_is_a_miss(
    service: ServiceView,
    expire: usize,
    key: Seq<u8>,
    written_at: int,
    read_at: int,
)
    ensures
        service.step(expire, RequestView::Put(key, Seq::empty()), written_at).0.step(
            expire,
            RequestView::Get(key),
            read_at,
        ).1 == ResponseView::Get(Ok(None)),
{
}

/// On a service that holds nothing, every read is a miss.
pub proof fn lemma_service_unwritten_key_is_absent(expire: usize, key: Seq<u8>, now: int)
    ensures
        ServiceView::empty().step(expire, RequestView::Get(key), now).1 == ResponseView::Get(
            Ok(None),
        ),
{
}

/// A delete succeeds whether or not the key held anything, and a read that
/// follows it is a miss.
pub proof fn lemma_service_delete_then_read(
    service: ServiceView,
    expire: usize,
    key: Seq<u8>,
    deleted_at: int,
    read_at: int,
)
    ensures
        service.step(expire, RequestView::Delete(key), deleted_at).1 == ResponseView::Delete(
            Ok(()),
        ),
        service.step(expire, RequestView::Delete(key), deleted_at).0.step(
            expire,
            RequestView::Get(key),
            read_at,
        ).1 == ResponseView::Get(Ok(None)),
{
}

/// Of two writes under one key the later one wins.
pub proof fn lemma_service_last_write_wins(
    service: ServiceView,
    expire: usize,
    key: Seq<u8>,
    first: Seq<u8>,
    second: Seq<u8>,
    first_at: int,
    second_at: int,
    read_at: int,
)
    requires
        second.len() > 0,
        read_at < second_at + expire,
    ensures
        service.step(expire, RequestView::Put(key, first), first_at).0.step(
            expire,
            RequestView::Put(key, second),
            second_at,
        ).0.step(expire, RequestView::Get(key), read_at).1 == ResponseView::Get(Ok(Some(second))),
{
}

/// An entry is handed out by exactly the reads before second
/// `written_at + expire`.
pub proof fn lemma_service_entry_expires_at_ttl(
    service: ServiceView,
    expire: usize,
    key: Seq<u8>,
    value: Seq<u8>,
    written_at: int,
    read_at: int,
)
    requires
        value.len() > 0,
    ensures
        service.step(expire, RequestView::Put(key, value), written_at).0.step(
            expire,
            RequestView::Get(key),
            read_at,
        ).1 == ResponseView::Get(
            Ok(
                if read_at < written_at + expire {
                    Some(value)
                } else {
                    None
                },
            ),
        ),
{
}

/// A request touches one name on the service, the full name of its key:
/// what the service holds under any other name, be it an entry of the cache
/// or of another user of the service, stays as it was.
pub proof fn lemma_service_other_names_are_untouched(
    service: ServiceView,
    expire: usize,
    request: RequestView,
    now: int,
    other: Seq<u8>,
)
    requires
        request matches RequestView::Put(key, _) ==> other != full_key(key),
        request matches RequestView::Delete(key) ==> other != full_key(key),
    ensures
        service.step(expire, request, now).0.held.contains_key(other) == service.held.contains_key(
            other,
        ),
        service.held.contains_key(other) ==> service.step(expire, request, now).0.held[other]
            == service.held[other],
{
}

/// A request for one key leaves what a read of any other key hands out as it
/// was.
pub proof fn lemma_service_other_keys_are_untouched(
    service: ServiceView,
    expire: usize,
    request: RequestView,
    now: int,
    other: Seq<u8>,
    read_at: int,
)
    requires
        request matches RequestView::Put(key, _) ==> key != other,
        request matches RequestView::Delete(key) ==> key != other,
    ensures
        service.step(expire, request, now).0.step(expire, RequestView::Get(other), read_at).1
            == service.step(expire, RequestView::Get(other), read_at).1,
{
    match request {
        RequestView::Put(key, _) => {
            if full_key(key) == full_key(other) {
                lemma_full_key_is_one_to_one(key, other);
            }
        },
        RequestView::Delete(key) => {
            if full_key(key) == full_key(other) {
                lemma_full_key_is_one_to_one(key, other);
            }
        },
        RequestView::Get(_) => {},
    }
}

} // verus!
