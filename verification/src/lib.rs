//! An expiring key-value cache for opaque byte payloads.
//!
//! The crate holds the store capability, the request/response envelope, an
//! in-process backend over a concurrent map, the command and reply logic of a
//! backend that talks to a remote key-value service, the facade that places
//! encoded values into a store, and the settings from which a store is built.

use vstd::prelude::*;

pub mod actor;
pub mod app_config;
pub mod error;
pub mod state;
pub mod storage;
pub mod store;

pub use crate::storage::Storage;
pub use crate::store::dashmap::DashMapActor;
pub use crate::store::redis::{RedisActor, RedisActorBuilder};
pub use crate::store::Store;

use crate::store::model::CacheView;

verus! {

/// The workers that share one in-process store.
pub const DASHMAP_WORKERS: usize = 2;

/// An empty in-process store behind the facade, whose entries live for
/// `cache_expire` seconds. The store keeps its TTL in 64 signed bits: a
/// number of seconds beyond that range is cut down to them.
pub fn dashmap_storage(cache_expire: usize) -> (storage: Storage<DashMapActor>)
    ensures
        storage@@ == CacheView::empty((cache_expire as i64) as int),
        cache_expire <= i64::MAX ==> storage@@ == CacheView::empty(cache_expire as int),
{
    let ttl: i64 = #[verifier::truncate]
    (cache_expire as i64);
    Storage::new(DashMapActor::new(ttl))
}

/// The settings of a backend over the remote service at `url`, whose entries
/// live for `cache_expire` seconds. The TTL must be given.
pub fn redis_storage(url: String, cache_expire: Option<usize>) -> (actor: RedisActor)
    requires
        cache_expire is Some,
    ensures
        actor.spec_url() == url,
        Some(actor.spec_expire()) == cache_expire,
{
    match cache_expire {
        Some(seconds) => RedisActor::new().conn_info(url).expire(seconds).finish(),
        None => vstd::pervasive::unreached(),
    }
}

} // verus!
