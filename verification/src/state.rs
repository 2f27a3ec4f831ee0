//! What the running program knows of its cache, and the choice of backend
//! that follows from it.

use std::collections::HashMap;
use vstd::prelude::*;
use crate::storage::Storage;
use crate::store::dashmap::DashMapActor;
use crate::store::model::CacheView;
use crate::store::redis::RedisActor;
use crate::{dashmap_storage, redis_storage};

verus! {

/// The settings a running program keeps.
pub struct AppState {
    /// The connection string of the remote service, where one is used.
    pub redis: Option<String>,
    /// Seconds a cached entry lives.
    pub cache_expire: usize,
    /// Free-form settings, by name.
    pub env: HashMap<String, String>,
}

/// The backend a program runs with: exactly one of the two.
pub enum Backend {
    /// The remote service, not yet connected to.
    Redis(RedisActor),
    /// The in-process store.
    Memory(Storage<DashMapActor>),
}

impl AppState {
    /// Picks the backend: the remote service where a connection string is
    /// set, the in-process store otherwise. Either one gets this state's TTL.
    pub fn storage(&self) -> (backend: Backend)
        ensures
            self.redis matches Some(url) ==> (backend matches Backend::Redis(actor)
                && actor.spec_url()@ == url@ && actor.spec_expire() == self.cache_expire),
            self.redis is None ==> (backend matches Backend::Memory(storage) && storage@@
                == CacheView::empty((self.cache_expire as i64) as int)),
    {
        match &self.redis {
            Some(redis_url) => Backend::Redis(
                redis_storage(redis_url.clone(), Some(self.cache_expire)),
            ),
            None => Backend::Memory(dashmap_storage(self.cache_expire)),
        }
    }
}

} // verus!
