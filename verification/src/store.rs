//! The capability every backend offers: whole-value set, get and delete over
//! opaque byte keys.

use vstd::prelude::*;
use crate::actor::{Key, Value};
use crate::error::StorageError;

pub mod dashmap;
pub mod model;
pub mod redis;
pub mod service;

verus! {

/// A backend of the cache.
///
/// Each backend says, by the three relations below, which outcomes its
/// operations can have; the operations promise to stay inside them. A backend
/// that does not state a relation leaves every outcome open. A caller that
/// knows the backend reasons from its relations, a caller that does not can
/// still say which operation was made and with which bytes.
pub trait Store: Sized {
    /// Whether a `set` of `value` under `key` can turn `before` into `after`
    /// and end in `outcome`.
    open spec fn set_spec(
        before: &Self,
        key: Seq<u8>,
        value: Seq<u8>,
        after: &Self,
        outcome: Result<(), StorageError>,
    ) -> bool {
        true
    }

    /// Whether a `get` of `key` can end in `outcome`.
    open spec fn get_spec(
        &self,
        key: Seq<u8>,
        outcome: Result<Option<Seq<u8>>, StorageError>,
    ) -> bool {
        true
    }

    /// Whether a `delete` of `key` can turn `before` into `after` and end in
    /// `outcome`.
    open spec fn delete_spec(
        before: &Self,
        key: Seq<u8>,
        after: &Self,
        outcome: Result<(), StorageError>,
    ) -> bool {
        true
    }

    /// Stores `value` under `key`, over whatever was stored there.
    fn set(&mut self, key: Key, value: Value) -> (outcome: Result<(), StorageError>)
        ensures
            Self::set_spec(old(self), key@, value@, final(self), outcome),
    ;

    /// Hands out what is stored under `key`, or `None` where nothing is or
    /// what was has expired.
    fn get(&self, key: Key) -> (outcome: Result<Option<Value>, StorageError>)
        ensures
            self.get_spec(key@, crate::actor::lookup_view(outcome)),
    ;

    /// Removes what is stored under `key`; a key that holds nothing is no error.
    fn delete(&mut self, key: Key) -> (outcome: Result<(), StorageError>)
        ensures
            Self::delete_spec(old(self), key@, final(self), outcome),
    ;
}

} // verus!
