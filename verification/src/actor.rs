//! The request/response envelope between a caller and a backend.
//!
//! A caller sends one request and is handed exactly one response of the same
//! kind. The functions at the end of this file turn a finished round trip into
//! what the caller of `set`, `get` or `delete` is given.

use vstd::prelude::*;
use crate::error::StorageError;

verus! {

/// An opaque byte sequence that names an entry.
pub type Key = Vec<u8>;

/// An opaque byte sequence that is stored under a key.
pub type Value = Vec<u8>;

/// Seconds an entry lives when a backend is built without a TTL of its own.
pub const CACHE_EXPIRE: usize = 300;

/// What a caller asks of a backend.
#[derive(Debug, PartialEq, Eq)]
pub enum StoreRequest {
    Get(Key),
    /// Store a value under a key, over whatever was there.
    Put(Key, Value),
    Delete(Key),
}

/// What a backend answers, one variant for each kind of request.
#[derive(Debug, PartialEq, Eq)]
pub enum StoreResponse {
    Get(Result<Option<Value>, StorageError>),
    Put(Result<(), StorageError>),
    Delete(Result<(), StorageError>),
}

/// A request with its keys and payloads as mathematical sequences.
pub ghost enum RequestView {
    Get(Seq<u8>),
    Put(Seq<u8>, Seq<u8>),
    Delete(Seq<u8>),
}

/// A response with its payload as a mathematical sequence.
pub ghost enum ResponseView {
    Get(Result<Option<Seq<u8>>, StorageError>),
    Put(Result<(), StorageError>),
    Delete(Result<(), StorageError>),
}

/// The result of a lookup with its payload as a mathematical sequence.
pub open spec fn lookup_view(found: Result<Option<Value>, StorageError>) -> Result<
    Option<Seq<u8>>,
    StorageError,
> {
    match found {
        Ok(Some(payload)) => Ok(Some(payload@)),
        Ok(None) => Ok(None),
        Err(err) => Err(err),
    }
}

impl View for StoreRequest {
    type V = RequestView;

    open spec fn view(&self) -> RequestView {
        match *self {
            StoreRequest::Get(key) => RequestView::Get(key@),
            StoreRequest::Put(key, value) => RequestView::Put(key@, value@),
            StoreRequest::Delete(key) => RequestView::Delete(key@),
        }
    }
}

impl View for StoreResponse {
    type V = ResponseView;

    open spec fn view(&self) -> ResponseView {
        match *self {
            StoreResponse::Get(found) => ResponseView::Get(lookup_view(found)),
            StoreResponse::Put(done) => ResponseView::Put(done),
            StoreResponse::Delete(done) => ResponseView::Delete(done),
        }
    }
}

impl ResponseView {
    /// Whether this response is of the kind that `request` calls for.
    pub open spec fn answers(self, request: RequestView) -> bool {
        match request {
            RequestView::Get(_) => self is Get,
            RequestView::Put(_, _) => self is Put,
            RequestView::Delete(_) => self is Delete,
        }
    }
}

/// What the caller of `set` is handed when the round trip ended in `delivery`:
/// the backend's own result, or the report of a request that was never
/// answered. A response of another kind is a broken backend and is not accepted.
pub fn set_reply(delivery: Result<StoreResponse, String>) -> (outcome: Result<(), StorageError>)
    requires
        delivery matches Ok(response) ==> response is Put,
    ensures
        delivery matches Ok(StoreResponse::Put(done)) ==> outcome == done,
        delivery matches Err(report) ==> outcome == Err::<(), StorageError>(
            StorageError::Custom(report),
        ),
{
    match delivery {
        Ok(StoreResponse::Put(done)) => done,
        Ok(_) => vstd::pervasive::unreached(),
        Err(report) => Err(StorageError::custom(report)),
    }
}

/// What the caller of `get` is handed when the round trip ended in `delivery`.
pub fn get_reply(delivery: Result<StoreResponse, String>) -> (outcome: Result<
    Option<Value>,
    StorageError,
>)
    requires
        delivery matches Ok(response) ==> response is Get,
    ensures
        delivery matches Ok(StoreResponse::Get(found)) ==> outcome == found,
        delivery matches Err(report) ==> outcome == Err::<Option<Value>, StorageError>(
            StorageError::Custom(report),
        ),
{
    match delivery {
        Ok(StoreResponse::Get(found)) => found,
        Ok(_) => vstd::pervasive::unreached(),
        Err(report) => Err(StorageError::custom(report)),
    }
}

/// What the caller of `delete` is handed when the round trip ended in `delivery`.
pub fn delete_reply(delivery: Result<StoreResponse, String>) -> (outcome: Result<
    (),
    StorageError,
>)
    requires
        delivery matches Ok(response) ==> response is Delete,
    ensures
        delivery matches Ok(StoreResponse::Delete(done)) ==> outcome == done,
        delivery matches Err(report) ==> outcome == Err::<(), StorageError>(
            StorageError::Custom(report),
        ),
{
    match delivery {
        Ok(StoreResponse::Delete(done)) => done,
        Ok(_) => vstd::pervasive::unreached(),
        Err(report) => Err(StorageError::custom(report)),
    }
}

} // verus!
