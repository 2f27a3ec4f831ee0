//! The backend over a remote key-value service, without the wire: which
//! command each request becomes, and which response each reply becomes.
//!
//! The remote service alone decides when an entry expires; nothing is kept
//! here but the TTL that goes out with every write. Whoever owns the
//! connection sends the command and hands the reply back.

use vstd::prelude::*;
use crate::actor::{RequestView, ResponseView, StoreRequest, StoreResponse, CACHE_EXPIRE};
use crate::error::StorageError;

verus! {

/// The tag every key carries on the remote service: the bytes of `RSS_CACHE`.
pub open spec fn scope() -> Seq<u8> {
    seq![0x52u8, 0x53u8, 0x53u8, 0x5fu8, 0x43u8, 0x41u8, 0x43u8, 0x48u8, 0x45u8]
}

/// The name an entry has on the remote service: the tag, a colon, and the
/// caller's key.
pub open spec fn full_key(key: Seq<u8>) -> Seq<u8> {
    scope().push(0x3au8) + key
}

/// Puts the cache's tag in front of `key`, so that its entries cannot meet
/// those of another user of the same service.
pub fn get_full_key(key: &[u8]) -> (full: Vec<u8>)
    ensures
        full@ == full_key(key@),
{
    let mut full: Vec<u8> = Vec::new();
    full.push(0x52u8);  // R
    full.push(0x53u8);  // S
    full.push(0x53u8);  // S
    full.push(0x5fu8);  // _
    full.push(0x43u8);  // C
    full.push(0x41u8);  // A
    full.push(0x43u8);  // C
    full.push(0x48u8);  // H
    full.push(0x45u8);  // E
    full.push(0x3au8);  // :
    assert(full@ == scope().push(0x3au8));
    let mut i: usize = 0;
    while i < key.len()
        invariant
            i <= key.len(),
            full@ == scope().push(0x3au8) + key@.take(i as int),
        decreases key.len() - i,
    {
        full.push(key[i]);
        assert(key@.take(i + 1) == key@.take(i as int).push(key@[i as int]));
        i += 1;
    }
    assert(key@.take(key.len() as int) == key@);
    full
}

/// A command for the remote service.
#[derive(Debug, PartialEq, Eq)]
pub enum RedisCommand {
    /// `SETEX key seconds value`: store `value` under `key` and let the
    /// service drop it after `seconds`.
    SetEx { key: Vec<u8>, seconds: usize, value: Vec<u8> },
    /// `GET key`.
    Get { key: Vec<u8> },
    /// `DEL key`.
    Del { key: Vec<u8> },
}

/// A command with its keys and payload as mathematical sequences.
pub ghost enum CommandView {
    SetEx { key: Seq<u8>, seconds: usize, value: Seq<u8> },
    Get { key: Seq<u8> },
    Del { key: Seq<u8> },
}

impl View for RedisCommand {
    type V = CommandView;

    open spec fn view(&self) -> CommandView {
        match *self {
            RedisCommand::SetEx { key, seconds, value } => CommandView::SetEx {
                key: key@,
                seconds,
                value: value@,
            },
            RedisCommand::Get { key } => CommandView::Get { key: key@ },
            RedisCommand::Del { key } => CommandView::Del { key: key@ },
        }
    }
}

/// The settings of a backend over a remote service: where the service is
/// and how many seconds an entry lives there.
#[derive(Debug, PartialEq, Eq)]
pub struct RedisActor {
    url: String,
    expire: usize,
}

/// Collects the settings of a `RedisActor`.
#[derive(Debug, PartialEq, Eq)]
pub struct RedisActorBuilder {
    url: Option<String>,
    expire: Option<usize>,
}

impl RedisActorBuilder {
    /// The connection string given so far.
    pub closed spec fn spec_url(&self) -> Option<String> {
        self.url
    }

    /// The TTL given so far.
    pub closed spec fn spec_expire(&self) -> Option<usize> {
        self.expire
    }

    /// Names the service to connect to, over any name given before.
    pub fn conn_info(self, url: String) -> (builder: Self)
        ensures
            builder.spec_url() == Some(url),
            builder.spec_expire() == self.spec_expire(),
    {
        let mut builder = self;
        builder.url = Some(url);
        builder
    }

    /// Sets the TTL, in seconds, over any TTL given before.
    pub fn expire(self, expire: usize) -> (builder: Self)
        ensures
            builder.spec_url() == self.spec_url(),
            builder.spec_expire() == Some(expire),
    {
        let mut builder = self;
        builder.expire = Some(expire);
        builder
    }

    /// The settings that were collected; a TTL that was never given is the
    /// default one. The service must have been named.
    pub fn finish(self) -> (actor: RedisActor)
        requires
            self.spec_url() is Some,
        ensures
            Some(actor.spec_url()) == self.spec_url(),
            actor.spec_expire() == (match self.spec_expire() {
                Some(seconds) => seconds,
                None => CACHE_EXPIRE,
            }),
    {
        let expire = match self.expire {
            Some(seconds) => seconds,
            None => CACHE_EXPIRE,
        };
        match self.url {
            Some(url) => RedisActor { url, expire },
            None => vstd::pervasive::unreached(),
        }
    }
}

impl RedisActor {
    /// The connection string of the service.
    pub closed spec fn spec_url(&self) -> String {
        self.url
    }

    /// The seconds an entry lives on the service.
    pub closed spec fn spec_expire(&self) -> usize {
        self.expire
    }

    /// A builder with nothing set.
    pub fn new() -> (builder: RedisActorBuilder)
        ensures
            builder.spec_url() is None,
            builder.spec_expire() is None,
    {
        RedisActorBuilder { url: None, expire: None }
    }

    /// The settings for the service at `conn_info`, with the default TTL.
    pub fn connect(conn_info: String) -> (actor: Self)
        ensures
            actor.spec_url() == conn_info,
            actor.spec_expire() == CACHE_EXPIRE,
    {
        RedisActor { url: conn_info, expire: CACHE_EXPIRE }
    }

    /// The connection string of the service.
    pub fn url(&self) -> (url: &String)
        ensures
            *url == self.spec_url(),
    {
        &self.url
    }

    /// The seconds an entry lives on the service.
    pub fn ttl(&self) -> (seconds: usize)
        ensures
            seconds == self.spec_expire(),
    {
        self.expire
    }

    /// The command that performs `msg`: every key goes out under its full
    /// name, and a write carries this backend's TTL.
    pub fn command(&self, msg: StoreRequest) -> (command: RedisCommand)
        ensures
            command@ == msg_command(self.spec_expire(), msg@),
    {
        match msg {
            StoreRequest::Put(key, value) => RedisCommand::SetEx {
                key: get_full_key(key.as_slice()),
                seconds: self.expire,
                value,
            },
            StoreRequest::Get(key) => RedisCommand::Get { key: get_full_key(key.as_slice()) },
            StoreRequest::Delete(key) => RedisCommand::Del { key: get_full_key(key.as_slice()) },
        }
    }
}

/// The command that performs `msg` on a backend whose TTL is `expire` seconds.
pub open spec fn msg_command(expire: usize, msg: RequestView) -> CommandView {
    match msg {
        RequestView::Put(key, value) => CommandView::SetEx {
            key: full_key(key),
            seconds: expire,
            value,
        },
        RequestView::Get(key) => CommandView::Get { key: full_key(key) },
        RequestView::Delete(key) => CommandView::Del { key: full_key(key) },
    }
}

/// The reply of the service with its bytes as a mathematical sequence.
pub open spec fn reply_view(reply: Result<Vec<u8>, String>) -> Result<Seq<u8>, String> {
    match reply {
        Ok(bytes) => Ok(bytes@),
        Err(report) => Err(report),
    }
}

/// What a write or a delete ends in when its command came back as `reply`.
pub open spec fn done_or_failed(reply: Result<(), String>) -> Result<(), StorageError> {
    match reply {
        Ok(_) => Ok(()),
        Err(report) => Err(StorageError::RedisError(report)),
    }
}

/// What a read ends in when its `GET` came back as `reply`: no bytes at all
/// are a miss.
pub open spec fn found_or_failed(reply: Result<Seq<u8>, String>) -> Result<
    Option<Seq<u8>>,
    StorageError,
> {
    match reply {
        Ok(bytes) => if bytes.len() == 0 {
            Ok(None)
        } else {
            Ok(Some(bytes))
        },
        Err(report) => Err(StorageError::RedisError(report)),
    }
}

/// The response to a write, from what came back for its `SETEX`: success, or
/// the transport's report of a failure.
pub fn set_response(reply: Result<(), String>) -> (response: StoreResponse)
    ensures
        response == StoreResponse::Put(done_or_failed(reply)),
{
    match reply {
        Ok(()) => StoreResponse::Put(Ok(())),
        Err(report) => StoreResponse::Put(Err(StorageError::RedisError(report))),
    }
}

/// The response to a read, from what came back for its `GET`. The service
/// answers a key that holds nothing with no bytes at all, so an empty reply
/// is a miss; an entry whose payload is empty cannot be told from one that
/// is absent.
pub fn get_response(reply: Result<Vec<u8>, String>) -> (response: StoreResponse)
    ensures
        response@ == ResponseView::Get(found_or_failed(reply_view(reply))),
        reply matches Ok(bytes) ==> bytes@.len() > 0 ==> response == StoreResponse::Get(
            Ok(Some(bytes)),
        ),
{
    match reply {
        Ok(bytes) => {
            if bytes.len() != 0 {
                StoreResponse::Get(Ok(Some(bytes)))
            } else {
                StoreResponse::Get(Ok(None))
            }
        },
        Err(report) => StoreResponse::Get(Err(StorageError::RedisError(report))),
    }
}

/// The response to a delete, from what came back for its `DEL`. The service
/// does not mind a key that holds nothing, so neither does the response.
pub fn delete_response(reply: Result<(), String>) -> (response: StoreResponse)
    ensures
        response == StoreResponse::Delete(done_or_failed(reply)),
{
    match reply {
        Ok(()) => StoreResponse::Delete(Ok(())),
        Err(report) => StoreResponse::Delete(Err(StorageError::RedisError(report))),
    }
}

/// Two keys that differ go out under full names that differ: entries of the
/// cache cannot meet each other on the service.
pub proof fn lemma_full_key_is_one_to_one(a: Seq<u8>, b: Seq<u8>)
    requires
        full_key(a) == full_key(b),
    ensures
        a == b,
{
    let tag = scope().push(0x3au8);
    assert((tag + a).skip(tag.len() as int) =~= a);
    assert((tag + b).skip(tag.len() as int) =~= b);
}

/// Every full name starts with the tag and the colon, and is the caller's key
/// from there on.
pub proof fn lemma_full_key_starts_with_the_scope(key: Seq<u8>)
    ensures
        full_key(key).len() == key.len() + 10,
        full_key(key).take(10) == scope().push(0x3au8),
        full_key(key).skip(10) == key,
{
    let tag = scope().push(0x3au8);
    assert((tag + key).take(10) =~= tag);
    assert((tag + key).skip(10) =~= key);
}

} // verus!
