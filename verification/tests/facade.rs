use std::cell::RefCell;
use std::collections::HashMap;

use magnetite_cache::actor::{delete_reply, get_reply, set_reply, StoreRequest, StoreResponse};
use magnetite_cache::error::StorageError;
use magnetite_cache::store::dashmap::DashMapActor;
use magnetite_cache::store::Store;
use magnetite_cache::Storage;

/// A feed item as the front end caches it: title, link, description.
type Item = (String, String, String);

/// A feed document: title, link, and the items in their order.
type Feed = (String, String, Vec<Item>);

fn feed() -> Feed {
    (
        "articles".to_string(),
        "https://www.gcores.com/articles".to_string(),
        vec![
            (
                "first".to_string(),
                "https://www.gcores.com/articles/1".to_string(),
                "<p>one</p>".to_string(),
            ),
            (
                "second".to_string(),
                "https://www.gcores.com/articles/2".to_string(),
                "<p>two</p>".to_string(),
            ),
            (
                "third".to_string(),
                "https://www.gcores.com/articles/3".to_string(),
                "<p>three</p>".to_string(),
            ),
        ],
    )
}

/// The in-process store behind a clock that the test sets.
struct Clocked {
    actor: RefCell<DashMapActor>,
    now: i64,
}

impl Clocked {
    fn new(ttl: i64, now: i64) -> Self {
        Clocked { actor: RefCell::new(DashMapActor::new(ttl)), now }
    }
}

impl Store for Clocked {
    fn set(&mut self, key: Vec<u8>, value: Vec<u8>) -> Result<(), StorageError> {
        set_reply(Ok(self.actor.borrow_mut().handle_at(StoreRequest::Put(key, value), self.now)))
    }

    fn get(&self, key: Vec<u8>) -> Result<Option<Vec<u8>>, StorageError> {
        get_reply(Ok(self.actor.borrow_mut().handle_at(StoreRequest::Get(key), self.now)))
    }

    fn delete(&mut self, key: Vec<u8>) -> Result<(), StorageError> {
        delete_reply(Ok(self.actor.borrow_mut().handle_at(StoreRequest::Delete(key), self.now)))
    }
}

/// The same facade with its store's clock moved on by `seconds`.
fn later(storage: Storage<Clocked>, seconds: i64) -> Storage<Clocked> {
    let mut store = storage.into_store();
    store.now += seconds;
    Storage::new(store)
}

/// A backend that can do nothing.
struct Unsupported;

impl Store for Unsupported {
    fn set(&mut self, _key: Vec<u8>, _value: Vec<u8>) -> Result<(), StorageError> {
        Err(StorageError::MethodNotSupported)
    }

    fn get(&self, _key: Vec<u8>) -> Result<Option<Vec<u8>>, StorageError> {
        Err(StorageError::MethodNotSupported)
    }

    fn delete(&mut self, _key: Vec<u8>) -> Result<(), StorageError> {
        Err(StorageError::MethodNotSupported)
    }
}

#[test]
fn a_feed_of_three_items_comes_back_as_it_was_stored() {
    let mut storage = Storage::new(DashMapActor::new(600));
    let stored = feed();
    assert_eq!(
        storage.set(b"/articles", &stored, |v: &Feed| serde_json::to_vec(v)),
        Ok(())
    );
    let read = storage
        .get(b"/articles", |b: &[u8]| serde_json::from_slice::<Feed>(b))
        .unwrap()
        .unwrap();
    assert_eq!(read.2.len(), 3);
    assert_eq!(read.2[0].0, "first");
    assert_eq!(read.2[1].0, "second");
    assert_eq!(read.2[2].0, "third");
    assert_eq!(read.2[0].1, "https://www.gcores.com/articles/1");
    assert_eq!(read.2[1].1, "https://www.gcores.com/articles/2");
    assert_eq!(read.2[2].1, "https://www.gcores.com/articles/3");
    assert_eq!(read, stored);
}

#[test]
fn a_feed_is_gone_once_its_ttl_has_run_out() {
    let bytes = serde_json::to_vec(&feed()).unwrap();
    let mut actor = DashMapActor::new(300);
    assert_eq!(
        actor.handle_at(StoreRequest::Put(b"/articles".to_vec(), bytes.clone()), 1_000),
        StoreResponse::Put(Ok(()))
    );
    assert_eq!(
        actor.handle_at(StoreRequest::Get(b"/articles".to_vec()), 1_000),
        StoreResponse::Get(Ok(Some(bytes)))
    );
    assert_eq!(
        actor.handle_at(StoreRequest::Get(b"/articles".to_vec()), 1_301),
        StoreResponse::Get(Ok(None))
    );

    // The same through the facade, on a store whose entries lapse at once.
    let mut storage = Storage::new(DashMapActor::new(0));
    assert_eq!(
        storage.set(b"/articles", &feed(), |v: &Feed| serde_json::to_vec(v)),
        Ok(())
    );
    assert_eq!(
        storage.get(b"/articles", |b: &[u8]| serde_json::from_slice::<Feed>(b)),
        Ok(None)
    );
}

#[test]
fn a_feed_is_served_from_the_cache_until_the_ttl_has_run_out() {
    let mut storage = Storage::new(Clocked::new(300, 1_700_000_000));
    let stored = feed();
    assert_eq!(
        storage.set(b"/articles", &stored, |v: &Feed| serde_json::to_vec(v)),
        Ok(())
    );
    assert_eq!(
        storage.get(b"/articles", |b: &[u8]| serde_json::from_slice::<Feed>(b)),
        Ok(Some(feed()))
    );
    let storage = later(storage, 299);
    assert_eq!(
        storage.get(b"/articles", |b: &[u8]| serde_json::from_slice::<Feed>(b)),
        Ok(Some(feed()))
    );
    let storage = later(storage, 1);
    assert_eq!(
        storage.get(b"/articles", |b: &[u8]| serde_json::from_slice::<Feed>(b)),
        Ok(None)
    );
    let mut storage = later(storage, 60);
    assert_eq!(
        storage.get(b"/articles", |b: &[u8]| serde_json::from_slice::<Feed>(b)),
        Ok(None)
    );
    // A new write starts a new life.
    assert_eq!(
        storage.set(b"/articles", &stored, |v: &Feed| serde_json::to_vec(v)),
        Ok(())
    );
    let storage = later(storage, 299);
    assert_eq!(
        storage.get(b"/articles", |b: &[u8]| serde_json::from_slice::<Feed>(b)),
        Ok(Some(stored))
    );
}

#[test]
fn a_value_read_in_its_own_shape_is_equal_to_the_one_stored() {
    let mut storage = Storage::new(DashMapActor::new(600));
    let numbers: Vec<u64> = vec![3, 1, 2];
    assert_eq!(
        storage.set(b"numbers", &numbers, |v: &Vec<u64>| serde_json::to_vec(v)),
        Ok(())
    );
    assert_eq!(
        storage.get(b"numbers", |b: &[u8]| serde_json::from_slice::<Vec<u64>>(b)),
        Ok(Some(numbers))
    );
}

#[test]
fn a_value_read_in_another_shape_is_a_deserialization_error() {
    let mut storage = Storage::new(DashMapActor::new(600));
    let text = "value".to_string();
    assert_eq!(
        storage.set(b"key", &text, |v: &String| serde_json::to_vec(v)),
        Ok(())
    );
    assert_eq!(
        storage.get(b"key", |b: &[u8]| serde_json::from_slice::<u64>(b)),
        Err(StorageError::DeserializationError)
    );
    assert_eq!(
        storage.get(b"key", |b: &[u8]| serde_json::from_slice::<Vec<String>>(b)),
        Err(StorageError::DeserializationError)
    );
    // The entry is still there for a reader of the right shape.
    assert_eq!(
        storage.get(b"key", |b: &[u8]| serde_json::from_slice::<String>(b)),
        Ok(Some(text))
    );
}

#[test]
fn a_key_that_holds_nothing_is_none_whatever_the_shape() {
    let storage = Storage::new(DashMapActor::new(600));
    assert_eq!(
        storage.get(b"key", |b: &[u8]| serde_json::from_slice::<u64>(b)),
        Ok(None)
    );
    assert_eq!(
        storage.get(b"key", |b: &[u8]| serde_json::from_slice::<String>(b)),
        Ok(None)
    );
}

#[test]
fn a_value_that_does_not_encode_touches_nothing() {
    let mut storage = Storage::new(DashMapActor::new(600));
    assert_eq!(
        storage.set(b"key", &1u8, |v: &u8| serde_json::to_vec(v)),
        Ok(())
    );
    // A map keyed by a sequence has no JSON form.
    let mut unencodable: HashMap<Vec<u8>, u8> = HashMap::new();
    unencodable.insert(vec![1, 2], 3);
    assert_eq!(
        storage.set(b"key", &unencodable, |v: &HashMap<Vec<u8>, u8>| serde_json::to_vec(v)),
        Err(StorageError::SerializationError)
    );
    assert_eq!(
        storage.get(b"key", |b: &[u8]| serde_json::from_slice::<u8>(b)),
        Ok(Some(1u8))
    );
}

#[test]
fn the_facade_stores_what_the_encoder_gave() {
    let mut storage = Storage::new(DashMapActor::new(600));
    assert_eq!(
        storage.set(b"key", &"value".to_string(), |v: &String| serde_json::to_vec(v)),
        Ok(())
    );
    let raw: Result<Option<Vec<u8>>, StorageError> =
        storage.get(b"key", |b: &[u8]| Ok::<Vec<u8>, ()>(b.to_vec()));
    assert_eq!(raw, Ok(Some(b"\"value\"".to_vec())));
}

#[test]
fn the_facade_overwrites_and_deletes() {
    let mut storage = Storage::new(DashMapActor::new(600));
    assert_eq!(storage.delete(b"key"), Ok(()));
    assert_eq!(
        storage.set(b"key", &1u32, |v: &u32| serde_json::to_vec(v)),
        Ok(())
    );
    assert_eq!(
        storage.set(b"key", &2u32, |v: &u32| serde_json::to_vec(v)),
        Ok(())
    );
    assert_eq!(
        storage.get(b"key", |b: &[u8]| serde_json::from_slice::<u32>(b)),
        Ok(Some(2u32))
    );
    assert_eq!(storage.delete(b"key"), Ok(()));
    assert_eq!(
        storage.get(b"key", |b: &[u8]| serde_json::from_slice::<u32>(b)),
        Ok(None)
    );
}

#[test]
fn a_backend_that_cannot_do_an_operation_says_so_through_the_facade() {
    let mut storage = Storage::new(Unsupported);
    assert_eq!(
        storage.set(b"key", &1u32, |v: &u32| serde_json::to_vec(v)),
        Err(StorageError::MethodNotSupported)
    );
    assert_eq!(
        storage.get(b"key", |b: &[u8]| serde_json::from_slice::<u32>(b)),
        Err(StorageError::MethodNotSupported)
    );
    assert_eq!(storage.delete(b"key"), Err(StorageError::MethodNotSupported));
}
