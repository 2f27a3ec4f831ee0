//! The typed facade: structured values on the caller's side, bytes on the
//! store's side.
//!
//! The facade does not know the encoding. The caller hands it the encoder
//! with each write and the decoder with each read; the facade decides when
//! they run and what their failures become.

use vstd::prelude::*;
use vstd::slice::slice_to_vec;
use crate::actor::lookup_view;
use crate::error::StorageError;
use crate::store::Store;

verus! {

/// A store together with the rule that values cross into it encoded.
pub struct Storage<S: Store> {
    store: S,
}

impl<S: Store> View for Storage<S> {
    type V = S;

    /// The store behind the facade.
    closed spec fn view(&self) -> S {
        self.store
    }
}

/// What a read hands back for a payload whose decoding came to `parsed`: the
/// value, or the error that tells a payload of another shape from a key that
/// holds nothing.
pub open spec fn decoded<V, E>(parsed: Result<V, E>) -> Result<Option<V>, StorageError> {
    match parsed {
        Ok(value) => Ok(Some(value)),
        Err(_) => Err(StorageError::DeserializationError),
    }
}

/// Whether a write whose encoding came to `encoded` can turn `before` into
/// `after` and end in `outcome`: a failed encoding is reported with the store
/// untouched, a successful one is the store's own `set` of the encoded bytes.
pub open spec fn write_outcome<S: Store, E>(
    before: &S,
    key: Seq<u8>,
    encoded: Result<Vec<u8>, E>,
    after: &S,
    outcome: Result<(), StorageError>,
) -> bool {
    match encoded {
        Ok(bytes) => S::set_spec(before, key, bytes@, after, outcome),
        Err(_) => outcome == Err::<(), StorageError>(StorageError::SerializationError) && after
            == before,
    }
}

/// The bytes to store, from what encoding a value came to: the encoder's
/// bytes, or `SerializationError` for any failure of it.
pub fn serialize<E>(encoded: Result<Vec<u8>, E>) -> (bytes: Result<Vec<u8>, StorageError>)
    ensures
        encoded matches Ok(ready) ==> bytes == Ok::<Vec<u8>, StorageError>(ready),
        encoded is Err ==> bytes == Err::<Vec<u8>, StorageError>(StorageError::SerializationError),
{
    match encoded {
        Ok(ready) => Ok(ready),
        Err(_) => Err(StorageError::SerializationError),
    }
}

/// The value to hand out, from what decoding a stored payload came to: the
/// decoder's value, or `DeserializationError` for any failure of it.
pub fn deserialize<V, E>(parsed: Result<V, E>) -> (value: Result<V, StorageError>)
    ensures
        parsed matches Ok(ready) ==> value == Ok::<V, StorageError>(ready),
        parsed is Err ==> value == Err::<V, StorageError>(StorageError::DeserializationError),
{
    match parsed {
        Ok(ready) => Ok(ready),
        Err(_) => Err(StorageError::DeserializationError),
    }
}

impl<S: Store> Storage<S> {
    /// Puts the facade in front of `store`.
    pub fn new(store: S) -> (storage: Self)
        ensures
            storage@ == store,
    {
        Storage { store }
    }

    /// Takes the facade away and hands the store back.
    pub fn into_store(self) -> (store: S)
        ensures
            store == self@,
    {
        self.store
    }

    /// Encodes `value` with `encode` and stores the bytes under `key`. Where
    /// the encoding fails the store is not touched.
    pub fn set<V, E, F: FnOnce(&V) -> Result<Vec<u8>, E>>(
        &mut self,
        key: &[u8],
        value: &V,
        encode: F,
    ) -> (outcome: Result<(), StorageError>)
        requires
            encode.requires((value,)),
        ensures
            exists|encoded: Result<Vec<u8>, E>| #[trigger]
                encode.ensures((value,), encoded) && write_outcome(
                    &old(self)@,
                    key@,
                    encoded,
                    &final(self)@,
                    outcome,
                ),
    {
        let encoded = encode(value);
        let ghost witness = encoded;
        let outcome = match serialize(encoded) {
            Ok(bytes) => self.store.set(slice_to_vec(key), bytes),
            Err(err) => Err(err),
        };
        assert(encode.ensures((value,), witness) && write_outcome(
            &old(self)@,
            key@,
            witness,
            &self@,
            outcome,
        ));
        outcome
    }

    /// Looks `key` up and decodes what is found with `decode`. A key that
    /// holds nothing gives `None`; a payload that does not decode gives
    /// `DeserializationError`, never `None` and never a made-up value.
    pub fn get<V, E, F: FnOnce(&[u8]) -> Result<V, E>>(&self, key: &[u8], decode: F) -> (outcome:
        Result<Option<V>, StorageError>)
        requires
            forall|payload: &[u8]| decode.requires((payload,)),
        ensures
            exists|found: Result<Option<Seq<u8>>, StorageError>|
                {
                    &&& #[trigger] self@.get_spec(key@, found)
                    &&& found matches Ok(Some(stored)) ==> exists|payload: &[u8], parsed: Result<V, E>|
                        {
                            &&& payload@ == stored
                            &&& #[trigger] decode.ensures((payload,), parsed)
                            &&& outcome == decoded(parsed)
                        }
                    &&& found matches Ok(None) ==> outcome == Ok::<Option<V>, StorageError>(None)
                    &&& found matches Err(err) ==> outcome == Err::<Option<V>, StorageError>(err)
                },
    {
        let looked = self.store.get(slice_to_vec(key));
        let ghost found = lookup_view(looked);
        assert(self@.get_spec(key@, found));
        match looked {
            Ok(Some(stored)) => {
                let payload = stored.as_slice();
                let parsed = decode(payload);
                let ghost witness = parsed;
                let outcome = match deserialize(parsed) {
                    Ok(value) => Ok(Some(value)),
                    Err(err) => Err(err),
                };
                assert(decode.ensures((payload,), witness) && outcome == decoded(witness));
                outcome
            },
            Ok(None) => Ok(None),
            Err(err) => Err(err),
        }
    }

    /// Removes what `key` holds.
    pub fn delete(&mut self, key: &[u8]) -> (outcome: Result<(), StorageError>)
        ensures
            S::delete_spec(&old(self)@, key@, &final(self)@, outcome),
    {
        self.store.delete(slice_to_vec(key))
    }
}

} // verus!
