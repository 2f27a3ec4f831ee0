//! The failures a cache operation can report.

use vstd::prelude::*;
use vstd::string::*;

verus! {

/// Every fallible operation of the cache reports one of these.
#[derive(Debug, PartialEq, Eq)]
pub enum StorageError {
    /// The remote service, or the transport to it, failed; the text is its report.
    RedisError(String),
    /// The backend cannot perform the operation that was asked of it.
    MethodNotSupported,
    /// A value could not be encoded before a write.
    SerializationError,
    /// A stored payload could not be decoded into the shape that was asked for.
    DeserializationError,
    /// Any other failure, such as a request that never reached its backend.
    Custom(String),
}

impl StorageError {
    /// The text this error is reported with.
    pub open spec fn spec_message(self) -> Seq<char> {
        match self {
            StorageError::RedisError(text) => "RedisError: "@ + text@,
            StorageError::MethodNotSupported =>
                "StorageError: Method not supported for the storage backend provided"@,
            StorageError::SerializationError => "StorageError: Serialization failed"@,
            StorageError::DeserializationError => "StorageError: Deserialization failed"@,
            StorageError::Custom(text) => "StorageError: "@ + text@,
        }
    }

    /// Wraps the report of a failure that has no variant of its own.
    pub fn custom(text: String) -> (err: Self)
        ensures
            err == StorageError::Custom(text),
    {
        StorageError::Custom(text)
    }

    /// Renders the error for a log line or a response body.
    pub fn message(&self) -> (text: String)
        ensures
            text@ == self.spec_message(),
    {
        match self {
            StorageError::RedisError(report) => {
                String::from_str("RedisError: ").concat(report.as_str())
            },
            StorageError::MethodNotSupported => String::from_str(
                "StorageError: Method not supported for the storage backend provided",
            ),
            StorageError::SerializationError => String::from_str(
                "StorageError: Serialization failed",
            ),
            StorageError::DeserializationError => String::from_str(
                "StorageError: Deserialization failed",
            ),
            StorageError::Custom(report) => {
                String::from_str("StorageError: ").concat(report.as_str())
            },
        }
    }
}

} // verus!
