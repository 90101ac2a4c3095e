//! An in-memory key-value store with validated keys and timestamp bookkeeping.
//!
//! `key` holds the validated key type, `models` the record and request shapes,
//! `error` the store's failure kinds, and `storage` the store itself.
pub mod error;
pub mod key;
pub mod models;
pub mod storage;

pub use error::StorageError;
pub use key::{Key, KeyError};
pub use storage::{InMemoryStorage, Storage};
pub use models::{
    CreateKVRequest, ErrorDetail, ErrorResponse, KeyValueResponse, Metadata, Timestamp,
    UpdateKVRequest, ValueResponse,
};
