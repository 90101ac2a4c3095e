use vstd::prelude::*;
use vstd::string::*;

use crate::key::Key;
use crate::models::{ErrorDetail, ErrorResponse};

verus! {

/// The two expected outcomes of a store operation that does not succeed; each
/// carries the key that caused it.
#[derive(Debug, Clone, PartialEq)]
pub enum StorageError {
    KeyNotFound(Key),
    KeyAlreadyExists(Key),
}

impl StorageError {
    /// The key that the error is about.
    pub open spec fn key_view(&self) -> Seq<char> {
        match self {
            StorageError::KeyNotFound(k) => k@,
            StorageError::KeyAlreadyExists(k) => k@,
        }
    }

    /// The stable machine-readable code of the error.
    pub fn error_code(&self) -> (r: &'static str)
        ensures
            r@ == error_code_text(*self),
    {
        match self {
            StorageError::KeyNotFound(_) => "KEY_NOT_FOUND",
            StorageError::KeyAlreadyExists(_) => "KEY_ALREADY_EXISTS",
        }
    }

    /// The human-readable message of the error, naming its key.
    pub fn to_string(&self) -> (r: String)
        ensures
            r@ == error_message_text(*self),
    {
        match self {
            StorageError::KeyNotFound(key) => {
                let mut m = String::from_str("The key '");
                m.append(key.as_str());
                m.append("' does not exist in the store");
                m
            },
            StorageError::KeyAlreadyExists(key) => {
                let mut m = String::from_str("The key '");
                m.append(key.as_str());
                m.append("' already exists in the store");
                m
            },
        }
    }

    /// The error body that reports this error: its code and its message.
    pub fn to_response(&self) -> (r: ErrorResponse)
        ensures
            r.error.code@ == error_code_text(*self),
            r.error.message@ == error_message_text(*self),
    {
        let code = String::from_str(self.error_code());
        let message = self.to_string();
        ErrorResponse { error: ErrorDetail { code, message } }
    }
}

/// The code of each error kind.
pub open spec fn error_code_text(e: StorageError) -> Seq<char> {
    match e {
        StorageError::KeyNotFound(_) => "KEY_NOT_FOUND"@,
        StorageError::KeyAlreadyExists(_) => "KEY_ALREADY_EXISTS"@,
    }
}

/// The message of each error, around the text of its key.
pub open spec fn error_message_text(e: StorageError) -> Seq<char> {
    match e {
        StorageError::KeyNotFound(k) => "The key '"@ + k@ + "' does not exist in the store"@,
        StorageError::KeyAlreadyExists(k) => "The key '"@ + k@ + "' already exists in the store"@,
    }
}

} // verus!
