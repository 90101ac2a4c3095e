use vstd::prelude::*;

use crate::key::Key;

verus! {

/// A UTC instant: whole seconds since the Unix epoch and nanoseconds past that
/// second (above 999_999_999 only during a leap second).
#[derive(Debug, Clone, Copy, PartialEq, Eq, Structural, PartialOrd, Ord)]
pub struct Timestamp {
    pub secs: i64,
    pub nanos: u32,
}

impl Timestamp {
    /// `self` is strictly earlier than `other`.
    pub open spec fn before(self, other: Timestamp) -> bool {
        self.secs < other.secs || (self.secs == other.secs && self.nanos < other.nanos)
    }

    /// `self` is not later than `other`.
    pub open spec fn not_after(self, other: Timestamp) -> bool {
        self.before(other) || self == other
    }
}

/// When a record was first stored and when it was last written.
#[derive(Debug, Clone, Copy, PartialEq, Eq, Structural)]
pub struct Metadata {
    pub created_at: Timestamp,
    pub updated_at: Timestamp,
}

/// A request to store `value` under `key`.
#[derive(Debug)]
pub struct CreateKVRequest {
    pub key: Key,
    pub value: String,
}

/// A request to store `value` under a key given elsewhere.
#[derive(Debug)]
pub struct UpdateKVRequest {
    pub value: String,
}

/// A stored value with its key and timestamps.
#[derive(Debug, Clone)]
pub struct KeyValueResponse {
    pub key: Key,
    pub value: String,
    pub metadata: Metadata,
}

/// A stored value with its timestamps: the record that the store keeps per key.
#[derive(Debug, Clone)]
pub struct ValueResponse {
    pub value: String,
    pub metadata: Metadata,
}

/// A machine-readable code and a message describing a failure.
#[derive(Debug)]
pub struct ErrorDetail {
    pub code: String,
    pub message: String,
}

/// The body sent back when a request fails.
#[derive(Debug)]
pub struct ErrorResponse {
    pub error: ErrorDetail,
}

impl ValueResponse {
    /// The record as the store's model sees it: the value's text and its timestamps.
    pub open spec fn entry(self) -> (Seq<char>, Metadata) {
        (self.value@, self.metadata)
    }
}

} // verus!
