//! The outbox row every canonical store writes, in the same shape on every
//! backend so a consumer can read events without per-backend knowledge.
use vstd::prelude::*;

verus! {

/// `serde_json::Value`, carried through as an event's body.
#[verifier::external_type_specification]
#[verifier::external_body]
pub struct ExJsonValue(serde_json::Value);

/// One row of a store's outbox table.
#[derive(Debug)]
pub struct OutboxEvent {
    /// Monotone per-store sequence, unique within the store.
    pub event_seq: i64,
    /// Logical event identifier; the consumer's idempotency key.
    pub event_id: String,
    /// Topic-like label the change-data publisher routes by.
    pub topic: String,
    /// Partition key for the downstream broker.
    pub partition_key: String,
    /// Event body.
    pub payload: serde_json::Value,
    /// Unix milliseconds when the row was inserted.
    pub created_at_unix_ms: i64,
}

} // verus!
