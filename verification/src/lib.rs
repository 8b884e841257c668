//! A minimal persistent single-record ledger: one token record (identifier,
//! owner, balance) held in a durable store as a single binary blob.
//!
//! The library proves the persistence contract: how the record is encoded,
//! committed to the store in one whole-value replace, and reloaded, so that
//! no read ever observes a torn or stale record.

pub mod codec;
pub mod store;
pub mod token;
