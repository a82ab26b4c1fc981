//! A client-side engine for a versioned-record synchronization protocol.
//!
//! The crate models the protocol layers of a sync client: server-issued
//! timestamps and record envelopes, classification of storage-server
//! responses, a batching upload queue with atomic commit semantics, a
//! multi-engine sync lifecycle with per-engine failure isolation, and the
//! cross-device command protocol. Network transport, authentication and
//! record encryption are collaborators supplied by the embedding
//! application through narrow trait interfaces.

pub mod timestamp;
pub mod error;
pub mod fmt;
pub mod urls;
pub mod config;
pub mod request;
pub mod bso;
pub mod client;
pub mod queue;
pub mod clients;
pub mod state;
pub mod tabs_record;
pub mod tabs_storage;
pub mod tabs_store;
pub mod tabs_engine;
