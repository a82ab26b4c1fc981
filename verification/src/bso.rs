//! The generic record envelope exchanged with the storage service.
//!
//! Every stored record travels inside one envelope: a collection-unique
//! id, the server-assigned modification stamp, optional sort index and
//! time-to-live, and the payload. Fetched envelopes are immutable
//! snapshots; locally created ones leave `modified` at zero for the server
//! to fill.

use vstd::prelude::*;
use crate::timestamp::ServerTimestamp;

verus! {

/// A record envelope.
#[derive(Clone, Debug)]
pub struct BsoRecord<T> {
    /// The record id, unique within its collection.
    pub id: String,
    /// The collection the record belongs to.
    pub collection: String,
    /// The server-assigned modification stamp; zero until the server
    /// assigns one.
    pub modified: ServerTimestamp,
    /// The position of the record in a sorted fetch, when the collection
    /// uses one.
    pub sortindex: Option<i32>,
    /// Seconds the server keeps the record, when bounded.
    pub ttl: Option<u32>,
    /// The payload carried by the envelope.
    pub payload: T,
}

/// The encrypted payload of a stored record; deciphering it is the crypto
/// collaborator's work, never this crate's.
#[derive(Clone, Debug)]
pub struct EncryptedPayload {
    pub iv: String,
    pub hmac: String,
    pub ciphertext: String,
}

/// An envelope holding an encrypted payload.
pub type EncryptedBso = BsoRecord<EncryptedPayload>;

impl<T> BsoRecord<T> {
    /// A locally created record, before upload: the server has not
    /// assigned it a stamp yet.
    pub fn new_record(id: String, collection: String, payload: T) -> (r: BsoRecord<T>)
        ensures
            r.id == id,
            r.collection == collection,
            r.modified.millis == 0,
            r.sortindex is None,
            r.ttl is None,
            r.payload == payload,
    {
        BsoRecord {
            id,
            collection,
            modified: ServerTimestamp { millis: 0 },
            sortindex: None,
            ttl: None,
            payload,
        }
    }

    /// Replaces the payload, keeping the envelope.
    pub fn with_payload<U>(self, payload: U) -> (r: BsoRecord<U>)
        ensures
            r.id == self.id,
            r.collection == self.collection,
            r.modified == self.modified,
            r.sortindex == self.sortindex,
            r.ttl == self.ttl,
            r.payload == payload,
    {
        BsoRecord {
            id: self.id,
            collection: self.collection,
            modified: self.modified,
            sortindex: self.sortindex,
            ttl: self.ttl,
            payload,
        }
    }
}

/// The singleton global metadata record: the storage-format version, the
/// global sync id, and each engine's declared version and sync id.
#[derive(Clone, Debug)]
pub struct MetaGlobalRecord {
    /// The sync id of the whole account; a change means the remote data is
    /// a new incarnation.
    pub sync_id: String,
    /// The storage format version the account uses.
    pub storage_version: u64,
    /// Per-engine declarations, keyed by collection name.
    pub engines: Vec<(String, MetaGlobalEngine)>,
    /// Engines the user declined to sync.
    pub declined: Vec<String>,
}

/// One engine's declaration inside the global metadata record.
#[derive(Debug)]
pub struct MetaGlobalEngine {
    /// The format version of this engine's records.
    pub version: u64,
    /// The sync id of this engine's collection.
    pub sync_id: String,
}

impl Clone for MetaGlobalEngine {
    /// A clone is equal to the original.
    fn clone(&self) -> (r: Self)
        ensures
            r == *self,
    {
        MetaGlobalEngine { version: self.version, sync_id: self.sync_id.clone() }
    }
}

} // verus!
