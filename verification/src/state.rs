//! The multi-engine sync lifecycle.
//!
//! One sync pass bootstraps shared state in a strict order — server
//! limits, collection inventory, crypto material, global metadata — and
//! then gives every registered engine one isolated apply/upload cycle. A
//! bootstrap failure fails the whole pass before any engine runs; a
//! failure inside one engine's cycle is recorded against that engine only
//! and never prevents the remaining engines from running.
//!
//! The record payload type is a parameter: the storage-client collaborator
//! decodes and encodes wire payloads, and the lifecycle exchanges logical
//! records with the stores.

use vstd::prelude::*;
use crate::bso::{MetaGlobalEngine, MetaGlobalRecord};
use crate::client::{spec_storage_error, SetupStorageClient, Sync15ClientResponse};
use crate::config::{spec_default_config, InfoCollections, InfoConfiguration};
use crate::error::{ErrorKind, ErrorResponse};
use crate::request::CollectionRequest;
use crate::timestamp::ServerTimestamp;

verus! {

/// The pair of sync ids binding local state to one remote incarnation of
/// a collection.
#[derive(Debug)]
pub struct CollSyncIds {
    pub global: String,
    pub coll: String,
}

/// Whether a store's local state is bound to the current remote
/// incarnation of its collection.
#[derive(Debug)]
pub enum StoreSyncAssociation {
    /// Never synced, or the binding was dropped.
    Disconnected,
    /// Bound to the remote incarnation named by these ids.
    Connected(CollSyncIds),
}

impl Clone for CollSyncIds {
    /// A clone is equal to the original.
    fn clone(&self) -> (r: Self)
        ensures
            r == *self,
    {
        CollSyncIds { global: self.global.clone(), coll: self.coll.clone() }
    }
}

impl Clone for StoreSyncAssociation {
    /// A clone is equal to the original.
    fn clone(&self) -> (r: Self)
        ensures
            r == *self,
    {
        match self {
            StoreSyncAssociation::Disconnected => StoreSyncAssociation::Disconnected,
            StoreSyncAssociation::Connected(ids) => StoreSyncAssociation::Connected(ids.clone()),
        }
    }
}

/// One fetched record, decoded by the storage collaborator; `None` when
/// the payload failed to decode.
#[derive(Clone, Debug)]
pub struct IncomingRecord<R> {
    pub id: String,
    pub record: Option<R>,
}

/// The records one fetch handed an engine, with the collection stamp they
/// were fetched at.
#[derive(Clone, Debug)]
pub struct IncomingChangeset<R> {
    pub collection: String,
    pub timestamp: ServerTimestamp,
    pub changes: Vec<IncomingRecord<R>>,
}

/// One record an engine wants uploaded.
#[derive(Clone, Debug)]
pub struct OutgoingItem<R> {
    pub id: String,
    pub record: R,
}

/// The records one engine wants uploaded, with the stamp its fetch
/// observed — the precondition for the upload.
#[derive(Clone, Debug)]
pub struct OutgoingChangeset<R> {
    pub collection: String,
    pub timestamp: ServerTimestamp,
    pub changes: Vec<OutgoingItem<R>>,
}

/// What a finished upload reported: the new collection stamp and the ids
/// the server durably accepted.
#[derive(Clone, Debug)]
pub struct UploadInfo {
    pub new_timestamp: ServerTimestamp,
    pub synced_ids: Vec<String>,
}

/// The six capabilities a per-datatype store exposes to the lifecycle;
/// any data store satisfying them can participate in a pass.
pub trait Store<R> {
    /// The stable collection name of this store.
    fn collection_name(&self) -> String;

    /// The store's own fetch descriptor: its since-bound and filters.
    fn get_collection_request(&self) -> Result<CollectionRequest, ErrorKind>;

    /// Applies one incoming change set and returns the outgoing one.
    fn apply_incoming(&mut self, inbound: IncomingChangeset<R>) -> Result<
        OutgoingChangeset<R>,
        ErrorKind,
    >;

    /// Told, on full success, the new high-water stamp and the ids that
    /// were durably uploaded.
    fn sync_finished(&mut self, new_timestamp: ServerTimestamp, records_synced: Vec<String>) -> Result<
        (),
        ErrorKind,
    >;

    /// The store's current sync association.
    fn get_sync_assoc(&self) -> Result<StoreSyncAssociation, ErrorKind>;

    /// Drops local sync state and adopts the given association.
    fn reset(&mut self, assoc: &StoreSyncAssociation) -> Result<(), ErrorKind>;

    /// Erases all local data.
    fn wipe(&mut self) -> Result<(), ErrorKind>;
}

/// The storage collaborator of one pass: the setup fetches, plus the
/// per-engine fetch and upload, exchanging decoded records.
pub trait SyncClient<R>: SetupStorageClient {
    /// Fetches and decodes the records a collection request selects.
    fn fetch_incoming(&mut self, request: &CollectionRequest) -> Result<
        Sync15ClientResponse<Vec<IncomingRecord<R>>>,
        ErrorKind,
    >;

    /// Uploads one outgoing change set, batched under `config`, with
    /// `xius` as the precondition stamp.
    fn upload_outgoing(
        &mut self,
        config: &InfoConfiguration,
        xius: ServerTimestamp,
        outgoing: &OutgoingChangeset<R>,
    ) -> Result<UploadInfo, ErrorKind>;
}

/// An externally supplied interruption signal, checked before each
/// engine's cycle.
pub trait Interruptee {
    fn was_interrupted(&self) -> bool;
}

/// The signal of an embedding that never interrupts.
#[derive(Clone, Copy, Debug)]
pub struct NeverInterrupts;

impl Interruptee for NeverInterrupts {
    fn was_interrupted(&self) -> bool {
        false
    }
}

/// Whether `assoc` binds local state to exactly the incarnation named by
/// `global` and `coll`.
pub open spec fn spec_assoc_matches(
    assoc: StoreSyncAssociation,
    global: Seq<char>,
    coll: Seq<char>,
) -> bool {
    match assoc {
        StoreSyncAssociation::Connected(ids) => ids.global@ == global && ids.coll@ == coll,
        StoreSyncAssociation::Disconnected => false,
    }
}

/// Decides the global-metadata reconciliation for one engine: a store
/// whose association differs from the server's ids must reset to them
/// before data is exchanged, because diverged ids mean the remote data is
/// a different incarnation of the collection; a matching store keeps its
/// state.
pub fn reset_ids_needed(
    assoc: &StoreSyncAssociation,
    global_id: &String,
    coll_id: &String,
) -> (r: Option<CollSyncIds>)
    ensures
        spec_assoc_matches(*assoc, global_id@, coll_id@) ==> r is None,
        !spec_assoc_matches(*assoc, global_id@, coll_id@) ==> (r matches Some(ids)
            && ids.global@ == global_id@ && ids.coll@ == coll_id@),
{
    match assoc {
        StoreSyncAssociation::Connected(ids) => {
            if ids.global == *global_id && ids.coll == *coll_id {
                return None;
            }
        },
        StoreSyncAssociation::Disconnected => {},
    }
    Some(CollSyncIds { global: global_id.clone(), coll: coll_id.clone() })
}

/// The first engine declaration paired with `name`, scanning left to
/// right.
pub open spec fn spec_engine_lookup(
    entries: Seq<(String, MetaGlobalEngine)>,
    name: Seq<char>,
) -> Option<MetaGlobalEngine>
    decreases entries.len(),
{
    if entries.len() == 0 {
        None
    } else if entries[0].0@ == name {
        Some(entries[0].1)
    } else {
        spec_engine_lookup(entries.skip(1), name)
    }
}

proof fn lemma_engine_lookup_skip(
    entries: Seq<(String, MetaGlobalEngine)>,
    name: Seq<char>,
    i: int,
)
    requires
        0 <= i <= entries.len(),
        forall|j: int| 0 <= j < i ==> entries[j].0@ != name,
    ensures
        spec_engine_lookup(entries, name) == spec_engine_lookup(entries.skip(i), name),
    decreases i,
{
    if i == 0 {
        assert(entries.skip(0) =~= entries);
    } else {
        assert(entries[0].0@ != name);
        assert(forall|j: int| 0 <= j < i - 1 ==> entries.skip(1)[j] == entries[j + 1]);
        lemma_engine_lookup_skip(entries.skip(1), name, i - 1);
        assert(entries.skip(1).skip(i - 1) =~= entries.skip(i));
    }
}

/// The declaration of engine `name` in the global metadata, if listed.
pub fn engine_lookup(meta: &MetaGlobalRecord, name: &String) -> (r: Option<MetaGlobalEngine>)
    ensures
        r == spec_engine_lookup(meta.engines@, name@),
{
    let n = meta.engines.len();
    let mut i: usize = 0;
    while i < n
        invariant
            0 <= i <= n,
            n == meta.engines@.len(),
            forall|j: int| 0 <= j < i ==> meta.engines@[j].0@ != name@,
        decreases n - i,
    {
        if meta.engines[i].0 == *name {
            proof {
                lemma_engine_lookup_skip(meta.engines@, name@, i as int);
                assert(meta.engines@.skip(i as int)[0] == meta.engines@[i as int]);
            }
            return Some(meta.engines[i].1.clone());
        }
        i += 1;
    }
    proof {
        lemma_engine_lookup_skip(meta.engines@, name@, n as int);
        assert(meta.engines@.skip(n as int).len() == 0);
    }
    None
}

/// The structured outcome of one pass: one overall status — an error only
/// when a shared bootstrap step failed — and one outcome per engine.
#[derive(Debug)]
pub struct SyncResult {
    /// `Err` only when a bootstrap step failed, before any engine ran.
    pub service_status: Result<(), ErrorKind>,
    /// One `(collection name, outcome)` entry per registered engine, in
    /// registration order.
    pub engine_results: Vec<(String, Result<(), ErrorKind>)>,
}

/// Decides the configuration bootstrap: a fetched record is used as the
/// pass's limits, a not-found means the server advertises none and the
/// defaults hold, and any other outcome fails the pass.
pub fn classify_config_response(
    response: Result<Sync15ClientResponse<InfoConfiguration>, ErrorKind>,
) -> (r: Result<InfoConfiguration, ErrorKind>)
    ensures
        (response matches Ok(Sync15ClientResponse::Success { record, .. }) ==> r == Ok::<
            _,
            ErrorKind,
        >(record)),
        (response matches Ok(Sync15ClientResponse::Error(ErrorResponse::NotFound { .. })) ==> r
            == Ok::<_, ErrorKind>(spec_default_config())),
        (response matches Ok(resp) ==> (!(resp matches Sync15ClientResponse::Success { .. })
            && !(resp matches Sync15ClientResponse::Error(ErrorResponse::NotFound { .. })) ==> r
            == Err::<InfoConfiguration, _>(spec_storage_error(resp)))),
        (response matches Err(e) ==> r == Err::<InfoConfiguration, _>(e)),
{
    match response {
        Ok(Sync15ClientResponse::Success { record, .. }) => Ok(record),
        Ok(Sync15ClientResponse::Error(ErrorResponse::NotFound { .. })) => Ok(
            InfoConfiguration::default(),
        ),
        Ok(other) => Err(other.create_storage_error()),
        Err(e) => Err(e),
    }
}

/// Collapses one pass's outcome for an embedding that needs one answer:
/// success exactly when the overall status and every engine's entry are
/// successes; a bootstrap error is returned as it stands.
pub fn flatten_sync_result(result: SyncResult) -> (r: Result<(), ErrorKind>)
    ensures
        r is Ok <==> (result.service_status is Ok && forall|i: int|
            0 <= i < result.engine_results@.len() ==> (#[trigger] result.engine_results@[i]).1
                is Ok),
        result.service_status matches Err(e) ==> r == Err::<(), _>(e),
{
    let SyncResult { service_status, engine_results } = result;
    match service_status {
        Err(e) => {
            return Err(e);
        },
        Ok(()) => {},
    }
    proof {
        assert(result.service_status is Ok);
    }
    let n = engine_results.len();
    let mut i: usize = 0;
    while i < n
        invariant
            0 <= i <= n,
            n == engine_results@.len(),
            engine_results@ == result.engine_results@,
            result.service_status is Ok,
            forall|j: int| 0 <= j < i ==> (#[trigger] engine_results@[j]).1 is Ok,
        decreases n - i,
    {
        match &engine_results[i].1 {
            Ok(()) => {},
            Err(e) => {
                return Err(e.clone());
            },
        }
        i += 1;
    }
    Ok(())
}

/// One engine's cycle: reconcile its association against the global
/// metadata, skip the cycle when the collection inventory shows no remote
/// change newer than the store's own bound, and otherwise fetch, apply,
/// upload, and report the new stamp back to the store. Any error aborts
/// this engine's cycle only.
fn sync_one_store<R, C: SyncClient<R>, S: Store<R>>(
    client: &mut C,
    store: &mut S,
    config: &InfoConfiguration,
    collections: &InfoCollections,
    meta: &MetaGlobalRecord,
) -> Result<(), ErrorKind> {
    let name = store.collection_name();
    let assoc = store.get_sync_assoc()?;
    match engine_lookup(meta, &name) {
        Some(engine) => {
            match reset_ids_needed(&assoc, &meta.sync_id, &engine.sync_id) {
                Some(ids) => {
                    store.reset(&StoreSyncAssociation::Connected(ids))?;
                },
                None => {},
            }
        },
        None => {},
    }
    let request = store.get_collection_request()?;
    match &request.newer {
        Some(since) => {
            match collections.get(request.collection.as_str()) {
                Some(stamp) => {
                    if !stamp.is_after(since) {
                        // The inventory shows nothing newer than the
                        // store's bound: no remote changes worth fetching.
                        return Ok(());
                    }
                },
                None => {},
            }
        },
        None => {},
    }
    let response = client.fetch_incoming(&request)?;
    match response {
        Sync15ClientResponse::Success { record, last_modified, .. } => {
            let inbound = IncomingChangeset {
                collection: name,
                timestamp: last_modified,
                changes: record,
            };
            let outgoing = store.apply_incoming(inbound)?;
            let info = client.upload_outgoing(config, last_modified, &outgoing)?;
            store.sync_finished(info.new_timestamp, info.synced_ids)?;
            Ok(())
        },
        other => Err(other.create_storage_error()),
    }
}

/// Runs one whole pass: the four bootstrap steps in their strict order,
/// then every store's cycle. A bootstrap failure is the overall status and
/// no engine runs; afterwards every store gets exactly one outcome entry,
/// so one engine's failure never prevents another's cycle.
pub fn sync_multiple<R, C: SyncClient<R>, S: Store<R>, I: Interruptee>(
    client: &mut C,
    stores: &mut Vec<S>,
    interruptee: &I,
) -> (r: SyncResult)
    ensures
        r.service_status is Ok ==> r.engine_results@.len() == old(stores)@.len(),
        r.service_status is Err ==> r.engine_results@.len() == 0,
        final(stores)@.len() == old(stores)@.len(),
{
    let config = match classify_config_response(client.fetch_info_configuration()) {
        Ok(config) => config,
        Err(e) => {
            return SyncResult { service_status: Err(e), engine_results: Vec::new() };
        },
    };
    let collections = match client.fetch_info_collections() {
        Ok(Sync15ClientResponse::Success { record, .. }) => record,
        Ok(other) => {
            return SyncResult {
                service_status: Err(other.create_storage_error()),
                engine_results: Vec::new(),
            };
        },
        Err(e) => {
            return SyncResult { service_status: Err(e), engine_results: Vec::new() };
        },
    };
    match client.fetch_crypto_keys() {
        Ok(Sync15ClientResponse::Success { .. }) => {},
        Ok(other) => {
            return SyncResult {
                service_status: Err(other.create_storage_error()),
                engine_results: Vec::new(),
            };
        },
        Err(e) => {
            return SyncResult { service_status: Err(e), engine_results: Vec::new() };
        },
    }
    let meta = match client.fetch_meta_global() {
        Ok(Sync15ClientResponse::Success { record, .. }) => record,
        Ok(other) => {
            return SyncResult {
                service_status: Err(other.create_storage_error()),
                engine_results: Vec::new(),
            };
        },
        Err(e) => {
            return SyncResult { service_status: Err(e), engine_results: Vec::new() };
        },
    };
    let n = stores.len();
    let mut processed: Vec<S> = Vec::new();
    let mut engine_results: Vec<(String, Result<(), ErrorKind>)> = Vec::new();
    while stores.len() > 0
        invariant
            processed@.len() + stores@.len() == n,
            engine_results@.len() == processed@.len(),
        decreases stores@.len(),
    {
        let mut store = stores.remove(0);
        let name = store.collection_name();
        let outcome = if interruptee.was_interrupted() {
            Err(ErrorKind::Interrupted)
        } else {
            sync_one_store(client, &mut store, &config, &collections, &meta)
        };
        engine_results.push((name, outcome));
        processed.push(store);
    }
    *stores = processed;
    SyncResult { service_status: Ok(()), engine_results }
}

} // verus!
