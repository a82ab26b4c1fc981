//! The tabs engine's store: the six lifecycle capabilities over the tabs
//! model.
//!
//! Applying an incoming change set replaces the remembered remote tabs
//! with every fetched record except this client's own and those whose
//! payload failed to decode, and offers this client's own tabs back as
//! the outgoing change set.

use vstd::prelude::*;
use crate::error::ErrorKind;
use crate::request::CollectionRequest;
use crate::state::{
    IncomingChangeset, IncomingRecord, OutgoingChangeset, OutgoingItem, Store,
    StoreSyncAssociation,
};
use crate::tabs_record::ClientTabsRecord;
use crate::tabs_storage::{record_from_rt, rt_from_record, ClientRemoteTabs};
use crate::timestamp::ServerTimestamp;

verus! {

/// Whether one fetched record enters the remembered remote tabs: not this
/// client's own record, and its payload decoded.
pub open spec fn spec_keep(c: IncomingRecord<ClientTabsRecord>, local_id: Seq<char>) -> bool {
    c.id@ != local_id && c.record is Some
}

/// The records of `changes` that enter the remembered remote tabs, in
/// order: each record's id and decoded payload.
pub open spec fn spec_kept(
    changes: Seq<IncomingRecord<ClientTabsRecord>>,
    local_id: Seq<char>,
) -> Seq<(String, ClientTabsRecord)>
    decreases changes.len(),
{
    if changes.len() == 0 {
        Seq::empty()
    } else {
        let rest = spec_kept(changes.drop_last(), local_id);
        if spec_keep(changes.last(), local_id) {
            rest.push((changes.last().id, changes.last().record.unwrap()))
        } else {
            rest
        }
    }
}

/// Whether `crt` is the in-memory form of the record `rec` fetched under
/// id `id`: the same client id, and every tab converted from the wire.
pub open spec fn spec_crt_from(crt: ClientRemoteTabs, id: String, rec: ClientTabsRecord) -> bool {
    &&& crt.client_id == id
    &&& crt.remote_tabs@.len() == rec.tabs@.len()
    &&& forall|j: int|
        0 <= j < rec.tabs@.len() ==> rt_from_record(#[trigger] crt.remote_tabs@[j], rec.tabs@[j])
}

/// The since-bound of the next fetch: the last finished sync's stamp, or
/// the zero stamp when none finished yet.
pub open spec fn spec_since(last_sync: Option<ServerTimestamp>) -> ServerTimestamp {
    match last_sync {
        Some(ts) => ts,
        None => ServerTimestamp { millis: 0 },
    }
}

/// The tabs store taking part in the sync lifecycle.
#[derive(Debug)]
pub struct TabsStore {
    /// This client's device id; its own record is skipped on apply.
    pub local_id: String,
    /// This client's own tabs, offered as the outgoing change set.
    pub local_tabs: Option<ClientRemoteTabs>,
    /// The remote tabs the last apply kept.
    pub remote_tabs: Vec<ClientRemoteTabs>,
    /// The high-water stamp of the last finished sync.
    pub last_sync: Option<ServerTimestamp>,
    /// The store's binding to the remote incarnation of the collection.
    pub sync_assoc: StoreSyncAssociation,
}

impl TabsStore {
    /// A store for the client with the given device id, with no tabs and
    /// no sync state.
    pub fn new(local_id: &str) -> (r: TabsStore)
        ensures
            r.local_id@ == local_id@,
            r.local_tabs is None,
            r.remote_tabs@.len() == 0,
            r.last_sync is None,
            r.sync_assoc is Disconnected,
    {
        TabsStore {
            local_id: local_id.to_owned(),
            local_tabs: None,
            remote_tabs: Vec::new(),
            last_sync: None,
            sync_assoc: StoreSyncAssociation::Disconnected,
        }
    }

    /// Applies one incoming change set: keeps every fetched record except
    /// this client's own and the undecodable ones, and returns this
    /// client's own tabs as the outgoing change set, stamped with the
    /// fetch's stamp.
    pub fn apply_incoming_records(&mut self, inbound: IncomingChangeset<ClientTabsRecord>) -> (r:
        Result<OutgoingChangeset<ClientTabsRecord>, ErrorKind>)
        ensures
            r is Ok,
            final(self).local_id == old(self).local_id,
            final(self).local_tabs == old(self).local_tabs,
            final(self).last_sync == old(self).last_sync,
            final(self).sync_assoc == old(self).sync_assoc,
            final(self).remote_tabs@.len() == spec_kept(
                inbound.changes@,
                old(self).local_id@,
            ).len(),
            forall|k: int|
                0 <= k < final(self).remote_tabs@.len() ==> spec_crt_from(
                    #[trigger] final(self).remote_tabs@[k],
                    spec_kept(inbound.changes@, old(self).local_id@)[k].0,
                    spec_kept(inbound.changes@, old(self).local_id@)[k].1,
                ),
            forall|k: int|
                0 <= k < final(self).remote_tabs@.len()
                    ==> (#[trigger] final(self).remote_tabs@[k]).client_id@ != old(self).local_id@,
            r matches Ok(out) ==> {
                &&& out.collection@ == "tabs"@
                &&& out.timestamp == inbound.timestamp
                &&& (old(self).local_tabs is None ==> out.changes@.len() == 0)
                &&& (old(self).local_tabs matches Some(lt) ==> {
                    &&& out.changes@.len() == 1
                    &&& out.changes@[0].id == lt.client_id
                    &&& out.changes@[0].record.id == lt.client_id
                    &&& out.changes@[0].record.tabs@.len() == lt.remote_tabs@.len()
                    &&& forall|i: int|
                        0 <= i < lt.remote_tabs@.len() ==> record_from_rt(
                            #[trigger] out.changes@[0].record.tabs@[i],
                            lt.remote_tabs@[i],
                        )
                })
            },
    {
        let ghost original = inbound.changes@;
        let ghost local_id_view = self.local_id@;
        let mut changes = inbound.changes;
        self.remote_tabs = Vec::new();
        let ghost mut i: int = 0;
        while changes.len() > 0
            invariant
                0 <= i <= original.len(),
                changes@ =~= original.skip(i),
                self.local_id@ == local_id_view,
                self.local_tabs == old(self).local_tabs,
                self.local_id == old(self).local_id,
                self.last_sync == old(self).last_sync,
                self.sync_assoc == old(self).sync_assoc,
                self.remote_tabs@.len() == spec_kept(original.take(i), local_id_view).len(),
                forall|k: int|
                    0 <= k < self.remote_tabs@.len() ==> spec_crt_from(
                        #[trigger] self.remote_tabs@[k],
                        spec_kept(original.take(i), local_id_view)[k].0,
                        spec_kept(original.take(i), local_id_view)[k].1,
                    ),
                forall|k: int|
                    0 <= k < self.remote_tabs@.len() ==> (#[trigger] self.remote_tabs@[k]).client_id@
                        != local_id_view,
            decreases changes@.len(),
        {
            let c = changes.remove(0);
            proof {
                assert(original.skip(i)[0] == original[i]);
                assert(changes@ =~= original.skip(i + 1));
                assert(original.take(i + 1).drop_last() =~= original.take(i));
                assert(original.take(i + 1).last() == original[i]);
            }
            let own_record = c.id == self.local_id;
            match c.record {
                Some(record) => {
                    if !own_record {
                        let entry = ClientRemoteTabs::from_record(c.id, record);
                        self.remote_tabs.push(entry);
                    }
                },
                None => {},
            }
            proof {
                let kept_new = spec_kept(original.take(i + 1), local_id_view);
                let kept_old = spec_kept(original.take(i), local_id_view);
                if spec_keep(original[i], local_id_view) {
                    assert(kept_new == kept_old.push(
                        (original[i].id, original[i].record.unwrap()),
                    ));
                } else {
                    assert(kept_new == kept_old);
                }
                i = i + 1;
            }
        }
        proof {
            assert(original.take(original.len() as int) =~= original);
        }
        let mut out_changes: Vec<OutgoingItem<ClientTabsRecord>> = Vec::new();
        match &self.local_tabs {
            Some(lt) => {
                let record = lt.to_record();
                out_changes.push(OutgoingItem { id: record.id.clone(), record });
            },
            None => {},
        }
        Ok(OutgoingChangeset {
            collection: String::from_str("tabs"),
            timestamp: inbound.timestamp,
            changes: out_changes,
        })
    }
}

impl TabsStore {
    /// The stable collection name, the same on every call.
    pub fn tabs_collection_name(&self) -> (r: String)
        ensures
            r@ == "tabs"@,
    {
        String::from_str("tabs")
    }

    /// The store's fetch descriptor: a full fetch of the tabs collection
    /// bounded to records newer than the last finished sync's stamp, or
    /// the zero stamp when none finished yet.
    pub fn make_collection_request(&self) -> (r: CollectionRequest)
        ensures
            r.collection@ == "tabs"@,
            r.full,
            r.ids is None,
            r.newer == Some(spec_since(self.last_sync)),
            r.limit == 0,
            r.order is None,
            r.batch is None,
            !r.commit,
    {
        let since = match self.last_sync {
            Some(ts) => ts,
            None => ServerTimestamp::from_millis(0),
        };
        CollectionRequest::new(String::from_str("tabs")).full().newer_than(since)
    }

    /// Records a finished sync: the last-sync stamp becomes the new
    /// high-water mark and nothing else changes. The synced ids carry no
    /// extra bookkeeping for tabs.
    pub fn note_sync_finished(&mut self, new_timestamp: ServerTimestamp)
        ensures
            final(self).last_sync == Some(new_timestamp),
            final(self).local_id == old(self).local_id,
            final(self).local_tabs == old(self).local_tabs,
            final(self).remote_tabs == old(self).remote_tabs,
            final(self).sync_assoc == old(self).sync_assoc,
    {
        self.last_sync = Some(new_timestamp);
    }

    /// The stored sync association, as last adopted.
    pub fn current_sync_assoc(&self) -> (r: StoreSyncAssociation)
        ensures
            r == self.sync_assoc,
    {
        self.sync_assoc.clone()
    }

    /// Resets local sync state: the remembered remote tabs and the
    /// last-sync stamp are dropped and the given association is adopted;
    /// this client's own tabs data is kept — reset is about sync state,
    /// wipe is about data.
    pub fn reset_sync_state(&mut self, assoc: &StoreSyncAssociation)
        ensures
            final(self).remote_tabs@.len() == 0,
            final(self).last_sync is None,
            final(self).sync_assoc == *assoc,
            final(self).local_id == old(self).local_id,
            final(self).local_tabs == old(self).local_tabs,
    {
        self.remote_tabs = Vec::new();
        self.last_sync = None;
        self.sync_assoc = assoc.clone();
    }

    /// Erases all local data and sync state; only the device id remains.
    pub fn wipe_local(&mut self)
        ensures
            final(self).local_tabs is None,
            final(self).remote_tabs@.len() == 0,
            final(self).last_sync is None,
            final(self).sync_assoc is Disconnected,
            final(self).local_id == old(self).local_id,
    {
        self.local_tabs = None;
        self.remote_tabs = Vec::new();
        self.last_sync = None;
        self.sync_assoc = StoreSyncAssociation::Disconnected;
    }
}

impl Store<ClientTabsRecord> for TabsStore {
    fn collection_name(&self) -> String {
        self.tabs_collection_name()
    }

    fn get_collection_request(&self) -> Result<CollectionRequest, ErrorKind> {
        Ok(self.make_collection_request())
    }

    fn apply_incoming(&mut self, inbound: IncomingChangeset<ClientTabsRecord>) -> Result<
        OutgoingChangeset<ClientTabsRecord>,
        ErrorKind,
    > {
        self.apply_incoming_records(inbound)
    }

    fn sync_finished(&mut self, new_timestamp: ServerTimestamp, records_synced: Vec<String>) -> Result<
        (),
        ErrorKind,
    > {
        let _ = records_synced;
        self.note_sync_finished(new_timestamp);
        Ok(())
    }

    fn get_sync_assoc(&self) -> Result<StoreSyncAssociation, ErrorKind> {
        Ok(self.current_sync_assoc())
    }

    fn reset(&mut self, assoc: &StoreSyncAssociation) -> Result<(), ErrorKind> {
        self.reset_sync_state(assoc);
        Ok(())
    }

    fn wipe(&mut self) -> Result<(), ErrorKind> {
        self.wipe_local();
        Ok(())
    }
}

} // verus!
