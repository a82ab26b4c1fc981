//! The tabs engine: storage plus a convenience wrapper around one whole
//! sync pass for the tabs collection alone.

use vstd::prelude::*;
use crate::error::ErrorKind;
use crate::state::{flatten_sync_result, sync_multiple, NeverInterrupts, SyncClient};
use crate::tabs_record::ClientTabsRecord;
use crate::tabs_storage::{crt_eq, ClientRemoteTabs, TabsStorage};
use crate::tabs_store::TabsStore;

verus! {

/// The tabs engine an embedding application holds.
#[derive(Debug)]
pub struct TabsEngine {
    /// The tabs this engine knows about.
    pub storage: TabsStorage,
}

impl TabsEngine {
    /// An engine with empty storage.
    pub fn new() -> (r: TabsEngine)
        ensures
            r.storage.local_tabs is None,
            r.storage.remote_tabs is None,
    {
        TabsEngine { storage: TabsStorage::new() }
    }

    /// A copy of the other clients' tabs, when a sync has brought them.
    pub fn remote_tabs(&self) -> (r: Option<Vec<ClientRemoteTabs>>)
        ensures
            r is None <==> self.storage.remote_tabs is None,
            (self.storage.remote_tabs matches Some(v) ==> (r matches Some(out) && out@.len()
                == v@.len() && forall|i: int|
                0 <= i < v@.len() ==> crt_eq(#[trigger] out@[i], v@[i]))),
    {
        self.storage.get_remote_tabs()
    }

    /// Runs one whole sync pass for the tabs collection: builds a store
    /// over this engine's local tabs, syncs it through `client`, and on
    /// success adopts the remote tabs the pass brought. An error of the
    /// pass, or of the tabs engine within it, is returned.
    pub fn sync<C: SyncClient<ClientTabsRecord>>(&mut self, local_id: &str, client: &mut C) -> (r:
        Result<(), ErrorKind>)
        ensures
            final(self).storage.local_tabs == old(self).storage.local_tabs,
            r is Ok ==> final(self).storage.remote_tabs is Some,
    {
        let mut store = TabsStore::new(local_id);
        match self.storage.get_local_tabs() {
            Some(lt) => {
                store.local_tabs = Some(lt.clone());
            },
            None => {},
        }
        let mut stores: Vec<TabsStore> = Vec::new();
        stores.push(store);
        let result = sync_multiple(client, &mut stores, &NeverInterrupts);
        match flatten_sync_result(result) {
            Ok(()) => {},
            Err(e) => {
                return Err(e);
            },
        }
        match stores.pop() {
            Some(store_back) => {
                self.storage.replace_remote_tabs(store_back.remote_tabs);
                Ok(())
            },
            None => {
                proof {
                    assert(false);
                }
                Ok(())
            },
        }
    }
}

} // verus!
