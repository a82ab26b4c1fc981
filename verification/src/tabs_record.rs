//! The wire shape of one client's tabs record.
//!
//! A tabs record names its client and lists that client's open tabs, with
//! times in whole seconds; the in-memory model keeps milliseconds. The
//! storage collaborator decodes and encodes these records at the wire.

use vstd::prelude::*;

verus! {

/// One open tab inside a tabs record, as it travels on the wire.
#[derive(Clone, Debug)]
pub struct TabsRecordTab {
    /// The tab's title.
    pub title: String,
    /// The tab's history, current URL first.
    pub url_history: Vec<String>,
    /// The URL of the tab's icon, when one is known.
    pub icon: Option<String>,
    /// When the tab was last used, in seconds.
    pub last_used: u64,
}

/// One client's tabs record, as it travels on the wire.
#[derive(Clone, Debug)]
pub struct ClientTabsRecord {
    /// The record id: the client's device id.
    pub id: String,
    /// The client's open tabs.
    pub tabs: Vec<TabsRecordTab>,
}

} // verus!
