//! The in-memory tabs model: this client's open tabs and the last-seen
//! tabs of every other client on the account.
//!
//! Tab times are milliseconds in memory and whole seconds on the wire;
//! the conversions round down and treat an overflowing product as zero,
//! and converting there and back returns the original second count.

use vstd::prelude::*;
use crate::tabs_record::{ClientTabsRecord, TabsRecordTab};

verus! {

/// One tab of some client.
#[derive(Debug)]
pub struct RemoteTab {
    /// The tab's title.
    pub title: String,
    /// The tab's history, current URL first.
    pub url_history: Vec<String>,
    /// The URL of the tab's icon, when one is known.
    pub icon: Option<String>,
    /// When the tab was last used, in milliseconds.
    pub last_used: u64,
}

/// The tabs of one client of the account.
#[derive(Debug)]
pub struct ClientRemoteTabs {
    /// The device id of the client the tabs belong to.
    pub client_id: String,
    /// That client's open tabs.
    pub remote_tabs: Vec<RemoteTab>,
}

/// Whether two tabs hold the same data.
pub open spec fn rt_eq(a: RemoteTab, b: RemoteTab) -> bool {
    &&& a.title == b.title
    &&& a.url_history@ == b.url_history@
    &&& a.icon == b.icon
    &&& a.last_used == b.last_used
}

/// Whether two per-client tab lists hold the same data.
pub open spec fn crt_eq(a: ClientRemoteTabs, b: ClientRemoteTabs) -> bool {
    &&& a.client_id == b.client_id
    &&& a.remote_tabs@.len() == b.remote_tabs@.len()
    &&& forall|i: int|
        0 <= i < a.remote_tabs@.len() ==> rt_eq(#[trigger] a.remote_tabs@[i], b.remote_tabs@[i])
}

/// The millisecond count a wire second count becomes: the product, or
/// zero when it cannot be represented.
pub open spec fn spec_seconds_to_millis(seconds: u64) -> u64 {
    if seconds * 1000 <= u64::MAX {
        (seconds * 1000) as u64
    } else {
        0
    }
}

/// Whether `r` is the in-memory form of the wire tab `t`.
pub open spec fn rt_from_record(r: RemoteTab, t: TabsRecordTab) -> bool {
    &&& r.title == t.title
    &&& r.url_history@ == t.url_history@
    &&& r.icon == t.icon
    &&& r.last_used == spec_seconds_to_millis(t.last_used)
}

/// Whether `t` is the wire form of the in-memory tab `r`.
pub open spec fn record_from_rt(t: TabsRecordTab, r: RemoteTab) -> bool {
    &&& t.title == r.title
    &&& t.url_history@ == r.url_history@
    &&& t.icon == r.icon
    &&& t.last_used == r.last_used / 1000
}

/// Copies a list of strings.
fn clone_string_vec(v: &Vec<String>) -> (r: Vec<String>)
    ensures
        r@ == v@,
{
    let n = v.len();
    let mut out: Vec<String> = Vec::new();
    let mut i: usize = 0;
    while i < n
        invariant
            0 <= i <= n,
            n == v@.len(),
            out@.len() == i,
            forall|j: int| 0 <= j < i ==> out@[j] == v@[j],
        decreases n - i,
    {
        out.push(v[i].clone());
        i += 1;
    }
    proof {
        assert(out@ =~= v@);
    }
    out
}

/// Copies an optional string.
fn clone_string_opt(v: &Option<String>) -> (r: Option<String>)
    ensures
        r == *v,
{
    match v {
        Some(s) => Some(s.clone()),
        None => None,
    }
}

impl Clone for RemoteTab {
    /// A clone holds the same data.
    fn clone(&self) -> (r: Self)
        ensures
            rt_eq(r, *self),
    {
        RemoteTab {
            title: self.title.clone(),
            url_history: clone_string_vec(&self.url_history),
            icon: clone_string_opt(&self.icon),
            last_used: self.last_used,
        }
    }
}

impl Clone for ClientRemoteTabs {
    /// A clone holds the same data.
    fn clone(&self) -> (r: Self)
        ensures
            crt_eq(r, *self),
    {
        let n = self.remote_tabs.len();
        let mut tabs: Vec<RemoteTab> = Vec::new();
        let mut i: usize = 0;
        while i < n
            invariant
                0 <= i <= n,
                n == self.remote_tabs@.len(),
                tabs@.len() == i,
                forall|j: int| 0 <= j < i ==> rt_eq(#[trigger] tabs@[j], self.remote_tabs@[j]),
            decreases n - i,
        {
            tabs.push(self.remote_tabs[i].clone());
            i += 1;
        }
        ClientRemoteTabs { client_id: self.client_id.clone(), remote_tabs: tabs }
    }
}

impl RemoteTab {
    /// The in-memory form of one wire tab: seconds become milliseconds,
    /// an unrepresentable product becomes zero.
    pub fn from_record_tab(tab: &TabsRecordTab) -> (r: RemoteTab)
        ensures
            rt_from_record(r, *tab),
    {
        let last_used: u64 = match tab.last_used.checked_mul(1000) {
            Some(ms) => ms,
            None => 0,
        };
        RemoteTab {
            title: tab.title.clone(),
            url_history: clone_string_vec(&tab.url_history),
            icon: clone_string_opt(&tab.icon),
            last_used,
        }
    }

    /// The wire form of this tab: milliseconds become whole seconds.
    pub fn to_record_tab(&self) -> (r: TabsRecordTab)
        ensures
            record_from_rt(r, *self),
    {
        TabsRecordTab {
            title: self.title.clone(),
            url_history: clone_string_vec(&self.url_history),
            icon: clone_string_opt(&self.icon),
            last_used: self.last_used / 1000,
        }
    }
}

impl ClientRemoteTabs {
    /// The in-memory form of one client's wire record.
    pub fn from_record(client_id: String, record: ClientTabsRecord) -> (r: ClientRemoteTabs)
        ensures
            r.client_id == client_id,
            r.remote_tabs@.len() == record.tabs@.len(),
            forall|i: int|
                0 <= i < record.tabs@.len() ==> rt_from_record(
                    #[trigger] r.remote_tabs@[i],
                    record.tabs@[i],
                ),
    {
        let n = record.tabs.len();
        let mut tabs: Vec<RemoteTab> = Vec::new();
        let mut i: usize = 0;
        while i < n
            invariant
                0 <= i <= n,
                n == record.tabs@.len(),
                tabs@.len() == i,
                forall|j: int|
                    0 <= j < i ==> rt_from_record(#[trigger] tabs@[j], record.tabs@[j]),
            decreases n - i,
        {
            tabs.push(RemoteTab::from_record_tab(&record.tabs[i]));
            i += 1;
        }
        ClientRemoteTabs { client_id, remote_tabs: tabs }
    }

    /// The wire form of this client's tabs.
    pub fn to_record(&self) -> (r: ClientTabsRecord)
        ensures
            r.id == self.client_id,
            r.tabs@.len() == self.remote_tabs@.len(),
            forall|i: int|
                0 <= i < self.remote_tabs@.len() ==> record_from_rt(
                    #[trigger] r.tabs@[i],
                    self.remote_tabs@[i],
                ),
    {
        let n = self.remote_tabs.len();
        let mut tabs: Vec<TabsRecordTab> = Vec::new();
        let mut i: usize = 0;
        while i < n
            invariant
                0 <= i <= n,
                n == self.remote_tabs@.len(),
                tabs@.len() == i,
                forall|j: int|
                    0 <= j < i ==> record_from_rt(#[trigger] tabs@[j], self.remote_tabs@[j]),
            decreases n - i,
        {
            tabs.push(self.remote_tabs[i].to_record_tab());
            i += 1;
        }
        ClientTabsRecord { id: self.client_id.clone(), tabs }
    }
}

/// Law: converting a wire tab to its in-memory form and back returns the
/// same tab, whenever its second count survives the millisecond
/// conversion.
pub proof fn lemma_record_tab_round_trip(t: TabsRecordTab, r: RemoteTab, t2: TabsRecordTab)
    requires
        rt_from_record(r, t),
        record_from_rt(t2, r),
        t.last_used * 1000 <= u64::MAX,
    ensures
        t2.title == t.title,
        t2.url_history@ == t.url_history@,
        t2.icon == t.icon,
        t2.last_used == t.last_used,
{
    assert(r.last_used == t.last_used * 1000);
    assert(t.last_used * 1000 / 1000 == t.last_used) by (nonlinear_arith);
}

/// This client's local tabs and the last-seen tabs of the other clients.
#[derive(Debug)]
pub struct TabsStorage {
    /// This client's own tabs, once the embedding application reported
    /// them.
    pub local_tabs: Option<ClientRemoteTabs>,
    /// The other clients' tabs, once a sync brought them.
    pub remote_tabs: Option<Vec<ClientRemoteTabs>>,
}

impl TabsStorage {
    /// Empty storage: no local state reported, no remote tabs seen.
    pub fn new() -> (r: Self)
        ensures
            r.local_tabs is None,
            r.remote_tabs is None,
    {
        TabsStorage { local_tabs: None, remote_tabs: None }
    }

    /// Replaces this client's own tabs.
    pub fn update_local_state(&mut self, local_state: ClientRemoteTabs)
        ensures
            final(self).local_tabs == Some(local_state),
            final(self).remote_tabs == old(self).remote_tabs,
    {
        self.local_tabs = Some(local_state);
    }

    /// This client's own tabs, when reported.
    pub fn get_local_tabs(&self) -> (r: Option<&ClientRemoteTabs>)
        ensures
            (r matches Some(t) ==> self.local_tabs == Some(*t)),
            r is None <==> self.local_tabs is None,
    {
        self.local_tabs.as_ref()
    }

    /// A copy of the other clients' tabs, when a sync has brought them.
    pub fn get_remote_tabs(&self) -> (r: Option<Vec<ClientRemoteTabs>>)
        ensures
            r is None <==> self.remote_tabs is None,
            (self.remote_tabs matches Some(v) ==> (r matches Some(out) && out@.len() == v@.len()
                && forall|i: int|
                0 <= i < v@.len() ==> crt_eq(#[trigger] out@[i], v@[i]))),
    {
        match &self.remote_tabs {
            None => None,
            Some(v) => {
                let n = v.len();
                let mut out: Vec<ClientRemoteTabs> = Vec::new();
                let mut i: usize = 0;
                while i < n
                    invariant
                        0 <= i <= n,
                        n == v@.len(),
                        out@.len() == i,
                        forall|j: int| 0 <= j < i ==> crt_eq(#[trigger] out@[j], v@[j]),
                    decreases n - i,
                {
                    out.push(v[i].clone());
                    i += 1;
                }
                Some(out)
            },
        }
    }

    /// Replaces the other clients' tabs with what a sync brought.
    pub fn replace_remote_tabs(&mut self, new_remote_tabs: Vec<ClientRemoteTabs>)
        ensures
            final(self).remote_tabs == Some(new_remote_tabs),
            final(self).local_tabs == old(self).local_tabs,
    {
        self.remote_tabs = Some(new_remote_tabs);
    }

    /// Erases everything this storage holds.
    pub fn wipe(&mut self)
        ensures
            final(self).local_tabs is None,
            final(self).remote_tabs is None,
    {
        self.local_tabs = None;
        self.remote_tabs = None;
    }
}

} // verus!
