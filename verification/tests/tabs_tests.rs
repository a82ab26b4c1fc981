//! The tabs model: storage, wire conversions, and the store's apply step.

use sync15::state::{IncomingChangeset, IncomingRecord};
use sync15::tabs_record::{ClientTabsRecord, TabsRecordTab};
use sync15::tabs_storage::{ClientRemoteTabs, RemoteTab, TabsStorage};
use sync15::tabs_store::TabsStore;
use sync15::timestamp::ServerTimestamp;

fn tab(title: &str, last_used_seconds: u64) -> TabsRecordTab {
    TabsRecordTab {
        title: title.to_string(),
        url_history: vec!["https://example.com/a".to_string(), "https://example.com/b".to_string()],
        icon: Some("https://example.com/icon.png".to_string()),
        last_used: last_used_seconds,
    }
}

#[test]
fn storage_round_trips_local_and_remote_tabs() {
    let mut storage = TabsStorage::new();
    assert!(storage.get_local_tabs().is_none());
    assert!(storage.get_remote_tabs().is_none());
    storage.update_local_state(ClientRemoteTabs {
        client_id: "me".to_string(),
        remote_tabs: Vec::new(),
    });
    assert_eq!(storage.get_local_tabs().unwrap().client_id, "me");
    storage.replace_remote_tabs(vec![ClientRemoteTabs {
        client_id: "them".to_string(),
        remote_tabs: Vec::new(),
    }]);
    let remote = storage.get_remote_tabs().unwrap();
    assert_eq!(remote.len(), 1);
    assert_eq!(remote[0].client_id, "them");
}

#[test]
fn wipe_erases_everything() {
    let mut storage = TabsStorage::new();
    storage.update_local_state(ClientRemoteTabs {
        client_id: "me".to_string(),
        remote_tabs: Vec::new(),
    });
    storage.replace_remote_tabs(Vec::new());
    storage.wipe();
    assert!(storage.get_local_tabs().is_none());
    assert!(storage.get_remote_tabs().is_none());
}

#[test]
fn record_tab_seconds_become_millis_and_back() {
    let wire = tab("a tab", 1_600_000_000);
    let in_memory = RemoteTab::from_record_tab(&wire);
    assert_eq!(in_memory.last_used, 1_600_000_000_000);
    assert_eq!(in_memory.title, "a tab");
    assert_eq!(in_memory.url_history.len(), 2);
    let back = in_memory.to_record_tab();
    assert_eq!(back.title, wire.title);
    assert_eq!(back.url_history, wire.url_history);
    assert_eq!(back.icon, wire.icon);
    assert_eq!(back.last_used, 1_600_000_000);
}

#[test]
fn overflowing_tab_time_becomes_zero() {
    let wire = tab("too far", u64::MAX / 2);
    let in_memory = RemoteTab::from_record_tab(&wire);
    assert_eq!(in_memory.last_used, 0);
}

#[test]
fn client_record_converts_both_ways() {
    let record = ClientTabsRecord {
        id: "device-1".to_string(),
        tabs: vec![tab("one", 10), tab("two", 20)],
    };
    let crt = ClientRemoteTabs::from_record("device-1".to_string(), record);
    assert_eq!(crt.client_id, "device-1");
    assert_eq!(crt.remote_tabs.len(), 2);
    assert_eq!(crt.remote_tabs[0].last_used, 10_000);
    let back = crt.to_record();
    assert_eq!(back.id, "device-1");
    assert_eq!(back.tabs.len(), 2);
    assert_eq!(back.tabs[1].title, "two");
    assert_eq!(back.tabs[1].last_used, 20);
}

#[test]
fn apply_skips_own_record_and_undecodable_payloads() {
    let mut store = TabsStore::new("local-device");
    store.local_tabs = Some(ClientRemoteTabs {
        client_id: "local-device".to_string(),
        remote_tabs: vec![RemoteTab {
            title: "mine".to_string(),
            url_history: vec!["https://example.com/".to_string()],
            icon: None,
            last_used: 5000,
        }],
    });
    let inbound = IncomingChangeset {
        collection: "tabs".to_string(),
        timestamp: ServerTimestamp::from_millis(1234),
        changes: vec![
            IncomingRecord {
                id: "local-device".to_string(),
                record: Some(ClientTabsRecord { id: "local-device".to_string(), tabs: Vec::new() }),
            },
            IncomingRecord {
                id: "other-device".to_string(),
                record: Some(ClientTabsRecord {
                    id: "other-device".to_string(),
                    tabs: vec![tab("theirs", 42)],
                }),
            },
            IncomingRecord { id: "broken-device".to_string(), record: None },
        ],
    };
    let outgoing = store.apply_incoming_records(inbound).unwrap();
    assert_eq!(store.remote_tabs.len(), 1);
    assert_eq!(store.remote_tabs[0].client_id, "other-device");
    assert_eq!(store.remote_tabs[0].remote_tabs[0].last_used, 42_000);
    assert_eq!(outgoing.collection, "tabs");
    assert_eq!(outgoing.timestamp.millis, 1234);
    assert_eq!(outgoing.changes.len(), 1);
    assert_eq!(outgoing.changes[0].id, "local-device");
    assert_eq!(outgoing.changes[0].record.id, "local-device");
    assert_eq!(outgoing.changes[0].record.tabs.len(), 1);
    // Milliseconds became wire seconds.
    assert_eq!(outgoing.changes[0].record.tabs[0].last_used, 5);
}

#[test]
fn apply_with_no_local_tabs_uploads_nothing() {
    let mut store = TabsStore::new("local-device");
    let inbound = IncomingChangeset {
        collection: "tabs".to_string(),
        timestamp: ServerTimestamp::from_millis(1),
        changes: Vec::new(),
    };
    let outgoing = store.apply_incoming_records(inbound).unwrap();
    assert_eq!(outgoing.changes.len(), 0);
    assert_eq!(store.remote_tabs.len(), 0);
}
