//! Version stamps, rendering, and collection request URLs.

use sync15::config::{InfoCollections, InfoConfiguration};
use sync15::fmt::{render_timestamp, render_u64};
use sync15::request::{CollectionRequest, RequestOrder};
use sync15::timestamp::ServerTimestamp;

#[test]
fn timestamps_compare_and_default_to_zero() {
    let a = ServerTimestamp::from_millis(1000);
    let b = ServerTimestamp::from_millis(2000);
    assert!(b.is_after(&a));
    assert!(!a.is_after(&b));
    assert!(!a.is_after(&a));
    assert_eq!(ServerTimestamp::default().as_millis(), 0);
}

#[test]
fn renders_decimals() {
    assert_eq!(render_u64(0), "0");
    assert_eq!(render_u64(7), "7");
    assert_eq!(render_u64(1234567890), "1234567890");
}

#[test]
fn renders_timestamps_as_seconds_with_millis() {
    assert_eq!(render_timestamp(&ServerTimestamp::from_millis(12340)), "12.340");
    assert_eq!(render_timestamp(&ServerTimestamp::from_millis(0)), "0.000");
    assert_eq!(render_timestamp(&ServerTimestamp::from_millis(999)), "0.999");
    assert_eq!(render_timestamp(&ServerTimestamp::from_millis(1604100000123)), "1604100000.123");
}

#[test]
fn default_configuration_bounds_requests_and_records() {
    let config = InfoConfiguration::default();
    assert_eq!(config.max_request_bytes, 266240);
    assert_eq!(config.max_record_payload_bytes, 262144);
    assert_eq!(config.max_post_records, usize::MAX);
    assert_eq!(config.max_total_bytes, usize::MAX);
}

#[test]
fn collection_inventory_lookup() {
    let inventory = InfoCollections {
        entries: vec![
            ("tabs".to_string(), ServerTimestamp::from_millis(100)),
            ("bookmarks".to_string(), ServerTimestamp::from_millis(200)),
        ],
    };
    assert_eq!(inventory.get("tabs").unwrap().millis, 100);
    assert_eq!(inventory.get("bookmarks").unwrap().millis, 200);
    assert!(inventory.get("history").is_none());
}

#[test]
fn collection_request_url_carries_filters() {
    let request = CollectionRequest::new("tabs".to_string())
        .full()
        .newer_than(ServerTimestamp::from_millis(12340))
        .limit(10)
        .sort_by(RequestOrder::Newest);
    let url = request.build_url_str("https://storage.example.com/1.5/12345/").unwrap();
    assert_eq!(
        url,
        "https://storage.example.com/1.5/12345/storage/tabs?full=1&newer=12.340&limit=10&sort=newest"
    );
}

#[test]
fn batch_and_commit_markers_appear_in_the_url() {
    let request = CollectionRequest::new("tabs".to_string())
        .batch(Some("token123".to_string()))
        .commit(true);
    let url = request.build_url_str("https://storage.example.com/1.5/12345/").unwrap();
    assert_eq!(
        url,
        "https://storage.example.com/1.5/12345/storage/tabs?batch=token123&commit=true"
    );
}

#[test]
fn explicit_ids_join_with_commas() {
    let request = CollectionRequest::new("tabs".to_string()).ids(vec![
        "one".to_string(),
        "two".to_string(),
        "three".to_string(),
    ]);
    let url = request.build_url_str("https://storage.example.com/1.5/12345/").unwrap();
    assert_eq!(
        url,
        "https://storage.example.com/1.5/12345/storage/tabs?ids=one%2Ctwo%2Cthree"
    );
}

#[test]
fn query_values_are_percent_encoded() {
    let request = CollectionRequest::new("tabs".to_string())
        .batch(Some("a b&c".to_string()));
    let url = request.build_url_str("https://storage.example.com/1.5/12345/").unwrap();
    assert_eq!(
        url,
        "https://storage.example.com/1.5/12345/storage/tabs?batch=a+b%26c"
    );
}
