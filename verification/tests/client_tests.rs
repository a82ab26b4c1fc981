//! Response classification and storage-client behaviour.

use sync15::client::{
    classify_error_status, classify_wipe_all_response, unwrap_meta_global_response,
    Sync15ClientResponse, Sync15StorageClient, Sync15StorageClientInit, TokenState,
};
use sync15::bso::{BsoRecord, MetaGlobalRecord};
use sync15::error::{ErrorKind, ErrorResponse};
use sync15::timestamp::ServerTimestamp;

fn ts(millis: u64) -> ServerTimestamp {
    ServerTimestamp::from_millis(millis)
}

#[test]
fn success_carries_timestamp() {
    let r = Sync15ClientResponse::<u64>::from_response(
        200,
        "storage/meta/global".to_string(),
        Some(7),
        Some(ts(1234)),
    )
    .unwrap();
    match r {
        Sync15ClientResponse::Success { status, record, last_modified, route } => {
            assert_eq!(status, 200);
            assert_eq!(record, 7);
            assert_eq!(last_modified.millis, 1234);
            assert_eq!(route, "storage/meta/global");
        }
        _ => panic!("expected success"),
    }
}

#[test]
fn missing_timestamp_is_an_error_not_a_default() {
    // A 200 with no last-modified header must never become a success with
    // a zero stamp.
    let r = Sync15ClientResponse::<u64>::from_response(
        200,
        "storage/meta/global".to_string(),
        Some(7),
        None,
    );
    assert!(matches!(r, Err(ErrorKind::MissingServerTimestamp)));
}

#[test]
fn undecodable_body_is_an_error() {
    let r = Sync15ClientResponse::<u64>::from_response(200, "x".to_string(), None, Some(ts(1)));
    assert!(matches!(r, Err(ErrorKind::UnexpectedResponseBody)));
}

#[test]
fn stale_precondition_put_fails_with_precondition_failed() {
    // A conditional write against a collection with a newer server version
    // comes back 412 and classifies as the concurrency conflict, never as
    // a silent overwrite.
    let r = Sync15ClientResponse::<u64>::from_response(
        412,
        "storage/meta/global".to_string(),
        None,
        None,
    )
    .unwrap();
    assert!(matches!(
        r,
        Sync15ClientResponse::Error(ErrorResponse::PreconditionFailed { .. })
    ));
}

#[test]
fn error_statuses_classify() {
    assert!(matches!(
        classify_error_status(404, "a".to_string()),
        ErrorResponse::NotFound { .. }
    ));
    assert!(matches!(
        classify_error_status(401, "a".to_string()),
        ErrorResponse::Unauthorized { .. }
    ));
    assert!(matches!(
        classify_error_status(503, "a".to_string()),
        ErrorResponse::ServerError { status: 503, .. }
    ));
    assert!(matches!(
        classify_error_status(418, "a".to_string()),
        ErrorResponse::RequestFailed { status: 418, .. }
    ));
}

#[test]
fn success_converts_to_request_failed_error() {
    let r = Sync15ClientResponse::<u64>::from_response(
        204,
        "info/collections".to_string(),
        Some(1),
        Some(ts(5)),
    )
    .unwrap();
    let err = r.create_storage_error();
    assert!(matches!(
        err,
        ErrorKind::StorageHttpError(ErrorResponse::RequestFailed { status: 204, .. })
    ));
}

#[test]
fn wipe_all_of_empty_account_is_success() {
    // DELETE of an account with nothing stored returns 404; an already
    // wiped account counts as wiped.
    let resp = Sync15ClientResponse::<u64>::Error(ErrorResponse::NotFound {
        route: "storage".to_string(),
    });
    assert!(classify_wipe_all_response(resp).is_ok());
    let ok = Sync15ClientResponse::<u64>::Success {
        status: 200,
        record: 0,
        last_modified: ts(1),
        route: "storage".to_string(),
    };
    assert!(classify_wipe_all_response(ok).is_ok());
    let denied = Sync15ClientResponse::<u64>::Error(ErrorResponse::Unauthorized {
        route: "storage".to_string(),
    });
    assert!(classify_wipe_all_response(denied).is_err());
}

#[test]
fn meta_global_unwraps_one_level() {
    let meta = MetaGlobalRecord {
        sync_id: "gggggggggggg".to_string(),
        storage_version: 5,
        engines: Vec::new(),
        declined: Vec::new(),
    };
    let envelope = BsoRecord::new_record("global".to_string(), "meta".to_string(), meta);
    let got = Sync15ClientResponse::Success {
        status: 200,
        record: envelope,
        last_modified: ts(9),
        route: "storage/meta/global".to_string(),
    };
    match unwrap_meta_global_response(got) {
        Sync15ClientResponse::Success { record, last_modified, .. } => {
            assert_eq!(record.sync_id, "gggggggggggg");
            assert_eq!(record.storage_version, 5);
            assert_eq!(last_modified.millis, 9);
        }
        _ => panic!("expected success"),
    }
}

fn client_with_token() -> Sync15StorageClient {
    let init = Sync15StorageClientInit {
        key_id: "key-id".to_string(),
        access_token: "SECRET-REDACTED".to_string(),
        tokenserver_url: "https://token.example.com/1.0/sync/1.5".to_string(),
    };
    let mut client = Sync15StorageClient::new(init).unwrap();
    client.set_token_state(TokenState {
        api_endpoint: "https://storage.example.com/1.5/12345".to_string(),
        hashed_uid: "abcdef123456".to_string(),
    });
    client
}

#[test]
fn new_rejects_a_non_url() {
    let init = Sync15StorageClientInit {
        key_id: "k".to_string(),
        access_token: "t".to_string(),
        tokenserver_url: "not a url at all".to_string(),
    };
    assert!(matches!(Sync15StorageClient::new(init), Err(ErrorKind::BadUrl)));
}

#[test]
fn hashed_uid_needs_token_state() {
    let init = Sync15StorageClientInit {
        key_id: "k".to_string(),
        access_token: "t".to_string(),
        tokenserver_url: "https://token.example.com/".to_string(),
    };
    let client = Sync15StorageClient::new(init).unwrap();
    assert!(matches!(client.hashed_uid(), Err(ErrorKind::NoTokenState)));
    let client = client_with_token();
    assert_eq!(client.hashed_uid().unwrap(), "abcdef123456");
}

#[test]
fn relative_storage_url_joins_against_endpoint() {
    let client = client_with_token();
    let url = client.relative_storage_url("info/configuration").unwrap();
    assert_eq!(url, "https://storage.example.com/1.5/12345/info/configuration");
    let url = client.relative_storage_url("storage/meta/global").unwrap();
    assert_eq!(url, "https://storage.example.com/1.5/12345/storage/meta/global");
}

#[test]
fn test_send() {
    fn ensure_send<T: Send>() {}
    // Compile will fail if not send.
    ensure_send::<Sync15StorageClient>();
}

#[test]
fn put_carries_the_precondition_stamp_as_seconds() {
    let client = client_with_token();
    let (url, xius) = client
        .put_request_parts("storage/meta/global", ts(1604100000123))
        .unwrap();
    assert_eq!(url, "https://storage.example.com/1.5/12345/storage/meta/global");
    assert_eq!(xius, "1604100000.123");
}
