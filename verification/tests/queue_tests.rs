//! Batch post queue behaviour: batching limits, commit placement, and
//! commit atomicity against a model server.

use sync15::config::InfoConfiguration;
use sync15::error::{ErrorKind, ErrorResponse};
use sync15::queue::{BatchPoster, OutgoingRecord, PostQueue, PostResponse, PostResponseHandler};
use sync15::timestamp::ServerTimestamp;

fn limits(max_post_records: usize, max_post_bytes: usize) -> InfoConfiguration {
    InfoConfiguration {
        max_request_bytes: usize::MAX,
        max_post_records,
        max_post_bytes,
        max_total_records: usize::MAX,
        max_total_bytes: usize::MAX,
        max_record_payload_bytes: 262144,
    }
}

fn record(id: &str, payload_len: usize) -> OutgoingRecord {
    OutgoingRecord { id: id.to_string(), body: vec![b'x'; payload_len] }
}

/// One observed post: body bytes, records (separators plus one), the batch
/// token it carried, and its commit marker.
struct SeenPost {
    body_len: usize,
    records: usize,
    batch: Option<String>,
    commit: bool,
}

/// A poster that accepts every batch and issues a batch token.
struct RecordingPoster {
    seen: Vec<SeenPost>,
}

fn count_records(body: &[u8]) -> usize {
    // Payloads in these tests never contain commas.
    if body == b"[]" {
        0
    } else {
        body.iter().filter(|&&b| b == b',').count() + 1
    }
}

impl BatchPoster for RecordingPoster {
    fn post(
        &mut self,
        body: Vec<u8>,
        _xius: ServerTimestamp,
        batch: Option<String>,
        commit: bool,
    ) -> Result<PostResponse, ErrorKind> {
        self.seen.push(SeenPost {
            body_len: body.len(),
            records: count_records(&body),
            batch,
            commit,
        });
        Ok(PostResponse {
            status: 202,
            route: "storage/tabs".to_string(),
            last_modified: Some(ServerTimestamp::from_millis(100)),
            batch: Some("batch-token".to_string()),
            success_ids: Vec::new(),
            failed_ids: Vec::new(),
        })
    }
}

/// A handler that counts how often it was told about a response.
struct CountingHandler {
    calls: usize,
    mid_batch_calls: usize,
}

impl PostResponseHandler for CountingHandler {
    fn handle_response(&mut self, _response: PostResponse, mid_batch: bool) -> Result<(), ErrorKind> {
        self.calls += 1;
        if mid_batch {
            self.mid_batch_calls += 1;
        }
        Ok(())
    }
}

fn new_queue(
    config: &InfoConfiguration,
) -> PostQueue<RecordingPoster, CountingHandler> {
    PostQueue::new(
        config,
        ServerTimestamp::from_millis(50),
        RecordingPoster { seen: Vec::new() },
        CountingHandler { calls: 0, mid_batch_calls: 0 },
    )
}

#[test]
fn two_hundred_fifty_records_make_three_batches_commit_on_last() {
    // 250 one-kilobyte records under {max_records: 100, max_bytes:
    // 1_000_000} post exactly three batches of 100, 100 and 50 records,
    // and only the third carries the commit marker.
    let config = limits(100, 1_000_000);
    let mut q = new_queue(&config);
    for i in 0..250 {
        let accepted = q.enqueue(&record(&format!("rec{}", i), 1024)).unwrap();
        assert!(accepted);
    }
    q.flush(true).unwrap();
    let seen = &q.poster.seen;
    assert_eq!(seen.len(), 3);
    assert_eq!(seen[0].records, 100);
    assert_eq!(seen[1].records, 100);
    assert_eq!(seen[2].records, 50);
    assert_eq!(
        seen.iter().map(|p| p.commit).collect::<Vec<bool>>(),
        vec![false, false, true]
    );
    // The records across all batches are exactly those enqueued.
    assert_eq!(seen.iter().map(|p| p.records).sum::<usize>(), 250);
    // No batch exceeded either ceiling.
    for p in seen {
        assert!(p.records <= 100);
        assert!(p.body_len <= 1_000_000);
    }
    assert_eq!(q.on_response.calls, 3);
    assert_eq!(q.on_response.mid_batch_calls, 2);
}

#[test]
fn byte_ceiling_splits_batches() {
    // Three 40-byte payloads under a 100-byte body ceiling: two fit in one
    // body ('[' + 40 + ',' + 40 + ']' = 83), the third starts a new batch.
    let config = limits(100, 100);
    let mut q = new_queue(&config);
    for i in 0..3 {
        assert!(q.enqueue(&record(&format!("r{}", i), 40)).unwrap());
    }
    q.flush(true).unwrap();
    let seen = &q.poster.seen;
    assert_eq!(seen.len(), 2);
    assert_eq!(seen[0].records, 2);
    assert_eq!(seen[1].records, 1);
    assert!(seen[0].body_len <= 100);
    assert!(seen[1].body_len <= 100);
}

#[test]
fn continued_batches_carry_the_server_token() {
    let config = limits(1, 1_000_000);
    let mut q = new_queue(&config);
    assert!(q.enqueue(&record("a", 10)).unwrap());
    assert!(q.enqueue(&record("b", 10)).unwrap());
    q.flush(true).unwrap();
    let seen = &q.poster.seen;
    assert_eq!(seen.len(), 2);
    assert_eq!(seen[0].batch, None);
    assert_eq!(seen[1].batch, Some("batch-token".to_string()));
}

#[test]
fn oversized_record_is_rejected_individually() {
    let mut config = limits(100, 1_000_000);
    config.max_record_payload_bytes = 64;
    let mut q = new_queue(&config);
    assert!(!q.enqueue(&record("big", 65)).unwrap());
    assert!(q.enqueue(&record("ok", 64)).unwrap());
    q.flush(true).unwrap();
    // Only the accepted record was posted.
    assert_eq!(q.poster.seen.len(), 1);
    assert_eq!(q.poster.seen[0].records, 1);
}

#[test]
fn total_ceiling_is_a_hard_stop() {
    let mut config = limits(100, 1_000_000);
    config.max_total_records = 2;
    let mut q = new_queue(&config);
    assert!(q.enqueue(&record("a", 10)).unwrap());
    assert!(q.enqueue(&record("b", 10)).unwrap());
    let r = q.enqueue(&record("c", 10));
    assert!(matches!(r, Err(ErrorKind::BatchLimitsExceeded)));
}

/// A model of the server's two-phase batch protocol: staged batches do
/// not touch the stored collection until a commit succeeds.
struct ModelServer {
    collection_timestamp: u64,
    staged_records: usize,
    committed_records: usize,
    fail_commit: bool,
}

impl BatchPoster for ModelServer {
    fn post(
        &mut self,
        body: Vec<u8>,
        _xius: ServerTimestamp,
        _batch: Option<String>,
        commit: bool,
    ) -> Result<PostResponse, ErrorKind> {
        let records = count_records(&body);
        if commit {
            if self.fail_commit {
                // The commit was refused; nothing staged becomes visible.
                return Ok(PostResponse {
                    status: 503,
                    route: "storage/tabs".to_string(),
                    last_modified: None,
                    batch: None,
                    success_ids: Vec::new(),
                    failed_ids: Vec::new(),
                });
            }
            self.committed_records += self.staged_records + records;
            self.staged_records = 0;
            self.collection_timestamp += 1;
        } else {
            self.staged_records += records;
        }
        Ok(PostResponse {
            status: 202,
            route: "storage/tabs".to_string(),
            last_modified: Some(ServerTimestamp::from_millis(self.collection_timestamp)),
            batch: Some("tok".to_string()),
            success_ids: Vec::new(),
            failed_ids: Vec::new(),
        })
    }
}

#[test]
fn failed_commit_leaves_the_collection_unchanged() {
    // Commit atomicity: when the final request fails, the collection's
    // timestamp afterwards is what it was before the pass began.
    let config = limits(2, 1_000_000);
    let mut q = PostQueue::new(
        &config,
        ServerTimestamp::from_millis(50),
        ModelServer {
            collection_timestamp: 7,
            staged_records: 0,
            committed_records: 0,
            fail_commit: true,
        },
        CountingHandler { calls: 0, mid_batch_calls: 0 },
    );
    for i in 0..5 {
        assert!(q.enqueue(&record(&format!("r{}", i), 10)).unwrap());
    }
    let r = q.flush(true);
    // The refused commit surfaces as the classified server error, carrying
    // the route the post was made against.
    match r {
        Err(ErrorKind::StorageHttpError(ErrorResponse::ServerError { route, status })) => {
            assert_eq!(route, "storage/tabs");
            assert_eq!(status, 503);
        }
        other => panic!("unexpected outcome: {:?}", other),
    }
    assert_eq!(q.poster.collection_timestamp, 7);
    assert_eq!(q.poster.committed_records, 0);
}

#[test]
fn successful_commit_applies_all_staged_batches() {
    let config = limits(2, 1_000_000);
    let mut q = PostQueue::new(
        &config,
        ServerTimestamp::from_millis(50),
        ModelServer {
            collection_timestamp: 7,
            staged_records: 0,
            committed_records: 0,
            fail_commit: false,
        },
        CountingHandler { calls: 0, mid_batch_calls: 0 },
    );
    for i in 0..5 {
        assert!(q.enqueue(&record(&format!("r{}", i), 10)).unwrap());
    }
    q.flush(true).unwrap();
    assert_eq!(q.poster.committed_records, 5);
    assert_eq!(q.poster.collection_timestamp, 8);
}
