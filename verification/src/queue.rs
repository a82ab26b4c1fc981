//! The batch post queue: size- and count-bounded uploads with atomic
//! commit.
//!
//! The queue accepts an ordered stream of serialized outgoing records for
//! one collection and groups them into posted batches, each within the
//! server-advertised per-batch ceilings. Whole-pass ceilings are a hard
//! stop, never a silent truncation. The final batch is posted with the
//! commit marker, the server's signal to atomically apply every staged
//! batch; until a commit succeeds, nothing the queue posted becomes
//! visible in the stored collection.
//!
//! The queue records, in ghost state, the record count, body size and
//! commit marker of every successful post, and its well-formedness ties
//! that history to the configured ceilings: no posted batch ever exceeds
//! them, a commit is only ever last, and no record is lost between the
//! batches and the running buffer.

use vstd::prelude::*;
use crate::client::{classify_error_status, is_success_status};
use crate::config::InfoConfiguration;
use crate::error::ErrorKind;
use crate::request::{spec_collection_url, spec_collection_url_ok, CollectionRequest};
use crate::timestamp::ServerTimestamp;

verus! {

/// The server's answer to one batch post: its status, the route it was
/// made against, the batch token to continue with, the stamp of the
/// commit when one happened, and the per-record outcome.
#[derive(Clone, Debug)]
pub struct PostResponse {
    pub status: u16,
    pub route: String,
    pub last_modified: Option<ServerTimestamp>,
    pub batch: Option<String>,
    pub success_ids: Vec<String>,
    pub failed_ids: Vec<String>,
}

/// One outgoing record, already serialized to its wire bytes.
#[derive(Clone, Debug)]
pub struct OutgoingRecord {
    pub id: String,
    pub body: Vec<u8>,
}

/// Posts one assembled batch body. Implemented over the real transport by
/// the embedding application, and by test doubles.
pub trait BatchPoster {
    fn post(
        &mut self,
        body: Vec<u8>,
        xius: ServerTimestamp,
        batch: Option<String>,
        commit: bool,
    ) -> Result<PostResponse, ErrorKind>;
}

/// Receives the per-record outcome of each post, so the caller can mark
/// records as synced without re-deriving it from raw bytes.
pub trait PostResponseHandler {
    fn handle_response(&mut self, response: PostResponse, mid_batch: bool) -> Result<
        (),
        ErrorKind,
    >;
}

/// Sends one already-built POST, URL and body, over the real wire.
pub trait PostTransport {
    fn send_post(&mut self, url: &str, body: Vec<u8>, xius: ServerTimestamp) -> Result<
        PostResponse,
        ErrorKind,
    >;
}

/// One transport post a wrapper made: the URL it hit, the body it
/// carried, and the precondition stamp it presented.
pub type SentPost = (Seq<char>, Seq<u8>, ServerTimestamp);

/// The batch request a wrapper builds: the collection with the batch and
/// commit markers, and no other filter.
pub open spec fn spec_batch_request(
    coll: String,
    batch: Option<String>,
    commit: bool,
) -> CollectionRequest {
    CollectionRequest {
        collection: coll,
        full: false,
        ids: None,
        newer: None,
        limit: 0,
        order: None,
        batch,
        commit,
    }
}

/// A poster bound to one collection of one account: it builds the batch
/// URL (with batch and commit markers) and hands the body to its
/// transport, recording every post it makes.
pub struct PostWrapper<T> {
    pub coll: String,
    pub endpoint: String,
    pub transport: T,
    /// Every transport post made: URL, body, stamp.
    pub sent: Ghost<Seq<SentPost>>,
}

impl<T: PostTransport> PostWrapper<T> {
    /// Builds the batch URL — the endpoint, the collection path, the
    /// batch and commit markers as query pairs — and hands exactly the
    /// given body and stamp to the transport; the post made is recorded
    /// in `sent`. Fails without posting, with the bad-URL error, exactly
    /// when the endpoint cannot carry the collection path.
    pub fn post_records(
        &mut self,
        body: Vec<u8>,
        xius: ServerTimestamp,
        batch: Option<String>,
        commit: bool,
    ) -> (r: Result<PostResponse, ErrorKind>)
        ensures
            final(self).coll == old(self).coll,
            final(self).endpoint == old(self).endpoint,
            spec_collection_url_ok(old(self).endpoint@ + "/"@, old(self).coll@)
                ==> final(self).sent@ == old(self).sent@.push(
                (
                    spec_collection_url(
                        old(self).endpoint@ + "/"@,
                        spec_batch_request(old(self).coll, batch, commit),
                    ),
                    body@,
                    xius,
                ),
            ),
            !spec_collection_url_ok(old(self).endpoint@ + "/"@, old(self).coll@)
                ==> r == Err::<PostResponse, _>(ErrorKind::BadUrl)
                && *final(self) == *old(self),
    {
        let mut base = self.endpoint.clone();
        base.append("/");
        let request = CollectionRequest::new(self.coll.clone()).batch(batch).commit(commit);
        let url = match request.build_url_str(base.as_str()) {
            Ok(u) => u,
            Err(e) => {
                return Err(e);
            },
        };
        proof {
            self.sent@ = self.sent@.push((url@, body@, xius));
        }
        self.transport.send_post(url.as_str(), body, xius)
    }
}

impl<T: PostTransport> BatchPoster for PostWrapper<T> {
    fn post(
        &mut self,
        body: Vec<u8>,
        xius: ServerTimestamp,
        batch: Option<String>,
        commit: bool,
    ) -> Result<PostResponse, ErrorKind> {
        self.post_records(body, xius, batch, commit)
    }
}

/// The byte opening a batch body, `[`.
pub const BATCH_OPEN: u8 = 91;

/// The byte closing a batch body, `]`.
pub const BATCH_CLOSE: u8 = 93;

/// The byte separating records in a batch body, `,`.
pub const BATCH_SEP: u8 = 44;

/// The records in all batches of `b`.
pub open spec fn sum_batch_records(b: Seq<(int, int, bool)>) -> int
    decreases b.len(),
{
    if b.len() == 0 {
        0
    } else {
        sum_batch_records(b.drop_last()) + b.last().0
    }
}

/// Every batch of `b` respects the per-batch ceilings of `config`.
pub open spec fn batches_within(b: Seq<(int, int, bool)>, config: InfoConfiguration) -> bool {
    forall|i: int|
        0 <= i < b.len() ==> {
            &&& 0 <= (#[trigger] b[i]).0 <= config.max_post_records as int
            &&& 0 <= b[i].1 <= config.max_post_bytes as int
        }
}

/// A commit marker appears only on the last batch of `b`.
pub open spec fn commits_only_last(b: Seq<(int, int, bool)>) -> bool {
    forall|i: int| 0 <= i < b.len() && (#[trigger] b[i]).2 ==> i == b.len() - 1
}

/// A record the queue will not place in any batch: its body alone would
/// overrun a batch, or it exceeds the per-record payload ceiling.
pub open spec fn spec_record_rejected(record: OutgoingRecord, config: InfoConfiguration) -> bool {
    ||| config.max_post_records < 1
    ||| record.body@.len() > config.max_record_payload_bytes as int
    ||| record.body@.len() + 2 > config.max_post_bytes as int
}

/// Whether accepting `record` would push the pass over a whole-pass
/// ceiling.
pub open spec fn spec_exceeds_total<P, H>(q: PostQueue<P, H>, record: OutgoingRecord) -> bool {
    ||| q.total_records + 1 > q.config.max_total_records
    ||| q.total_bytes + record.body@.len() > q.config.max_total_bytes
}

/// Whether `record` still fits the running batch of `q` without crossing
/// a per-batch ceiling — when it does, accepting it flushes nothing.
pub open spec fn spec_fits_running<P, H>(q: PostQueue<P, H>, record: OutgoingRecord) -> bool {
    &&& q.cur_records < q.config.max_post_records
    &&& (q.queued@.len() == 0 || record.body@.len() + 2 <= q.config.max_post_bytes
        - q.queued@.len())
}

/// The queue of batched uploads for one collection during one upload pass.
/// It must not be shared across concurrent flushes; after the commit
/// flush it is done and accepts nothing further.
pub struct PostQueue<P, H> {
    /// Posts assembled batch bodies.
    pub poster: P,
    /// Told the per-record outcome of every post.
    pub on_response: H,
    /// The server-advertised limits sizing every batch.
    pub config: InfoConfiguration,
    /// The precondition stamp captured at the start of the pass; every
    /// post carries it.
    pub last_modified: ServerTimestamp,
    /// The server-issued token of the batch in progress.
    pub batch_token: Option<String>,
    /// The running batch body: `[` then records joined by `,`.
    pub queued: Vec<u8>,
    /// Records in the running batch.
    pub cur_records: usize,
    /// Records accepted over the whole pass, posted batches included.
    pub total_records: usize,
    /// Payload bytes accepted over the whole pass.
    pub total_bytes: usize,
    /// Whether the commit post has succeeded; the queue is then done.
    pub committed: bool,
    /// Every successful post so far: records, body bytes, commit marker.
    pub posted: Ghost<Seq<(int, int, bool)>>,
    /// Every response handed to the handler, with its mid-batch flag:
    /// one per successful post.
    pub delivered: Ghost<Seq<(PostResponse, bool)>>,
}

impl<P, H> PostQueue<P, H> {
    /// The queue's invariant: the running batch and every posted batch are
    /// within the ceilings, a commit is only ever last, and the records in
    /// posted batches plus the running batch are exactly those accepted.
    pub open spec fn wf(&self) -> bool {
        &&& self.cur_records <= self.config.max_post_records
        &&& (self.cur_records == 0 <==> self.queued@.len() == 0)
        &&& (self.cur_records > 0 ==> self.queued@.len() + 1 <= self.config.max_post_bytes)
        &&& self.total_records <= self.config.max_total_records
        &&& self.total_bytes <= self.config.max_total_bytes
        &&& (self.batch_token is Some ==> self.config.max_post_bytes >= 2)
        &&& batches_within(self.posted@, self.config)
        &&& commits_only_last(self.posted@)
        &&& sum_batch_records(self.posted@) + self.cur_records == self.total_records
        &&& (self.committed <==> (self.posted@.len() > 0 && self.posted@.last().2))
        &&& self.delivered@.len() == self.posted@.len()
    }

    /// Whether a commit flush would have nothing to say to the server:
    /// no running batch and no staged batch to commit.
    pub open spec fn spec_nothing_to_post(&self, want_commit: bool) -> bool {
        self.cur_records == 0 && !(want_commit && self.batch_token is Some)
    }
}

impl<P: BatchPoster, H: PostResponseHandler> PostQueue<P, H> {
    /// An empty queue for one upload pass, bound to the limits of `config`
    /// and the precondition stamp `ts`.
    pub fn new(config: &InfoConfiguration, ts: ServerTimestamp, poster: P, on_response: H) -> (r:
        PostQueue<P, H>)
        ensures
            r.wf(),
            r.config == *config,
            r.last_modified == ts,
            r.poster == poster,
            r.on_response == on_response,
            r.batch_token is None,
            r.cur_records == 0,
            r.total_records == 0,
            r.total_bytes == 0,
            !r.committed,
            r.posted@ =~= Seq::<(int, int, bool)>::empty(),
            r.delivered@ =~= Seq::<(PostResponse, bool)>::empty(),
    {
        PostQueue {
            poster,
            on_response,
            config: *config,
            last_modified: ts,
            batch_token: None,
            queued: Vec::new(),
            cur_records: 0,
            total_records: 0,
            total_bytes: 0,
            committed: false,
            posted: Ghost(Seq::empty()),
            delivered: Ghost(Seq::empty()),
        }
    }

    /// Posts the running batch. A final call passes `want_commit`, which
    /// asks the server to atomically apply every staged batch; every other
    /// call stages the batch and continues the pass. An error, from the
    /// wire or a non-success status, leaves the queue's accounting
    /// unchanged and aborts the pass; nothing staged became visible.
    pub fn flush(&mut self, want_commit: bool) -> (r: Result<(), ErrorKind>)
        requires
            old(self).wf(),
            !old(self).committed,
        ensures
            final(self).wf(),
            final(self).config == old(self).config,
            final(self).last_modified == old(self).last_modified,
            final(self).total_records == old(self).total_records,
            final(self).total_bytes == old(self).total_bytes,
            old(self).spec_nothing_to_post(want_commit) ==> r is Ok && *final(self) == *old(self),
            r is Ok ==> final(self).cur_records == 0,
            r is Ok && !old(self).spec_nothing_to_post(want_commit) ==> {
                &&& final(self).posted@ == old(self).posted@.push(
                    (old(self).cur_records as int, final_body_len(*old(self)), want_commit),
                )
                &&& final(self).committed == want_commit
                &&& final(self).delivered@.len() == old(self).delivered@.len() + 1
                &&& final(self).delivered@.last().1 == !want_commit
                &&& is_success_status(final(self).delivered@.last().0.status)
            },
            !want_commit ==> !final(self).committed,
            r is Err ==> final(self).posted@ == old(self).posted@ || final(self).posted@ == old(self).posted@.push(
                (old(self).cur_records as int, final_body_len(*old(self)), want_commit),
            ),
    {
        if self.cur_records == 0 && !(want_commit && self.batch_token.is_some()) {
            return Ok(());
        }
        let mut body = self.queued.clone();
        proof {
            assert(body@ =~= self.queued@);
        }
        if body.len() == 0 {
            body.push(BATCH_OPEN);
        }
        body.push(BATCH_CLOSE);
        let ghost body_len = body@.len() as int;
        proof {
            assert(body_len == final_body_len(*self));
        }
        let response = match self.poster.post(
            body,
            self.last_modified,
            self.batch_token.clone(),
            want_commit,
        ) {
            Ok(resp) => resp,
            Err(e) => {
                return Err(e);
            },
        };
        if !(200 <= response.status && response.status < 300) {
            let status = response.status;
            let route = response.route.clone();
            return Err(ErrorKind::StorageHttpError(classify_error_status(status, route)));
        }
        proof {
            self.posted@ = self.posted@.push((self.cur_records as int, body_len, want_commit));
            self.delivered@ = self.delivered@.push((response, !want_commit));
        }
        self.queued = Vec::new();
        let posted_records = self.cur_records;
        self.cur_records = 0;
        self.committed = want_commit;
        if !want_commit {
            match &response.batch {
                Some(token) => {
                    self.batch_token = Some(token.clone());
                },
                None => {},
            }
        }
        proof {
            let b = self.posted@;
            assert(b.drop_last() =~= old(self).posted@);
            assert(sum_batch_records(b) == sum_batch_records(old(self).posted@)
                + posted_records as int);
        }
        let mid_batch = !want_commit;
        match self.on_response.handle_response(response, mid_batch) {
            Ok(()) => Ok(()),
            Err(e) => Err(e),
        }
    }

    /// Accepts one serialized record into the pass. A record that could
    /// never fit any batch is rejected individually, `Ok(false)`, and the
    /// queue is unchanged. A record that would push the pass over its
    /// total ceiling is a hard stop, so the caller knows records were not
    /// uploaded. Otherwise the record joins the running batch, after the
    /// batch is flushed (staged, never committed) if the record would
    /// overrun it.
    pub fn enqueue(&mut self, record: &OutgoingRecord) -> (r: Result<bool, ErrorKind>)
        requires
            old(self).wf(),
            !old(self).committed,
        ensures
            final(self).wf(),
            !final(self).committed,
            final(self).config == old(self).config,
            final(self).last_modified == old(self).last_modified,
            spec_record_rejected(*record, old(self).config) ==> r == Ok::<_, ErrorKind>(false)
                && *final(self) == *old(self),
            !spec_record_rejected(*record, old(self).config) && spec_exceeds_total(*old(self), *record)
                ==> r == Err::<bool, _>(ErrorKind::BatchLimitsExceeded) && *final(self) == *old(self),
            r == Ok::<_, ErrorKind>(true) ==> {
                &&& final(self).total_records == old(self).total_records + 1
                &&& final(self).total_bytes == old(self).total_bytes + record.body@.len()
            },
            r is Err ==> final(self).total_records == old(self).total_records
                && final(self).total_bytes == old(self).total_bytes,
            !spec_record_rejected(*record, old(self).config) && !spec_exceeds_total(*old(self), *record)
                ==> (r == Ok::<_, ErrorKind>(true) || r is Err),
            !spec_record_rejected(*record, old(self).config) && !spec_exceeds_total(*old(self), *record)
                && spec_fits_running(*old(self), *record) ==> {
                &&& r == Ok::<_, ErrorKind>(true)
                &&& final(self).posted@ == old(self).posted@
                &&& final(self).delivered@ == old(self).delivered@
                &&& final(self).cur_records == old(self).cur_records + 1
                &&& final(self).batch_token == old(self).batch_token
            },
            !spec_record_rejected(*record, old(self).config) && !spec_exceeds_total(*old(self), *record)
                && !spec_fits_running(*old(self), *record) && r == Ok::<_, ErrorKind>(true) ==> {
                &&& final(self).posted@ == old(self).posted@.push(
                    (old(self).cur_records as int, final_body_len(*old(self)), false),
                )
                &&& final(self).cur_records == 1
            },
    {
        let payload_len = record.body.len();
        if self.config.max_post_records < 1 {
            return Ok(false);
        }
        if payload_len > self.config.max_record_payload_bytes {
            return Ok(false);
        }
        if self.config.max_post_bytes < 2 || payload_len > self.config.max_post_bytes - 2 {
            return Ok(false);
        }
        if self.total_records >= self.config.max_total_records {
            return Err(ErrorKind::BatchLimitsExceeded);
        }
        if payload_len > self.config.max_total_bytes - self.total_bytes {
            return Err(ErrorKind::BatchLimitsExceeded);
        }
        let room_bytes = self.queued.len() == 0 || payload_len + 2 <= self.config.max_post_bytes
            - self.queued.len();
        if self.cur_records >= self.config.max_post_records || !room_bytes {
            match self.flush(false) {
                Ok(()) => {},
                Err(e) => {
                    return Err(e);
                },
            }
        }
        if self.queued.len() == 0 {
            self.queued.push(BATCH_OPEN);
        } else {
            self.queued.push(BATCH_SEP);
        }
        let ghost before_extend = self.queued@;
        self.queued.extend_from_slice(record.body.as_slice());
        proof {
            assert forall|i: int| 0 <= i < self.queued@.len() implies #[trigger] self.queued@[i]
                == (before_extend + record.body@)[i] by {
                if i >= before_extend.len() {
                    assert(cloned::<u8>(record.body@[i - before_extend.len() as int],
                        self.queued@[i]));
                }
            }
            assert(self.queued@ =~= before_extend + record.body@);
        }
        self.cur_records = self.cur_records + 1;
        self.total_records = self.total_records + 1;
        self.total_bytes = self.total_bytes + payload_len;
        Ok(true)
    }
}

/// The byte length of the body one flush of `q` would post: the running
/// buffer plus the closing bracket, or the empty pair of brackets.
pub open spec fn final_body_len<P, H>(q: PostQueue<P, H>) -> int {
    if q.queued@.len() == 0 {
        2
    } else {
        q.queued@.len() as int + 1
    }
}

/// Law: until the commit flush has succeeded, no posted batch carried the
/// commit marker — an aborted pass has only ever staged batches, which
/// the server never applies, so the stored collection is left as it was
/// before the pass began.
pub proof fn lemma_nothing_visible_before_commit<P, H>(q: &PostQueue<P, H>)
    requires
        q.wf(),
        !q.committed,
    ensures
        forall|i: int| 0 <= i < q.posted@.len() ==> !(#[trigger] q.posted@[i]).2,
{
    assert forall|i: int| 0 <= i < q.posted@.len() implies !(#[trigger] q.posted@[i]).2 by {
        if q.posted@[i].2 {
            assert(i == q.posted@.len() - 1);
            assert(q.posted@.last().2);
        }
    }
}

/// Law: in a well-formed queue no posted batch exceeds the configured
/// per-batch ceilings, a commit marker stands only on the last batch, and
/// the records across all posted batches plus the running batch are
/// exactly the records accepted into the pass (individually rejected
/// records excluded, having never been accepted).
pub proof fn lemma_batch_bounds<P, H>(q: &PostQueue<P, H>)
    requires
        q.wf(),
    ensures
        forall|i: int|
            0 <= i < q.posted@.len() ==> (#[trigger] q.posted@[i]).0
                <= q.config.max_post_records as int && q.posted@[i].1
                <= q.config.max_post_bytes as int,
        commits_only_last(q.posted@),
        sum_batch_records(q.posted@) + q.cur_records == q.total_records,
        q.total_records <= q.config.max_total_records,
        q.total_bytes <= q.config.max_total_bytes,
{
}

} // verus!
