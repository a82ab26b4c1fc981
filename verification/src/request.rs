//! Query descriptors for collection reads and writes.
//!
//! A [`CollectionRequest`] names a collection and the filters of one
//! request against it: full fetch, an explicit id set, a newer-than bound,
//! a result limit, a sort order, and the batch/commit markers of the
//! two-phase upload protocol. The filters compose; none excludes another.
//! Building the final URL string is delegated to the `url` crate through
//! the wrappers in [`crate::urls`].

use vstd::prelude::*;
use crate::error::ErrorKind;
use crate::fmt::{render_timestamp, render_u64, spec_decimal, spec_timestamp_string};
use crate::timestamp::ServerTimestamp;
use crate::urls::{append_query_pairs, joined_url, pairs_view, resolve_url, url_joins, url_parses, url_with_query};

verus! {

/// The order records of a collection are returned in.
#[derive(Clone, Copy, Debug, PartialEq, Eq, Structural)]
pub enum RequestOrder {
    /// By modification stamp, newest first.
    Newest,
    /// By modification stamp, oldest first.
    Oldest,
    /// By sort index, highest first.
    Index,
}

impl RequestOrder {
    /// The query-string value of this order.
    pub fn as_str(self) -> (r: &'static str)
        ensures
            self == RequestOrder::Newest ==> r@ == "newest"@,
            self == RequestOrder::Oldest ==> r@ == "oldest"@,
            self == RequestOrder::Index ==> r@ == "index"@,
    {
        match self {
            RequestOrder::Newest => "newest",
            RequestOrder::Oldest => "oldest",
            RequestOrder::Index => "index",
        }
    }
}

/// The query-string value of an order, as a specification.
pub open spec fn spec_order_str(o: RequestOrder) -> Seq<char> {
    match o {
        RequestOrder::Newest => "newest"@,
        RequestOrder::Oldest => "oldest"@,
        RequestOrder::Index => "index"@,
    }
}

/// The comma-separated join of `ids`.
pub open spec fn spec_comma_join(ids: Seq<Seq<char>>) -> Seq<char>
    decreases ids.len(),
{
    if ids.len() == 0 {
        Seq::empty()
    } else if ids.len() == 1 {
        ids[0]
    } else {
        spec_comma_join(ids.drop_last()) + seq![','] + ids.last()
    }
}

/// Joins `ids` with commas.
pub fn comma_join(ids: &Vec<String>) -> (r: String)
    ensures
        r@ == spec_comma_join(ids@.map_values(|s: String| s@)),
{
    let mut acc = String::new();
    let n = ids.len();
    let mut i: usize = 0;
    while i < n
        invariant
            0 <= i <= n,
            n == ids@.len(),
            acc@ == spec_comma_join(ids@.map_values(|s: String| s@).take(i as int)),
        decreases n - i,
    {
        if i > 0 {
            proof {
                reveal_strlit(",");
                assert(","@ =~= seq![',']);
            }
            acc.append(",");
        }
        acc.append(ids[i].as_str());
        proof {
            let full = ids@.map_values(|s: String| s@);
            assert(full.take(i + 1).drop_last() =~= full.take(i as int));
            assert(full.take(i + 1).last() == full[i as int]);
            assert(acc@ =~= spec_comma_join(full.take(i + 1)));
        }
        i += 1;
    }
    proof {
        let full = ids@.map_values(|s: String| s@);
        assert(full.take(n as int) =~= full);
    }
    acc
}

/// Whether building a collection URL against `base` succeeds: the base
/// must parse, the collection path must join against it, and the joined
/// URL must parse again for its query to be extended.
pub open spec fn spec_collection_url_ok(base: Seq<char>, collection: Seq<char>) -> bool {
    &&& url_parses(base)
    &&& url_joins(base, "storage/"@ + collection)
    &&& url_parses(joined_url(base, "storage/"@ + collection))
}

/// The URL string of request `r` against the endpoint `base`.
pub open spec fn spec_collection_url(base: Seq<char>, r: CollectionRequest) -> Seq<char> {
    url_with_query(joined_url(base, "storage/"@ + r.collection@), spec_query_pairs(r))
}

/// A query descriptor for one request against one collection.
#[derive(Clone, Debug)]
pub struct CollectionRequest {
    /// The collection the request is made against.
    pub collection: String,
    /// Fetch whole records rather than just ids.
    pub full: bool,
    /// Restrict the request to these record ids.
    pub ids: Option<Vec<String>>,
    /// Only records modified strictly after this stamp.
    pub newer: Option<ServerTimestamp>,
    /// At most this many results; zero means no limit.
    pub limit: usize,
    /// The order results are returned in.
    pub order: Option<RequestOrder>,
    /// The server-issued batch token this post continues.
    pub batch: Option<String>,
    /// Whether this post atomically applies all staged batches.
    pub commit: bool,
}

/// The query pairs of a request, in their canonical order.
pub open spec fn spec_query_pairs(r: CollectionRequest) -> Seq<(Seq<char>, Seq<char>)> {
    let s = Seq::<(Seq<char>, Seq<char>)>::empty();
    let s = if r.full {
        s.push(("full"@, "1"@))
    } else {
        s
    };
    let s = match r.ids {
        Some(ids) => s.push(("ids"@, spec_comma_join(ids@.map_values(|x: String| x@)))),
        None => s,
    };
    let s = match r.newer {
        Some(ts) => s.push(("newer"@, spec_timestamp_string(ts.millis as int))),
        None => s,
    };
    let s = if r.limit > 0 {
        s.push(("limit"@, spec_decimal(r.limit as int)))
    } else {
        s
    };
    let s = match r.order {
        Some(o) => s.push(("sort"@, spec_order_str(o))),
        None => s,
    };
    let s = match r.batch {
        Some(token) => s.push(("batch"@, token@)),
        None => s,
    };
    if r.commit {
        s.push(("commit"@, "true"@))
    } else {
        s
    }
}

impl CollectionRequest {
    /// A plain full-less request against `collection`, with no filters and
    /// no batch markers.
    pub fn new(collection: String) -> (r: CollectionRequest)
        ensures
            r.collection == collection,
            !r.full,
            r.ids is None,
            r.newer is None,
            r.limit == 0,
            r.order is None,
            r.batch is None,
            !r.commit,
    {
        CollectionRequest {
            collection,
            full: false,
            ids: None,
            newer: None,
            limit: 0,
            order: None,
            batch: None,
            commit: false,
        }
    }

    /// Asks for whole records rather than just ids.
    pub fn full(self) -> (r: CollectionRequest)
        ensures
            r == (CollectionRequest { full: true, ..self }),
    {
        CollectionRequest { full: true, ..self }
    }

    /// Restricts the request to the given record ids.
    pub fn ids(self, ids: Vec<String>) -> (r: CollectionRequest)
        ensures
            r == (CollectionRequest { ids: Some(ids), ..self }),
    {
        CollectionRequest { ids: Some(ids), ..self }
    }

    /// Only records modified strictly after `ts`.
    pub fn newer_than(self, ts: ServerTimestamp) -> (r: CollectionRequest)
        ensures
            r == (CollectionRequest { newer: Some(ts), ..self }),
    {
        CollectionRequest { newer: Some(ts), ..self }
    }

    /// At most `limit` results.
    pub fn limit(self, limit: usize) -> (r: CollectionRequest)
        ensures
            r == (CollectionRequest { limit, ..self }),
    {
        CollectionRequest { limit, ..self }
    }

    /// Results in the given order.
    pub fn sort_by(self, order: RequestOrder) -> (r: CollectionRequest)
        ensures
            r == (CollectionRequest { order: Some(order), ..self }),
    {
        CollectionRequest { order: Some(order), ..self }
    }

    /// Continues the server-issued batch `token`; `None` starts a batch.
    pub fn batch(self, token: Option<String>) -> (r: CollectionRequest)
        ensures
            r == (CollectionRequest { batch: token, ..self }),
    {
        CollectionRequest { batch: token, ..self }
    }

    /// Sets the commit marker of the two-phase upload protocol.
    pub fn commit(self, commit: bool) -> (r: CollectionRequest)
        ensures
            r == (CollectionRequest { commit, ..self }),
    {
        CollectionRequest { commit, ..self }
    }

    /// The query pairs of this request, in their canonical order.
    pub fn query_pairs(&self) -> (r: Vec<(String, String)>)
        ensures
            pairs_view(r@) == spec_query_pairs(*self),
    {
        let mut pairs: Vec<(String, String)> = Vec::new();
        if self.full {
            pairs.push((String::from_str("full"), String::from_str("1")));
        }
        match &self.ids {
            Some(ids) => {
                pairs.push((String::from_str("ids"), comma_join(ids)));
            },
            None => {},
        }
        match &self.newer {
            Some(ts) => {
                pairs.push((String::from_str("newer"), render_timestamp(ts)));
            },
            None => {},
        }
        if self.limit > 0 {
            pairs.push((String::from_str("limit"), render_u64(self.limit as u64)));
        }
        match &self.order {
            Some(o) => {
                pairs.push((String::from_str("sort"), String::from_str(o.as_str())));
            },
            None => {},
        }
        match &self.batch {
            Some(token) => {
                pairs.push((String::from_str("batch"), token.clone()));
            },
            None => {},
        }
        if self.commit {
            pairs.push((String::from_str("commit"), String::from_str("true")));
        }
        proof {
            assert(pairs_view(pairs@) =~= spec_query_pairs(*self));
        }
        pairs
    }

    /// The URL string of this request against the storage endpoint `base`
    /// (which must end in a slash for the join to keep its path).
    /// Succeeds exactly when the base resolves and the resolved URL
    /// parses; every failure is the bad-URL error.
    pub fn build_url_str(&self, base: &str) -> (r: Result<String, ErrorKind>)
        ensures
            r is Ok <==> spec_collection_url_ok(base@, self.collection@),
            r matches Ok(u) ==> u@ == spec_collection_url(base@, *self),
            r matches Err(e) ==> e == ErrorKind::BadUrl,
    {
        let mut path = String::from_str("storage/");
        path.append(self.collection.as_str());
        let joined = match resolve_url(base, path.as_str()) {
            Ok(u) => u,
            Err(e) => {
                return Err(e);
            },
        };
        let pairs = self.query_pairs();
        append_query_pairs(joined.as_str(), &pairs)
    }
}

} // verus!
