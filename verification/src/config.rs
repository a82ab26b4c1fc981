//! Server-advertised limits and the per-collection version inventory.
//!
//! Both are fetched once per sync pass and treated as read-only for the
//! rest of the pass: the limits size every batch the post queue builds, and
//! the inventory decides which engines have remote changes worth fetching.

use vstd::prelude::*;
use crate::timestamp::ServerTimestamp;

verus! {

/// Server-advertised limits, from `info/configuration`.
#[derive(Clone, Copy, Debug)]
pub struct InfoConfiguration {
    /// Maximum size of one request body.
    pub max_request_bytes: usize,
    /// Maximum records in one posted batch.
    pub max_post_records: usize,
    /// Maximum payload bytes in one posted batch.
    pub max_post_bytes: usize,
    /// Maximum records across one whole upload pass.
    pub max_total_records: usize,
    /// Maximum payload bytes across one whole upload pass.
    pub max_total_bytes: usize,
    /// Maximum size of one record's payload.
    pub max_record_payload_bytes: usize,
}

/// The limits assumed when the server advertises none: modest bounds on
/// one request and one record, no bound on batches or totals.
pub open spec fn spec_default_config() -> InfoConfiguration {
    InfoConfiguration {
        max_request_bytes: 266240,
        max_post_records: usize::MAX,
        max_post_bytes: usize::MAX,
        max_total_records: usize::MAX,
        max_total_bytes: usize::MAX,
        max_record_payload_bytes: 262144,
    }
}

impl Default for InfoConfiguration {
    /// The limits assumed when the server advertises none.
    fn default() -> (r: Self)
        ensures
            r == spec_default_config(),
    {
        InfoConfiguration {
            max_request_bytes: 266240,
            max_post_records: usize::MAX,
            max_post_bytes: usize::MAX,
            max_total_records: usize::MAX,
            max_total_bytes: usize::MAX,
            max_record_payload_bytes: 262144,
        }
    }
}

/// The first stamp paired with `name`, scanning left to right.
pub open spec fn spec_collection_lookup(
    entries: Seq<(String, ServerTimestamp)>,
    name: Seq<char>,
) -> Option<ServerTimestamp>
    decreases entries.len(),
{
    if entries.len() == 0 {
        None
    } else if entries[0].0@ == name {
        Some(entries[0].1)
    } else {
        spec_collection_lookup(entries.skip(1), name)
    }
}

proof fn lemma_collection_lookup_skip(
    entries: Seq<(String, ServerTimestamp)>,
    name: Seq<char>,
    i: int,
)
    requires
        0 <= i <= entries.len(),
        forall|j: int| 0 <= j < i ==> entries[j].0@ != name,
    ensures
        spec_collection_lookup(entries, name) == spec_collection_lookup(entries.skip(i), name),
    decreases i,
{
    if i == 0 {
        assert(entries.skip(0) =~= entries);
    } else {
        assert(entries[0].0@ != name);
        assert(forall|j: int| 0 <= j < i - 1 ==> entries.skip(1)[j] == entries[j + 1]);
        lemma_collection_lookup_skip(entries.skip(1), name, i - 1);
        assert(entries.skip(1).skip(i - 1) =~= entries.skip(i));
    }
}

/// The mapping from collection name to its current version stamp, from
/// `info/collections`.
#[derive(Clone, Debug)]
pub struct InfoCollections {
    pub entries: Vec<(String, ServerTimestamp)>,
}

impl InfoCollections {
    /// An empty inventory.
    pub fn new() -> (r: InfoCollections)
        ensures
            r.entries@.len() == 0,
    {
        InfoCollections { entries: Vec::new() }
    }

    /// The current stamp of collection `name`, if the server listed one.
    pub fn get(&self, name: &str) -> (r: Option<ServerTimestamp>)
        ensures
            r == spec_collection_lookup(self.entries@, name@),
    {
        let owned: String = name.to_owned();
        let n = self.entries.len();
        let mut i: usize = 0;
        while i < n
            invariant
                0 <= i <= n,
                n == self.entries@.len(),
                owned@ == name@,
                forall|j: int| 0 <= j < i ==> self.entries@[j].0@ != name@,
            decreases n - i,
        {
            if self.entries[i].0 == owned {
                proof {
                    lemma_collection_lookup_skip(self.entries@, name@, i as int);
                    assert(self.entries@.skip(i as int)[0] == self.entries@[i as int]);
                }
                return Some(self.entries[i].1);
            }
            i += 1;
        }
        proof {
            lemma_collection_lookup_skip(self.entries@, name@, n as int);
            assert(self.entries@.skip(n as int).len() == 0);
        }
        None
    }
}

} // verus!
