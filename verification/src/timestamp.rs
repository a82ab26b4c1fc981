//! Server-issued version stamps.
//!
//! The storage service stamps every collection with a monotonically
//! non-decreasing version. A client never fabricates one: stamps only enter
//! the system from server responses, and are echoed back as preconditions
//! for writes. The stamp is held as a whole number of milliseconds.

use vstd::prelude::*;

verus! {

/// A version stamp issued by the storage service, in milliseconds.
#[derive(Clone, Copy, Debug, PartialEq, Eq, Structural, Hash)]
pub struct ServerTimestamp {
    pub millis: u64,
}

impl ServerTimestamp {
    /// Wraps a raw millisecond count received from the server.
    pub fn from_millis(millis: u64) -> (r: ServerTimestamp)
        ensures
            r.millis == millis,
    {
        ServerTimestamp { millis }
    }

    /// The raw millisecond count.
    pub fn as_millis(&self) -> (r: u64)
        ensures
            r == self.millis,
    {
        self.millis
    }

    /// True when `self` is a strictly newer version than `other`.
    /// Only meaningful for two stamps of the same collection.
    pub fn is_after(&self, other: &ServerTimestamp) -> (r: bool)
        ensures
            r == (self.millis > other.millis),
    {
        self.millis > other.millis
    }
}

impl Default for ServerTimestamp {
    /// The zero stamp, older than every stamp the server issues.
    fn default() -> (r: Self)
        ensures
            r.millis == 0,
    {
        ServerTimestamp { millis: 0 }
    }
}

} // verus!
