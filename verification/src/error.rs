//! The error taxonomy shared by the storage client, the post queue and the
//! sync lifecycle.
//!
//! Transport-level failures are classified once, into [`ErrorResponse`], and
//! every variant carries the logical route of the request for diagnostics.
//! Protocol-invariant violations (a success without a version stamp, a
//! record too large to ever post, the per-pass upload ceiling) and
//! lifecycle-level failures get their own [`ErrorKind`] variants.

use vstd::prelude::*;

verus! {

/// Classification of a non-success storage-server response.
#[derive(Clone, Debug)]
pub enum ErrorResponse {
    /// 404: the requested resource does not exist.
    NotFound { route: String },
    /// 401: the credentials were rejected.
    Unauthorized { route: String },
    /// 412: the conditional-write precondition failed; a concurrent writer
    /// changed the collection after the stamp the client presented.
    PreconditionFailed { route: String },
    /// 5xx: the server failed; the caller may back off and retry a later pass.
    ServerError { route: String, status: u16 },
    /// Any other unexpected status.
    RequestFailed { route: String, status: u16 },
}

/// An error raised by this crate.
#[derive(Clone, Debug)]
pub enum ErrorKind {
    /// A storage request returned a non-success response.
    StorageHttpError(ErrorResponse),
    /// A 2xx response arrived without a last-modified stamp. Deliberately an
    /// error rather than a default: every write depends on precise version
    /// tracking, and a fabricated zero stamp would corrupt later
    /// precondition checks.
    MissingServerTimestamp,
    /// A 2xx response arrived whose body could not be read as the expected
    /// record.
    UnexpectedResponseBody,
    /// Enqueued records exceeded the per-pass total-upload ceiling; some
    /// records were not uploaded.
    BatchLimitsExceeded,
    /// A string could not be interpreted as a URL.
    BadUrl,
    /// The client has no token-server state to answer from.
    NoTokenState,
    /// A cross-device command could not be processed; fatal to the pass.
    CommandProcessingFailed,
    /// The embedding application interrupted the pass.
    Interrupted,
}

impl ErrorResponse {
    /// The logical route the failing request was made against.
    pub fn route(&self) -> (r: &String)
        ensures
            r == (match self {
                ErrorResponse::NotFound { route } => route,
                ErrorResponse::Unauthorized { route } => route,
                ErrorResponse::PreconditionFailed { route } => route,
                ErrorResponse::ServerError { route, .. } => route,
                ErrorResponse::RequestFailed { route, .. } => route,
            }),
    {
        match self {
            ErrorResponse::NotFound { route } => route,
            ErrorResponse::Unauthorized { route } => route,
            ErrorResponse::PreconditionFailed { route } => route,
            ErrorResponse::ServerError { route, .. } => route,
            ErrorResponse::RequestFailed { route, .. } => route,
        }
    }
}

} // verus!
