//! The storage-client layer: response classification and request building.
//!
//! The transport itself (HTTP, authentication headers) is a collaborator;
//! this module owns the protocol decisions around it. A transport response
//! arrives as plain values — status, route, an optionally decoded record,
//! an optionally present version stamp — and is classified once, by
//! [`Sync15ClientResponse::from_response`], into the success/error taxonomy
//! every other component consumes.

use vstd::prelude::*;
use crate::bso::{BsoRecord, MetaGlobalRecord};
use crate::config::InfoConfiguration;
use crate::error::{ErrorKind, ErrorResponse};
use crate::fmt::{render_timestamp, spec_timestamp_string};
use crate::queue::{PostQueue, PostResponse, PostResponseHandler, PostTransport, PostWrapper, SentPost};
use crate::request::{spec_collection_url, spec_collection_url_ok, CollectionRequest};
use crate::timestamp::ServerTimestamp;
use crate::urls::{is_valid_url, joined_url, resolve_url, url_joins, url_parses};

verus! {

/// Whether a transport status is a success (2xx).
pub open spec fn is_success_status(status: u16) -> bool {
    200 <= status < 300
}

/// The error class of a non-success status.
pub open spec fn spec_classify_error(status: u16, route: String) -> ErrorResponse {
    if status == 404 {
        ErrorResponse::NotFound { route }
    } else if status == 401 {
        ErrorResponse::Unauthorized { route }
    } else if status == 412 {
        ErrorResponse::PreconditionFailed { route }
    } else if 500 <= status < 600 {
        ErrorResponse::ServerError { route, status }
    } else {
        ErrorResponse::RequestFailed { route, status }
    }
}

/// What classifying a transport response yields: a success only when the
/// status is 2xx, the body was decodable and the version stamp is present;
/// an absent stamp is its own error, never defaulted.
pub open spec fn spec_from_response<T>(
    status: u16,
    route: String,
    record: Option<T>,
    last_modified: Option<ServerTimestamp>,
) -> Result<Sync15ClientResponse<T>, ErrorKind> {
    if is_success_status(status) {
        match record {
            None => Err(ErrorKind::UnexpectedResponseBody),
            Some(rec) => match last_modified {
                None => Err(ErrorKind::MissingServerTimestamp),
                Some(lm) => Ok(
                    Sync15ClientResponse::Success {
                        status,
                        record: rec,
                        last_modified: lm,
                        route,
                    },
                ),
            },
        }
    } else {
        Ok(Sync15ClientResponse::Error(spec_classify_error(status, route)))
    }
}

/// The error a response converts into when a caller needed a success.
pub open spec fn spec_storage_error<T>(r: Sync15ClientResponse<T>) -> ErrorKind {
    match r {
        Sync15ClientResponse::Success { status, route, .. } => ErrorKind::StorageHttpError(
            ErrorResponse::RequestFailed { route, status },
        ),
        Sync15ClientResponse::Error(e) => ErrorKind::StorageHttpError(e),
    }
}

/// Classifies a non-success status into its error class.
pub fn classify_error_status(status: u16, route: String) -> (r: ErrorResponse)
    ensures
        r == spec_classify_error(status, route),
{
    if status == 404 {
        ErrorResponse::NotFound { route }
    } else if status == 401 {
        ErrorResponse::Unauthorized { route }
    } else if status == 412 {
        ErrorResponse::PreconditionFailed { route }
    } else if 500 <= status && status < 600 {
        ErrorResponse::ServerError { route, status }
    } else {
        ErrorResponse::RequestFailed { route, status }
    }
}

/// A classified response from one storage request.
#[derive(Clone, Debug)]
pub enum Sync15ClientResponse<T> {
    Success {
        status: u16,
        record: T,
        last_modified: ServerTimestamp,
        route: String,
    },
    Error(ErrorResponse),
}

impl<T> Sync15ClientResponse<T> {
    /// Classifies one transport response. `record` is the decoded body of
    /// a 2xx response (`None` when decoding failed), `last_modified` the
    /// version stamp the transport extracted, when one was present.
    pub fn from_response(
        status: u16,
        route: String,
        record: Option<T>,
        last_modified: Option<ServerTimestamp>,
    ) -> (r: Result<Sync15ClientResponse<T>, ErrorKind>)
        ensures
            r == spec_from_response(status, route, record, last_modified),
    {
        if 200 <= status && status < 300 {
            match record {
                None => Err(ErrorKind::UnexpectedResponseBody),
                Some(rec) => match last_modified {
                    None => Err(ErrorKind::MissingServerTimestamp),
                    Some(lm) => Ok(
                        Sync15ClientResponse::Success {
                            status,
                            record: rec,
                            last_modified: lm,
                            route,
                        },
                    ),
                },
            }
        } else {
            Ok(Sync15ClientResponse::Error(classify_error_status(status, route)))
        }
    }

    /// Converts this response into an error. Meant for responses already
    /// known not to be successes; a success converts into a generic
    /// request-failed error rather than panicking, to stay resilient under
    /// caller misuse.
    pub fn create_storage_error(self) -> (r: ErrorKind)
        ensures
            r == spec_storage_error(self),
    {
        let inner = match self {
            Sync15ClientResponse::Success { status, route, .. } => ErrorResponse::RequestFailed {
                route,
                status,
            },
            Sync15ClientResponse::Error(e) => e,
        };
        ErrorKind::StorageHttpError(inner)
    }

    /// Passes a success through and turns anything else into its storage
    /// error, for callers that cannot proceed without one.
    pub fn require_success(self) -> (r: Result<Sync15ClientResponse<T>, ErrorKind>)
        ensures
            (self matches Sync15ClientResponse::Success { .. }) ==> r == Ok::<_, ErrorKind>(self),
            !(self matches Sync15ClientResponse::Success { .. }) ==> r == Err::<
                Sync15ClientResponse<T>,
                _,
            >(spec_storage_error(self)),
    {
        match self {
            Sync15ClientResponse::Success { .. } => Ok(self),
            _ => Err(self.create_storage_error()),
        }
    }
}

/// Law: a classification is a success only when the transport supplied a
/// version stamp, and then the stamp of the success is exactly the supplied
/// one; an absent stamp on an otherwise successful response is always the
/// missing-stamp error.
pub proof fn lemma_success_requires_timestamp<T>(
    status: u16,
    route: String,
    record: Option<T>,
    last_modified: Option<ServerTimestamp>,
)
    ensures
        (spec_from_response(status, route, record, last_modified) matches Ok(
            Sync15ClientResponse::Success { last_modified: lm, .. },
        ) ==> last_modified == Some(lm)),
        is_success_status(status) && record is Some && last_modified is None
            ==> spec_from_response(status, route, record, last_modified) == Err::<
            Sync15ClientResponse<T>,
            _,
        >(ErrorKind::MissingServerTimestamp),
        is_success_status(status) && last_modified is None ==> spec_from_response(
            status,
            route,
            record,
            last_modified,
        ) is Err,
{
}

/// Law: a conditional write that hits a newer server version comes back
/// as the precondition conflict, never as a success — a stale write is
/// never taken as applied, whatever the body or stamp of the response.
pub proof fn lemma_stale_precondition_is_conflict<T>(
    route: String,
    record: Option<T>,
    last_modified: Option<ServerTimestamp>,
)
    ensures
        spec_from_response(412, route, record, last_modified) == Ok::<_, ErrorKind>(
            Sync15ClientResponse::Error::<T>(ErrorResponse::PreconditionFailed { route }),
        ),
{
}

/// Unwraps the fetched global metadata record: on the wire it travels as
/// an envelope whose payload is the logical value, so a successful fetch
/// is unwrapped one level and everything else passes through unchanged.
pub fn unwrap_meta_global_response(got: Sync15ClientResponse<BsoRecord<MetaGlobalRecord>>) -> (r:
    Sync15ClientResponse<MetaGlobalRecord>)
    ensures
        (got matches Sync15ClientResponse::Success { status, record, last_modified, route } ==> r
            == (Sync15ClientResponse::Success {
            status,
            record: record.payload,
            last_modified,
            route,
        })),
        (got matches Sync15ClientResponse::Error(e) ==> r == Sync15ClientResponse::Error::<
            MetaGlobalRecord,
        >(e)),
{
    match got {
        Sync15ClientResponse::Success { record, last_modified, route, status } => {
            Sync15ClientResponse::Success {
                record: record.payload,
                last_modified,
                route,
                status,
            }
        },
        Sync15ClientResponse::Error(e) => Sync15ClientResponse::Error(e),
    }
}

/// The outcome of a whole-account wipe: not-found counts as success, since
/// an account with nothing stored is already wiped; anything else that is
/// not a success is its storage error.
pub fn classify_wipe_all_response<T>(resp: Sync15ClientResponse<T>) -> (r: Result<(), ErrorKind>)
    ensures
        (resp matches Sync15ClientResponse::Success { .. } ==> r is Ok),
        (resp matches Sync15ClientResponse::Error(ErrorResponse::NotFound { .. }) ==> r is Ok),
        !(resp matches Sync15ClientResponse::Success { .. }) && !(resp
            matches Sync15ClientResponse::Error(ErrorResponse::NotFound { .. })) ==> r == Err::<
            (),
            _,
        >(spec_storage_error(resp)),
    {
    match resp {
        Sync15ClientResponse::Success { .. } => Ok(()),
        Sync15ClientResponse::Error(ErrorResponse::NotFound { .. }) => Ok(()),
        other => Err(other.create_storage_error()),
    }
}

/// The methods a setup-phase storage client offers the lifecycle. Factored
/// into a trait so embedders and tests can supply their own transport.
pub trait SetupStorageClient {
    fn fetch_info_configuration(&mut self) -> Result<
        Sync15ClientResponse<InfoConfiguration>,
        ErrorKind,
    >;

    fn fetch_info_collections(&mut self) -> Result<
        Sync15ClientResponse<crate::config::InfoCollections>,
        ErrorKind,
    >;

    fn fetch_meta_global(&mut self) -> Result<Sync15ClientResponse<MetaGlobalRecord>, ErrorKind>;

    fn fetch_crypto_keys(&mut self) -> Result<
        Sync15ClientResponse<crate::bso::EncryptedBso>,
        ErrorKind,
    >;

    fn put_meta_global(&mut self, xius: ServerTimestamp, global: &MetaGlobalRecord) -> Result<
        (),
        ErrorKind,
    >;

    fn put_crypto_keys(&mut self, xius: ServerTimestamp, keys: &crate::bso::EncryptedBso) -> Result<
        (),
        ErrorKind,
    >;

    fn wipe_all_remote(&mut self) -> Result<(), ErrorKind>;
}

/// What the token collaborator hands back after authenticating: the
/// account-scoped storage endpoint and the hashed account id.
#[derive(Clone, Debug)]
pub struct TokenState {
    pub api_endpoint: String,
    pub hashed_uid: String,
}

/// The parameters a storage client is created from.
#[derive(Clone, Debug)]
pub struct Sync15StorageClientInit {
    pub key_id: String,
    pub access_token: String,
    pub tokenserver_url: String,
}

/// The protocol core of a storage client. It owns no transport: the token
/// collaborator installs the endpoint it negotiated, and every method here
/// builds request URLs or processes response values.
#[derive(Clone, Debug)]
pub struct Sync15StorageClient {
    pub init: Sync15StorageClientInit,
    pub token: Option<TokenState>,
}

impl Sync15StorageClient {
    /// A client over the given parameters. Errors when the token-server
    /// URL is not a URL at all; no token is negotiated yet.
    pub fn new(init_params: Sync15StorageClientInit) -> (r: Result<Sync15StorageClient, ErrorKind>)
        ensures
            url_parses(init_params.tokenserver_url@) ==> r == Ok::<_, ErrorKind>(
                Sync15StorageClient { init: init_params, token: None },
            ),
            !url_parses(init_params.tokenserver_url@) ==> r == Err::<Sync15StorageClient, _>(
                ErrorKind::BadUrl,
            ),
    {
        if is_valid_url(init_params.tokenserver_url.as_str()) {
            Ok(Sync15StorageClient { init: init_params, token: None })
        } else {
            Err(ErrorKind::BadUrl)
        }
    }

    /// Installs what the token collaborator negotiated.
    pub fn set_token_state(&mut self, token: TokenState)
        ensures
            final(self).init == old(self).init,
            final(self).token == Some(token),
    {
        self.token = Some(token);
    }

    /// The account-scoped storage endpoint, once a token is negotiated.
    pub fn api_endpoint(&self) -> (r: Result<String, ErrorKind>)
        ensures
            (self.token matches Some(t) ==> r == Ok::<_, ErrorKind>(t.api_endpoint)),
            self.token is None ==> r == Err::<String, _>(ErrorKind::NoTokenState),
    {
        match &self.token {
            Some(t) => Ok(t.api_endpoint.clone()),
            None => Err(ErrorKind::NoTokenState),
        }
    }

    /// The hashed account id, once a token is negotiated.
    pub fn hashed_uid(&self) -> (r: Result<String, ErrorKind>)
        ensures
            (self.token matches Some(t) ==> r == Ok::<_, ErrorKind>(t.hashed_uid)),
            self.token is None ==> r == Err::<String, _>(ErrorKind::NoTokenState),
    {
        match &self.token {
            Some(t) => Ok(t.hashed_uid.clone()),
            None => Err(ErrorKind::NoTokenState),
        }
    }

    /// The endpoint with a trailing slash, the base relative requests
    /// resolve against.
    pub fn endpoint_base(&self) -> (r: Result<String, ErrorKind>)
        ensures
            (self.token matches Some(t) ==> r matches Ok(b) && b@ == t.api_endpoint@ + "/"@),
            self.token is None ==> r == Err::<String, _>(ErrorKind::NoTokenState),
    {
        let mut base = self.api_endpoint()?;
        base.append("/");
        Ok(base)
    }

    /// The URL string of a server-relative storage request. With a token
    /// installed, it succeeds exactly when the endpoint resolves the path,
    /// and a failure is the bad-URL error.
    pub fn relative_storage_url(&self, relative_path: &str) -> (r: Result<String, ErrorKind>)
        ensures
            self.token matches Some(t) ==> {
                &&& (r is Ok <==> url_parses(t.api_endpoint@ + "/"@) && url_joins(
                    t.api_endpoint@ + "/"@,
                    relative_path@,
                ))
                &&& (r matches Ok(u) ==> u@ == joined_url(t.api_endpoint@ + "/"@, relative_path@))
                &&& (r matches Err(e) ==> e == ErrorKind::BadUrl)
            },
            self.token is None ==> r == Err::<String, _>(ErrorKind::NoTokenState),
    {
        let base = self.endpoint_base()?;
        resolve_url(base.as_str(), relative_path)
    }

    /// The URL string of a collection request against this client's
    /// endpoint. With a token installed, it succeeds exactly when the
    /// endpoint resolves the collection path, yields exactly the request's
    /// URL, and fails only with the bad-URL error.
    pub fn collection_url(&self, request: &CollectionRequest) -> (r: Result<String, ErrorKind>)
        ensures
            self.token matches Some(t) ==> {
                &&& (r is Ok <==> spec_collection_url_ok(
                    t.api_endpoint@ + "/"@,
                    request.collection@,
                ))
                &&& (r matches Ok(u) ==> u@ == spec_collection_url(
                    t.api_endpoint@ + "/"@,
                    *request,
                ))
                &&& (r matches Err(e) ==> e == ErrorKind::BadUrl)
            },
            self.token is None ==> r == Err::<String, _>(ErrorKind::NoTokenState),
    {
        let base = self.endpoint_base()?;
        request.build_url_str(base.as_str())
    }

    /// The URL and conditional-write header value of a PUT against a
    /// server-relative path: the precondition stamp the caller last
    /// observed travels as decimal seconds, and the server refuses the
    /// write when its version differs.
    pub fn put_request_parts(&self, relative_path: &str, xius: ServerTimestamp) -> (r: Result<
        (String, String),
        ErrorKind,
    >)
        ensures
            self.token is None ==> r == Err::<(String, String), _>(ErrorKind::NoTokenState),
            self.token matches Some(t) ==> {
                &&& (r is Ok <==> url_parses(t.api_endpoint@ + "/"@) && url_joins(
                    t.api_endpoint@ + "/"@,
                    relative_path@,
                ))
                &&& (r matches Ok(parts) ==> parts.0@ == joined_url(
                    t.api_endpoint@ + "/"@,
                    relative_path@,
                ) && parts.1@ == spec_timestamp_string(xius.millis as int))
                &&& (r matches Err(e) ==> e == ErrorKind::BadUrl)
            },
    {
        let url = self.relative_storage_url(relative_path)?;
        Ok((url, render_timestamp(&xius)))
    }

    /// A batching uploader bound to one collection of this client's
    /// account, posting through `transport`: an empty well-formed queue
    /// carrying the given limits and the precondition stamp of the pass,
    /// whose poster is bound to the collection, this client's endpoint,
    /// and the given transport and handler.
    pub fn new_post_queue<T: PostTransport, F: PostResponseHandler>(
        &self,
        coll: &str,
        config: &InfoConfiguration,
        ts: ServerTimestamp,
        transport: T,
        on_response: F,
    ) -> (r: Result<PostQueue<PostWrapper<T>, F>, ErrorKind>)
        ensures
            self.token is None ==> r == Err::<PostQueue<PostWrapper<T>, F>, _>(
                ErrorKind::NoTokenState,
            ),
            self.token matches Some(t) ==> (r matches Ok(q) && {
                &&& q.wf()
                &&& q.config == *config
                &&& q.last_modified == ts
                &&& q.batch_token is None
                &&& q.cur_records == 0
                &&& q.total_records == 0
                &&& q.total_bytes == 0
                &&& !q.committed
                &&& q.posted@ =~= Seq::<(int, int, bool)>::empty()
                &&& q.delivered@ =~= Seq::<(PostResponse, bool)>::empty()
                &&& q.poster.coll@ == coll@
                &&& q.poster.endpoint == t.api_endpoint
                &&& q.poster.transport == transport
                &&& q.poster.sent@ =~= Seq::<SentPost>::empty()
                &&& q.on_response == on_response
            }),
    {
        let endpoint = self.api_endpoint()?;
        let pw = PostWrapper {
            coll: coll.to_owned(),
            endpoint,
            transport,
            sent: Ghost(Seq::empty()),
        };
        Ok(PostQueue::new(config, ts, pw, on_response))
    }
}

} // verus!
