//! URL construction, delegated to the `url` crate.
//!
//! The protocol logic decides which path and which query parameters a
//! request carries; turning those into an absolute URL string (resolution
//! against the account endpoint, percent-encoding of query values) is the
//! `url` crate's work. Both steps are deterministic functions of their
//! string arguments, so each result is given a name that caller contracts
//! build on, and success is pinned to the named parse and join outcomes.

use vstd::prelude::*;
use crate::error::ErrorKind;

verus! {

/// The string of the URL that resolving `path` against the absolute URL
/// `base` yields.
pub uninterp spec fn joined_url(base: Seq<char>, path: Seq<char>) -> Seq<char>;

/// The string of the URL that appending the percent-encoded query pairs
/// `pairs` to the URL `url` yields.
pub uninterp spec fn url_with_query(
    url: Seq<char>,
    pairs: Seq<(Seq<char>, Seq<char>)>,
) -> Seq<char>;

/// The view of a list of query pairs.
pub open spec fn pairs_view(pairs: Seq<(String, String)>) -> Seq<(Seq<char>, Seq<char>)> {
    pairs.map_values(|p: (String, String)| (p.0@, p.1@))
}

/// Whether `s` parses as an absolute URL.
pub uninterp spec fn url_parses(s: Seq<char>) -> bool;

/// Whether resolving `path` against the parsed URL of `base` succeeds.
pub uninterp spec fn url_joins(base: Seq<char>, path: Seq<char>) -> bool;

/// Relies on url::Url::parse: whether `s` parses as an absolute URL; the
/// outcome depends on the string alone.
#[verifier::external_body]
pub fn is_valid_url(s: &str) -> (r: bool)
    ensures
        r == url_parses(s@),
{
    url::Url::parse(s).is_ok()
}

/// Relies on url::Url::parse and url::Url::join: resolves `path` against
/// the absolute URL `base`; both outcome and result depend on the two
/// strings alone. Succeeds exactly when `base` parses and the join is
/// valid against it; every failure is the bad-URL error.
#[verifier::external_body]
pub fn resolve_url(base: &str, path: &str) -> (r: Result<String, ErrorKind>)
    ensures
        r is Ok == (url_parses(base@) && url_joins(base@, path@)),
        r matches Ok(u) ==> u@ == joined_url(base@, path@),
        r matches Err(e) ==> e == ErrorKind::BadUrl,
{
    let parsed = url::Url::parse(base).map_err(|_| ErrorKind::BadUrl)?;
    let joined = parsed.join(path).map_err(|_| ErrorKind::BadUrl)?;
    Ok(String::from(joined))
}

/// Relies on url::Url::query_pairs_mut (form_urlencoded serialization):
/// appends each pair to the query, percent-encoded; the result depends on
/// the URL and the pairs alone. Succeeds exactly when `url` parses;
/// every failure is the bad-URL error.
#[verifier::external_body]
pub fn append_query_pairs(url: &str, pairs: &Vec<(String, String)>) -> (r: Result<
    String,
    ErrorKind,
>)
    ensures
        r is Ok == url_parses(url@),
        r matches Ok(u) ==> u@ == url_with_query(url@, pairs_view(pairs@)),
        r matches Err(e) ==> e == ErrorKind::BadUrl,
{
    let mut parsed = url::Url::parse(url).map_err(|_| ErrorKind::BadUrl)?;
    {
        let mut serializer = parsed.query_pairs_mut();
        for (k, v) in pairs.iter() {
            serializer.append_pair(k, v);
        }
    }
    Ok(String::from(parsed))
}

} // verus!
