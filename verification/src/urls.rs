//! What this library uses of the `url` crate: parsing a URL into its host,
//! path and decoded query pairs, and writing a form-encoded query onto a URL.
//! Each item here is trusted: its contract is believed, not proved.

use vstd::prelude::*;
use crate::engine::opt_view;

verus! {

/// Host, path and decoded query pairs of a parsed URL, as plain text.
pub struct UrlParts {
    /// `Url::host_str`.
    pub host: Option<String>,
    /// `Url::path`.
    pub path: String,
    /// `Url::query_pairs`, decoded, in order.
    pub query_pairs: Vec<(String, String)>,
}

/// A list of name/value pairs, as text.
pub open spec fn pairs_view(v: Seq<(String, String)>) -> Seq<(Seq<char>, Seq<char>)> {
    v.map_values(|p: (String, String)| (p.0@, p.1@))
}

/// How `url::Url::parse(s)` fails: `None` when `s` parses, else the text
/// that the `url::ParseError` it returns displays.
pub uninterp spec fn url_parse_error(s: Seq<char>) -> Option<Seq<char>>;

/// `Url::host_str` of the URL that `url::Url::parse(s)` gives.
pub uninterp spec fn url_host_str(s: Seq<char>) -> Option<Seq<char>>;

/// `Url::path` of the URL that `url::Url::parse(s)` gives.
pub uninterp spec fn url_path(s: Seq<char>) -> Seq<char>;

/// `Url::query_pairs` of the URL that `url::Url::parse(s)` gives, decoded.
pub uninterp spec fn url_query_pairs(s: Seq<char>) -> Seq<(Seq<char>, Seq<char>)>;

/// The text of the URL parsed from `endpoint` after
/// `query_pairs_mut().clear()` and one `append_pair` per pair, in order.
pub uninterp spec fn url_with_replaced_query(
    endpoint: Seq<char>,
    pairs: Seq<(Seq<char>, Seq<char>)>,
) -> Seq<char>;

/// The text of the URL parsed from `endpoint` after one
/// `query_pairs_mut().append_pair` per pair, in order, keeping the query
/// that the endpoint already had.
pub uninterp spec fn url_with_appended_query(
    endpoint: Seq<char>,
    pairs: Seq<(Seq<char>, Seq<char>)>,
) -> Seq<char>;

/// Calls `url::Url::parse` and reads `host_str`, `path` and `query_pairs`
/// of the result. Claimed: the call succeeds exactly when the named parse
/// succeeds, and the parts are the named ones; a failure carries the text of
/// the parse error.
#[verifier::external_body]
pub fn parse_url(s: &str) -> (r: Result<UrlParts, String>)
    ensures
        r is Ok <==> url_parse_error(s@) is None,
        r matches Err(m) ==> url_parse_error(s@) == Some(m@),
        r matches Ok(p) ==> opt_view(p.host) == url_host_str(s@),
        r matches Ok(p) ==> p.path@ == url_path(s@),
        r matches Ok(p) ==> pairs_view(p.query_pairs@) == url_query_pairs(s@),
{
    match url::Url::parse(s) {
        Ok(u) => Ok(UrlParts {
            host: u.host_str().map(String::from),
            path: u.path().to_string(),
            query_pairs: u.query_pairs().map(|(k, v)| (k.into_owned(), v.into_owned())).collect(),
        }),
        Err(e) => Err(e.to_string()),
    }
}

/// Calls `url::Url::parse(endpoint)`, then on the URL
/// `query_pairs_mut().clear().extend_pairs(pairs)`, and returns its text.
/// Claimed: it fails exactly when the endpoint does not parse, and the text
/// it returns parses back to a URL whose decoded query is exactly `pairs`
/// (form encoding followed by `query_pairs` decoding gives every pair back).
#[verifier::external_body]
pub fn replace_query(endpoint: &str, pairs: &Vec<(String, String)>) -> (r: Result<String, String>)
    ensures
        r is Ok <==> url_parse_error(endpoint@) is None,
        r matches Err(m) ==> url_parse_error(endpoint@) == Some(m@),
        r matches Ok(u) ==> u@ == url_with_replaced_query(endpoint@, pairs_view(pairs@)),
        r matches Ok(u) ==> url_parse_error(u@) is None,
        r matches Ok(u) ==> url_query_pairs(u@) == pairs_view(pairs@),
{
    match url::Url::parse(endpoint) {
        Ok(mut u) => {
            u.query_pairs_mut().clear().extend_pairs(pairs.iter());
            Ok(u.into())
        },
        Err(e) => Err(e.to_string()),
    }
}

/// Calls `url::Url::parse(endpoint)`, then on the URL
/// `query_pairs_mut().extend_pairs(pairs)`, and returns its text.
/// Claimed: it fails exactly when the endpoint does not parse, and the text
/// it returns parses back to a URL whose decoded query is the endpoint's
/// own query followed by `pairs`.
#[verifier::external_body]
pub fn append_query(endpoint: &str, pairs: &Vec<(String, String)>) -> (r: Result<String, String>)
    ensures
        r is Ok <==> url_parse_error(endpoint@) is None,
        r matches Err(m) ==> url_parse_error(endpoint@) == Some(m@),
        r matches Ok(u) ==> u@ == url_with_appended_query(endpoint@, pairs_view(pairs@)),
        r matches Ok(u) ==> url_parse_error(u@) is None,
        r matches Ok(u) ==> url_query_pairs(u@) == url_query_pairs(endpoint@) + pairs_view(
            pairs@,
        ),
{
    match url::Url::parse(endpoint) {
        Ok(mut u) => {
            u.query_pairs_mut().extend_pairs(pairs.iter());
            Ok(u.into())
        },
        Err(e) => Err(e.to_string()),
    }
}

} // verus!
