//! The Google backend: the Custom Search JSON API.
//!
//! Requires an API key (`key`) and a Programmable Search Engine ID (`cx`).
//! A search runs in three steps: [`GoogleEngine::request`] builds the GET
//! request, [`GoogleEngine::check_status`] maps the HTTP status, and
//! [`GoogleEngine::hits_from_items`] ranks the items of the decoded
//! response.

use vstd::prelude::*;
use crate::engine::{opt_view, Query, SafeSearch, SearchHit};
use crate::error::DorkError;
use crate::http::{is_success, opt_str_view, status_message, status_text, HttpRequest};
use crate::text::{decimal, decimal_chars, string_of};
use crate::urls::{append_query, pairs_view, url_parse_error, url_query_pairs, url_with_appended_query};
use crate::duckduckgo::{capped, hits_view, HitView};
use vstd::math::min;

verus! {

/// Backend identifier.
pub const ENGINE_NAME: &'static str = "google";

/// The Custom Search endpoint.
pub const DEFAULT_ENDPOINT: &'static str = "https://www.googleapis.com/customsearch/v1";

/// The message of the error reported when the API key is missing.
pub const MISSING_API_KEY: &'static str = "api_key is required for Google";

/// The message of the error reported when the search engine ID is missing.
pub const MISSING_CX: &'static str = "cx (search engine id) is required for Google";

/// The message of the error reported for an invalid query.
pub const INVALID_QUERY: &'static str = "query is empty or limit < 1";

/// The `safe` value Google expects for a `SafeSearch` level.
pub open spec fn safe_search_param(level: SafeSearch) -> Seq<char> {
    match level {
        SafeSearch::Strict => "active"@,
        SafeSearch::Moderate => "active"@,
        SafeSearch::Off => "off"@,
    }
}

/// The number of results asked for: the limit, kept within 1..=10.
pub open spec fn result_count(limit: usize) -> nat {
    if limit < 1 {
        1
    } else if limit > 10 {
        10
    } else {
        limit as nat
    }
}

/// One pair when the value is present, none otherwise.
pub open spec fn optional_pair(name: Seq<char>, value: Option<String>) -> Seq<(Seq<char>, Seq<char>)> {
    match value {
        Some(v) => seq![(name, v@)],
        None => Seq::empty(),
    }
}

/// The query pairs of a Google request, in order: key, engine ID, rendered
/// query, result count, `SafeSearch`, then region, file type and site when
/// set.
pub open spec fn request_pairs(key: Seq<char>, cx: Seq<char>, query: Query) -> Seq<
    (Seq<char>, Seq<char>),
> {
    seq![
        ("key"@, key),
        ("cx"@, cx),
        ("q"@, query.rendered()),
        ("num"@, decimal(result_count(query.limit))),
        ("safe"@, safe_search_param(query.safe_search)),
    ] + optional_pair("gl"@, query.region) + optional_pair("fileType"@, query.filetype)
        + optional_pair("siteSearch"@, query.site)
}

/// Builds the GET URL: the endpoint's own query followed by the pairs of
/// [`request_pairs`].
pub fn build_request_url(endpoint: &str, key: &str, cx: &str, query: &Query) -> (r: Result<
    String,
    DorkError,
>)
    ensures
        r is Ok <==> url_parse_error(endpoint@) is None,
        r matches Err(e) ==> (e matches DorkError::Backend(m) && url_parse_error(endpoint@)
            == Some(m@)),
        r matches Ok(u) ==> u@ == url_with_appended_query(
            endpoint@,
            request_pairs(key@, cx@, *query),
        ),
        r matches Ok(u) ==> url_query_pairs(u@) == url_query_pairs(endpoint@) + request_pairs(
            key@,
            cx@,
            *query,
        ),
{
    let safe = match query.safe_search {
        SafeSearch::Strict | SafeSearch::Moderate => "active",
        SafeSearch::Off => "off",
    };
    let count: u64 = if query.limit < 1 {
        1
    } else if query.limit > 10 {
        10
    } else {
        query.limit as u64
    };
    let limit = string_of(decimal_chars(count).as_slice());
    let mut pairs: Vec<(String, String)> = Vec::new();
    pairs.push(("key".to_owned(), key.to_owned()));
    pairs.push(("cx".to_owned(), cx.to_owned()));
    pairs.push(("q".to_owned(), query.render_with_operators()));
    pairs.push(("num".to_owned(), limit));
    pairs.push(("safe".to_owned(), safe.to_owned()));
    match &query.region {
        Some(region) => pairs.push(("gl".to_owned(), region.clone())),
        None => {},
    }
    match &query.filetype {
        Some(filetype) => pairs.push(("fileType".to_owned(), filetype.clone())),
        None => {},
    }
    match &query.site {
        Some(site) => pairs.push(("siteSearch".to_owned(), site.clone())),
        None => {},
    }
    assert(pairs_view(pairs@) =~= request_pairs(key@, cx@, *query));
    match append_query(endpoint, &pairs) {
        Ok(u) => Ok(u),
        Err(m) => Err(DorkError::Backend(m)),
    }
}

/// One item of a Custom Search response.
#[derive(Debug)]
pub struct GoogleItem {
    /// Page title (empty when the response has none).
    pub title: String,
    /// Target URL (empty when the response has none).
    pub link: String,
    /// Snippet (empty when the response has none).
    pub snippet: String,
}

/// The hits of a response's items: in order, ranked from 1, tagged `google`.
pub open spec fn item_hits(items: Seq<GoogleItem>) -> Seq<HitView> {
    Seq::new(
        items.len(),
        |i: int|
            (
                (i + 1) as usize,
                items[i].title@,
                items[i].link@,
                items[i].snippet@,
                Some(ENGINE_NAME@),
            ),
    )
}

/// Google Custom Search backend.
#[derive(Debug, Clone)]
pub struct GoogleEngine {
    endpoint: String,
    api_key: String,
    cx: String,
}

/// Configurable builder for [`GoogleEngine`].
#[derive(Debug, Clone)]
pub struct GoogleEngineBuilder {
    endpoint: Option<String>,
    api_key: Option<String>,
    cx: Option<String>,
}

impl Default for GoogleEngineBuilder {
    fn default() -> (r: Self)
        ensures
            r.endpoint_view() is None,
            r.api_key_view() is None,
            r.cx_view() is None,
    {
        GoogleEngineBuilder { endpoint: None, api_key: None, cx: None }
    }
}

impl GoogleEngineBuilder {
    /// The endpoint override, if set.
    pub closed spec fn endpoint_view(&self) -> Option<Seq<char>> {
        opt_view(self.endpoint)
    }

    /// The API key, if set.
    pub closed spec fn api_key_view(&self) -> Option<Seq<char>> {
        opt_view(self.api_key)
    }

    /// The search engine ID, if set.
    pub closed spec fn cx_view(&self) -> Option<Seq<char>> {
        opt_view(self.cx)
    }

    /// Override the endpoint URL — primarily for tests.
    pub fn endpoint(self, endpoint: &str) -> (r: Self)
        ensures
            r.endpoint_view() == Some(endpoint@),
            r.api_key_view() == self.api_key_view(),
            r.cx_view() == self.cx_view(),
    {
        GoogleEngineBuilder { endpoint: Some(endpoint.to_owned()), api_key: self.api_key, cx: self.cx }
    }

    /// Set the Google API key (required).
    pub fn api_key(self, key: &str) -> (r: Self)
        ensures
            r.endpoint_view() == self.endpoint_view(),
            r.api_key_view() == Some(key@),
            r.cx_view() == self.cx_view(),
    {
        GoogleEngineBuilder { endpoint: self.endpoint, api_key: Some(key.to_owned()), cx: self.cx }
    }

    /// Set the Programmable Search Engine ID (required).
    pub fn cx(self, cx: &str) -> (r: Self)
        ensures
            r.endpoint_view() == self.endpoint_view(),
            r.api_key_view() == self.api_key_view(),
            r.cx_view() == Some(cx@),
    {
        GoogleEngineBuilder { endpoint: self.endpoint, api_key: self.api_key, cx: Some(cx.to_owned()) }
    }

    /// Finalise the engine: refused, as an authentication error, when the
    /// API key or the search engine ID is missing.
    pub fn build(self) -> (r: Result<GoogleEngine, DorkError>)
        ensures
            self.api_key_view() is None ==> (r matches Err(DorkError::Auth(m)) && m@
                == MISSING_API_KEY@),
            self.api_key_view() is Some && self.cx_view() is None ==> (r matches Err(
                DorkError::Auth(m),
            ) && m@ == MISSING_CX@),
            r is Ok <==> (self.api_key_view() is Some && self.cx_view() is Some),
            r matches Ok(e) ==> Some(e.api_key_view()) == self.api_key_view() && Some(e.cx_view())
                == self.cx_view() && e.endpoint_view() == match self.endpoint_view() {
                Some(v) => v,
                None => DEFAULT_ENDPOINT@,
            },
    {
        let api_key = match self.api_key {
            Some(k) => k,
            None => return Err(DorkError::Auth(MISSING_API_KEY.to_owned())),
        };
        let cx = match self.cx {
            Some(c) => c,
            None => return Err(DorkError::Auth(MISSING_CX.to_owned())),
        };
        let endpoint = match self.endpoint {
            Some(e) => e,
            None => DEFAULT_ENDPOINT.to_owned(),
        };
        Ok(GoogleEngine { endpoint, api_key, cx })
    }
}

impl GoogleEngine {
    /// The endpoint requests go to.
    pub closed spec fn endpoint_view(&self) -> Seq<char> {
        self.endpoint@
    }

    /// The API key requests carry.
    pub closed spec fn api_key_view(&self) -> Seq<char> {
        self.api_key@
    }

    /// The search engine ID requests carry.
    pub closed spec fn cx_view(&self) -> Seq<char> {
        self.cx@
    }

    /// Start a builder. Requires `api_key` + `cx` before
    /// [`GoogleEngineBuilder::build`].
    pub fn builder() -> (r: GoogleEngineBuilder)
        ensures
            r.endpoint_view() is None,
            r.api_key_view() is None,
            r.cx_view() is None,
    {
        GoogleEngineBuilder::default()
    }

    /// Backend identifier.
    pub fn name(&self) -> (r: &'static str)
        ensures
            r@ == ENGINE_NAME@,
    {
        ENGINE_NAME
    }

    /// The request for `query`: refused when the query is not valid, else
    /// the GET URL built on the endpoint, with no extra header.
    pub fn request(&self, query: &Query) -> (r: Result<HttpRequest, DorkError>)
        ensures
            !query.valid() ==> (r matches Err(DorkError::InvalidQuery(m)) && m@ == INVALID_QUERY@),
            query.valid() ==> (r is Ok <==> url_parse_error(self.endpoint_view()) is None),
            query.valid() ==> (r matches Err(e) ==> (e matches DorkError::Backend(m)
                && url_parse_error(self.endpoint_view()) == Some(m@))),
            r matches Ok(req) ==> req.url@ == url_with_appended_query(
                self.endpoint_view(),
                request_pairs(self.api_key_view(), self.cx_view(), *query),
            ),
            r matches Ok(req) ==> url_query_pairs(req.url@) == url_query_pairs(self.endpoint_view())
                + request_pairs(self.api_key_view(), self.cx_view(), *query),
            r matches Ok(req) ==> req.headers@.len() == 0,
    {
        if !query.is_valid() {
            return Err(DorkError::InvalidQuery(INVALID_QUERY.to_owned()));
        }
        let url = build_request_url(self.endpoint.as_str(), self.api_key.as_str(), self.cx.as_str(), query)?;
        Ok(HttpRequest { url, headers: Vec::new() })
    }

    /// Maps the response status: `401` and `403` are authentication
    /// failures, `429` a rate limit (retry after 60 s), any other non-2xx
    /// status a backend error naming the status.
    pub fn check_status(status: u16, reason: Option<&str>) -> (r: Result<(), DorkError>)
        ensures
            (status == 401 || status == 403) ==> (r matches Err(DorkError::Auth(m)) && m@
                == "Google returned HTTP "@ + status_text(status, opt_str_view(reason))),
            status == 429 ==> r == Err::<(), DorkError>(
                DorkError::RateLimited { retry_after_seconds: 60 },
            ),
            status != 401 && status != 403 && status != 429 && !is_success(status) ==> (r matches Err(
                DorkError::Backend(m),
            ) && m@ == "Google returned HTTP "@ + status_text(status, opt_str_view(reason))),
            is_success(status) ==> r is Ok,
    {
        if status == 401 || status == 403 {
            let m = status_message("Google returned HTTP ", status, reason);
            return Err(DorkError::Auth(string_of(m.as_slice())));
        }
        if status == 429 {
            return Err(DorkError::RateLimited { retry_after_seconds: 60 });
        }
        if !(200 <= status && status < 300) {
            let m = status_message("Google returned HTTP ", status, reason);
            return Err(DorkError::Backend(string_of(m.as_slice())));
        }
        Ok(())
    }

    /// The hits of the response's items, in order, ranked from 1, tagged
    /// with this engine's name, and capped at `limit` (the query's limit).
    pub fn hits_from_items(items: Vec<GoogleItem>, limit: usize) -> (r: Vec<SearchHit>)
        ensures
            hits_view(r@) == capped(item_hits(items@), limit),
            r@.len() <= limit,
            r@.len() == min(limit as int, items@.len() as int),
            forall|i: int|
                0 <= i < r@.len() ==> {
                    &&& (#[trigger] r@[i]).rank == i + 1
                    &&& r@[i].title@ == items@[i].title@
                    &&& r@[i].url@ == items@[i].link@
                    &&& r@[i].snippet@ == items@[i].snippet@
                    &&& opt_view(r@[i].source) == Some(ENGINE_NAME@)
                },
    {
        let mut hits: Vec<SearchHit> = Vec::new();
        let n = if items.len() <= limit {
            items.len()
        } else {
            limit
        };
        for i in 0..n
            invariant
                n <= items@.len(),
                n == (if items@.len() <= limit { items@.len() } else { limit as nat }),
                hits_view(hits@) == item_hits(items@).take(i as int),
        {
            let item = &items[i];
            let hit = SearchHit::new(i + 1, item.title.as_str(), item.link.as_str(), item.snippet.as_str())
                .with_source(ENGINE_NAME);
            let ghost before = hits@;
            hits.push(hit);
            assert(hits_view(hits@) =~= hits_view(before).push(hit@));
            assert(item_hits(items@).take(i + 1) =~= item_hits(items@).take(i as int).push(
                item_hits(items@)[i as int],
            ));
        }
        assert(item_hits(items@).take(n as int) =~= capped(item_hits(items@), limit));
        assert forall|i: int| 0 <= i < hits@.len() implies {
            &&& (#[trigger] hits@[i]).rank == i + 1
            &&& hits@[i].title@ == items@[i].title@
            &&& hits@[i].url@ == items@[i].link@
            &&& hits@[i].snippet@ == items@[i].snippet@
            &&& opt_view(hits@[i].source) == Some(ENGINE_NAME@)
        } by {
            assert(hits_view(hits@)[i] == hits@[i]@);
        }
        hits
    }
}

} // verus!
