//! The DuckDuckGo backend: the HTML lite endpoint at
//! <https://html.duckduckgo.com/html/>, scraped for its result blocks.
//!
//! A search runs in three steps. [`DuckDuckGoEngine::request`] checks the
//! query and builds the GET request; whoever performs it hands the HTTP
//! status to [`DuckDuckGoEngine::check_status`] and the page body to
//! [`DuckDuckGoEngine::finish`], which extracts, caps and tags the hits.

use vstd::prelude::*;
use scraper::error::SelectorErrorKind;
use crate::engine::{opt_view, Query, SafeSearch, SearchHit};
use vstd::math::min;
use crate::error::DorkError;
use crate::http::{is_success, opt_str_view, status_message, status_text, HttpRequest};
use crate::html::{page_blocks, read_blocks, selector_parses};
use crate::text::{chars_eq, chars_of, is_prefix, starts_with, string_of, trim, trim_chars};
use crate::urls::{pairs_view, parse_url, replace_query, url_host_str, url_parse_error, url_path,
    url_query_pairs, url_with_replaced_query,
};

verus! {

/// Backend identifier.
pub const ENGINE_NAME: &'static str = "duckduckgo";

/// The `User-Agent` sent unless the builder sets another.
pub const DEFAULT_USER_AGENT: &'static str =
    "Mozilla/5.0 (compatible; dork/0.1; +https://github.com/anatta-rs/dork)";

/// The HTML lite endpoint.
pub const DEFAULT_ENDPOINT: &'static str = "https://html.duckduckgo.com/html/";

/// The `Accept-Language` sent when the query has no region.
pub const DEFAULT_ACCEPT_LANGUAGE: &'static str = "en-US,en;q=0.9";

/// Selector of a result block.
pub const RESULT_SELECTOR: &'static str = "div.result, div.web-result";

/// Selector of the title link inside a block.
pub const TITLE_SELECTOR: &'static str = "a.result__a";

/// Selector of the snippet inside a block.
pub const SNIPPET_SELECTOR: &'static str = "a.result__snippet, .result__snippet";

/// Selector of the visible display URL inside a block.
pub const URL_SELECTOR: &'static str = "a.result__url, .result__url";

/// The message of the error reported when a selector does not parse.
pub const SELECTOR_BUG: &'static str = "invalid CSS selector (this is a dork-duckduckgo bug)";

/// The message of the error reported for an invalid query.
pub const INVALID_QUERY: &'static str = "query is empty or limit < 1";

/// The `kp` value DuckDuckGo expects for a `SafeSearch` level.
pub open spec fn safe_search_param(level: SafeSearch) -> Seq<char> {
    match level {
        SafeSearch::Strict => "1"@,
        SafeSearch::Moderate => "-1"@,
        SafeSearch::Off => "-2"@,
    }
}

/// The query pairs of a DuckDuckGo request: the rendered query, the
/// `SafeSearch` level, then the region when there is one.
pub open spec fn request_pairs(query: Query) -> Seq<(Seq<char>, Seq<char>)> {
    seq![("q"@, query.rendered()), ("kp"@, safe_search_param(query.safe_search))] + match query.region {
        Some(r) => seq![("kl"@, r@)],
        None => Seq::empty(),
    }
}

/// The headers of a DuckDuckGo request.
pub open spec fn request_headers(user_agent: Seq<char>, query: Query) -> Seq<(Seq<char>, Seq<char>)> {
    seq![
        ("user-agent"@, user_agent),
        ("accept"@, "text/html"@),
        ("accept-language"@, match query.region {
            Some(r) => r@,
            None => DEFAULT_ACCEPT_LANGUAGE@,
        }),
    ]
}

/// A display URL promoted to `https://` unless it names a scheme already.
pub open spec fn normalized_url(s: Seq<char>) -> Seq<char> {
    let t = trim(s);
    if is_prefix("http://"@, t) || is_prefix("https://"@, t) {
        t
    } else {
        "https://"@ + t
    }
}

/// A scheme-relative link (`//host/...`) made absolute with `https:`.
pub open spec fn with_https_scheme(t: Seq<char>) -> Seq<char> {
    if is_prefix("//"@, t) {
        "https://"@ + t.subrange("//"@.len() as int, t.len() as int)
    } else {
        t
    }
}

/// The value of the first pair named `key`.
pub open spec fn first_value(pairs: Seq<(Seq<char>, Seq<char>)>, key: Seq<char>) -> Option<
    Seq<char>,
>
    decreases pairs.len(),
{
    if pairs.len() == 0 {
        None
    } else if pairs[0].0 == key {
        Some(pairs[0].1)
    } else {
        first_value(pairs.drop_first(), key)
    }
}

/// The URL is DuckDuckGo's redirect page `duckduckgo.com/l/`.
pub open spec fn is_redirect(u: Seq<char>) -> bool {
    &&& url_parse_error(u) is None
    &&& url_host_str(u) == Some("duckduckgo.com"@)
    &&& url_path(u) == "/l/"@
}

/// The target of a result link: empty for a blank link; the `uddg`
/// parameter of a DuckDuckGo redirect; otherwise the link itself, made
/// absolute when it is scheme-relative.
pub open spec fn resolved_href(raw: Seq<char>) -> Seq<char> {
    let t = trim(raw);
    if t.len() == 0 {
        Seq::empty()
    } else {
        let w = with_https_scheme(t);
        if is_redirect(w) && first_value(url_query_pairs(w), "uddg"@) is Some {
            first_value(url_query_pairs(w), "uddg"@)->0
        } else {
            w
        }
    }
}

/// What a result block of the page holds, as plain text.
#[derive(Debug)]
pub struct ResultBlock {
    /// Text of the block's first title link, if it has one.
    pub title: Option<String>,
    /// `href` of that link, or empty.
    pub href: String,
    /// Text of the block's first display-URL element, if any.
    pub visible_url: Option<String>,
    /// Text of the block's first snippet element, if any.
    pub snippet: Option<String>,
}

impl View for ResultBlock {
    type V = (Option<Seq<char>>, Seq<char>, Option<Seq<char>>, Option<Seq<char>>);

    open spec fn view(&self) -> Self::V {
        (opt_view(self.title), self.href@, opt_view(self.visible_url), opt_view(self.snippet))
    }
}

/// A search hit as text: rank, title, URL, snippet and source.
pub type HitView = (usize, Seq<char>, Seq<char>, Seq<char>, Option<Seq<char>>);

/// A result block as text: title, href, display URL and snippet.
pub type BlockView = (Option<Seq<char>>, Seq<char>, Option<Seq<char>>, Option<Seq<char>>);

/// The hits of a list, as text.
pub open spec fn hits_view(v: Seq<SearchHit>) -> Seq<HitView> {
    v.map_values(|h: SearchHit| h@)
}

/// The blocks of a list, as text.
pub open spec fn blocks_view(v: Seq<ResultBlock>) -> Seq<BlockView> {
    v.map_values(|b: ResultBlock| b@)
}

/// The URL of a block's hit: the display URL when it has text, else the
/// resolved link.
pub open spec fn block_url(b: BlockView) -> Seq<char> {
    match b.2 {
        Some(v) => if trim(v).len() > 0 {
            normalized_url(trim(v))
        } else {
            resolved_href(b.1)
        },
        None => resolved_href(b.1),
    }
}

/// The snippet of a block's hit: its trimmed text, or empty.
pub open spec fn block_snippet(b: BlockView) -> Seq<char> {
    match b.3 {
        Some(s) => trim(s),
        None => Seq::empty(),
    }
}

/// Title, URL and snippet of the hit a block gives: none when it has no
/// title link or the title is blank.
pub open spec fn block_entry(b: BlockView) -> Option<(Seq<char>, Seq<char>, Seq<char>)> {
    match b.0 {
        Some(t) => if trim(t).len() > 0 {
            Some((trim(t), block_url(b), block_snippet(b)))
        } else {
            None
        },
        None => None,
    }
}

/// The hits that a sequence of blocks gives, ranked 1, 2, … in block order.
pub open spec fn hits_of(blocks: Seq<BlockView>) -> Seq<HitView>
    decreases blocks.len(),
{
    if blocks.len() == 0 {
        Seq::empty()
    } else {
        let prev = hits_of(blocks.drop_last());
        match block_entry(blocks.last()) {
            Some(e) => prev.push(((prev.len() + 1) as usize, e.0, e.1, e.2, None)),
            None => prev,
        }
    }
}

/// At most `limit` of the hits, the first ones.
pub open spec fn capped(hits: Seq<HitView>, limit: usize) -> Seq<HitView> {
    if hits.len() <= limit {
        hits
    } else {
        hits.take(limit as int)
    }
}

/// The hits, each tagged with `source`.
pub open spec fn tagged(hits: Seq<HitView>, source: Seq<char>) -> Seq<HitView> {
    hits.map_values(|h: HitView| (h.0, h.1, h.2, h.3, Some(source)))
}

/// Every selector that the page extraction uses parses.
pub open spec fn selectors_parse() -> bool {
    &&& selector_parses(RESULT_SELECTOR@)
    &&& selector_parses(TITLE_SELECTOR@)
    &&& selector_parses(SNIPPET_SELECTOR@)
    &&& selector_parses(URL_SELECTOR@)
}

/// The error reported for a selector that does not parse.
pub open spec fn is_selector_error(e: DorkError) -> bool {
    e matches DorkError::Parse(m) && m@ == SELECTOR_BUG@
}

/// The hits of a sequence of blocks are ranked 1, 2, … and have non-blank
/// titles and no source; there are no more of them than blocks.
pub proof fn lemma_hits_of_shape(blocks: Seq<BlockView>)
    requires
        blocks.len() <= usize::MAX,
    ensures
        hits_of(blocks).len() <= blocks.len(),
        forall|i: int|
            0 <= i < hits_of(blocks).len() ==> {
                &&& (#[trigger] hits_of(blocks)[i]).0 == i + 1
                &&& hits_of(blocks)[i].1.len() > 0
                &&& hits_of(blocks)[i].4 is None
            },
    decreases blocks.len(),
{
    if blocks.len() > 0 {
        lemma_hits_of_shape(blocks.drop_last());
        let prev = hits_of(blocks.drop_last());
        if let Some(e) = block_entry(blocks.last()) {
            assert(hits_of(blocks) == prev.push(((prev.len() + 1) as usize, e.0, e.1, e.2, None)));
            assert forall|i: int| 0 <= i < hits_of(blocks).len() implies {
                &&& (#[trigger] hits_of(blocks)[i]).0 == i + 1
                &&& hits_of(blocks)[i].1.len() > 0
                &&& hits_of(blocks)[i].4 is None
            } by {
                if i < prev.len() {
                    assert(hits_of(blocks)[i] == prev[i]);
                }
            }
        }
    }
}

/// The error reported when a CSS selector does not parse.
pub fn selector_err(_e: SelectorErrorKind) -> (r: DorkError)
    ensures
        is_selector_error(r),
{
    DorkError::Parse(SELECTOR_BUG.to_owned())
}

/// The visible display URL is shown without scheme — `example.com/foo`.
/// Promote to `https://` so callers can fetch it directly.
pub fn normalize_visible_url(s: &str) -> (r: String)
    ensures
        r@ == normalized_url(s@),
{
    let cs = chars_of(s);
    let t = trim_chars(cs.as_slice());
    let http = chars_of("http://");
    let https = chars_of("https://");
    if starts_with(t.as_slice(), http.as_slice()) || starts_with(t.as_slice(), https.as_slice()) {
        string_of(t.as_slice())
    } else {
        let mut out = https;
        out.extend_from_slice(t.as_slice());
        string_of(out.as_slice())
    }
}

/// DuckDuckGo wraps targets behind
/// `https://duckduckgo.com/l/?uddg=<percent-encoded>&...`. Unwrap when the
/// link has that shape, else return it as-is (made absolute when it is
/// scheme-relative).
pub fn resolve_href(raw: &str) -> (r: String)
    ensures
        r@ == resolved_href(raw@),
{
    let cs = chars_of(raw);
    let t = trim_chars(cs.as_slice());
    if t.len() == 0 {
        return String::new();
    }
    let slashes = chars_of("//");
    let with_scheme: Vec<char> = if starts_with(t.as_slice(), slashes.as_slice()) {
        let mut w = chars_of("https://");
        let n = t.len();
        w.extend_from_slice(&t.as_slice()[slashes.len()..n]);
        w
    } else {
        t
    };
    let w = string_of(with_scheme.as_slice());
    assert(w@ == with_https_scheme(trim(raw@)));
    match parse_url(w.as_str()) {
        Ok(parts) => {
            let host_is_ddg = match &parts.host {
                Some(h) => {
                    let hc = chars_of(h.as_str());
                    let ddg = chars_of("duckduckgo.com");
                    chars_eq(hc.as_slice(), ddg.as_slice())
                },
                None => false,
            };
            let pc = chars_of(parts.path.as_str());
            let redirect_path = chars_of("/l/");
            if host_is_ddg && chars_eq(pc.as_slice(), redirect_path.as_slice()) {
                let key = chars_of("uddg");
                let n = parts.query_pairs.len();
                let ghost pv = pairs_view(parts.query_pairs@);
                let mut i: usize = 0;
                assert(pv.subrange(0, n as int) =~= pv);
                while i < n
                    invariant
                        n == parts.query_pairs@.len(),
                        pv == pairs_view(parts.query_pairs@),
                        key@ == "uddg"@,
                        is_redirect(w@),
                        url_query_pairs(w@) == pv,
                        w@ == with_https_scheme(trim(raw@)),
                        trim(raw@).len() > 0,
                        i <= n,
                        first_value(pv, "uddg"@) == first_value(pv.subrange(i as int, n as int), "uddg"@),
                    decreases n - i,
                {
                    let kc = chars_of(parts.query_pairs[i].0.as_str());
                    let ghost sub = pv.subrange(i as int, n as int);
                    assert(sub[0] == pv[i as int]);
                    if chars_eq(kc.as_slice(), key.as_slice()) {
                        return parts.query_pairs[i].1.clone();
                    }
                    assert(sub.drop_first() =~= pv.subrange(i + 1, n as int));
                    i = i + 1;
                }
            }
        },
        Err(_) => {},
    }
    w
}


/// The URL of the hit a block gives.
pub fn block_url_of(b: &ResultBlock) -> (r: String)
    ensures
        r@ == block_url(b@),
{
    match &b.visible_url {
        Some(v) => {
            let vc = chars_of(v.as_str());
            let t = trim_chars(vc.as_slice());
            if t.len() > 0 {
                let ts = string_of(t.as_slice());
                normalize_visible_url(ts.as_str())
            } else {
                resolve_href(b.href.as_str())
            }
        },
        None => resolve_href(b.href.as_str()),
    }
}

/// The hits that the blocks give, in block order: blocks without a title
/// link or with a blank title are skipped, the others ranked from 1.
pub fn hits_from_blocks(blocks: &Vec<ResultBlock>) -> (r: Vec<SearchHit>)
    ensures
        hits_view(r@) == hits_of(blocks_view(blocks@)),
{
    let mut hits: Vec<SearchHit> = Vec::new();
    let n = blocks.len();
    let ghost bv = blocks_view(blocks@);
    for i in 0..n
        invariant
            n == blocks@.len(),
            bv == blocks_view(blocks@),
            hits@.len() <= i,
            hits_view(hits@) == hits_of(bv.take(i as int)),
    {
        let b = &blocks[i];
        let ghost prefix = bv.take(i as int);
        assert(bv.take(i + 1).drop_last() =~= prefix);
        assert(bv.take(i + 1).last() == b@);
        match &b.title {
            Some(t) => {
                let tc = chars_of(t.as_str());
                let title = trim_chars(tc.as_slice());
                if title.len() > 0 {
                    let url = block_url_of(b);
                    let snippet = match &b.snippet {
                        Some(s) => {
                            let sc = chars_of(s.as_str());
                            string_of(trim_chars(sc.as_slice()).as_slice())
                        },
                        None => String::new(),
                    };
                    let title_text = string_of(title.as_slice());
                    let rank = hits.len() + 1;
                    let hit = SearchHit::new(rank, title_text.as_str(), url.as_str(), snippet.as_str());
                    let ghost before = hits@;
                    hits.push(hit);
                    assert(hits_view(hits@) =~= hits_view(before).push(hit@));
                }
            },
            None => {},
        }
        assert(hits_view(hits@) == hits_of(bv.take(i + 1)));
    }
    assert(bv.take(n as int) =~= bv);
    hits
}


/// The result blocks of a page, as the scraper reads them with this
/// engine's selectors.
pub open spec fn page_of(html: Seq<char>) -> Seq<BlockView> {
    page_blocks(html, RESULT_SELECTOR@, TITLE_SELECTOR@, URL_SELECTOR@, SNIPPET_SELECTOR@)
}

/// Extracts the ranked hits of a DuckDuckGo HTML result page: each result
/// block (`div.result`) with a non-blank title link gives one hit, whose URL
/// is its display URL when that has text, else its resolved link.
pub fn parse_results(html: &str) -> (r: Result<Vec<SearchHit>, DorkError>)
    ensures
        r is Err <==> !selectors_parse(),
        r matches Err(e) ==> is_selector_error(e),
        r matches Ok(hits) ==> hits_view(hits@) == hits_of(page_of(html@)),
        r is Ok ==> page_of(html@).len() <= usize::MAX,
{
    let blocks = match read_blocks(html, RESULT_SELECTOR, TITLE_SELECTOR, URL_SELECTOR, SNIPPET_SELECTOR) {
        Ok(b) => b,
        Err(e) => return Err(selector_err(e)),
    };
    let count = blocks.len();
    let hits = hits_from_blocks(&blocks);
    assert(blocks_view(blocks@).len() == count);
    Ok(hits)
}

/// Builds the GET URL: the endpoint with its query replaced by the rendered
/// query, the `SafeSearch` knob and, when set, the region.
pub fn build_request_url(endpoint: &str, query: &Query) -> (r: Result<String, DorkError>)
    ensures
        r is Ok <==> url_parse_error(endpoint@) is None,
        r matches Err(e) ==> (e matches DorkError::Backend(m) && url_parse_error(endpoint@)
            == Some(m@)),
        r matches Ok(u) ==> u@ == url_with_replaced_query(endpoint@, request_pairs(*query)),
        r matches Ok(u) ==> url_query_pairs(u@) == request_pairs(*query),
        r matches Ok(u) ==> url_query_pairs(u@)[0] == ("q"@, query.rendered()),
        r matches Ok(u) ==> url_query_pairs(u@)[1] == ("kp"@, match query.safe_search {
            SafeSearch::Strict => "1"@,
            SafeSearch::Moderate => "-1"@,
            SafeSearch::Off => "-2"@,
        }),
        r matches Ok(u) ==> url_query_pairs(u@).len() == if query.region is Some {
            3int
        } else {
            2int
        },
        r matches Ok(u) ==> (query.region is Some ==> url_query_pairs(u@)[2] == ("kl"@, query.region->0@)),
{
    let mut pairs: Vec<(String, String)> = Vec::new();
    pairs.push(("q".to_owned(), query.render_with_operators()));
    let safe = match query.safe_search {
        SafeSearch::Strict => "1",
        SafeSearch::Moderate => "-1",
        SafeSearch::Off => "-2",
    };
    pairs.push(("kp".to_owned(), safe.to_owned()));
    match &query.region {
        Some(region) => pairs.push(("kl".to_owned(), region.clone())),
        None => {},
    }
    assert(pairs_view(pairs@) =~= request_pairs(*query));
    match replace_query(endpoint, &pairs) {
        Ok(u) => Ok(u),
        Err(m) => Err(DorkError::Backend(m)),
    }
}

/// Backend that hits the DuckDuckGo HTML endpoint and parses the result page.
#[derive(Debug, Clone)]
pub struct DuckDuckGoEngine {
    endpoint: String,
    user_agent: String,
}

/// Configurable builder for [`DuckDuckGoEngine`].
#[derive(Debug, Clone)]
pub struct DuckDuckGoEngineBuilder {
    endpoint: String,
    user_agent: String,
}

impl Default for DuckDuckGoEngineBuilder {
    fn default() -> (r: Self)
        ensures
            r.endpoint_view() == DEFAULT_ENDPOINT@,
            r.user_agent_view() == DEFAULT_USER_AGENT@,
    {
        DuckDuckGoEngineBuilder {
            endpoint: DEFAULT_ENDPOINT.to_owned(),
            user_agent: DEFAULT_USER_AGENT.to_owned(),
        }
    }
}

impl DuckDuckGoEngineBuilder {
    /// The endpoint the engine will use.
    pub closed spec fn endpoint_view(&self) -> Seq<char> {
        self.endpoint@
    }

    /// The `User-Agent` the engine will send.
    pub closed spec fn user_agent_view(&self) -> Seq<char> {
        self.user_agent@
    }

    /// Override the endpoint URL — primarily for tests against a local
    /// mock server.
    pub fn endpoint(self, endpoint: &str) -> (r: Self)
        ensures
            r.endpoint_view() == endpoint@,
            r.user_agent_view() == self.user_agent_view(),
    {
        DuckDuckGoEngineBuilder { endpoint: endpoint.to_owned(), user_agent: self.user_agent }
    }

    /// Override the `User-Agent` header. Be honest — identify your tool.
    pub fn user_agent(self, ua: &str) -> (r: Self)
        ensures
            r.endpoint_view() == self.endpoint_view(),
            r.user_agent_view() == ua@,
    {
        DuckDuckGoEngineBuilder { endpoint: self.endpoint, user_agent: ua.to_owned() }
    }

    /// Finalise the engine.
    pub fn build(self) -> (r: DuckDuckGoEngine)
        ensures
            r.endpoint_view() == self.endpoint_view(),
            r.user_agent_view() == self.user_agent_view(),
    {
        DuckDuckGoEngine { endpoint: self.endpoint, user_agent: self.user_agent }
    }
}

impl Default for DuckDuckGoEngine {
    fn default() -> (r: Self)
        ensures
            r.endpoint_view() == DEFAULT_ENDPOINT@,
            r.user_agent_view() == DEFAULT_USER_AGENT@,
    {
        Self::new()
    }
}

impl DuckDuckGoEngine {
    /// The endpoint requests go to.
    pub closed spec fn endpoint_view(&self) -> Seq<char> {
        self.endpoint@
    }

    /// The `User-Agent` requests carry.
    pub closed spec fn user_agent_view(&self) -> Seq<char> {
        self.user_agent@
    }

    /// Construct an engine with sensible defaults.
    pub fn new() -> (r: Self)
        ensures
            r.endpoint_view() == DEFAULT_ENDPOINT@,
            r.user_agent_view() == DEFAULT_USER_AGENT@,
    {
        Self::builder().build()
    }

    /// Start a builder.
    pub fn builder() -> (r: DuckDuckGoEngineBuilder)
        ensures
            r.endpoint_view() == DEFAULT_ENDPOINT@,
            r.user_agent_view() == DEFAULT_USER_AGENT@,
    {
        DuckDuckGoEngineBuilder::default()
    }

    /// Backend identifier.
    pub fn name(&self) -> (r: &'static str)
        ensures
            r@ == ENGINE_NAME@,
    {
        ENGINE_NAME
    }

    /// The request for `query`: refused when the query is not valid, else
    /// the GET URL built on the endpoint and the headers (`User-Agent`,
    /// `Accept: text/html`, and `Accept-Language` from the region).
    pub fn request(&self, query: &Query) -> (r: Result<HttpRequest, DorkError>)
        ensures
            !query.valid() ==> (r matches Err(DorkError::InvalidQuery(m)) && m@ == INVALID_QUERY@),
            query.valid() ==> (r is Ok <==> url_parse_error(self.endpoint_view()) is None),
            query.valid() ==> (r matches Err(e) ==> (e matches DorkError::Backend(m)
                && url_parse_error(self.endpoint_view()) == Some(m@))),
            r matches Ok(req) ==> req.url@ == url_with_replaced_query(
                self.endpoint_view(),
                request_pairs(*query),
            ),
            r matches Ok(req) ==> url_query_pairs(req.url@) == request_pairs(*query),
            r matches Ok(req) ==> pairs_view(req.headers@) == request_headers(
                self.user_agent_view(),
                *query,
            ),
    {
        if !query.is_valid() {
            return Err(DorkError::InvalidQuery(INVALID_QUERY.to_owned()));
        }
        let url = build_request_url(self.endpoint.as_str(), query)?;
        let mut headers: Vec<(String, String)> = Vec::new();
        headers.push(("user-agent".to_owned(), self.user_agent.clone()));
        headers.push(("accept".to_owned(), "text/html".to_owned()));
        let language = match &query.region {
            Some(region) => region.clone(),
            None => DEFAULT_ACCEPT_LANGUAGE.to_owned(),
        };
        headers.push(("accept-language".to_owned(), language));
        assert(pairs_view(headers@) =~= request_headers(self.user_agent_view(), *query));
        Ok(HttpRequest { url, headers })
    }

    /// Maps the response status: `429` is a rate limit (retry after 30 s),
    /// any other non-2xx status a backend error naming the status.
    pub fn check_status(status: u16, reason: Option<&str>) -> (r: Result<(), DorkError>)
        ensures
            status == 429 ==> r == Err::<(), DorkError>(
                DorkError::RateLimited { retry_after_seconds: 30 },
            ),
            status != 429 && !is_success(status) ==> (r matches Err(DorkError::Backend(m))
                && m@ == "DuckDuckGo returned HTTP "@ + status_text(status, opt_str_view(reason))),
            is_success(status) ==> r is Ok,
    {
        if status == 429 {
            return Err(DorkError::RateLimited { retry_after_seconds: 30 });
        }
        if !(200 <= status && status < 300) {
            let m = status_message("DuckDuckGo returned HTTP ", status, reason);
            return Err(DorkError::Backend(string_of(m.as_slice())));
        }
        Ok(())
    }

    /// The hits of a result page: extracted, capped at `query.limit`, and
    /// tagged with this engine's name.
    pub fn finish(body: &str, query: &Query) -> (r: Result<Vec<SearchHit>, DorkError>)
        ensures
            r is Err <==> !selectors_parse(),
            r matches Err(e) ==> is_selector_error(e),
            r matches Ok(hits) ==> hits_view(hits@) == tagged(
                capped(hits_of(page_of(body@)), query.limit),
                ENGINE_NAME@,
            ),
            r matches Ok(hits) ==> hits@.len() <= query.limit,
            r matches Ok(hits) ==> hits@.len() == min(
                query.limit as int,
                hits_of(page_of(body@)).len() as int,
            ),
            r matches Ok(hits) ==> forall|i: int|
                0 <= i < hits@.len() ==> {
                    &&& (#[trigger] hits@[i]).title@ == hits_of(page_of(body@))[i].1
                    &&& hits@[i].url@ == hits_of(page_of(body@))[i].2
                    &&& hits@[i].snippet@ == hits_of(page_of(body@))[i].3
                },
            r matches Ok(hits) ==> forall|i: int|
                0 <= i < hits@.len() ==> (#[trigger] hits@[i]).rank == i + 1 && hits@[i].title@.len()
                    > 0 && opt_view(hits@[i].source) == Some(ENGINE_NAME@),
    {
        let mut parsed = parse_results(body)?;
        let ghost blocks = page_of(body@);
        proof {
            lemma_hits_of_shape(blocks);
        }
        parsed.truncate(query.limit);
        let ghost kept = hits_view(parsed@);
        assert(kept =~= capped(hits_of(blocks), query.limit));
        let mut hits: Vec<SearchHit> = Vec::new();
        for h in it: parsed.into_iter()
            invariant
                it.seq() == parsed@,
                kept == hits_view(parsed@),
                hits_view(hits@) == tagged(kept.take(it.index() as int), ENGINE_NAME@),
        {
            let ghost before = hits@;
            assert(h == parsed@[it.index() as int]);
            assert(kept[it.index() as int] == h@);
            let tagged_hit = h.with_source(ENGINE_NAME);
            hits.push(tagged_hit);
            assert(hits@ == before.push(tagged_hit));
            let ghost k = it.index() as int;
            assert(kept.take(k + 1) =~= kept.take(k).push(kept[k]));
            assert(hits_view(hits@) =~= hits_view(before).push(tagged_hit@));
            assert(tagged(kept.take(k + 1), ENGINE_NAME@) =~= tagged(kept.take(k), ENGINE_NAME@).push(
                (kept[k].0, kept[k].1, kept[k].2, kept[k].3, Some(ENGINE_NAME@)),
            ));
        }
        assert(kept.take(kept.len() as int) =~= kept);
        assert forall|i: int| 0 <= i < hits@.len() implies {
            &&& (#[trigger] hits@[i]).title@ == hits_of(page_of(body@))[i].1
            &&& hits@[i].url@ == hits_of(page_of(body@))[i].2
            &&& hits@[i].snippet@ == hits_of(page_of(body@))[i].3
        } by {
            assert(hits_view(hits@)[i] == hits@[i]@);
            assert(kept[i] == hits_of(blocks)[i]);
        }
        assert forall|i: int| 0 <= i < hits@.len() implies (#[trigger] hits@[i]).rank == i + 1
            && hits@[i].title@.len() > 0 && opt_view(hits@[i].source) == Some(ENGINE_NAME@) by {
            assert(hits_view(hits@)[i] == hits@[i]@);
            assert(kept[i] == hits_of(blocks)[i]);
        }
        Ok(hits)
    }
}

} // verus!
