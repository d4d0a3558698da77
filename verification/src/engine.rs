//! Core types: `Query`, `SafeSearch` and `SearchHit`.

use vstd::prelude::*;
use crate::text::{chars_of, push_str, string_of, trim, trim_chars};

verus! {

/// `SafeSearch` / content-filter level. Backends map this to whatever knob
/// they expose; not all of them honour every level.
#[derive(Debug, Clone, Copy, PartialEq, Eq, Hash, Structural)]
pub enum SafeSearch {
    /// Strictly filtered.
    Strict,
    /// Backend default (typically moderate).
    Moderate,
    /// Filtering off.
    Off,
}

impl Default for SafeSearch {
    fn default() -> (r: Self)
        ensures
            r == SafeSearch::Moderate,
    {
        SafeSearch::Moderate
    }
}

/// A single search request.
///
/// Built up via the chainable setters; backends may interpret optional
/// fields differently (or ignore them) depending on what their API
/// surface allows.
#[derive(Debug, Clone, PartialEq, Eq)]
pub struct Query {
    /// The free-text query. Required.
    pub q: String,
    /// Maximum hits the backend should return.
    pub limit: usize,
    /// Optional region/locale hint (e.g. `"us-en"`, `"fr-fr"`).
    pub region: Option<String>,
    /// `SafeSearch` level.
    pub safe_search: SafeSearch,
    /// Optional `site:` restriction (e.g. `"github.com"`).
    pub site: Option<String>,
    /// Optional `filetype:` restriction (e.g. `"pdf"`).
    pub filetype: Option<String>,
}

/// The text held by an optional string.
pub open spec fn opt_view(o: Option<String>) -> Option<Seq<char>> {
    match o {
        Some(s) => Some(s@),
        None => None,
    }
}

/// `" <operator>:<value>"` when the value is present, nothing otherwise.
pub open spec fn operator_suffix(op: Seq<char>, value: Option<String>) -> Seq<char> {
    match value {
        Some(v) => op + v@,
        None => Seq::empty(),
    }
}

impl Query {
    /// The query as it is handed to a backend: the trimmed text, then
    /// `site:` and `filetype:` operators for the restrictions that are set.
    pub open spec fn rendered(self) -> Seq<char> {
        trim(self.q@) + operator_suffix(" site:"@, self.site) + operator_suffix(
            " filetype:"@,
            self.filetype,
        )
    }

    /// The query has searchable content and asks for at least one hit.
    pub open spec fn valid(self) -> bool {
        trim(self.q@).len() > 0 && self.limit >= 1
    }

    /// Build a query from a free-text string with sensible defaults.
    pub fn new(q: &str) -> (r: Self)
        ensures
            r.q@ == q@,
            r.limit == 10,
            r.region is None,
            r.safe_search == SafeSearch::Moderate,
            r.site is None,
            r.filetype is None,
    {
        Query {
            q: q.to_owned(),
            limit: 10,
            region: None,
            safe_search: SafeSearch::default(),
            site: None,
            filetype: None,
        }
    }

    /// Builder: cap result count (at least one).
    pub fn with_limit(self, n: usize) -> (r: Self)
        ensures
            r.limit == (if n >= 1 { n } else { 1 }),
            r.q == self.q,
            r.region == self.region,
            r.safe_search == self.safe_search,
            r.site == self.site,
            r.filetype == self.filetype,
    {
        let mut s = self;
        s.limit = if n >= 1 { n } else { 1 };
        s
    }

    /// Builder: region/locale hint.
    pub fn with_region(self, region: &str) -> (r: Self)
        ensures
            opt_view(r.region) == Some(region@),
            r.q == self.q,
            r.limit == self.limit,
            r.safe_search == self.safe_search,
            r.site == self.site,
            r.filetype == self.filetype,
    {
        let mut s = self;
        s.region = Some(region.to_owned());
        s
    }

    /// Builder: `SafeSearch` level.
    pub fn with_safe_search(self, level: SafeSearch) -> (r: Self)
        ensures
            r.safe_search == level,
            r.q == self.q,
            r.limit == self.limit,
            r.region == self.region,
            r.site == self.site,
            r.filetype == self.filetype,
    {
        let mut s = self;
        s.safe_search = level;
        s
    }

    /// Builder: restrict to a single site.
    pub fn with_site(self, site: &str) -> (r: Self)
        ensures
            opt_view(r.site) == Some(site@),
            r.q == self.q,
            r.limit == self.limit,
            r.region == self.region,
            r.safe_search == self.safe_search,
            r.filetype == self.filetype,
    {
        let mut s = self;
        s.site = Some(site.to_owned());
        s
    }

    /// Builder: filter by file type.
    pub fn with_filetype(self, filetype: &str) -> (r: Self)
        ensures
            opt_view(r.filetype) == Some(filetype@),
            r.q == self.q,
            r.limit == self.limit,
            r.region == self.region,
            r.safe_search == self.safe_search,
            r.site == self.site,
    {
        let mut s = self;
        s.filetype = Some(filetype.to_owned());
        s
    }

    /// Render the query as a string the backend can hand to its API,
    /// folding `site:` and `filetype:` operators into the free-text part.
    pub fn render_with_operators(&self) -> (r: String)
        ensures
            r@ == self.rendered(),
    {
        let q = chars_of(self.q.as_str());
        let mut out = trim_chars(q.as_slice());
        match &self.site {
            Some(site) => {
                push_str(&mut out, " site:");
                push_str(&mut out, site.as_str());
            },
            None => {},
        }
        match &self.filetype {
            Some(ft) => {
                push_str(&mut out, " filetype:");
                push_str(&mut out, ft.as_str());
            },
            None => {},
        }
        assert(out@ =~= self.rendered());
        string_of(out.as_slice())
    }

    /// True iff the query has actual searchable content.
    pub fn is_valid(&self) -> (r: bool)
        ensures
            r == self.valid(),
    {
        let q = chars_of(self.q.as_str());
        let t = trim_chars(q.as_slice());
        t.len() > 0 && self.limit >= 1
    }
}

/// One ranked search result.
#[derive(Debug, Clone, PartialEq, Eq)]
pub struct SearchHit {
    /// 1-based rank within the response (1 = top result).
    pub rank: usize,
    /// Page title.
    pub title: String,
    /// Canonical URL.
    pub url: String,
    /// Engine-provided snippet (typically a one-paragraph summary).
    pub snippet: String,
    /// Optional source identifier (engine name / region / domain).
    pub source: Option<String>,
}

impl View for SearchHit {
    /// Rank, title, URL, snippet and source, as text.
    type V = (usize, Seq<char>, Seq<char>, Seq<char>, Option<Seq<char>>);

    open spec fn view(&self) -> Self::V {
        (self.rank, self.title@, self.url@, self.snippet@, opt_view(self.source))
    }
}

impl SearchHit {
    /// Construct a new hit with the required fields.
    pub fn new(rank: usize, title: &str, url: &str, snippet: &str) -> (r: Self)
        ensures
            r@ == (rank, title@, url@, snippet@, None::<Seq<char>>),
    {
        SearchHit {
            rank,
            title: title.to_owned(),
            url: url.to_owned(),
            snippet: snippet.to_owned(),
            source: None,
        }
    }

    /// Builder-style: tag the hit with a source identifier.
    pub fn with_source(self, source: &str) -> (r: Self)
        ensures
            r@ == (self.rank, self.title@, self.url@, self.snippet@, Some(source@)),
    {
        let mut h = self;
        h.source = Some(source.to_owned());
        h
    }
}

} // verus!
