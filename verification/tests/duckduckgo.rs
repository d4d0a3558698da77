use dork::duckduckgo::{
    build_request_url, hits_from_blocks, normalize_visible_url, parse_results, resolve_href,
    DuckDuckGoEngine, ResultBlock, DEFAULT_ENDPOINT,
};
use dork::{DorkError, Query, SafeSearch};

const RESULTS_PAGE: &str = r#"<!DOCTYPE html>
<html><head><title>rust at DuckDuckGo</title></head>
<body>
  <div class="serp__results">
    <div class="result results_links results_links_deep web-result">
      <div class="links_main links_deep result__body">
        <h2 class="result__title">
          <a rel="nofollow" class="result__a" href="//duckduckgo.com/l/?uddg=https%3A%2F%2Fwww.rust-lang.org%2F&amp;rut=abc">Rust Programming Language</a>
        </h2>
        <div class="result__extras"><div class="result__extras__url">
          <a class="result__url" href="//duckduckgo.com/l/?uddg=https%3A%2F%2Fwww.rust-lang.org%2F">
            www.rust-lang.org
          </a>
        </div></div>
        <a class="result__snippet" href="//duckduckgo.com/l/?uddg=x">A language empowering <b>everyone</b> to build reliable software.</a>
      </div>
    </div>
    <div class="result results_links results_links_deep web-result">
      <div class="links_main links_deep result__body">
        <h2 class="result__title">
          <a rel="nofollow" class="result__a" href="//duckduckgo.com/l/?uddg=https%3A%2F%2Fdoc.rust-lang.org%2Fbook%2F&amp;rut=def">The Rust Programming Language - The Rust Book</a>
        </h2>
        <a class="result__snippet">by Steve Klabnik and Carol Nichols.</a>
      </div>
    </div>
    <div class="result results_links results_links_deep web-result">
      <div class="links_main links_deep result__body">
        <h2 class="result__title">
          <a rel="nofollow" class="result__a" href="https://crates.io/">crates.io: Rust Package Registry</a>
        </h2>
        <div class="result__extras"><div class="result__extras__url">
          <a class="result__url" href="https://crates.io/">https://crates.io</a>
        </div></div>
      </div>
    </div>
  </div>
</body></html>"#;

#[test]
fn build_url_includes_query_and_safesearch() {
    let q = Query::new("rust async").with_safe_search(SafeSearch::Strict);
    let url = build_request_url(DEFAULT_ENDPOINT, &q).expect("url");
    let url = url::Url::parse(&url).expect("url");
    let pairs: Vec<_> = url.query_pairs().collect();
    assert!(pairs.iter().any(|(k, v)| k == "q" && v == "rust async"));
    assert!(pairs.iter().any(|(k, v)| k == "kp" && v == "1"));
}

#[test]
fn build_url_renders_site_and_filetype_operators() {
    let q = Query::new("crate").with_site("docs.rs").with_filetype("html");
    let url = build_request_url(DEFAULT_ENDPOINT, &q).expect("url");
    let url = url::Url::parse(&url).expect("url");
    let q_pair = url
        .query_pairs()
        .find(|(k, _)| k == "q")
        .map(|(_, v)| v.into_owned())
        .expect("q present");
    assert_eq!(q_pair, "crate site:docs.rs filetype:html");
}

#[test]
fn build_url_propagates_region() {
    let q = Query::new("x").with_region("fr-fr");
    let url = build_request_url(DEFAULT_ENDPOINT, &q).expect("url");
    let url = url::Url::parse(&url).expect("url");
    assert!(url.query_pairs().any(|(k, v)| k == "kl" && v == "fr-fr"));
}

#[test]
fn safesearch_off_is_minus_two() {
    let q = Query::new("x").with_safe_search(SafeSearch::Off);
    let url = build_request_url(DEFAULT_ENDPOINT, &q).expect("url");
    let url = url::Url::parse(&url).expect("url");
    assert!(url.query_pairs().any(|(k, v)| k == "kp" && v == "-2"));
}

#[test]
fn engine_name_is_duckduckgo() {
    assert_eq!(DuckDuckGoEngine::new().name(), "duckduckgo");
}

#[test]
fn parse_resolve_href_unwraps_uddg() {
    let raw = "//duckduckgo.com/l/?uddg=https%3A%2F%2Fexample.com%2Ffoo&rut=abc";
    assert_eq!(resolve_href(raw), "https://example.com/foo");
}

#[test]
fn parse_resolve_href_passthrough_for_direct_url() {
    assert_eq!(resolve_href("https://docs.rs/x"), "https://docs.rs/x");
}

#[test]
fn parse_resolve_href_handles_empty() {
    assert_eq!(resolve_href(""), "");
    assert_eq!(resolve_href("   "), "");
}

#[test]
fn parse_normalize_visible_url_adds_https() {
    assert_eq!(normalize_visible_url("example.com/foo"), "https://example.com/foo");
    assert_eq!(normalize_visible_url("https://example.com"), "https://example.com");
}

#[test]
fn parse_parse_extracts_hits_from_fixture() {
    let hits = parse_results(RESULTS_PAGE).expect("parse ok");
    assert!(hits.len() >= 2, "fixture has multiple results: {hits:?}");
    for (i, h) in hits.iter().enumerate() {
        assert_eq!(h.rank, i + 1);
        assert!(!h.title.is_empty());
        assert!(h.url.starts_with("http"));
    }
}

#[test]
fn parse_parse_empty_html_returns_empty_vec() {
    let hits = parse_results("<html><body></body></html>").expect("parse ok");
    assert!(hits.is_empty());
}

#[test]
fn parse_parse_skips_blocks_without_title() {
    let html = r#"
        <html><body>
          <div class="result"></div>
          <div class="result">
            <a class="result__a" href="https://x.test/a">Real</a>
            <a class="result__url">x.test/a</a>
            <a class="result__snippet">s</a>
          </div>
        </body></html>
    "#;
    let hits = parse_results(html).expect("parse ok");
    assert_eq!(hits.len(), 1);
    assert_eq!(hits[0].title, "Real");
}

#[test]
fn duckduckgo_resolve_href_unwraps_uddg() {
    let raw = "//duckduckgo.com/l/?uddg=https%3A%2F%2Fexample.com%2Ffoo&rut=abc";
    assert_eq!(resolve_href(raw), "https://example.com/foo");
}

#[test]
fn duckduckgo_resolve_href_passthrough_for_direct_url() {
    assert_eq!(resolve_href("https://docs.rs/x"), "https://docs.rs/x");
}

#[test]
fn duckduckgo_resolve_href_handles_empty() {
    assert_eq!(resolve_href(""), "");
    assert_eq!(resolve_href("   "), "");
}

#[test]
fn duckduckgo_normalize_visible_url_adds_https() {
    assert_eq!(normalize_visible_url("example.com/foo"), "https://example.com/foo");
    assert_eq!(normalize_visible_url("https://example.com"), "https://example.com");
}

#[test]
fn duckduckgo_parse_extracts_hits_from_fixture() {
    let hits = parse_results(RESULTS_PAGE).expect("parse ok");
    assert!(hits.len() >= 2, "fixture has multiple results: {hits:?}");
    for (i, h) in hits.iter().enumerate() {
        assert_eq!(h.rank, i + 1);
        assert!(!h.title.is_empty());
        assert!(h.url.starts_with("http"));
    }
}

#[test]
fn duckduckgo_parse_empty_html_returns_empty_vec() {
    let hits = parse_results("<html><body></body></html>").expect("parse ok");
    assert!(hits.is_empty());
}

#[test]
fn duckduckgo_parse_skips_blocks_without_title() {
    let html = r#"
        <html><body>
          <div class="result"></div>
          <div class="result">
            <a class="result__a" href="https://x.test/a">Real</a>
            <a class="result__url">x.test/a</a>
            <a class="result__snippet">s</a>
          </div>
        </body></html>
    "#;
    let hits = parse_results(html).expect("parse ok");
    assert_eq!(hits.len(), 1);
    assert_eq!(hits[0].title, "Real");
}

// ---- further cases ----

#[test]
fn fixture_hits_have_expected_fields() {
    let hits = parse_results(RESULTS_PAGE).expect("parse ok");
    assert_eq!(hits.len(), 3);
    assert_eq!(hits[0].title, "Rust Programming Language");
    assert_eq!(hits[0].url, "https://www.rust-lang.org");
    assert_eq!(hits[0].snippet, "A language empowering everyone to build reliable software.");
    assert_eq!(hits[1].url, "https://doc.rust-lang.org/book/");
    assert_eq!(hits[1].snippet, "by Steve Klabnik and Carol Nichols.");
    assert_eq!(hits[2].url, "https://crates.io");
    assert_eq!(hits[2].snippet, "");
    assert!(hits.iter().all(|h| h.source.is_none()));
}

#[test]
fn blank_title_block_is_skipped_and_ranks_stay_dense() {
    let html = r#"<html><body>
        <div class="result"><a class="result__a" href="https://a.test/">A</a></div>
        <div class="result"><a class="result__a" href="https://b.test/">   </a></div>
        <div class="web-result"><a class="result__a" href="https://c.test/">C</a></div>
    </body></html>"#;
    let hits = parse_results(html).expect("parse ok");
    assert_eq!(hits.len(), 2);
    assert_eq!((hits[0].rank, hits[0].title.as_str(), hits[0].url.as_str()), (1, "A", "https://a.test/"));
    assert_eq!((hits[1].rank, hits[1].title.as_str(), hits[1].url.as_str()), (2, "C", "https://c.test/"));
}

#[test]
fn resolve_href_adds_scheme_to_scheme_relative_links() {
    assert_eq!(resolve_href("//example.com/x"), "https://example.com/x");
    assert_eq!(resolve_href("  //example.com/x "), "https://example.com/x");
}

#[test]
fn resolve_href_keeps_redirect_without_uddg() {
    assert_eq!(
        resolve_href("//duckduckgo.com/l/?rut=abc"),
        "https://duckduckgo.com/l/?rut=abc"
    );
}

#[test]
fn resolve_href_takes_the_first_uddg() {
    assert_eq!(
        resolve_href("https://duckduckgo.com/l/?a=b&uddg=one+two&uddg=three"),
        "one two"
    );
}

#[test]
fn resolve_href_keeps_other_hosts_and_paths() {
    let other_path = "https://duckduckgo.com/x/?uddg=https%3A%2F%2Fe.test";
    assert_eq!(resolve_href(other_path), other_path);
    let other_host = "https://example.com/l/?uddg=https%3A%2F%2Fe.test";
    assert_eq!(resolve_href(other_host), other_host);
    assert_eq!(resolve_href("not a url"), "not a url");
}

#[test]
fn normalize_visible_url_trims_and_keeps_http() {
    assert_eq!(normalize_visible_url("  http://a.test "), "http://a.test");
    assert_eq!(normalize_visible_url(" a.test "), "https://a.test");
}

#[test]
fn hits_from_blocks_prefers_visible_url() {
    let blocks = vec![
        ResultBlock {
            title: Some(" T1 ".into()),
            href: "//duckduckgo.com/l/?uddg=https%3A%2F%2Fone.test".into(),
            visible_url: Some("  ".into()),
            snippet: Some(" s ".into()),
        },
        ResultBlock { title: None, href: "https://skip.test".into(), visible_url: None, snippet: None },
        ResultBlock {
            title: Some("T2".into()),
            href: "https://ignored.test".into(),
            visible_url: Some("two.test/p".into()),
            snippet: None,
        },
    ];
    let hits = hits_from_blocks(&blocks);
    assert_eq!(hits.len(), 2);
    assert_eq!((hits[0].rank, hits[0].title.as_str(), hits[0].url.as_str(), hits[0].snippet.as_str()), (1, "T1", "https://one.test", "s"));
    assert_eq!((hits[1].rank, hits[1].title.as_str(), hits[1].url.as_str(), hits[1].snippet.as_str()), (2, "T2", "https://two.test/p", ""));
}

#[test]
fn build_url_replaces_existing_query() {
    let q = Query::new("rust");
    let url = build_request_url("https://e.test/html/?old=1#frag", &q).expect("url");
    let url = url::Url::parse(&url).expect("url");
    let pairs: Vec<(String, String)> = url.query_pairs().map(|(k, v)| (k.into_owned(), v.into_owned())).collect();
    assert_eq!(pairs, vec![("q".to_string(), "rust".to_string()), ("kp".to_string(), "-1".to_string())]);
    assert_eq!(url.fragment(), Some("frag"));
    assert_eq!(url.path(), "/html/");
}

#[test]
fn build_url_encodes_special_characters() {
    let q = Query::new("a&b=c + d é");
    let url = build_request_url(DEFAULT_ENDPOINT, &q).expect("url");
    assert!(!url.contains("a&b"));
    let url = url::Url::parse(&url).expect("url");
    assert!(url.query_pairs().any(|(k, v)| k == "q" && v == "a&b=c + d é"));
}

#[test]
fn build_url_rejects_unparsable_endpoint() {
    let err = build_request_url("not a url", &Query::new("x")).expect_err("must fail");
    assert!(matches!(err, DorkError::Backend(ref m) if m == "relative URL without a base"));
}

#[test]
fn request_rejects_empty_query() {
    let engine = DuckDuckGoEngine::new();
    let err = engine.request(&Query::new("")).expect_err("must reject");
    assert!(matches!(err, DorkError::InvalidQuery(ref m) if m == "query is empty or limit < 1"));
}

#[test]
fn request_carries_url_and_headers() {
    let engine = DuckDuckGoEngine::builder()
        .endpoint("http://127.0.0.1:1234/")
        .user_agent("tool/1.0")
        .build();
    let req = engine.request(&Query::new("rust").with_region("de-de")).expect("ok");
    assert!(req.url.starts_with("http://127.0.0.1:1234/?"));
    assert_eq!(
        req.headers,
        vec![
            ("user-agent".to_string(), "tool/1.0".to_string()),
            ("accept".to_string(), "text/html".to_string()),
            ("accept-language".to_string(), "de-de".to_string()),
        ]
    );
    let req = DuckDuckGoEngine::new().request(&Query::new("rust")).expect("ok");
    assert!(req.url.starts_with("https://html.duckduckgo.com/html/?q=rust"));
    assert_eq!(req.headers[2].1, "en-US,en;q=0.9");
}

#[test]
fn status_429_is_rate_limited() {
    let err = DuckDuckGoEngine::check_status(429, Some("Too Many Requests")).expect_err("err");
    assert!(matches!(err, DorkError::RateLimited { retry_after_seconds: 30 }));
}

#[test]
fn status_5xx_is_backend() {
    let err = DuckDuckGoEngine::check_status(503, Some("Service Unavailable")).expect_err("err");
    assert_eq!(err.to_string(), "backend error: DuckDuckGo returned HTTP 503 Service Unavailable");
    let err = DuckDuckGoEngine::check_status(599, None).expect_err("err");
    assert!(matches!(err, DorkError::Backend(ref m) if m == "DuckDuckGo returned HTTP 599 <unknown status code>"));
    assert!(DuckDuckGoEngine::check_status(301, Some("Moved Permanently")).is_err());
}

#[test]
fn status_2xx_is_ok() {
    assert!(DuckDuckGoEngine::check_status(200, Some("OK")).is_ok());
    assert!(DuckDuckGoEngine::check_status(299, None).is_ok());
}

#[test]
fn finish_truncates_and_tags() {
    let hits = DuckDuckGoEngine::finish(RESULTS_PAGE, &Query::new("rust").with_limit(1)).expect("ok");
    assert_eq!(hits.len(), 1);
    assert_eq!(hits[0].rank, 1);
    assert_eq!(hits[0].source.as_deref(), Some("duckduckgo"));
    let hits = DuckDuckGoEngine::finish(RESULTS_PAGE, &Query::new("rust").with_limit(10)).expect("ok");
    assert_eq!(hits.len(), 3);
    assert!(hits.iter().all(|h| h.source.as_deref() == Some("duckduckgo")));
}

#[test]
fn finish_of_empty_page_is_empty_not_error() {
    let hits = DuckDuckGoEngine::finish("<html></html>", &Query::new("rust")).expect("ok");
    assert!(hits.is_empty());
}

#[test]
fn finish_is_parse_results_capped_and_tagged() {
    for limit in [1usize, 2, 3, 10] {
        let parsed = parse_results(RESULTS_PAGE).expect("ok");
        let finished = DuckDuckGoEngine::finish(RESULTS_PAGE, &Query::new("rust").with_limit(limit)).expect("ok");
        assert_eq!(finished.len(), parsed.len().min(limit));
        for (f, p) in finished.iter().zip(parsed.iter()) {
            assert_eq!((f.rank, &f.title, &f.url, &f.snippet), (p.rank, &p.title, &p.url, &p.snippet));
            assert_eq!(f.source.as_deref(), Some("duckduckgo"));
        }
    }
}

#[test]
fn blocks_keep_display_url_and_snippet_apart() {
    let html = r#"<html><body><div class="result">
        <a class="result__a" href="https://h.test/">T</a>
        <span class="result__snippet">the snippet</span>
        <span class="result__url">shown.test/p</span>
    </div></body></html>"#;
    let hits = parse_results(html).expect("ok");
    assert_eq!(hits.len(), 1);
    assert_eq!(hits[0].url, "https://shown.test/p");
    assert_eq!(hits[0].snippet, "the snippet");
}
