use dork::google::{build_request_url, GoogleEngine, GoogleItem, DEFAULT_ENDPOINT};
use dork::{DorkError, Query, SafeSearch};

#[test]
fn builder_requires_api_key_and_cx() {
    let err = GoogleEngine::builder().build().expect_err("missing key");
    assert!(matches!(err, DorkError::Auth(_)));
    let err = GoogleEngine::builder().api_key("k").build().expect_err("missing cx");
    assert!(matches!(err, DorkError::Auth(_)));
}

#[test]
fn build_url_includes_required_params() {
    let q = Query::new("rust async").with_limit(5);
    let url = build_request_url(DEFAULT_ENDPOINT, "K", "CX", &q).expect("ok");
    let url = url::Url::parse(&url).expect("ok");
    let pairs: Vec<(String, String)> = url
        .query_pairs()
        .map(|(a, b)| (a.into_owned(), b.into_owned()))
        .collect();
    assert!(pairs.contains(&("key".into(), "K".into())));
    assert!(pairs.contains(&("cx".into(), "CX".into())));
    assert!(pairs.contains(&("q".into(), "rust async".into())));
    assert!(pairs.contains(&("num".into(), "5".into())));
}

#[test]
fn build_url_caps_limit_at_ten() {
    let q = Query::new("x").with_limit(50);
    let url = build_request_url(DEFAULT_ENDPOINT, "K", "CX", &q).expect("ok");
    let url = url::Url::parse(&url).expect("ok");
    assert!(url.query_pairs().any(|(k, v)| k == "num" && v == "10"));
}

#[test]
fn build_url_safe_off() {
    let q = Query::new("x").with_safe_search(SafeSearch::Off);
    let url = build_request_url(DEFAULT_ENDPOINT, "K", "CX", &q).expect("ok");
    let url = url::Url::parse(&url).expect("ok");
    assert!(url.query_pairs().any(|(k, v)| k == "safe" && v == "off"));
}

#[test]
fn engine_name_is_google() {
    let engine = GoogleEngine::builder().api_key("k").cx("c").build().expect("ok");
    assert_eq!(engine.name(), "google");
}

// ---- further cases ----

#[test]
fn builder_errors_name_what_is_missing() {
    let err = GoogleEngine::builder().cx("c").build().expect_err("missing key");
    assert_eq!(err.to_string(), "authentication failed: api_key is required for Google");
    let err = GoogleEngine::builder().api_key("k").build().expect_err("missing cx");
    assert_eq!(
        err.to_string(),
        "authentication failed: cx (search engine id) is required for Google"
    );
}

#[test]
fn build_url_lists_all_pairs_in_order() {
    let q = Query::new("rust")
        .with_limit(0)
        .with_region("fr")
        .with_filetype("pdf")
        .with_site("docs.rs")
        .with_safe_search(SafeSearch::Strict);
    let url = build_request_url("https://e.test/v1?pre=1", "K", "CX", &q).expect("ok");
    let url = url::Url::parse(&url).expect("ok");
    let pairs: Vec<(String, String)> = url
        .query_pairs()
        .map(|(a, b)| (a.into_owned(), b.into_owned()))
        .collect();
    let expected: Vec<(String, String)> = [
        ("pre", "1"),
        ("key", "K"),
        ("cx", "CX"),
        ("q", "rust site:docs.rs filetype:pdf"),
        ("num", "1"),
        ("safe", "active"),
        ("gl", "fr"),
        ("fileType", "pdf"),
        ("siteSearch", "docs.rs"),
    ]
    .iter()
    .map(|(a, b)| (a.to_string(), b.to_string()))
    .collect();
    assert_eq!(pairs, expected);
}

#[test]
fn build_url_moderate_is_active() {
    let q = Query::new("x");
    let url = build_request_url(DEFAULT_ENDPOINT, "K", "CX", &q).expect("ok");
    let url = url::Url::parse(&url).expect("ok");
    assert!(url.query_pairs().any(|(k, v)| k == "safe" && v == "active"));
    assert!(url.query_pairs().any(|(k, v)| k == "num" && v == "10"));
}

#[test]
fn google_request_rejects_empty_query() {
    let engine = GoogleEngine::builder().api_key("k").cx("c").build().expect("ok");
    let err = engine.request(&Query::new("")).expect_err("must err");
    assert!(matches!(err, DorkError::InvalidQuery(_)));
}

#[test]
fn request_uses_endpoint_override() {
    let engine = GoogleEngine::builder()
        .endpoint("http://127.0.0.1:9/search")
        .api_key("k")
        .cx("c")
        .build()
        .expect("ok");
    let req = engine.request(&Query::new("rust")).expect("ok");
    assert!(req.url.starts_with("http://127.0.0.1:9/search?key=k&cx=c&q=rust"));
    assert!(req.headers.is_empty());
    let bad = GoogleEngine::builder().endpoint("::").api_key("k").cx("c").build().expect("ok");
    assert!(matches!(bad.request(&Query::new("rust")), Err(DorkError::Backend(_))));
}

#[test]
fn status_mapping() {
    assert!(matches!(GoogleEngine::check_status(403, Some("Forbidden")), Err(DorkError::Auth(ref m)) if m == "Google returned HTTP 403 Forbidden"));
    assert!(matches!(GoogleEngine::check_status(401, Some("Unauthorized")), Err(DorkError::Auth(_))));
    assert!(matches!(
        GoogleEngine::check_status(429, Some("Too Many Requests")),
        Err(DorkError::RateLimited { retry_after_seconds: 60 })
    ));
    assert!(matches!(GoogleEngine::check_status(500, Some("Internal Server Error")), Err(DorkError::Backend(ref m)) if m == "Google returned HTTP 500 Internal Server Error"));
    assert!(GoogleEngine::check_status(200, Some("OK")).is_ok());
}

#[test]
fn items_become_ranked_tagged_hits() {
    let items = vec![
        GoogleItem { title: "Rust".into(), link: "https://www.rust-lang.org/".into(), snippet: "lang".into() },
        GoogleItem { title: "Crates".into(), link: "https://crates.io/".into(), snippet: "registry".into() },
    ];
    let hits = GoogleEngine::hits_from_items(items, 10);
    assert_eq!(hits.len(), 2);
    assert_eq!(hits[0].rank, 1);
    assert_eq!(hits[0].url, "https://www.rust-lang.org/");
    assert_eq!(hits[1].rank, 2);
    assert_eq!(hits[1].title, "Crates");
    assert_eq!(hits[0].source.as_deref(), Some("google"));
    assert!(GoogleEngine::hits_from_items(Vec::new(), 10).is_empty());
}

#[test]
fn items_are_capped_at_limit() {
    let items = || vec![
        GoogleItem { title: "Rust".into(), link: "https://www.rust-lang.org/".into(), snippet: "lang".into() },
        GoogleItem { title: "Crates".into(), link: "https://crates.io/".into(), snippet: "registry".into() },
    ];
    let hits = GoogleEngine::hits_from_items(items(), Query::new("rust").with_limit(1).limit);
    assert_eq!(hits.len(), 1);
    assert_eq!(hits[0].title, "Rust");
    assert_eq!(hits[0].rank, 1);
    assert_eq!(GoogleEngine::hits_from_items(items(), 2).len(), 2);
    assert_eq!(GoogleEngine::hits_from_items(items(), 0).len(), 0);
}
