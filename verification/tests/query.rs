use dork::{Query, SafeSearch};

#[test]
fn new_uses_sensible_defaults() {
    let q = Query::new("rust");
    assert_eq!(q.q, "rust");
    assert_eq!(q.limit, 10);
    assert_eq!(q.safe_search, SafeSearch::Moderate);
    assert!(q.region.is_none());
    assert!(q.site.is_none());
    assert!(q.filetype.is_none());
}

#[test]
fn builders_chain() {
    let q = Query::new("rust async")
        .with_limit(5)
        .with_region("us-en")
        .with_safe_search(SafeSearch::Off)
        .with_site("docs.rs")
        .with_filetype("html");
    assert_eq!(q.limit, 5);
    assert_eq!(q.region.as_deref(), Some("us-en"));
    assert_eq!(q.safe_search, SafeSearch::Off);
    assert_eq!(q.site.as_deref(), Some("docs.rs"));
    assert_eq!(q.filetype.as_deref(), Some("html"));
}

#[test]
fn with_limit_clamps_zero_to_one() {
    let q = Query::new("x").with_limit(0);
    assert_eq!(q.limit, 1);
}

#[test]
fn render_with_operators_folds_site_and_filetype() {
    let q = Query::new("rust").with_site("github.com").with_filetype("rs");
    assert_eq!(q.render_with_operators(), "rust site:github.com filetype:rs");
}

#[test]
fn render_omits_unset_operators() {
    let q = Query::new("rust");
    assert_eq!(q.render_with_operators(), "rust");
}

#[test]
fn is_valid_false_for_empty_query() {
    assert!(!Query::new("").is_valid());
    assert!(!Query::new("   ").is_valid());
    assert!(Query::new("rust").is_valid());
}

#[test]
fn query_safe_search_default_is_moderate() {
    assert_eq!(SafeSearch::default(), SafeSearch::Moderate);
}

#[test]
fn query_new_uses_sensible_defaults() {
    let q = Query::new("rust");
    assert_eq!(q.q, "rust");
    assert_eq!(q.limit, 10);
    assert_eq!(q.safe_search, SafeSearch::Moderate);
    assert!(q.region.is_none());
    assert!(q.site.is_none());
    assert!(q.filetype.is_none());
}

#[test]
fn query_builders_chain() {
    let q = Query::new("rust async")
        .with_limit(5)
        .with_region("us-en")
        .with_safe_search(SafeSearch::Off)
        .with_site("docs.rs")
        .with_filetype("html");
    assert_eq!(q.limit, 5);
    assert_eq!(q.region.as_deref(), Some("us-en"));
    assert_eq!(q.safe_search, SafeSearch::Off);
    assert_eq!(q.site.as_deref(), Some("docs.rs"));
    assert_eq!(q.filetype.as_deref(), Some("html"));
}

#[test]
fn query_with_limit_clamps_zero_to_one() {
    let q = Query::new("x").with_limit(0);
    assert_eq!(q.limit, 1);
}

#[test]
fn query_render_with_operators_folds_site_and_filetype() {
    let q = Query::new("rust").with_site("github.com").with_filetype("rs");
    assert_eq!(q.render_with_operators(), "rust site:github.com filetype:rs");
}

#[test]
fn query_render_omits_unset_operators() {
    let q = Query::new("rust");
    assert_eq!(q.render_with_operators(), "rust");
}

#[test]
fn query_is_valid_false_for_empty_query() {
    assert!(!Query::new("").is_valid());
    assert!(!Query::new("   ").is_valid());
    assert!(Query::new("rust").is_valid());
}

#[test]
fn engine_safe_search_default_is_moderate() {
    assert_eq!(SafeSearch::default(), SafeSearch::Moderate);
}

// ---- further cases ----

#[test]
fn render_trims_text_before_operators() {
    let q = Query::new("  rust async \n").with_site("docs.rs");
    assert_eq!(q.render_with_operators(), "rust async site:docs.rs");
}

#[test]
fn render_with_only_filetype() {
    let q = Query::new("report").with_filetype("pdf");
    assert_eq!(q.render_with_operators(), "report filetype:pdf");
}

#[test]
fn render_trims_unicode_whitespace() {
    let q = Query::new("\u{3000}\u{a0}rust\u{2028}\t");
    assert_eq!(q.render_with_operators(), "rust");
}

#[test]
fn is_valid_ignores_unicode_whitespace_only_text() {
    assert!(!Query::new("\u{2003}\u{85}\u{a0}").is_valid());
    assert!(Query::new("\u{2003}x").is_valid());
}

#[test]
fn is_valid_false_for_zero_limit() {
    let mut q = Query::new("rust");
    q.limit = 0;
    assert!(!q.is_valid());
}

#[test]
fn with_limit_keeps_positive_values() {
    assert_eq!(Query::new("x").with_limit(1).limit, 1);
    assert_eq!(Query::new("x").with_limit(50).limit, 50);
}

#[test]
fn builders_leave_other_fields_alone() {
    let q = Query::new("rust").with_region("fr-fr").with_limit(3);
    assert_eq!(q.q, "rust");
    assert_eq!(q.region.as_deref(), Some("fr-fr"));
    assert_eq!(q.safe_search, SafeSearch::Moderate);
    assert!(q.site.is_none());
    let q2 = q.clone().with_site("a.b");
    assert_eq!(q2.limit, 3);
    assert_eq!(q2.region.as_deref(), Some("fr-fr"));
}

#[test]
fn valid_iff_content_law_on_examples() {
    for (text, expected) in [("", false), (" \t", false), ("a", true), (" a ", true)] {
        assert_eq!(Query::new(text).with_limit(0).is_valid(), expected);
    }
}
