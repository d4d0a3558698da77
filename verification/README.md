# dork

Search-engine backends behind one small core: a query model, request
building for DuckDuckGo (HTML lite) and Google Custom Search, the mapping of
HTTP outcomes onto errors, and the extraction of ranked hits from a result
page.

## Layout

- `src/` — the library, verified with Verus.
  - `text.rs` — Unicode whitespace, trimming, prefixes, decimal rendering.
  - `error.rs` — `DorkError` and its rendering.
  - `engine.rs` — `Query`, `SafeSearch`, `SearchHit`.
  - `http.rs` — the request handed to an HTTP client, status display.
  - `urls.rs` — trusted items over the `url` crate.
  - `html.rs` — trusted items over the `scraper` crate.
  - `duckduckgo.rs` — request URL, link resolution, hit extraction, status
    mapping for DuckDuckGo.
  - `google.rs` — builder, request URL, status mapping and hit ranking for
    Google.
  - `laws.rs` — properties relating several functions.
- `app/` — the async `SearchEngine` trait and the engines that perform HTTP
  with `reqwest`, plus serde-enabled copies of the data types.
- `tests/` — tests of the library.
