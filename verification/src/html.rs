//! What this library uses of the `scraper` crate: reading the result blocks
//! of an HTML page through CSS selectors. The item here is trusted: its
//! contract is believed, not proved. What it reads comes back as plain
//! strings; every decision taken on them is the library's, and verified.

use vstd::prelude::*;
use scraper::error::SelectorErrorKind;
use scraper::{ElementRef, Html, Selector};
use crate::duckduckgo::{blocks_view, BlockView, ResultBlock};

verus! {

/// Why a CSS selector did not parse (`scraper::error::SelectorErrorKind`).
#[verifier::external_type_specification]
#[verifier::external_body]
pub struct ExSelectorErrorKind<'a>(SelectorErrorKind<'a>);

/// Whether `scraper::Selector::parse(css)` accepts `css`.
pub uninterp spec fn selector_parses(css: Seq<char>) -> bool;

/// What the result blocks of a page hold: for each element of the document
/// `Html::parse_document(html)` that matches `block_css`, in document
/// order, the joined text and `href` (empty when absent) of its first
/// descendant matching `title_css`, and the joined text of its first
/// descendants matching `url_css` and `snippet_css` — each part `None`
/// when no descendant matches (the `href` is empty then too).
pub uninterp spec fn page_blocks(
    html: Seq<char>,
    block_css: Seq<char>,
    title_css: Seq<char>,
    url_css: Seq<char>,
    snippet_css: Seq<char>,
) -> Seq<BlockView>;

/// Calls `scraper::Selector::parse` on each selector, then
/// `Html::parse_document`, `Html::select`, and on each block
/// `ElementRef::select(..).next()`, `ElementRef::text` (joined) and
/// `Element::attr("href")`, handing the results out as plain strings.
/// Claimed: it fails exactly when a selector does not parse, and otherwise
/// gives the named blocks of the page.
#[verifier::external_body]
pub fn read_blocks<'i>(
    html: &str,
    block_css: &'i str,
    title_css: &'i str,
    url_css: &'i str,
    snippet_css: &'i str,
) -> (r: Result<Vec<ResultBlock>, SelectorErrorKind<'i>>)
    ensures
        r is Ok <==> (selector_parses(block_css@) && selector_parses(title_css@)
            && selector_parses(url_css@) && selector_parses(snippet_css@)),
        r matches Ok(b) ==> blocks_view(b@) == page_blocks(
            html@,
            block_css@,
            title_css@,
            url_css@,
            snippet_css@,
        ),
{
    let sel = [Selector::parse(block_css)?, Selector::parse(title_css)?, Selector::parse(url_css)?, Selector::parse(snippet_css)?];
    let text = |e: ElementRef| e.text().collect::<String>();
    let doc = Html::parse_document(html);
    Ok(doc.select(&sel[0]).map(|b| {
        let link = b.select(&sel[1]).next();
        ResultBlock {
            title: link.map(text),
            href: link.and_then(|l| l.value().attr("href")).unwrap_or_default().to_string(),
            visible_url: b.select(&sel[2]).next().map(text),
            snippet: b.select(&sel[3]).next().map(text),
        }
    }).collect())
}

} // verus!
