//! Properties that relate several functions of the library, proved over
//! the specifications that those functions' contracts use.

use vstd::prelude::*;
use crate::engine::{Query, SafeSearch};
use crate::text::{has_content, is_prefix, lemma_trim_empty_iff_blank, trim, trim_end, trim_start,
    is_white_space, lemma_trim_start, lemma_trim_end,
};
use crate::duckduckgo::{
    capped, HitView, block_entry, hits_of, normalized_url, resolved_href, with_https_scheme, BlockView,
};
use crate::google::{result_count, item_hits, GoogleItem};
use crate::text::{decimal, digit_char, digits_value};
use vstd::math::min;
use crate::duckduckgo::request_pairs as ddg_request_pairs;
use crate::google::request_pairs as google_request_pairs;

verus! {

/// A query is valid exactly when its text holds a non-whitespace character
/// and it asks for at least one hit.
pub proof fn law_valid_iff_content(q: Query)
    ensures
        q.valid() == (has_content(q.q@) && q.limit >= 1),
{
    lemma_trim_empty_iff_blank(q.q@);
}

/// Once a limit has been set through `with_limit` (which never leaves it
/// at zero), validity depends on the query text alone.
pub proof fn law_limited_query_valid_iff_content(q: Query)
    requires
        q.limit >= 1,
    ensures
        q.valid() == has_content(q.q@),
{
    law_valid_iff_content(q);
}

/// Without `site:` and `filetype:` restrictions the rendered query is the
/// trimmed text.
pub proof fn law_render_without_operators(q: Query)
    requires
        q.site is None,
        q.filetype is None,
    ensures
        q.rendered() == trim(q.q@),
{
    assert(q.rendered() =~= trim(q.q@));
}

/// The rendered query always begins with the trimmed text.
pub proof fn law_render_starts_with_text(q: Query)
    ensures
        is_prefix(trim(q.q@), q.rendered()),
{
    let t = trim(q.q@);
    assert(q.rendered().subrange(0, t.len() as int) =~= t);
}

/// Trimming twice is trimming once.
pub proof fn law_trim_idempotent(s: Seq<char>)
    ensures
        trim(trim(s)) == trim(s),
{
    lemma_trim_start(s);
    lemma_trim_end(trim_start(s));
    let t = trim(s);
    if t.len() > 0 {
        // `t` starts and ends with non-whitespace, so neither trim changes it.
        assert(!is_white_space(t[0])) by {
            let u = trim_start(s);
            assert(t == u.subrange(0, t.len() as int));
            assert(t[0] == u[0]);
        }
        assert(trim_start(t) == t);
        assert(trim_end(t) == t);
    } else {
        assert(trim_start(t) =~= t);
        assert(trim_end(t) =~= t);
    }
}

/// A normalized display URL always names a scheme: `http://` or `https://`.
pub proof fn law_normalized_url_has_scheme(s: Seq<char>)
    ensures
        is_prefix("http://"@, normalized_url(s)) || is_prefix("https://"@, normalized_url(s)),
{
    let t = trim(s);
    if !(is_prefix("http://"@, t) || is_prefix("https://"@, t)) {
        let u = "https://"@ + t;
        assert(u.subrange(0, "https://"@.len() as int) =~= "https://"@);
    }
}

/// Surrounding whitespace does not change a normalized display URL.
pub proof fn law_normalize_ignores_padding(s: Seq<char>)
    ensures
        normalized_url(trim(s)) == normalized_url(s),
{
    law_trim_idempotent(s);
}

/// A link that is blank after trimming resolves to nothing.
pub proof fn law_blank_link_resolves_empty(raw: Seq<char>)
    requires
        !has_content(raw),
    ensures
        resolved_href(raw).len() == 0,
{
    lemma_trim_empty_iff_blank(raw);
}

/// A link that is neither scheme-relative nor a DuckDuckGo redirect
/// resolves to itself, trimmed.
pub proof fn law_direct_link_passthrough(raw: Seq<char>)
    requires
        !is_prefix("//"@, trim(raw)),
        !crate::duckduckgo::is_redirect(trim(raw)),
    ensures
        resolved_href(raw) == trim(raw),
{
    assert(with_https_scheme(trim(raw)) == trim(raw));
}

/// Google is asked for between one and ten results, and for exactly the
/// limit when the limit lies in that range.
pub proof fn law_result_count_in_range(limit: usize)
    ensures
        1 <= result_count(limit) <= 10,
        1 <= limit <= 10 ==> result_count(limit) == limit,
{
}

/// Extraction keeps what came first: the hits of the first `k` blocks are
/// the first hits of all the blocks.
pub proof fn law_hits_prefix_stable(blocks: Seq<BlockView>, k: int)
    requires
        0 <= k <= blocks.len(),
    ensures
        hits_of(blocks.take(k)).len() <= hits_of(blocks).len(),
        hits_of(blocks.take(k)) == hits_of(blocks).take(hits_of(blocks.take(k)).len() as int),
    decreases blocks.len() - k,
{
    if k == blocks.len() {
        assert(blocks.take(k) =~= blocks);
        assert(hits_of(blocks).take(hits_of(blocks).len() as int) =~= hits_of(blocks));
    } else {
        law_hits_prefix_stable(blocks, k + 1);
        let small = blocks.take(k);
        let big = blocks.take(k + 1);
        assert(big.drop_last() =~= small);
        let hs = hits_of(small);
        let hb = hits_of(big);
        let all = hits_of(blocks);
        if block_entry(big.last()) is Some {
            assert(hb.drop_last() =~= hs);
            assert(all.take(hs.len() as int) =~= hb.take(hb.len() as int).take(hs.len() as int));
            assert(hb.take(hb.len() as int) =~= hb);
            assert(hb.take(hs.len() as int) =~= hs);
        } else {
            assert(hb == hs);
        }
    }
}

/// Blocks without a usable title give no hit at all.
pub proof fn law_untitled_blocks_give_nothing(blocks: Seq<BlockView>)
    requires
        forall|i: int| 0 <= i < blocks.len() ==> block_entry(#[trigger] blocks[i]) is None,
    ensures
        hits_of(blocks).len() == 0,
    decreases blocks.len(),
{
    if blocks.len() > 0 {
        let rest = blocks.drop_last();
        assert forall|i: int| 0 <= i < rest.len() implies block_entry(#[trigger] rest[i]) is None by {
            assert(rest[i] == blocks[i]);
        }
        law_untitled_blocks_give_nothing(rest);
        assert(block_entry(blocks[blocks.len() - 1]) is None);
    }
}


/// Both engines send the same search text: the rendered query, `site:`
/// and `filetype:` operators included.
pub proof fn law_engines_send_rendered_query(q: Query, key: Seq<char>, cx: Seq<char>)
    ensures
        ddg_request_pairs(q)[0] == ("q"@, q.rendered()),
        google_request_pairs(key, cx, q)[2] == ("q"@, q.rendered()),
{
}


/// The digit characters are the ASCII digits: the character for `d` has the
/// code of `'0'` plus `d`.
pub proof fn law_digit_char_code(d: nat)
    requires
        d < 10,
    ensures
        digit_char(d) as u32 == '0' as u32 + d,
        digit_char(d) as int == '0' as int + d,
        '0' <= digit_char(d) <= '9',
{
}

/// Decimal rendering is base ten: every character is a digit, and reading
/// the digits back gives the number.
pub proof fn law_decimal_reads_back(n: nat)
    ensures
        digits_value(decimal(n)) == n,
        decimal(n).len() > 0,
        forall|i: int| 0 <= i < decimal(n).len() ==> '0' <= #[trigger] decimal(n)[i] <= '9',
        n > 0 ==> decimal(n)[0] != '0',
    decreases n,
{
    law_digit_char_code(n % 10);
    if n >= 10 {
        law_decimal_reads_back(n / 10);
        let s = decimal(n);
        assert(s.drop_last() =~= decimal(n / 10));
        assert(s.last() == digit_char(n % 10));
        vstd::arithmetic::div_mod::lemma_fundamental_div_mod(n as int, 10);
        assert(digits_value(s) == digits_value(s.drop_last()) * 10 + (s.last() as int - '0' as int));
        assert(digits_value(s) == (n / 10) * 10 + n % 10);
        assert(s[0] == decimal(n / 10)[0]);
        assert forall|i: int| 0 <= i < s.len() implies '0' <= #[trigger] s[i] <= '9' by {
            if i < s.len() - 1 {
                assert(s[i] == decimal(n / 10)[i]);
            }
        }
    } else {
        let s = decimal(n);
        assert(s.drop_last() =~= Seq::<char>::empty());
        assert(s.last() == digit_char(n));
        assert(digits_value(s) == digits_value(s.drop_last()) * 10 + (s.last() as int - '0' as int));
    }
}

/// The whitespace that trimming removes is exactly Unicode's `White_Space`
/// set, the one `char::is_whitespace` and `str::trim` use, given here by
/// code point: tab through carriage return, space, next line, no-break
/// space, ogham space mark, en quad through hair space, line and paragraph
/// separators, narrow no-break space, medium mathematical space and
/// ideographic space.
pub proof fn law_white_space_code_points(c: char)
    ensures
        is_white_space(c) == ((0x9 <= c as u32 && c as u32 <= 0xd) || c as u32 == 0x20
            || c as u32 == 0x85 || c as u32 == 0xa0 || c as u32 == 0x1680 || (0x2000 <= c as u32
            && c as u32 <= 0x200a) || c as u32 == 0x2028 || c as u32 == 0x2029 || c as u32
            == 0x202f || c as u32 == 0x205f || c as u32 == 0x3000),
{
}

/// Trailing whitespace on `s` does not change `trim_end(s)`.
proof fn lemma_trim_end_whitespace_suffix(s: Seq<char>, w: Seq<char>)
    requires
        forall|i: int| 0 <= i < w.len() ==> is_white_space(#[trigger] w[i]),
    ensures
        trim_end(s + w) == trim_end(s),
    decreases w.len(),
{
    if w.len() > 0 {
        assert((s + w).last() == w.last());
        assert((s + w).drop_last() =~= s + w.drop_last());
        lemma_trim_end_whitespace_suffix(s, w.drop_last());
    } else {
        assert(s + w =~= s);
    }
}

/// Removing leading whitespace commutes with appending whitespace to a text
/// that has content, and swallows it for a blank text.
proof fn lemma_trim_start_whitespace_suffix(s: Seq<char>, w: Seq<char>)
    requires
        forall|i: int| 0 <= i < w.len() ==> is_white_space(#[trigger] w[i]),
    ensures
        has_content(s) ==> trim_start(s + w) == trim_start(s) + w,
        !has_content(s) ==> trim_start(s + w).len() == 0,
    decreases s.len() + w.len(),
{
    if s.len() > 0 && is_white_space(s[0]) {
        assert((s + w).drop_first() =~= s.drop_first() + w);
        lemma_trim_start_whitespace_suffix(s.drop_first(), w);
        if has_content(s) {
            let i = choose|i: int| 0 <= i < s.len() && !is_white_space(#[trigger] s[i]);
            assert(s.drop_first()[i - 1] == s[i]);
        }
        if has_content(s.drop_first()) {
            let i = choose|i: int|
                0 <= i < s.drop_first().len() && !is_white_space(#[trigger] s.drop_first()[i]);
            assert(s[i + 1] == s.drop_first()[i]);
        }
    } else if s.len() > 0 {
        assert((s + w)[0] == s[0]);
        assert(has_content(s)) by {
            assert(!is_white_space(s[0]));
        }
    } else {
        assert(s + w =~= w);
        assert(!has_content(s));
        if w.len() > 0 {
            assert((s + w).drop_first() =~= s + w.drop_first());
            lemma_trim_start_whitespace_suffix(s, w.drop_first());
        }
    }
}

/// A line break at the end of a query, `\r\n` as a Windows terminal ends a
/// line, is trimmed away like any other trailing whitespace.
pub proof fn law_trim_drops_line_break(s: Seq<char>)
    ensures
        trim(s + seq!['\r', '\n']) == trim(s),
{
    let w = seq!['\r', '\n'];
    assert forall|i: int| 0 <= i < w.len() implies is_white_space(#[trigger] w[i]) by {}
    lemma_trim_start_whitespace_suffix(s, w);
    if has_content(s) {
        lemma_trim_end_whitespace_suffix(trim_start(s), w);
    } else {
        lemma_trim_start(s);
        lemma_trim_end(trim_start(s));
        lemma_trim_start(s + w);
        lemma_trim_end(trim_start(s + w));
    }
}

/// A capped list keeps the first `min(limit, len)` entries, in order.
pub proof fn law_capped_keeps_first(hits: Seq<HitView>, limit: usize)
    ensures
        capped(hits, limit).len() == min(limit as int, hits.len() as int),
        forall|i: int| 0 <= i < capped(hits, limit).len() ==> #[trigger] capped(hits, limit)[i] == hits[i],
{
}

/// Google's items become hits one for one, in order: the `i`-th hit is
/// ranked `i + 1`, carries the `i`-th item's title, link and snippet, and is
/// tagged `google`.
pub proof fn law_item_hits_copy_items(items: Seq<GoogleItem>)
    requires
        items.len() <= usize::MAX,
    ensures
        item_hits(items).len() == items.len(),
        forall|i: int|
            0 <= i < items.len() ==> {
                &&& (#[trigger] item_hits(items)[i]).0 == i + 1
                &&& item_hits(items)[i].1 == items[i].title@
                &&& item_hits(items)[i].2 == items[i].link@
                &&& item_hits(items)[i].3 == items[i].snippet@
                &&& item_hits(items)[i].4 == Some("google"@)
            },
{
}

/// Whatever the region, a DuckDuckGo request sends the query text first and
/// the `SafeSearch` knob `kp` second (`1` strict, `-1` moderate, `-2` off);
/// a region only adds `kl` after them.
pub proof fn law_request_keeps_safe_search(q: Query)
    ensures
        ddg_request_pairs(q)[0] == ("q"@, q.rendered()),
        ddg_request_pairs(q)[1] == ("kp"@, match q.safe_search {
            SafeSearch::Strict => "1"@,
            SafeSearch::Moderate => "-1"@,
            SafeSearch::Off => "-2"@,
        }),
        ddg_request_pairs(q).len() == if q.region is Some { 3int } else { 2int },
        q.region is Some ==> ddg_request_pairs(q)[2] == ("kl"@, q.region->0@),
{
}

/// Google is asked, in the `num` pair, for a count that reads back as the
/// limit kept within 1..=10.
pub proof fn law_google_num_reads_back(key: Seq<char>, cx: Seq<char>, q: Query)
    ensures
        google_request_pairs(key, cx, q)[3].0 == "num"@,
        digits_value(google_request_pairs(key, cx, q)[3].1) == min(
            if q.limit < 1 { 1int } else { q.limit as int },
            10,
        ),
{
    law_decimal_reads_back(result_count(q.limit));
}

} // verus!
