//! Parser for the session-web HTML search page.

use vstd::prelude::*;

use crate::error::KagiError;
use crate::html::{css_selector_error, html_attr_spec, html_select_all, html_select_within, html_text_spec, CssSelector, HtmlDocument};
use crate::routing::{EndpointId, ParserShape};
use crate::session_web::models::{HtmlSearchResponse, HtmlSearchResult};
use crate::text::{
    chars_of, chars_of_all, collect_text, collect_text_of, contains_chars, contains_seq,
    extend_chars, has_prefix, lower, lower_chars, opt_view, starts_with, string_of,
};

verus! {

/// (title, url, snippet) of a search result.
pub type ResultView = (Seq<char>, Seq<char>, Option<Seq<char>>);

pub open spec fn result_view(r: HtmlSearchResult) -> ResultView {
    (r.title@, r.url@, opt_view(r.snippet))
}

pub open spec fn results_view(rs: Seq<HtmlSearchResult>) -> Seq<ResultView> {
    rs.map_values(|r: HtmlSearchResult| result_view(r))
}

pub open spec fn title_selector() -> Seq<char> {
    "a.__sri_title_link"@
}

pub open spec fn snippet_selector() -> Seq<char> {
    ".__sri-desc"@
}

pub open spec fn empty_state_selector() -> Seq<char> {
    ".search-no-results, .__search-no-results, .__empty-results, .__no-results"@
}

/// The result containers, tried in this order.
pub open spec fn item_selector(k: int) -> Seq<char> {
    if k == 0 {
        "div.search-result"@
    } else if k == 1 {
        "div.__sri"@
    } else if k == 2 {
        "div.__srgi"@
    } else {
        "section.__srgi"@
    }
}

pub open spec fn is_http_link(href: Seq<char>) -> bool {
    starts_with(href, "http://"@) || starts_with(href, "https://"@)
}

/// The snippet of an item: the collected text of its first `.__sri-desc`,
/// when not empty.
pub open spec fn item_snippet(doc: Seq<char>, item: usize) -> Option<Seq<char>> {
    let snips = html_select_within(doc, item, snippet_selector());
    if snips.len() == 0 {
        None
    } else {
        let t = collect_text(html_text_spec(doc, snips[0]));
        if t.len() == 0 {
            None
        } else {
            Some(t)
        }
    }
}

/// The result an item yields: its first title link must have an `http(s)`
/// `href` and a non-empty text.
pub open spec fn item_result(doc: Seq<char>, item: usize) -> Option<ResultView> {
    let links = html_select_within(doc, item, title_selector());
    if links.len() == 0 {
        None
    } else {
        match html_attr_spec(doc, links[0], "href"@) {
            None => None,
            Some(href) => if !is_http_link(href) {
                None
            } else {
                let title = collect_text(html_text_spec(doc, links[0]));
                if title.len() == 0 {
                    None
                } else {
                    Some((title, href, item_snippet(doc, item)))
                }
            },
        }
    }
}

/// The results of a list of items, in order.
pub open spec fn item_results(doc: Seq<char>, items: Seq<usize>) -> Seq<ResultView>
    decreases items.len(),
{
    if items.len() == 0 {
        Seq::empty()
    } else {
        let prev = item_results(doc, items.drop_last());
        match item_result(doc, items.last()) {
            Some(r) => prev.push(r),
            None => prev,
        }
    }
}

/// Some result in `s` has this url and title.
pub open spec fn has_key(s: Seq<ResultView>, url: Seq<char>, title: Seq<char>) -> bool {
    exists|i: int| 0 <= i < s.len() && (#[trigger] s[i]).1 == url && s[i].0 == title
}

/// The results without repeats of a (url, title) pair, first ones kept.
pub open spec fn dedup(s: Seq<ResultView>) -> Seq<ResultView>
    decreases s.len(),
{
    if s.len() == 0 {
        Seq::empty()
    } else {
        let d = dedup(s.drop_last());
        if has_key(d, s.last().1, s.last().0) {
            d
        } else {
            d.push(s.last())
        }
    }
}

/// No two entries of `s` share a (url, title) pair.
pub open spec fn no_repeated_keys(s: Seq<ResultView>) -> bool {
    forall|i: int, j: int|
        0 <= i < j < s.len() ==> !((#[trigger] s[i]).1 == (#[trigger] s[j]).1 && s[i].0 == s[j].0)
}

/// After dropping repeats, no (url, title) pair occurs twice.
pub proof fn law_dedup_has_no_repeats(s: Seq<ResultView>)
    ensures
        no_repeated_keys(dedup(s)),
    decreases s.len(),
{
    if s.len() > 0 {
        law_dedup_has_no_repeats(s.drop_last());
        let d = dedup(s.drop_last());
        if !has_key(d, s.last().1, s.last().0) {
            let e = dedup(s);
            assert(e == d.push(s.last()));
            assert forall|i: int, j: int| 0 <= i < j < e.len() implies !((#[trigger] e[i]).1 == (
            #[trigger] e[j]).1 && e[i].0 == e[j].0) by {
                if j == d.len() {
                    if e[i].1 == e[j].1 && e[i].0 == e[j].0 {
                        assert(d[i] == e[i]);
                        assert(has_key(d, s.last().1, s.last().0));
                    }
                } else {
                    assert(d[i] == e[i] && d[j] == e[j]);
                }
            }
        }
    }
}

/// Dropping repeats loses no (url, title) pair, and keeps only entries of
/// the input.
pub proof fn law_dedup_keeps_every_key(s: Seq<ResultView>)
    ensures
        forall|i: int| 0 <= i < s.len() ==> has_key(dedup(s), #[trigger] s[i].1, s[i].0),
        forall|i: int| 0 <= i < dedup(s).len() ==> s.contains(#[trigger] dedup(s)[i]),
    decreases s.len(),
{
    if s.len() > 0 {
        let p = s.drop_last();
        law_dedup_keeps_every_key(p);
        let d = dedup(p);
        let e = dedup(s);
        assert forall|i: int| 0 <= i < s.len() implies has_key(e, #[trigger] s[i].1, s[i].0) by {
            if i < p.len() {
                assert(p[i] == s[i]);
                assert(has_key(d, p[i].1, p[i].0));
                let k = choose|k: int| 0 <= k < d.len() && (#[trigger] d[k]).1 == p[i].1 && d[k].0 == p[i].0;
                if !has_key(d, s.last().1, s.last().0) {
                    assert(e[k] == d[k]);
                }
            } else {
                if !has_key(d, s.last().1, s.last().0) {
                    assert(e[d.len() as int] == s.last());
                }
            }
        }
        assert forall|i: int| 0 <= i < e.len() implies s.contains(#[trigger] e[i]) by {
            if i < d.len() {
                assert(e[i] == d[i]);
                assert(p.contains(d[i]));
                let k = choose|k: int| 0 <= k < p.len() && p[k] == d[i];
                assert(s[k] == p[k]);
            } else {
                assert(e[i] == s.last());
                assert(s[s.len() - 1] == s.last());
            }
        }
    }
}

/// Entry `i` of `s` is the first with its (url, title) pair.
pub open spec fn first_of_key(s: Seq<ResultView>, i: int) -> bool {
    forall|j: int| 0 <= j < i ==> !((#[trigger] s[j]).1 == s[i].1 && s[j].0 == s[i].0)
}

/// `idx` picks, in increasing order, the entries of `s` that are the first of
/// their (url, title) pair, and `d` is those entries in that order.
pub open spec fn picks_first_occurrences(s: Seq<ResultView>, d: Seq<ResultView>, idx: Seq<int>) -> bool {
    &&& idx.len() == d.len()
    &&& forall|k: int| 0 <= k < idx.len() ==> 0 <= #[trigger] idx[k] < s.len() && d[k] == s[idx[k]]
        && first_of_key(s, idx[k])
    &&& forall|k: int, l: int| 0 <= k < l < idx.len() ==> #[trigger] idx[k] < #[trigger] idx[l]
    &&& forall|i: int| 0 <= i < s.len() && #[trigger] first_of_key(s, i) ==> exists|k: int|
        0 <= k < idx.len() && idx[k] == i
}

/// Dropping repeats keeps exactly the first entry of each (url, title)
/// pair, in the order of the input: the result is the input with every later
/// repeat taken out.
pub proof fn law_dedup_keeps_first_occurrences_in_order(s: Seq<ResultView>) -> (idx: Seq<int>)
    ensures
        picks_first_occurrences(s, dedup(s), idx),
    decreases s.len(),
{
    if s.len() == 0 {
        Seq::empty()
    } else {
        let p = s.drop_last();
        let n = p.len() as int;
        let pidx = law_dedup_keeps_first_occurrences_in_order(p);
        law_dedup_keeps_every_key(p);
        let d = dedup(p);
        assert forall|i: int| 0 <= i < n implies first_of_key(s, i) == first_of_key(p, i) by {
            if first_of_key(p, i) {
                assert forall|j: int| 0 <= j < i implies !((#[trigger] s[j]).1 == s[i].1 && s[j].0
                    == s[i].0) by {
                    assert(s[j] == p[j] && s[i] == p[i]);
                }
            }
            if first_of_key(s, i) {
                assert forall|j: int| 0 <= j < i implies !((#[trigger] p[j]).1 == p[i].1 && p[j].0
                    == p[i].0) by {
                    assert(s[j] == p[j] && s[i] == p[i]);
                }
            }
        }
        // The last entry is the first of its pair exactly when `d` lacks its key.
        if has_key(d, s.last().1, s.last().0) {
            let k = choose|k: int| 0 <= k < d.len() && (#[trigger] d[k]).1 == s.last().1 && d[k].0
                == s.last().0;
            let j = pidx[k];
            assert(s[j] == p[j]);
            assert(!first_of_key(s, n));
            assert forall|i: int| 0 <= i < s.len() && #[trigger] first_of_key(s, i) implies exists|
                k: int,
            | 0 <= k < pidx.len() && pidx[k] == i by {
                assert(i < n);
                assert(first_of_key(p, i));
            }
            assert forall|k: int| 0 <= k < pidx.len() implies 0 <= #[trigger] pidx[k] < s.len() && d[k]
                == s[pidx[k]] && first_of_key(s, pidx[k]) by {
                assert(s[pidx[k]] == p[pidx[k]]);
            }
            pidx
        } else {
            assert(first_of_key(s, n)) by {
                assert forall|j: int| 0 <= j < n implies !((#[trigger] s[j]).1 == s[n].1 && s[j].0
                    == s[n].0) by {
                    assert(s[j] == p[j]);
                    assert(s[n] == s.last());
                    if p[j].1 == s.last().1 && p[j].0 == s.last().0 {
                        assert(has_key(dedup(p), #[trigger] p[j].1, p[j].0));
                    }
                }
            }
            let idx = pidx.push(n);
            let e = dedup(s);
            assert(e == d.push(s.last()));
            assert forall|k: int| 0 <= k < idx.len() implies 0 <= #[trigger] idx[k] < s.len() && e[k]
                == s[idx[k]] && first_of_key(s, idx[k]) by {
                if k < pidx.len() {
                    assert(idx[k] == pidx[k]);
                    assert(s[pidx[k]] == p[pidx[k]]);
                } else {
                    assert(idx[k] == n);
                }
            }
            assert forall|k: int, l: int| 0 <= k < l < idx.len() implies #[trigger] idx[k]
                < #[trigger] idx[l] by {
                if l < pidx.len() {
                    assert(idx[k] == pidx[k] && idx[l] == pidx[l]);
                } else {
                    assert(idx[k] == pidx[k]);
                }
            }
            assert forall|i: int| 0 <= i < s.len() && #[trigger] first_of_key(s, i) implies exists|
                k: int,
            | 0 <= k < idx.len() && idx[k] == i by {
                if i < n {
                    assert(first_of_key(p, i));
                    let k = choose|k: int| 0 <= k < pidx.len() && pidx[k] == i;
                    assert(idx[k] == i);
                } else {
                    assert(idx[pidx.len() as int] == i);
                }
            }
            idx
        }
    }
}

/// Results without repeats are left as they are.
pub proof fn lemma_dedup_fixed(s: Seq<ResultView>)
    requires
        no_repeated_keys(s),
    ensures
        dedup(s) == s,
    decreases s.len(),
{
    if s.len() > 0 {
        let p = s.drop_last();
        assert forall|i: int, j: int| 0 <= i < j < p.len() implies !((#[trigger] p[i]).1 == (
        #[trigger] p[j]).1 && p[i].0 == p[j].0) by {
            assert(p[i] == s[i] && p[j] == s[j]);
        }
        lemma_dedup_fixed(p);
        if has_key(p, s.last().1, s.last().0) {
            let k = choose|k: int| 0 <= k < p.len() && (#[trigger] p[k]).1 == s.last().1 && p[k].0 == s.last().0;
            assert(s[k] == p[k]);
            assert(s[s.len() - 1] == s.last());
        }
        assert(p.push(s.last()) =~= s);
    }
}

/// Dropping repeats a second time changes nothing.
pub proof fn law_dedup_idempotent(s: Seq<ResultView>)
    ensures
        dedup(dedup(s)) == dedup(s),
{
    law_dedup_has_no_repeats(s);
    lemma_dedup_fixed(dedup(s));
}

/// What the HTML search parser yields.
pub enum HtmlOutcome {
    Results(Seq<ResultView>),
    Config(Seq<char>),
    Parse(Seq<char>),
}

pub open spec fn builtin_selector_error(raw: Seq<char>, e: Seq<char>) -> Seq<char> {
    "invalid built-in selector `"@ + raw + "`: "@ + e
}

/// A page that says it found nothing: an empty-state marker element, or a
/// "no results" phrase on a page with search-form markers.
pub open spec fn no_results_text(raw: Seq<char>) -> bool {
    let n = lower(raw);
    (contains_seq(n, "no results"@) || contains_seq(n, "no results found"@) || contains_seq(
        n,
        "did not match any documents"@,
    )) && (contains_seq(n, "/html/search"@) || contains_seq(n, "name=\"q\""@) || contains_seq(
        n,
        "search-input"@,
    ))
}

pub open spec fn empty_or_fail(doc: Seq<char>) -> HtmlOutcome {
    match css_selector_error(empty_state_selector()) {
        Some(e) => HtmlOutcome::Config(builtin_selector_error(empty_state_selector(), e)),
        None => if html_select_all(doc, empty_state_selector()).len() > 0 || no_results_text(
            doc,
        ) {
            HtmlOutcome::Results(Seq::empty())
        } else {
            HtmlOutcome::Parse(
                "response did not contain Kagi search-result markers (`.__sri_title_link`)"@,
            )
        },
    }
}

/// The item selectors from number `k` on: the first one whose items yield
/// results gives them, without repeats.
pub open spec fn scan_items(doc: Seq<char>, k: int) -> HtmlOutcome
    decreases 4 - k,
{
    if k >= 4 || k < 0 {
        empty_or_fail(doc)
    } else {
        match css_selector_error(item_selector(k)) {
            Some(e) => HtmlOutcome::Config(builtin_selector_error(item_selector(k), e)),
            None => {
                let results = item_results(doc, html_select_all(doc, item_selector(k)));
                if results.len() > 0 {
                    HtmlOutcome::Results(dedup(results))
                } else {
                    scan_items(doc, k + 1)
                }
            },
        }
    }
}

/// What the parser yields for an HTML page.
pub open spec fn html_search_outcome(doc: Seq<char>) -> HtmlOutcome {
    match css_selector_error(title_selector()) {
        Some(e) => HtmlOutcome::Config(builtin_selector_error(title_selector(), e)),
        None => match css_selector_error(snippet_selector()) {
            Some(e) => HtmlOutcome::Config(builtin_selector_error(snippet_selector(), e)),
            None => scan_items(doc, 0),
        },
    }
}

/// The first title link of an item has an `http://` or `https://` address
/// `href` and the non-empty text `title`.
pub open spec fn http_item(doc: Seq<char>, item: usize, href: Seq<char>, title: Seq<char>) -> bool {
    let links = html_select_within(doc, item, "a.__sri_title_link"@);
    &&& links.len() > 0
    &&& html_attr_spec(doc, links[0], "href"@) == Some(href)
    &&& (starts_with(href, "http://"@) || starts_with(href, "https://"@))
    &&& title == collect_text(html_text_spec(doc, links[0]))
    &&& title.len() > 0
}

/// An item whose first title link has an `http://` or `https://` address and
/// a non-empty text yields a result with that title and address; its snippet
/// is the text of its first `.__sri-desc`, when there is one and it is not
/// empty.
pub proof fn law_http_items_yield_results(doc: Seq<char>, item: usize, href: Seq<char>, title: Seq<char>)
    requires
        http_item(doc, item, href, title),
    ensures
        item_result(doc, item) matches Some(r) && r.0 == title && r.1 == href,
        item_result(doc, item) matches Some(r) && r.2 == ({
            let descs = html_select_within(doc, item, ".__sri-desc"@);
            if descs.len() > 0 && collect_text(html_text_spec(doc, descs[0])).len() > 0 {
                Some(collect_text(html_text_spec(doc, descs[0])))
            } else {
                None
            }
        }),
{
}

/// The results of a list of items hold one for each such item.
pub proof fn law_item_results_keep_http_items(
    doc: Seq<char>,
    items: Seq<usize>,
    i: int,
    href: Seq<char>,
    title: Seq<char>,
)
    requires
        0 <= i < items.len(),
        http_item(doc, items[i], href, title),
    ensures
        exists|k: int|
            0 <= k < item_results(doc, items).len() && (#[trigger] item_results(doc, items)[k]).1
                == href && item_results(doc, items)[k].0 == title,
    decreases items.len(),
{
    law_http_items_yield_results(doc, items[i], href, title);
    let p = items.drop_last();
    if i < items.len() - 1 {
        assert(p[i] == items[i]);
        law_item_results_keep_http_items(doc, p, i, href, title);
        let k = choose|k: int|
            0 <= k < item_results(doc, p).len() && (#[trigger] item_results(doc, p)[k]).1 == href
                && item_results(doc, p)[k].0 == title;
        assert(item_results(doc, items)[k] == item_results(doc, p)[k]);
    } else {
        let r = item_result(doc, items.last()).unwrap();
        assert(item_results(doc, items) == item_results(doc, p).push(r));
        assert(item_results(doc, items)[item_results(doc, p).len() as int] == r);
    }
}

/// On a page whose built-in selectors compile, an item of the first
/// container kind (`div.search-result`) whose title link has an `http://` or
/// `https://` address and a non-empty text makes the page parse, with a
/// result of that address and title among the results.
pub proof fn law_http_results_are_kept(doc: Seq<char>, i: int, href: Seq<char>, title: Seq<char>)
    requires
        css_selector_error("a.__sri_title_link"@) is None,
        css_selector_error(".__sri-desc"@) is None,
        css_selector_error("div.search-result"@) is None,
        0 <= i < html_select_all(doc, "div.search-result"@).len(),
        http_item(doc, html_select_all(doc, "div.search-result"@)[i], href, title),
    ensures
        html_search_outcome(doc) matches HtmlOutcome::Results(v) && has_key(v, href, title),
{
    let items = html_select_all(doc, "div.search-result"@);
    law_item_results_keep_http_items(doc, items, i, href, title);
    let results = item_results(doc, items);
    let k = choose|k: int|
        0 <= k < results.len() && (#[trigger] results[k]).1 == href && results[k].0 == title;
    law_dedup_keeps_every_key(results);
    assert(has_key(dedup(results), results[k].1, results[k].0));
    assert(scan_items(doc, 0) == HtmlOutcome::Results(dedup(results)));
}

/// Every entry is a result with an `http(s)` URL and a non-empty title.
pub open spec fn all_http_links(s: Seq<ResultView>) -> bool {
    forall|i: int| 0 <= i < s.len() ==> is_http_link(#[trigger] s[i].1) && s[i].0.len() > 0
}

proof fn lemma_item_results_are_links(doc: Seq<char>, items: Seq<usize>)
    ensures
        all_http_links(item_results(doc, items)),
    decreases items.len(),
{
    if items.len() > 0 {
        lemma_item_results_are_links(doc, items.drop_last());
    }
}

#[verifier::spinoff_prover]
proof fn lemma_scan_items_are_links(doc: Seq<char>, k: int)
    ensures
        scan_items(doc, k) matches HtmlOutcome::Results(v) ==> all_http_links(v),
    decreases 4 - k,
{
    if 0 <= k < 4 {
        lemma_scan_items_are_links(doc, k + 1);
        let results = item_results(doc, html_select_all(doc, item_selector(k)));
        lemma_item_results_are_links(doc, html_select_all(doc, item_selector(k)));
        law_dedup_keeps_every_key(results);
        let d = dedup(results);
        assert forall|i: int| 0 <= i < d.len() implies is_http_link(#[trigger] d[i].1) && d[i].0.len()
            > 0 by {
            assert(results.contains(d[i]));
            let j = choose|j: int| 0 <= j < results.len() && results[j] == d[i];
            assert(is_http_link(results[j].1) && results[j].0.len() > 0);
        }
        assert(all_http_links(d));
    }
}

/// Every result the search page parser gives links to an `http` or `https`
/// URL and has a non-empty title.
pub proof fn law_html_results_are_http_links(doc: Seq<char>)
    ensures
        html_search_outcome(doc) matches HtmlOutcome::Results(v) ==> all_http_links(v),
{
    lemma_scan_items_are_links(doc, 0);
}

// ---------------------------------------------------------------------------

fn parse_selector(raw: &str) -> (r: Result<CssSelector, KagiError>)
    ensures
        match css_selector_error(raw@) {
            None => r matches Ok(s) && s@ == raw@,
            Some(e) => r matches Err(KagiError::InvalidClientConfiguration { reason }) && reason@
                == builtin_selector_error(raw@, e),
        },
{
    match CssSelector::parse(raw) {
        Ok(s) => Ok(s),
        Err(source) => {
            let mut v = chars_of("invalid built-in selector `");
            let r = chars_of(raw);
            extend_chars(&mut v, r.as_slice());
            let mid = chars_of("`: ");
            extend_chars(&mut v, mid.as_slice());
            let e = chars_of(source.as_str());
            extend_chars(&mut v, e.as_slice());
            Err(KagiError::InvalidClientConfiguration { reason: string_of(v.as_slice()) })
        },
    }
}

fn element_text(doc: &HtmlDocument, element: usize) -> (r: Vec<char>)
    ensures
        r@ == collect_text(html_text_spec(doc@, element)),
{
    let pieces = doc.texts(element);
    let chars = chars_of_all(&pieces);
    collect_text_of(&chars)
}

fn http_link(href: &str) -> (r: bool)
    ensures
        r == is_http_link(href@),
{
    let h = chars_of(href);
    let a = chars_of("http://");
    let b = chars_of("https://");
    has_prefix(h.as_slice(), a.as_slice()) || has_prefix(h.as_slice(), b.as_slice())
}

fn result_of_item(doc: &HtmlDocument, item: usize, title_sel: &CssSelector, snippet_sel: &CssSelector) -> (r: Option<HtmlSearchResult>)
    requires
        title_sel@ == title_selector(),
        snippet_sel@ == snippet_selector(),
    ensures
        match item_result(doc@, item) {
            Some(v) => r matches Some(x) && result_view(x) == v,
            None => r is None,
        },
{
    let links = doc.select_within(item, title_sel);
    if links.len() == 0 {
        return None;
    }
    let link = links[0];
    let href = match doc.attr(link, "href") {
        None => {
            return None;
        },
        Some(h) => h,
    };
    if !http_link(href.as_str()) {
        return None;
    }
    let title = element_text(doc, link);
    if title.len() == 0 {
        return None;
    }
    let snips = doc.select_within(item, snippet_sel);
    let snippet = if snips.len() == 0 {
        None
    } else {
        let t = element_text(doc, snips[0]);
        if t.len() == 0 {
            None
        } else {
            Some(string_of(t.as_slice()))
        }
    };
    Some(HtmlSearchResult { title: string_of(title.as_slice()), url: href, snippet })
}

fn results_of_items(doc: &HtmlDocument, items: &Vec<usize>, title_sel: &CssSelector, snippet_sel: &CssSelector) -> (r: Vec<HtmlSearchResult>)
    requires
        title_sel@ == title_selector(),
        snippet_sel@ == snippet_selector(),
    ensures
        results_view(r@) == item_results(doc@, items@),
{
    let mut out: Vec<HtmlSearchResult> = Vec::new();
    let mut i: usize = 0;
    assert(items@.take(0) =~= Seq::<usize>::empty());
    assert(results_view(out@) =~= Seq::<ResultView>::empty());
    while i < items.len()
        invariant
            i <= items@.len(),
            title_sel@ == title_selector(),
            snippet_sel@ == snippet_selector(),
            results_view(out@) == item_results(doc@, items@.take(i as int)),
        decreases items@.len() - i,
    {
        proof {
            assert(items@.take(i + 1).drop_last() =~= items@.take(i as int));
            assert(items@.take(i + 1).last() == items@[i as int]);
        }
        match result_of_item(doc, items[i], title_sel, snippet_sel) {
            Some(x) => {
                let ghost before = out@;
                out.push(x);
                assert(results_view(out@) =~= results_view(before).push(result_view(x)));
            },
            None => {},
        }
        i = i + 1;
    }
    assert(items@.take(items@.len() as int) =~= items@);
    out
}

fn contains_key(d: &Vec<HtmlSearchResult>, url: &str, title: &str) -> (r: bool)
    ensures
        r == has_key(results_view(d@), url@, title@),
{
    let u = chars_of(url);
    let t = chars_of(title);
    let mut i: usize = 0;
    while i < d.len()
        invariant
            i <= d@.len(),
            u@ == url@,
            t@ == title@,
            forall|k: int| 0 <= k < i ==> !((#[trigger] results_view(d@)[k]).1 == url@ && results_view(d@)[k].0 == title@),
        decreases d@.len() - i,
    {
        let du = chars_of(d[i].url.as_str());
        let dt = chars_of(d[i].title.as_str());
        if crate::text::chars_eq(du.as_slice(), u.as_slice()) && crate::text::chars_eq(dt.as_slice(), t.as_slice()) {
            assert(results_view(d@)[i as int].1 == url@ && results_view(d@)[i as int].0 == title@);
            return true;
        }
        i = i + 1;
    }
    false
}

fn copy_result(x: &HtmlSearchResult) -> (r: HtmlSearchResult)
    ensures
        result_view(r) == result_view(*x),
{
    let snippet = match &x.snippet {
        Some(t) => Some(t.clone()),
        None => None,
    };
    HtmlSearchResult { title: x.title.clone(), url: x.url.clone(), snippet }
}

/// Drops results whose (url, title) pair appeared before; the first of
/// each pair stays, in page order.
pub fn deduplicate_results(results: &Vec<HtmlSearchResult>) -> (r: Vec<HtmlSearchResult>)
    ensures
        results_view(r@) == dedup(results_view(results@)),
{
    let ghost all = results_view(results@);
    let mut out: Vec<HtmlSearchResult> = Vec::new();
    let mut i: usize = 0;
    assert(all.take(0) =~= Seq::<ResultView>::empty());
    assert(results_view(out@) =~= Seq::<ResultView>::empty());
    while i < results.len()
        invariant
            i <= results@.len(),
            all == results_view(results@),
            results_view(out@) == dedup(all.take(i as int)),
        decreases results@.len() - i,
    {
        proof {
            assert(all.take(i + 1).drop_last() =~= all.take(i as int));
            assert(all.take(i + 1).last() == all[i as int]);
        }
        let seen = contains_key(&out, results[i].url.as_str(), results[i].title.as_str());
        if !seen {
            let ghost before = out@;
            let x = copy_result(&results[i]);
            out.push(x);
            assert(results_view(out@) =~= results_view(before).push(result_view(x)));
        }
        i = i + 1;
    }
    assert(all.take(results@.len() as int) =~= all);
    out
}

fn item_selector_text(k: usize) -> (r: &'static str)
    requires
        k < 4,
    ensures
        r@ == item_selector(k as int),
{
    proof {
        reveal_strlit("div.search-result");
        reveal_strlit("div.__sri");
        reveal_strlit("div.__srgi");
        reveal_strlit("section.__srgi");
    }
    if k == 0 {
        "div.search-result"
    } else if k == 1 {
        "div.__sri"
    } else if k == 2 {
        "div.__srgi"
    } else {
        "section.__srgi"
    }
}

fn text_has_no_results(raw: &str) -> (r: bool)
    ensures
        r == no_results_text(raw@),
{
    let c = chars_of(raw);
    let n = lower_chars(c.as_slice());
    let p1 = chars_of("no results");
    let p2 = chars_of("no results found");
    let p3 = chars_of("did not match any documents");
    let m1 = chars_of("/html/search");
    let m2 = chars_of("name=\"q\"");
    let m3 = chars_of("search-input");
    let phrase = contains_chars(n.as_slice(), p1.as_slice()) || contains_chars(n.as_slice(), p2.as_slice())
        || contains_chars(n.as_slice(), p3.as_slice());
    let markers = contains_chars(n.as_slice(), m1.as_slice()) || contains_chars(n.as_slice(), m2.as_slice())
        || contains_chars(n.as_slice(), m3.as_slice());
    phrase && markers
}

/// The outcome of a parse as the library's result.
pub open spec fn outcome_matches(endpoint: EndpointId, o: HtmlOutcome, r: Result<HtmlSearchResponse, KagiError>) -> bool {
    match o {
        HtmlOutcome::Results(v) => r matches Ok(resp) && results_view(resp.results@) == v,
        HtmlOutcome::Config(reason) => r matches Err(KagiError::InvalidClientConfiguration { reason: got }) && got@ == reason,
        HtmlOutcome::Parse(reason) => r matches Err(KagiError::ResponseParse { endpoint: ep, parser, reason: got })
            && ep == endpoint && parser == ParserShape::Html && got@ == reason,
    }
}

fn empty_or_fail_of(endpoint: EndpointId, doc: &HtmlDocument, raw: &str) -> (r: Result<HtmlSearchResponse, KagiError>)
    requires
        doc@ == raw@,
    ensures
        outcome_matches(endpoint, empty_or_fail(raw@), r),
{
    let sel = match parse_selector(".search-no-results, .__search-no-results, .__empty-results, .__no-results") {
        Ok(s) => s,
        Err(e) => {
            proof { reveal_strlit(".search-no-results, .__search-no-results, .__empty-results, .__no-results"); }
            return Err(e);
        },
    };
    proof { reveal_strlit(".search-no-results, .__search-no-results, .__empty-results, .__no-results"); }
    let found = doc.select_all(&sel);
    if found.len() > 0 || text_has_no_results(raw) {
        let none: Vec<HtmlSearchResult> = Vec::new();
        assert(results_view(none@) =~= Seq::<ResultView>::empty());
        return Ok(HtmlSearchResponse { results: none });
    }
    let reason = "response did not contain Kagi search-result markers (`.__sri_title_link`)";
    Err(KagiError::ResponseParse { endpoint, parser: ParserShape::Html, reason: String::from_str(reason) })
}

fn scan_from(endpoint: EndpointId, doc: &HtmlDocument, raw: &str, k: usize, title_sel: &CssSelector, snippet_sel: &CssSelector) -> (r: Result<HtmlSearchResponse, KagiError>)
    requires
        doc@ == raw@,
        k <= 4,
        title_sel@ == title_selector(),
        snippet_sel@ == snippet_selector(),
    ensures
        outcome_matches(endpoint, scan_items(raw@, k as int), r),
    decreases 4 - k,
{
    if k >= 4 {
        return empty_or_fail_of(endpoint, doc, raw);
    }
    let sel = match parse_selector(item_selector_text(k)) {
        Ok(s) => s,
        Err(e) => {
            return Err(e);
        },
    };
    let items = doc.select_all(&sel);
    let found = results_of_items(doc, &items, title_sel, snippet_sel);
    if found.len() > 0 {
        return Ok(HtmlSearchResponse { results: deduplicate_results(&found) });
    }
    scan_from(endpoint, doc, raw, k + 1, title_sel, snippet_sel)
}

/// Reads the results of the session-web search page: the first container
/// selector whose items carry an `http(s)` title link gives the results, with
/// repeated (url, title) pairs dropped; a page that says it found nothing
/// gives no results; any other page is a parse failure.
pub fn parse_html_search_response(endpoint: EndpointId, html_body: &str) -> (r: Result<HtmlSearchResponse, KagiError>)
    ensures
        outcome_matches(endpoint, html_search_outcome(html_body@), r),
{
    let doc = HtmlDocument::parse(html_body);
    proof {
        reveal_strlit("a.__sri_title_link");
        reveal_strlit(".__sri-desc");
    }
    let title_sel = match parse_selector("a.__sri_title_link") {
        Ok(s) => s,
        Err(e) => {
            return Err(e);
        },
    };
    let snippet_sel = match parse_selector(".__sri-desc") {
        Ok(s) => s,
        Err(e) => {
            return Err(e);
        },
    };
    scan_from(endpoint, &doc, html_body, 0, &title_sel, &snippet_sel)
}

} // verus!
