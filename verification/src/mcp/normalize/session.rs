//! Normalization of session-web answers.

use vstd::prelude::*;

use crate::json::{member_str, member_string, JsonValue};
use crate::mcp::schema::{card_view, cards_view, SearchResultCard, SearchToolOutput, SummarizeToolOutput};
use crate::parsing::html_search::{result_view, results_view, ResultView};
use crate::session_web::models::{HtmlSearchResponse, HtmlSearchResult, SummarizeResponse};
use crate::text::opt_view;

verus! {

/// The first `limit` results, or all of them when there are fewer.
pub open spec fn first_results(results: Seq<ResultView>, limit: nat) -> Seq<ResultView> {
    if results.len() <= limit {
        results
    } else {
        results.take(limit as int)
    }
}

/// The source URL of a summary: the `source_url` string of its metadata,
/// else the URL that was summarized.
pub open spec fn session_source_url(metadata: Seq<(String, JsonValue)>, hint: Option<Seq<char>>) -> Option<Seq<char>> {
    match member_str(metadata, "source_url"@) {
        Some(u) => Some(u),
        None => hint,
    }
}

/// When the metadata has no string `source_url`, the source URL is the URL
/// that was summarized (none for a summarized text); when it has one, that
/// string wins.
pub proof fn law_source_url_falls_back_to_the_summarized_url(
    metadata: Seq<(String, JsonValue)>,
    hint: Option<Seq<char>>,
)
    ensures
        member_str(metadata, "source_url"@) is None ==> session_source_url(metadata, hint) == hint,
        member_str(metadata, "source_url"@) matches Some(u) ==> session_source_url(metadata, hint)
            == Some(u),
{
}

fn card_of(x: &HtmlSearchResult) -> (r: SearchResultCard)
    ensures
        card_view(r) == result_view(*x),
{
    let snippet = match &x.snippet {
        Some(t) => Some(t.clone()),
        None => None,
    };
    SearchResultCard { title: x.title.clone(), url: x.url.clone(), snippet }
}

/// The first `limit` results of a session-web search as result cards, in
/// page order.
pub fn normalize_search(response: HtmlSearchResponse, limit: usize) -> (r: SearchToolOutput)
    ensures
        cards_view(r.results@) == first_results(results_view(response.results@), limit as nat),
        r.total_returned == r.results@.len(),
        r.total_returned <= limit,
{
    let items = &response.results;
    let ghost all = results_view(items@);
    let mut results: Vec<SearchResultCard> = Vec::new();
    let mut i: usize = 0;
    assert(cards_view(results@) =~= all.take(0));
    while i < items.len() && i < limit
        invariant
            i <= items@.len(),
            i <= limit,
            all == results_view(items@),
            results@.len() == i,
            cards_view(results@) == all.take(i as int),
        decreases items@.len() - i,
    {
        let ghost before = results@;
        let card = card_of(&items[i]);
        results.push(card);
        assert(cards_view(results@) =~= all.take(i + 1)) by {
            assert(cards_view(results@) =~= cards_view(before).push(card_view(card)));
        }
        i = i + 1;
    }
    assert(all.take(all.len() as int) =~= all);
    let total_returned = results.len();
    SearchToolOutput { results, total_returned }
}

/// A session-web summary as the tool returns it: markdown and text as
/// given, the source URL from the metadata or else the URL that was
/// summarized.
pub fn normalize_summarize(response: SummarizeResponse, source_url_hint: Option<&str>) -> (r: SummarizeToolOutput)
    ensures
        r.markdown@ == response.markdown@,
        opt_view(r.text) == opt_view(response.text),
        opt_view(r.source_url) == session_source_url(
            response.metadata@,
            match source_url_hint {
                Some(h) => Some(h@),
                None => None,
            },
        ),
{
    let source_url = match member_string(&response.metadata, "source_url") {
        Some(u) => Some(u),
        None => match source_url_hint {
            Some(h) => Some(String::from_str(h)),
            None => None,
        },
    };
    SummarizeToolOutput { markdown: response.markdown, text: response.text, source_url }
}

} // verus!
