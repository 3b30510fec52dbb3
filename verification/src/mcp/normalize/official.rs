//! Normalization of official API answers.

use vstd::prelude::*;

use crate::json::{find_member, member, member_str, JsonValue};
use crate::mcp::error::{parse_drift_text, ToolFailure};
use crate::mcp::schema::{card_view, cards_view, SearchResultCard, SearchToolOutput, SummarizeToolOutput};
use crate::text::{blank, chars_of, is_blank, opt_view};

verus! {

/// (title, url, snippet) of a result card.
pub type CardView = (Seq<char>, Seq<char>, Option<Seq<char>>);

/// A member that holds a string that is not blank.
pub open spec fn nonblank_member(entries: Seq<(String, JsonValue)>, key: Seq<char>) -> Option<Seq<char>> {
    match member_str(entries, key) {
        Some(s) => if is_blank(s) {
            None
        } else {
            Some(s)
        },
        None => None,
    }
}

/// The first of `keys` whose member holds a non-blank string.
pub open spec fn first_string(entries: Seq<(String, JsonValue)>, keys: Seq<Seq<char>>) -> Option<Seq<char>>
    decreases keys.len(),
{
    if keys.len() == 0 {
        None
    } else {
        match nonblank_member(entries, keys[0]) {
            Some(s) => Some(s),
            None => first_string(entries, keys.drop_first()),
        }
    }
}

/// The views of a list of keys.
pub open spec fn keys_view(keys: Seq<&str>) -> Seq<Seq<char>> {
    keys.map_values(|k: &str| k@)
}

/// The array member among `results`, `search_results`, `organic_results` and
/// `items`, in this order.
pub open spec fn listed_items(map: Seq<(String, JsonValue)>) -> Option<Seq<JsonValue>> {
    match member(map, "results"@) {
        Some(JsonValue::Array(a)) => Some(a@),
        _ => match member(map, "search_results"@) {
            Some(JsonValue::Array(a)) => Some(a@),
            _ => match member(map, "organic_results"@) {
                Some(JsonValue::Array(a)) => Some(a@),
                _ => match member(map, "items"@) {
                    Some(JsonValue::Array(a)) => Some(a@),
                    _ => None,
                },
            },
        },
    }
}

/// The search items of an official answer: the answer itself when it is an
/// array; in an object, the first array among the listed members, else the
/// `results` array of a `data` object.
pub open spec fn search_items(data: JsonValue) -> Option<Seq<JsonValue>> {
    match data {
        JsonValue::Array(items) => Some(items@),
        JsonValue::Object(map) => match listed_items(map@) {
            Some(a) => Some(a),
            None => match member(map@, "data"@) {
                Some(JsonValue::Object(nested)) => match member(nested@, "results"@) {
                    Some(JsonValue::Array(a)) => Some(a@),
                    _ => None,
                },
                _ => None,
            },
        },
        _ => None,
    }
}

/// The card an item gives: an object with a title (`title` or `name`) and a
/// URL (`url` or `link`), and maybe a snippet (`snippet`, `description` or
/// `desc`).
pub open spec fn search_item_card(v: JsonValue) -> Option<CardView> {
    match v {
        JsonValue::Object(o) => match first_string(o@, seq!["title"@, "name"@]) {
            None => None,
            Some(title) => match first_string(o@, seq!["url"@, "link"@]) {
                None => None,
                Some(url) => Some(
                    (title, url, first_string(o@, seq!["snippet"@, "description"@, "desc"@])),
                ),
            },
        },
        _ => None,
    }
}

/// The cards of the items, in order.
pub open spec fn all_cards(items: Seq<JsonValue>) -> Seq<CardView>
    decreases items.len(),
{
    if items.len() == 0 {
        Seq::empty()
    } else {
        let prev = all_cards(items.drop_last());
        match search_item_card(items.last()) {
            Some(c) => prev.push(c),
            None => prev,
        }
    }
}

/// The cards of a prefix of the items are a prefix of the cards.
pub proof fn lemma_all_cards_prefix(items: Seq<JsonValue>, i: int, j: int)
    requires
        0 <= i <= j <= items.len(),
    ensures
        all_cards(items.take(i)).len() <= all_cards(items.take(j)).len(),
        all_cards(items.take(j)).take(all_cards(items.take(i)).len() as int) == all_cards(
            items.take(i),
        ),
    decreases j - i,
{
    if i < j {
        lemma_all_cards_prefix(items, i, j - 1);
        assert(items.take(j).drop_last() =~= items.take(j - 1));
        let a = all_cards(items.take(i));
        let b = all_cards(items.take(j - 1));
        let c = all_cards(items.take(j));
        assert(c.take(a.len() as int) =~= b.take(a.len() as int));
    } else {
        let a = all_cards(items.take(i));
        assert(a.take(a.len() as int) =~= a);
    }
}

/// What normalizing an official search answer gives: the first `limit`
/// cards, or the reason the answer does not have the expected shape.
pub open spec fn official_search_outcome(data: JsonValue, limit: nat) -> Result<Seq<CardView>, Seq<char>> {
    match search_items(data) {
        None => Err("official search payload did not include a `results` array"@),
        Some(items) => {
            let cards = all_cards(items);
            let kept = if cards.len() <= limit {
                cards
            } else {
                cards.take(limit as int)
            };
            if items.len() == 0 {
                Ok(Seq::empty())
            } else if kept.len() == 0 {
                Err("official search results were present but no item exposed `title` + `url`"@)
            } else {
                Ok(kept)
            }
        },
    }
}

/// What normalizing an official summarize answer gives: (markdown, text,
/// source URL), or the reason the answer does not have the expected shape.
pub open spec fn official_summarize_outcome(data: JsonValue, source_url_hint: Option<Seq<char>>) -> Result<(Seq<char>, Option<Seq<char>>, Option<Seq<char>>), Seq<char>> {
    match data {
        JsonValue::Object(p) => match first_string(
            p@,
            seq!["markdown"@, "summary_markdown"@, "output_markdown"@, "summary"@],
        ) {
            None => Err("official summarize payload did not contain markdown text"@),
            Some(markdown) => Ok(
                (
                    markdown,
                    first_string(p@, seq!["text"@, "summary_text"@, "plain_text"@]),
                    match first_string(p@, seq!["source_url"@, "url"@, "source"@]) {
                        Some(u) => Some(u),
                        None => source_url_hint,
                    },
                ),
            ),
        },
        _ => Err("official summarize payload was not a JSON object"@),
    }
}

fn nonblank_member_of(entries: &Vec<(String, JsonValue)>, key: &str) -> (r: Option<String>)
    ensures
        opt_view(r) == nonblank_member(entries@, key@),
{
    match find_member(entries, key) {
        Some(JsonValue::String(s)) => {
            let c = chars_of(s.as_str());
            if blank(c.as_slice()) {
                None
            } else {
                Some(s.clone())
            }
        },
        _ => None,
    }
}

/// The first of `keys` whose member holds a non-blank string.
pub fn extract_first_string(entries: &Vec<(String, JsonValue)>, keys: &[&str]) -> (r: Option<String>)
    ensures
        opt_view(r) == first_string(entries@, keys_view(keys@)),
{
    let mut i: usize = 0;
    assert(keys_view(keys@).skip(0) =~= keys_view(keys@));
    while i < keys.len()
        invariant
            i <= keys@.len(),
            first_string(entries@, keys_view(keys@)) == first_string(
                entries@,
                keys_view(keys@).skip(i as int),
            ),
        decreases keys@.len() - i,
    {
        let found = nonblank_member_of(entries, keys[i]);
        assert(keys_view(keys@).skip(i as int)[0] == keys[i as int]@);
        if found.is_some() {
            return found;
        }
        assert(keys_view(keys@).skip(i as int).drop_first() =~= keys_view(keys@).skip(i + 1));
        i = i + 1;
    }
    None
}

fn keys2(a: &'static str, b: &'static str) -> (r: Vec<&'static str>)
    ensures
        keys_view(r@) == seq![a@, b@],
{
    let mut r = Vec::new();
    r.push(a);
    r.push(b);
    assert(keys_view(r@) =~= seq![a@, b@]);
    r
}

fn keys3(a: &'static str, b: &'static str, c: &'static str) -> (r: Vec<&'static str>)
    ensures
        keys_view(r@) == seq![a@, b@, c@],
{
    let mut r = Vec::new();
    r.push(a);
    r.push(b);
    r.push(c);
    assert(keys_view(r@) =~= seq![a@, b@, c@]);
    r
}

fn keys4(a: &'static str, b: &'static str, c: &'static str, d: &'static str) -> (r: Vec<&'static str>)
    ensures
        keys_view(r@) == seq![a@, b@, c@, d@],
{
    let mut r = Vec::new();
    r.push(a);
    r.push(b);
    r.push(c);
    r.push(d);
    assert(keys_view(r@) =~= seq![a@, b@, c@, d@]);
    r
}

fn array_member<'a>(map: &'a Vec<(String, JsonValue)>, key: &str) -> (r: Option<&'a Vec<JsonValue>>)
    ensures
        match member(map@, key@) {
            Some(JsonValue::Array(a)) => r == Some(&a),
            _ => r is None,
        },
{
    match find_member(map, key) {
        Some(v) => v.as_array(),
        None => None,
    }
}

/// The search items of an official answer.
pub fn extract_search_items(data: &JsonValue) -> (r: Option<&Vec<JsonValue>>)
    ensures
        match search_items(*data) {
            Some(s) => r matches Some(v) && v@ == s,
            None => r is None,
        },
{
    match data {
        JsonValue::Array(items) => Some(items),
        JsonValue::Object(map) => {
            if let Some(a) = array_member(map, "results") {
                return Some(a);
            }
            if let Some(a) = array_member(map, "search_results") {
                return Some(a);
            }
            if let Some(a) = array_member(map, "organic_results") {
                return Some(a);
            }
            if let Some(a) = array_member(map, "items") {
                return Some(a);
            }
            match find_member(map, "data") {
                Some(JsonValue::Object(nested)) => array_member(nested, "results"),
                _ => None,
            }
        },
        _ => None,
    }
}

/// The card of one search item.
pub fn normalize_search_item(value: &JsonValue) -> (r: Option<SearchResultCard>)
    ensures
        match search_item_card(*value) {
            Some(c) => r matches Some(card) && card_view(card) == c,
            None => r is None,
        },
{
    let object = match value.as_object() {
        Some(o) => o,
        None => {
            return None;
        },
    };
    let title = match extract_first_string(object, keys2("title", "name").as_slice()) {
        Some(t) => t,
        None => {
            return None;
        },
    };
    let url = match extract_first_string(object, keys2("url", "link").as_slice()) {
        Some(u) => u,
        None => {
            return None;
        },
    };
    let snippet = extract_first_string(object, keys3("snippet", "description", "desc").as_slice());
    Some(SearchResultCard { title, url, snippet })
}

/// The result cards of an official search answer, at most `limit` of them in
/// the answer's order; an answer whose items give no card is refused.
pub fn normalize_search(data: JsonValue, limit: usize) -> (r: Result<SearchToolOutput, ToolFailure>)
    ensures
        match official_search_outcome(data, limit as nat) {
            Ok(cs) => r matches Ok(out) && cards_view(out.results@) == cs && out.total_returned
                == out.results@.len(),
            Err(reason) => r matches Err(f) && f@ == parse_drift_text(reason),
        },
        r matches Ok(out) ==> out.total_returned <= limit,
{
    let raw_items = match extract_search_items(&data) {
        Some(items) => items,
        None => {
            return Err(
                ToolFailure::parse_drift("official search payload did not include a `results` array"),
            );
        },
    };
    let ghost items = raw_items@;
    let mut results: Vec<SearchResultCard> = Vec::new();
    let mut i: usize = 0;
    assert(items.take(0) =~= Seq::<JsonValue>::empty());
    assert(cards_view(results@) =~= Seq::<CardView>::empty());
    while i < raw_items.len()
        invariant
            i <= items.len(),
            items == raw_items@,
            cards_view(results@) == all_cards(items.take(i as int)),
            results@.len() <= limit,
        ensures
            i <= items.len(),
            cards_view(results@) == all_cards(items.take(i as int)),
            results@.len() <= limit,
            i == items.len() || results@.len() == limit,
        decreases items.len() - i,
    {
        if results.len() >= limit {
            break;
        }
        proof {
            assert(items.take(i + 1).drop_last() =~= items.take(i as int));
            assert(items.take(i + 1).last() == items[i as int]);
        }
        match normalize_search_item(&raw_items[i]) {
            Some(card) => {
                let ghost before = results@;
                results.push(card);
                assert(cards_view(results@) =~= cards_view(before).push(card_view(card)));
            },
            None => {},
        }
        i = i + 1;
    }
    proof {
        lemma_all_cards_prefix(items, i as int, items.len() as int);
        assert(items.take(items.len() as int) =~= items);
        let all = all_cards(items);
        let got = all_cards(items.take(i as int));
        if got.len() < limit {
            assert(i == items.len());
        }
        if all.len() > limit {
            assert(got.len() == limit);
        }
    }
    if raw_items.len() == 0 {
        let none: Vec<SearchResultCard> = Vec::new();
        assert(cards_view(none@) =~= Seq::<CardView>::empty());
        return Ok(SearchToolOutput { results: none, total_returned: 0 });
    }
    if results.len() == 0 {
        return Err(
            ToolFailure::parse_drift(
                "official search results were present but no item exposed `title` + `url`",
            ),
        );
    }
    let total_returned = results.len();
    Ok(SearchToolOutput { results, total_returned })
}

/// The summary of an official summarize answer: its markdown (required), its
/// plain text and its source URL, else the URL that was summarized.
pub fn normalize_summarize(data: JsonValue, source_url_hint: Option<&str>) -> (r: Result<SummarizeToolOutput, ToolFailure>)
    ensures
        match official_summarize_outcome(
            data,
            match source_url_hint {
                Some(h) => Some(h@),
                None => None,
            },
        ) {
            Ok((markdown, text, source_url)) => r matches Ok(out) && out.markdown@ == markdown
                && opt_view(out.text) == text && opt_view(out.source_url) == source_url,
            Err(reason) => r matches Err(f) && f@ == parse_drift_text(reason),
        },
{
    let payload = match &data {
        JsonValue::Object(p) => p,
        _ => {
            return Err(ToolFailure::parse_drift("official summarize payload was not a JSON object"));
        },
    };
    let markdown = match extract_first_string(
        payload,
        keys4("markdown", "summary_markdown", "output_markdown", "summary").as_slice(),
    ) {
        Some(m) => m,
        None => {
            return Err(
                ToolFailure::parse_drift("official summarize payload did not contain markdown text"),
            );
        },
    };
    let text = extract_first_string(payload, keys3("text", "summary_text", "plain_text").as_slice());
    let source_url = match extract_first_string(
        payload,
        keys3("source_url", "url", "source").as_slice(),
    ) {
        Some(u) => Some(u),
        None => match source_url_hint {
            Some(h) => Some(String::from_str(h)),
            None => None,
        },
    };
    Ok(SummarizeToolOutput { markdown, text, source_url })
}

} // verus!
