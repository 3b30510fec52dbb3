//! The tools' input and output shapes, and the rules their input obeys.

use vstd::prelude::*;

use crate::boundary::{http_scheme, is_http_scheme};
use crate::text::{chars_eq, chars_of, opt_view, string_of, trim, trim_chars};
use crate::weburl::{url_parse, ParsedUrl};

verus! {

/// The number of search results when the caller names none.
pub const SEARCH_DEFAULT_LIMIT: u8 = 5;

/// The fewest search results a caller may ask for.
pub const SEARCH_MIN_LIMIT: u8 = 1;

/// The most search results a caller may ask for.
pub const SEARCH_MAX_LIMIT: u8 = 10;

/// The longest text, in UTF-8 bytes, that may be summarized.
pub const SUMMARIZE_MAX_TEXT_BYTES: usize = 50_000;

/// The input of `kagi_search`: a trimmed, non-blank query and a limit
/// between `SEARCH_MIN_LIMIT` and `SEARCH_MAX_LIMIT`.
#[derive(Debug, Clone)]
pub struct SearchToolInput {
    pub query: String,
    pub limit: u8,
}

/// The input of `kagi_summarize`: exactly one of a URL and a text.
#[derive(Debug, Clone)]
pub struct SummarizeToolInput {
    pub url: Option<String>,
    pub text: Option<String>,
}

/// One search result as the tool returns it.
#[derive(Debug, Clone, PartialEq, Eq)]
pub struct SearchResultCard {
    pub title: String,
    pub url: String,
    pub snippet: Option<String>,
}

/// The output of `kagi_search`.
#[derive(Debug, Clone, PartialEq, Eq)]
pub struct SearchToolOutput {
    pub results: Vec<SearchResultCard>,
    pub total_returned: usize,
}

/// The output of `kagi_summarize`.
#[derive(Debug, Clone, PartialEq, Eq)]
pub struct SummarizeToolOutput {
    pub markdown: String,
    pub text: Option<String>,
    pub source_url: Option<String>,
}

/// (title, url, snippet) of a result card.
pub open spec fn card_view(c: SearchResultCard) -> (Seq<char>, Seq<char>, Option<Seq<char>>) {
    (c.title@, c.url@, opt_view(c.snippet))
}

/// The cards of a search output.
pub open spec fn cards_view(cs: Seq<SearchResultCard>) -> Seq<(Seq<char>, Seq<char>, Option<Seq<char>>)> {
    cs.map_values(|c: SearchResultCard| card_view(c))
}

/// A query as the search tool takes it: trimmed, and refused when blank.
pub open spec fn query_outcome(raw: Seq<char>) -> Result<Seq<char>, Seq<char>> {
    if trim(raw).len() == 0 {
        Err("`query` cannot be blank"@)
    } else {
        Ok(trim(raw))
    }
}

/// A limit as the search tool takes it.
pub open spec fn limit_outcome(limit: u8) -> Result<u8, Seq<char>> {
    if SEARCH_MIN_LIMIT <= limit <= SEARCH_MAX_LIMIT {
        Ok(limit)
    } else {
        Err("`limit` must be between 1 and 10"@)
    }
}

/// The limit when none is given.
pub fn default_search_limit() -> (r: u8)
    ensures
        r == SEARCH_DEFAULT_LIMIT,
{
    SEARCH_DEFAULT_LIMIT
}

/// Trims a query and refuses a blank one.
pub fn trimmed_query(raw: &str) -> (r: Result<String, String>)
    ensures
        match query_outcome(raw@) {
            Ok(q) => r matches Ok(s) && s@ == q,
            Err(e) => r matches Err(s) && s@ == e,
        },
{
    let c = chars_of(raw);
    let t = trim_chars(c.as_slice());
    if t.len() == 0 {
        return Err(String::from_str("`query` cannot be blank"));
    }
    Ok(string_of(t.as_slice()))
}

/// Refuses a limit outside `SEARCH_MIN_LIMIT..=SEARCH_MAX_LIMIT`.
pub fn checked_search_limit(limit: u8) -> (r: Result<u8, String>)
    ensures
        match limit_outcome(limit) {
            Ok(l) => r == Ok::<u8, String>(l),
            Err(e) => r matches Err(s) && s@ == e,
        },
{
    if SEARCH_MIN_LIMIT <= limit && limit <= SEARCH_MAX_LIMIT {
        Ok(limit)
    } else {
        Err(String::from_str("`limit` must be between 1 and 10"))
    }
}

impl SearchToolInput {
    /// The input of a call: the query trimmed, and the limit checked or
    /// `SEARCH_DEFAULT_LIMIT` when none is given; the query is checked first.
    pub fn new(query: &str, limit: Option<u8>) -> (r: Result<Self, String>)
        ensures
            match query_outcome(query@) {
                Err(e) => r matches Err(s) && s@ == e,
                Ok(q) => match limit {
                    None => r matches Ok(i) && i.query@ == q && i.limit == SEARCH_DEFAULT_LIMIT,
                    Some(l) => match limit_outcome(l) {
                        Ok(l2) => r matches Ok(i) && i.query@ == q && i.limit == l2,
                        Err(e) => r matches Err(s) && s@ == e,
                    },
                },
            },
            r matches Ok(i) ==> SEARCH_MIN_LIMIT <= i.limit <= SEARCH_MAX_LIMIT && trim(i.query@)
                == i.query@ && i.query@.len() > 0,
    {
        proof {
            crate::text::lemma_trim_idempotent(query@);
        }
        let query = match trimmed_query(query) {
            Ok(q) => q,
            Err(e) => {
                return Err(e);
            },
        };
        let limit = match limit {
            None => default_search_limit(),
            Some(l) => match checked_search_limit(l) {
                Ok(l) => l,
                Err(e) => {
                    return Err(e);
                },
            },
        };
        Ok(SearchToolInput { query, limit })
    }

    /// The limit as a count.
    pub fn limit_as_usize(&self) -> (r: usize)
        ensures
            r == self.limit,
    {
        self.limit as usize
    }
}

/// The number of bytes `c` takes in UTF-8.
pub open spec fn utf8_width(c: char) -> nat {
    if (c as u32) < 0x80 {
        1
    } else if (c as u32) < 0x800 {
        2
    } else if (c as u32) < 0x10000 {
        3
    } else {
        4
    }
}

/// The number of bytes `s` takes in UTF-8.
pub open spec fn utf8_len(s: Seq<char>) -> nat
    decreases s.len(),
{
    if s.len() == 0 {
        0
    } else {
        utf8_len(s.drop_last()) + utf8_width(s.last())
    }
}

/// A prefix takes no more bytes than the whole.
proof fn lemma_utf8_len_prefix(s: Seq<char>, i: int)
    requires
        0 <= i <= s.len(),
    ensures
        utf8_len(s.take(i)) <= utf8_len(s),
    decreases s.len() - i,
{
    if i < s.len() {
        lemma_utf8_len_prefix(s, i + 1);
        assert(s.take(i + 1).drop_last() =~= s.take(i));
    } else {
        assert(s.take(i) =~= s);
    }
}

fn utf8_width_of(c: char) -> (r: usize)
    ensures
        r == utf8_width(c),
{
    let v = c as u32;
    if v < 0x80 {
        1
    } else if v < 0x800 {
        2
    } else if v < 0x10000 {
        3
    } else {
        4
    }
}

/// Whether `s` takes more than `limit` bytes in UTF-8.
pub fn utf8_len_exceeds(s: &[char], limit: usize) -> (r: bool)
    ensures
        r == (utf8_len(s@) > limit),
{
    let mut sum: usize = 0;
    let mut i: usize = 0;
    assert(s@.take(0) =~= Seq::<char>::empty());
    while i < s.len()
        invariant
            i <= s@.len(),
            sum <= limit,
            sum == utf8_len(s@.take(i as int)),
        decreases s@.len() - i,
    {
        let w = utf8_width_of(s[i]);
        assert(s@.take(i + 1).drop_last() =~= s@.take(i as int));
        assert(s@.take(i + 1).last() == s@[i as int]);
        if w > limit - sum {
            proof {
                lemma_utf8_len_prefix(s@, i + 1);
            }
            return true;
        }
        sum = sum + w;
        i = i + 1;
    }
    assert(s@.take(s@.len() as int) =~= s@);
    false
}

/// An empty string counts as absent.
pub open spec fn present(v: Option<Seq<char>>) -> Option<Seq<char>> {
    match v {
        Some(s) => if s.len() == 0 {
            None
        } else {
            Some(s)
        },
        None => None,
    }
}

/// What a summarize call may ask for: `(url, text)`, exactly one of them,
/// the URL without surrounding whitespace and with an `http(s)` scheme (kept
/// in its serialized form), the text non-blank and at most
/// `SUMMARIZE_MAX_TEXT_BYTES` bytes long (kept as given).
pub open spec fn summarize_input_outcome(url: Option<Seq<char>>, text: Option<Seq<char>>) -> Result<(Option<Seq<char>>, Option<Seq<char>>), Seq<char>> {
    let u = present(url);
    let t = present(text);
    if (u is Some) == (t is Some) {
        Err("exactly one of `url` or `text` must be provided"@)
    } else if u is Some {
        let raw = u.unwrap();
        if trim(raw) != raw {
            Err("`url` cannot have leading or trailing whitespace"@)
        } else {
            match url_parse(raw) {
                Err(e) => Err("`url` must be an absolute HTTP(S) URL ("@ + e + ")"@),
                Ok((scheme, href)) => if is_http_scheme(scheme) {
                    Ok((Some(href), None))
                } else {
                    Err("`url` must use `http` or `https`"@)
                },
            }
        }
    } else {
        let body = t.unwrap();
        if trim(body).len() == 0 {
            Err("`text` cannot be blank"@)
        } else if utf8_len(body) > SUMMARIZE_MAX_TEXT_BYTES {
            Err("`text` exceeds 50000 UTF-8 bytes"@)
        } else {
            Ok((None, Some(body)))
        }
    }
}

/// A summarize input that is accepted asks for exactly one of a URL and a
/// text, and an accepted text is never longer than the limit.
pub proof fn law_summarize_input_is_url_or_text(url: Option<Seq<char>>, text: Option<Seq<char>>)
    ensures
        summarize_input_outcome(url, text) matches Ok((u, t)) ==> ((u is Some) != (t is Some)
            && (t matches Some(body) ==> utf8_len(body) <= SUMMARIZE_MAX_TEXT_BYTES && !(trim(
            body).len() == 0))),
{
}

fn present_of(v: Option<String>) -> (r: Option<String>)
    ensures
        opt_view(r) == present(opt_view(v)),
{
    match v {
        Some(s) => if s.as_str().unicode_len() == 0 {
            None
        } else {
            Some(s)
        },
        None => None,
    }
}

impl SummarizeToolInput {
    /// The input of a call from the fields as sent.
    pub fn from_raw(url: Option<String>, text: Option<String>) -> (r: Result<Self, String>)
        ensures
            match summarize_input_outcome(opt_view(url), opt_view(text)) {
                Ok((u, t)) => r matches Ok(i) && opt_view(i.url) == u && opt_view(i.text) == t,
                Err(e) => r matches Err(s) && s@ == e,
            },
    {
        let url = present_of(url);
        let text = present_of(text);
        if url.is_some() == text.is_some() {
            return Err(String::from_str("exactly one of `url` or `text` must be provided"));
        }
        if let Some(raw_url) = url {
            let raw = chars_of(raw_url.as_str());
            let trimmed = trim_chars(raw.as_slice());
            if !chars_eq(trimmed.as_slice(), raw.as_slice()) {
                return Err(String::from_str("`url` cannot have leading or trailing whitespace"));
            }
            let parsed = match ParsedUrl::parse(raw_url.as_str()) {
                Err(source) => {
                    return Err(
                        String::from_str("`url` must be an absolute HTTP(S) URL (").concat(
                            source.as_str(),
                        ).concat(")"),
                    );
                },
                Ok(p) => p,
            };
            if !http_scheme(parsed.scheme()) {
                return Err(String::from_str("`url` must use `http` or `https`"));
            }
            return Ok(SummarizeToolInput { url: Some(String::from_str(parsed.as_str())), text: None });
        }
        let body = match text {
            Some(t) => t,
            None => {
                return Err(String::from_str("exactly one of `url` or `text` must be provided"));
            },
        };
        let chars = chars_of(body.as_str());
        let trimmed = trim_chars(chars.as_slice());
        if trimmed.len() == 0 {
            return Err(String::from_str("`text` cannot be blank"));
        }
        if utf8_len_exceeds(chars.as_slice(), SUMMARIZE_MAX_TEXT_BYTES) {
            return Err(String::from_str("`text` exceeds 50000 UTF-8 bytes"));
        }
        Ok(SummarizeToolInput { url: None, text: Some(body) })
    }
}

} // verus!
