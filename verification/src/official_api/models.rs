//! Request and response models of the official API.

use vstd::prelude::*;

use crate::boundary::{
    http_url_outcome, is_invalid_input, non_empty_value, HttpUrl, NonBlankString, NonEmptyString,
};
use crate::error::KagiError;
use crate::json::{json_str, member, JsonValue};
use crate::session_web::models::name_value;
use crate::text::{decimal, is_blank, pairs_view, string_of, u64_decimal};

verus! {

/// `r` is the JSON object with the single string member `key: value`.
pub open spec fn single_member(r: JsonValue, key: Seq<char>, value: Seq<char>) -> bool {
    match r {
        JsonValue::Object(entries) => entries@.len() == 1 && entries@[0].0@ == key && json_str(
            entries@[0].1,
        ) == Some(value),
        _ => false,
    }
}

/// `{ key: value }`.
fn object_with(key: &str, value: &str) -> (r: JsonValue)
    ensures
        single_member(r, key@, value@),
{
    let mut entries: Vec<(String, JsonValue)> = Vec::new();
    entries.push((String::from_str(key), JsonValue::String(String::from_str(value))));
    JsonValue::Object(entries)
}

/// A web search query.
#[derive(Debug, Clone, PartialEq, Eq)]
pub struct SearchRequest {
    query: NonEmptyString,
}

impl View for SearchRequest {
    type V = Seq<char>;

    closed spec fn view(&self) -> Seq<char> {
        self.query@
    }
}

impl SearchRequest {
    /// The query, trimmed; an empty query is refused.
    pub fn new(query: &str) -> (r: Result<Self, KagiError>)
        ensures
            match non_empty_value(query@) {
                Some(v) => r matches Ok(s) && s@ == v,
                None => r matches Err(e) && is_invalid_input(e, "query"@, "value cannot be empty"@),
            },
    {
        match NonEmptyString::new("query", query) {
            Ok(q) => Ok(SearchRequest { query: q }),
            Err(e) => Err(e),
        }
    }

    /// The query string: `q=<query>`.
    pub fn into_query(self) -> (r: Vec<(String, String)>)
        ensures
            pairs_view(r@) == seq![("q"@, self@)],
    {
        let mut r = Vec::new();
        r.push(name_value("q", self.query.as_str()));
        assert(pairs_view(r@) =~= seq![("q"@, self@)]);
        r
    }
}

/// The `data` of a search answer.
#[derive(Debug)]
pub struct SearchResponse {
    pub data: JsonValue,
}

/// A URL for the web enrichment index.
#[derive(Debug, Clone, PartialEq, Eq)]
pub struct EnrichWebRequest {
    url: HttpUrl,
}

impl View for EnrichWebRequest {
    type V = Seq<char>;

    closed spec fn view(&self) -> Seq<char> {
        self.url@
    }
}

impl EnrichWebRequest {
    /// An absolute `http`/`https` URL.
    pub fn new(url: &str) -> (r: Result<Self, KagiError>)
        ensures
            match http_url_outcome(url@) {
                Ok(href) => r matches Ok(u) && u@ == href,
                Err(reason) => r matches Err(e) && is_invalid_input(e, "url"@, reason),
            },
    {
        match HttpUrl::new("url", url) {
            Ok(u) => Ok(EnrichWebRequest { url: u }),
            Err(e) => Err(e),
        }
    }

    /// The query string: `url=<url>`.
    pub fn into_query(self) -> (r: Vec<(String, String)>)
        ensures
            pairs_view(r@) == seq![("url"@, self@)],
    {
        let mut r = Vec::new();
        r.push(name_value("url", self.url.as_str()));
        assert(pairs_view(r@) =~= seq![("url"@, self@)]);
        r
    }
}

/// The `data` of a web enrichment answer.
#[derive(Debug)]
pub struct EnrichWebResponse {
    pub data: JsonValue,
}

/// A URL for the news enrichment index.
#[derive(Debug, Clone, PartialEq, Eq)]
pub struct EnrichNewsRequest {
    url: HttpUrl,
}

impl View for EnrichNewsRequest {
    type V = Seq<char>;

    closed spec fn view(&self) -> Seq<char> {
        self.url@
    }
}

impl EnrichNewsRequest {
    /// An absolute `http`/`https` URL.
    pub fn new(url: &str) -> (r: Result<Self, KagiError>)
        ensures
            match http_url_outcome(url@) {
                Ok(href) => r matches Ok(u) && u@ == href,
                Err(reason) => r matches Err(e) && is_invalid_input(e, "url"@, reason),
            },
    {
        match HttpUrl::new("url", url) {
            Ok(u) => Ok(EnrichNewsRequest { url: u }),
            Err(e) => Err(e),
        }
    }

    /// The query string: `url=<url>`.
    pub fn into_query(self) -> (r: Vec<(String, String)>)
        ensures
            pairs_view(r@) == seq![("url"@, self@)],
    {
        let mut r = Vec::new();
        r.push(name_value("url", self.url.as_str()));
        assert(pairs_view(r@) =~= seq![("url"@, self@)]);
        r
    }
}

/// The `data` of a news enrichment answer.
#[derive(Debug)]
pub struct EnrichNewsResponse {
    pub data: JsonValue,
}

/// A URL to summarize with `GET /api/v0/summarize`.
#[derive(Debug, Clone, PartialEq, Eq)]
pub struct SummarizeGetRequest {
    url: HttpUrl,
}

impl View for SummarizeGetRequest {
    type V = Seq<char>;

    closed spec fn view(&self) -> Seq<char> {
        self.url@
    }
}

impl SummarizeGetRequest {
    /// An absolute `http`/`https` URL.
    pub fn new(url: &str) -> (r: Result<Self, KagiError>)
        ensures
            match http_url_outcome(url@) {
                Ok(href) => r matches Ok(u) && u@ == href,
                Err(reason) => r matches Err(e) && is_invalid_input(e, "url"@, reason),
            },
    {
        match HttpUrl::new("url", url) {
            Ok(u) => Ok(SummarizeGetRequest { url: u }),
            Err(e) => Err(e),
        }
    }

    /// The query string: `url=<url>`.
    pub fn into_query(self) -> (r: Vec<(String, String)>)
        ensures
            pairs_view(r@) == seq![("url"@, self@)],
    {
        let mut r = Vec::new();
        r.push(name_value("url", self.url.as_str()));
        assert(pairs_view(r@) =~= seq![("url"@, self@)]);
        r
    }
}

/// The `data` of a `GET` summarize answer.
#[derive(Debug)]
pub struct SummarizeGetResponse {
    pub data: JsonValue,
}

/// What to summarize with `POST /api/v0/summarize`.
#[derive(Debug, Clone, PartialEq, Eq)]
pub enum SummarizePostInput {
    Url(HttpUrl),
    Text(NonBlankString),
}

/// The JSON body a summarize input is sent as.
pub open spec fn post_input_json(input: SummarizePostInput, r: JsonValue) -> bool {
    match input {
        SummarizePostInput::Url(u) => single_member(r, "url"@, u@),
        SummarizePostInput::Text(t) => single_member(r, "text"@, t@),
    }
}

impl SummarizePostInput {
    /// An absolute `http`/`https` URL.
    pub fn from_url(url: &str) -> (r: Result<Self, KagiError>)
        ensures
            match http_url_outcome(url@) {
                Ok(href) => r matches Ok(SummarizePostInput::Url(u)) && u@ == href,
                Err(reason) => r matches Err(e) && is_invalid_input(e, "url"@, reason),
            },
    {
        match HttpUrl::new("url", url) {
            Ok(u) => Ok(SummarizePostInput::Url(u)),
            Err(e) => Err(e),
        }
    }

    /// Text kept exactly as given; a blank text is refused.
    pub fn from_text(text: &str) -> (r: Result<Self, KagiError>)
        ensures
            !is_blank(text@) ==> (r matches Ok(SummarizePostInput::Text(t)) && t@ == text@),
            is_blank(text@) ==> (r matches Err(e) && is_invalid_input(e, "text"@, "value cannot be blank"@)),
    {
        match NonBlankString::new("text", text) {
            Ok(t) => Ok(SummarizePostInput::Text(t)),
            Err(e) => Err(e),
        }
    }

    /// The JSON body: `{"url": ...}` or `{"text": ...}`.
    pub fn into_json(self) -> (r: JsonValue)
        ensures
            post_input_json(self, r),
    {
        match self {
            SummarizePostInput::Url(u) => object_with("url", u.as_str()),
            SummarizePostInput::Text(t) => object_with("text", t.as_str()),
        }
    }
}

/// A summarize request sent with `POST`.
#[derive(Debug, Clone, PartialEq, Eq)]
pub struct SummarizePostRequest {
    input: SummarizePostInput,
}

impl SummarizePostRequest {
    pub closed spec fn input(self) -> SummarizePostInput {
        self.input
    }

    /// An absolute `http`/`https` URL.
    pub fn from_url(url: &str) -> (r: Result<Self, KagiError>)
        ensures
            match http_url_outcome(url@) {
                Ok(href) => r matches Ok(s) && s.input() matches SummarizePostInput::Url(u) && u@
                    == href,
                Err(reason) => r matches Err(e) && is_invalid_input(e, "url"@, reason),
            },
    {
        match SummarizePostInput::from_url(url) {
            Ok(input) => Ok(SummarizePostRequest { input }),
            Err(e) => Err(e),
        }
    }

    /// Text kept exactly as given; a blank text is refused.
    pub fn from_text(text: &str) -> (r: Result<Self, KagiError>)
        ensures
            !is_blank(text@) ==> (r matches Ok(s) && s.input() matches SummarizePostInput::Text(t)
                && t@ == text@),
            is_blank(text@) ==> (r matches Err(e) && is_invalid_input(e, "text"@, "value cannot be blank"@)),
    {
        match SummarizePostInput::from_text(text) {
            Ok(input) => Ok(SummarizePostRequest { input }),
            Err(e) => Err(e),
        }
    }

    /// The JSON body of the request.
    pub fn into_json(self) -> (r: JsonValue)
        ensures
            post_input_json(self.input(), r),
    {
        self.input.into_json()
    }
}

/// The `data` of a `POST` summarize answer.
#[derive(Debug)]
pub struct SummarizePostResponse {
    pub data: JsonValue,
}

/// A FastGPT question.
#[derive(Debug, Clone, PartialEq, Eq)]
pub struct FastGptRequest {
    query: NonEmptyString,
}

impl View for FastGptRequest {
    type V = Seq<char>;

    closed spec fn view(&self) -> Seq<char> {
        self.query@
    }
}

impl FastGptRequest {
    /// The query, trimmed; an empty query is refused.
    pub fn new(query: &str) -> (r: Result<Self, KagiError>)
        ensures
            match non_empty_value(query@) {
                Some(v) => r matches Ok(s) && s@ == v,
                None => r matches Err(e) && is_invalid_input(e, "query"@, "value cannot be empty"@),
            },
    {
        match NonEmptyString::new("query", query) {
            Ok(q) => Ok(FastGptRequest { query: q }),
            Err(e) => Err(e),
        }
    }

    /// The JSON body: `{"query": ...}`.
    pub fn into_json(self) -> (r: JsonValue)
        ensures
            single_member(r, "query"@, self@),
    {
        object_with("query", self.query.as_str())
    }
}

/// The `data` of a FastGPT answer.
#[derive(Debug)]
pub struct FastGptResponse {
    pub data: JsonValue,
}

/// A request for the small web feed, with an optional positive limit.
#[derive(Debug, Clone, Copy, PartialEq, Eq)]
pub struct SmallwebFeedRequest {
    limit: Option<u8>,
}

impl View for SmallwebFeedRequest {
    type V = Option<u8>;

    closed spec fn view(&self) -> Option<u8> {
        self.limit
    }
}

impl Default for SmallwebFeedRequest {
    /// No limit.
    fn default() -> (r: Self)
        ensures
            r@ is None,
    {
        SmallwebFeedRequest { limit: None }
    }
}

impl SmallwebFeedRequest {
    /// A feed request with at most `limit` items; zero is refused.
    pub fn with_limit(limit: u8) -> (r: Result<Self, KagiError>)
        ensures
            limit > 0 ==> (r matches Ok(s) && s@ == Some(limit)),
            limit == 0 ==> (r matches Err(e) && is_invalid_input(e, "limit"@, "limit must be greater than zero"@)),
    {
        if limit == 0 {
            return Err(
                KagiError::InvalidInput {
                    field: "limit",
                    reason: String::from_str("limit must be greater than zero"),
                },
            );
        }
        Ok(SmallwebFeedRequest { limit: Some(limit) })
    }

    /// The query string: `limit=<n>` in decimal, or nothing.
    pub fn into_query(self) -> (r: Vec<(String, String)>)
        ensures
            pairs_view(r@) == match self@ {
                Some(n) => seq![("limit"@, decimal(n as nat))],
                None => Seq::empty(),
            },
    {
        let mut r = Vec::new();
        match self.limit {
            Some(n) => {
                let digits = u64_decimal(n as u64);
                r.push((String::from_str("limit"), string_of(digits.as_slice())));
                assert(pairs_view(r@) =~= seq![("limit"@, decimal(n as nat))]);
            },
            None => {
                assert(pairs_view(r@) =~= Seq::<(Seq<char>, Seq<char>)>::empty());
            },
        }
        r
    }
}

/// The `data` of a small web feed answer.
#[derive(Debug)]
pub struct SmallwebFeedResponse {
    pub data: JsonValue,
}

} // verus!
