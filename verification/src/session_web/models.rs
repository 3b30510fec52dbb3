//! Request and response models of the session-web surface.

use vstd::prelude::*;

use crate::boundary::{
    http_url_outcome, is_invalid_input, non_empty_value, HttpUrl, NonBlankString, NonEmptyString,
};
use crate::error::KagiError;
use crate::json::JsonValue;
use crate::text::{is_blank, pairs_view};

verus! {

/// `(name, value)` as a string pair.
pub fn name_value(name: &str, value: &str) -> (r: (String, String))
    ensures
        r.0@ == name@,
        r.1@ == value@,
{
    (String::from_str(name), String::from_str(value))
}

/// A query for the session-web HTML search.
#[derive(Debug, Clone, PartialEq, Eq)]
pub struct HtmlSearchRequest {
    query: NonEmptyString,
}

impl View for HtmlSearchRequest {
    type V = Seq<char>;

    closed spec fn view(&self) -> Seq<char> {
        self.query@
    }
}

impl HtmlSearchRequest {
    /// The query, trimmed; an empty query is refused.
    pub fn new(query: &str) -> (r: Result<Self, KagiError>)
        ensures
            match non_empty_value(query@) {
                Some(v) => r matches Ok(s) && s@ == v,
                None => r matches Err(e) && is_invalid_input(e, "query"@, "value cannot be empty"@),
            },
    {
        match NonEmptyString::new("query", query) {
            Ok(q) => Ok(HtmlSearchRequest { query: q }),
            Err(e) => Err(e),
        }
    }

    /// The query string: `q=<query>`.
    pub fn into_query(self) -> (r: Vec<(String, String)>)
        ensures
            pairs_view(r@) == seq![("q"@, self@)],
    {
        let mut r = Vec::new();
        r.push(name_value("q", self.query.as_str()));
        assert(pairs_view(r@) =~= seq![("q"@, self@)]);
        r
    }
}

/// One result of the HTML search.
#[derive(Debug, Clone, PartialEq, Eq)]
pub struct HtmlSearchResult {
    pub title: String,
    pub url: String,
    pub snippet: Option<String>,
}

/// The results of the HTML search, in page order.
#[derive(Debug, Clone, PartialEq, Eq)]
pub struct HtmlSearchResponse {
    pub results: Vec<HtmlSearchResult>,
}

/// A URL to summarize through the summary labs endpoint.
#[derive(Debug, Clone, PartialEq, Eq)]
pub struct SummaryLabsUrlRequest {
    url: HttpUrl,
}

impl View for SummaryLabsUrlRequest {
    type V = Seq<char>;

    closed spec fn view(&self) -> Seq<char> {
        self.url@
    }
}

impl SummaryLabsUrlRequest {
    /// An absolute `http`/`https` URL.
    pub fn new(url: &str) -> (r: Result<Self, KagiError>)
        ensures
            match http_url_outcome(url@) {
                Ok(href) => r matches Ok(u) && u@ == href,
                Err(reason) => r matches Err(e) && is_invalid_input(e, "url"@, reason),
            },
    {
        match HttpUrl::new("url", url) {
            Ok(u) => Ok(SummaryLabsUrlRequest { url: u }),
            Err(e) => Err(e),
        }
    }

    /// The query string: `url=<url>`.
    pub fn into_query(self) -> (r: Vec<(String, String)>)
        ensures
            pairs_view(r@) == seq![("url"@, self@)],
    {
        let mut r = Vec::new();
        r.push(name_value("url", self.url.as_str()));
        assert(pairs_view(r@) =~= seq![("url"@, self@)]);
        r
    }
}

/// Text to summarize through the summary labs endpoint, kept exactly.
#[derive(Debug, Clone, PartialEq, Eq)]
pub struct SummaryLabsTextRequest {
    text: NonBlankString,
}

impl View for SummaryLabsTextRequest {
    type V = Seq<char>;

    closed spec fn view(&self) -> Seq<char> {
        self.text@
    }
}

impl SummaryLabsTextRequest {
    /// Keeps `text` as given; a blank text is refused.
    pub fn new(text: &str) -> (r: Result<Self, KagiError>)
        ensures
            !is_blank(text@) ==> (r matches Ok(s) && s@ == text@),
            is_blank(text@) ==> (r matches Err(e) && is_invalid_input(e, "text"@, "value cannot be blank"@)),
    {
        match NonBlankString::new("text", text) {
            Ok(t) => Ok(SummaryLabsTextRequest { text: t }),
            Err(e) => Err(e),
        }
    }

    /// The form body: `text=<text>`.
    pub fn into_form(self) -> (r: Vec<(String, String)>)
        ensures
            pairs_view(r@) == seq![("text"@, self@)],
    {
        let mut r = Vec::new();
        r.push(name_value("text", self.text.as_str()));
        assert(pairs_view(r@) =~= seq![("text"@, self@)]);
        r
    }
}

/// The parsed summary stream: the text chunks in order and their
/// concatenation.
#[derive(Debug, Clone, PartialEq, Eq)]
pub struct SummaryStreamResponse {
    pub chunks: Vec<String>,
    pub text: String,
}

/// A summary in the default JSON shape of the summary labs endpoint.
#[derive(Debug)]
pub struct SummarizeResponse {
    pub markdown: String,
    pub text: Option<String>,
    pub status: Option<String>,
    pub metadata: Vec<(String, JsonValue)>,
}

} // verus!
