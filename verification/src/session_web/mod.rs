//! The session-web surface: HTML search and the summary labs endpoints.
//!
//! A call is planned here, sent by the caller's HTTP client, and its answer
//! is checked and parsed here.

pub mod models;

use vstd::prelude::*;

use crate::client::KagiClient;
use crate::error::KagiError;
use crate::parsing::html_search::{html_search_outcome, outcome_matches, parse_html_search_response};
use crate::parsing::summarize::{parse_summarize_response, summarize_outcome, summarize_result};
use crate::parsing::summary_stream::{
    body_is_html, looks_like_html, parse_summary_stream_response, stream_error, summary_stream,
};
use crate::routing::{endpoint_name, endpoint_route, EndpointId, HttpMethod, ParserShape};
use crate::session_web::models::{
    HtmlSearchRequest, HtmlSearchResponse, SummarizeResponse, SummaryLabsTextRequest,
    SummaryLabsUrlRequest, SummaryStreamResponse,
};
use crate::text::{
    chars_of, concat_all, contains_chars, contains_seq, debug_opt, debug_opt_of, has_prefix,
    lines, lines_of, lower, lower_chars, opt_view, pairs_view, seqs, starts_with, strs,
    trim_start, trim_start_chars,
};
use crate::transport::{plan_request, planned, RequestBody, RequestPlan, TransportResponse};

verus! {

/// The session web, reached through a client that holds a session token.
#[derive(Debug)]
pub struct SessionWeb<'a> {
    client: &'a KagiClient,
}

impl<'a> SessionWeb<'a> {
    pub closed spec fn client(&self) -> &'a KagiClient {
        self.client
    }

    pub(crate) fn new(client: &'a KagiClient) -> (r: Self)
        ensures
            r.client() == client,
    {
        SessionWeb { client }
    }

    /// `GET /html/search?q=<query>`.
    pub fn plan_html_search(&self, request: HtmlSearchRequest) -> (r: Result<RequestPlan, KagiError>)
        ensures
            planned(
                self.client().config_spec(),
                self.client().credentials_spec(),
                EndpointId::SessionHtmlSearch,
                seq![("q"@, request@)],
                r,
            ),
            r matches Ok(p) ==> p.body is Empty,
            r matches Ok(p) ==> p.method == HttpMethod::Get,
    {
        plan_request(
            self.client.config(),
            self.client.credentials(),
            EndpointId::SessionHtmlSearch,
            request.into_query(),
            RequestBody::Empty,
        )
    }

    /// `GET /mother/summary_labs?url=<url>`.
    pub fn plan_summary_labs_url(&self, request: SummaryLabsUrlRequest) -> (r: Result<RequestPlan, KagiError>)
        ensures
            planned(
                self.client().config_spec(),
                self.client().credentials_spec(),
                EndpointId::SessionSummaryLabsGet,
                seq![("url"@, request@)],
                r,
            ),
            r matches Ok(p) ==> p.body is Empty,
            r matches Ok(p) ==> p.method == HttpMethod::Get,
    {
        plan_request(
            self.client.config(),
            self.client.credentials(),
            EndpointId::SessionSummaryLabsGet,
            request.into_query(),
            RequestBody::Empty,
        )
    }

    /// `POST /mother/summary_labs/` with the form `text=<text>`.
    pub fn plan_summary_labs_text(&self, request: SummaryLabsTextRequest) -> (r: Result<RequestPlan, KagiError>)
        ensures
            planned(
                self.client().config_spec(),
                self.client().credentials_spec(),
                EndpointId::SessionSummaryLabsPost,
                Seq::empty(),
                r,
            ),
            r matches Ok(p) ==> (p.body matches RequestBody::Form(f) && pairs_view(f@) == seq![
                ("text"@, request@),
            ]),
            r matches Ok(p) ==> p.method == HttpMethod::Post,
    {
        let ghost text = request@;
        let form = request.into_form();
        let query: Vec<(String, String)> = Vec::new();
        assert(pairs_view(query@) =~= Seq::<(Seq<char>, Seq<char>)>::empty());
        plan_request(
            self.client.config(),
            self.client.credentials(),
            EndpointId::SessionSummaryLabsPost,
            query,
            RequestBody::Form(form),
        )
    }
}

/// A line of server-sent events: after leading whitespace it starts with
/// `data:`, `event:`, `id:`, `retry:` or `:`.
pub open spec fn is_sse_line(line: Seq<char>) -> bool {
    let t = trim_start(line);
    starts_with(t, "data:"@) || starts_with(t, "event:"@) || starts_with(t, "id:"@) || starts_with(
        t,
        "retry:"@,
    ) || starts_with(t, ":"@)
}

/// Some line of `body` is a line of server-sent events.
pub open spec fn has_sse_line(body: Seq<char>) -> bool {
    exists|i: int| 0 <= i < lines(body).len() && is_sse_line(#[trigger] lines(body)[i])
}

/// The content type names HTML, in any letter case.
pub open spec fn html_content_type(content_type: Option<Seq<char>>) -> bool {
    match content_type {
        Some(t) => contains_seq(lower(t), "text/html"@),
        None => false,
    }
}

/// Why a session-web answer is refused before its body is parsed.
pub enum ShapeFailure {
    /// A status of 400 or more.
    Http,
    /// A redirect, most often to the login page.
    Redirected,
    /// A summary endpoint answered with an HTML page.
    HtmlBody,
    /// A summary endpoint answered with an HTML content type.
    HtmlContentType,
    /// A summary endpoint answered without any line of server-sent events.
    NoEventLines,
    /// The answer is not from a session-web endpoint.
    NotSession,
}

/// The check of a session-web answer's status: a status of 400 or more, or a
/// redirect.
pub open spec fn status_failure(response: TransportResponse) -> Option<ShapeFailure> {
    if response.status >= 400 {
        Some(ShapeFailure::Http)
    } else if 300 <= response.status {
        Some(ShapeFailure::Redirected)
    } else {
        None
    }
}

/// The check of a session-web answer: `None` when the body may be parsed.
pub open spec fn shape_failure(response: TransportResponse) -> Option<ShapeFailure> {
    if status_failure(response) is Some {
        status_failure(response)
    } else {
        match response.endpoint {
            EndpointId::SessionHtmlSearch => None,
            EndpointId::SessionSummaryLabsGet | EndpointId::SessionSummaryLabsPost => {
                if looks_like_html(response.body@) {
                    Some(ShapeFailure::HtmlBody)
                } else if html_content_type(opt_view(response.content_type)) {
                    Some(ShapeFailure::HtmlContentType)
                } else if has_sse_line(response.body@) {
                    None
                } else {
                    Some(ShapeFailure::NoEventLines)
                }
            },
            _ => Some(ShapeFailure::NotSession),
        }
    }
}

/// `e` is the error that the check failure `f` of `response` becomes.
pub open spec fn shape_error(response: TransportResponse, f: ShapeFailure, e: KagiError) -> bool {
    let endpoint = response.endpoint;
    let status = response.status;
    match f {
        ShapeFailure::Http => e matches KagiError::ApiFailure { endpoint: ep, status: s, code, message }
            && ep == endpoint && s == status && code is None && message == response.body,
        ShapeFailure::Redirected => e matches KagiError::InvalidSession { endpoint: ep, status: s, message }
            && ep == endpoint && s == status && message@ == "session-web request was redirected to "@
            + debug_opt(opt_view(response.redirect_location)) + "; expected endpoint route "@
            + endpoint_route(endpoint),
        ShapeFailure::HtmlBody => e matches KagiError::InvalidSession { endpoint: ep, status: s, message }
            && ep == endpoint && s == status && message@
            == "summary endpoint returned HTML instead of stream data"@,
        ShapeFailure::HtmlContentType => e matches KagiError::InvalidSession {
            endpoint: ep,
            status: s,
            message,
        } && ep == endpoint && s == status && message@
            == "summary endpoint returned text/html instead of stream data"@,
        ShapeFailure::NoEventLines => e matches KagiError::ResponseParse { endpoint: ep, parser, reason }
            && ep == endpoint && parser == ParserShape::Stream && reason@
            == "summary endpoint response did not contain SSE-style lines"@,
        ShapeFailure::NotSession => e matches KagiError::InvalidClientConfiguration { reason }
            && reason@ == "session validation received non-session endpoint "@ + endpoint_name(
            endpoint,
        ),
    }
}

/// `r` is what checking `response` gives.
pub open spec fn shape_checked(response: TransportResponse, r: Result<(), KagiError>) -> bool {
    match shape_failure(response) {
        None => r is Ok,
        Some(f) => r matches Err(e) && shape_error(response, f, e),
    }
}

/// A line of server-sent events.
pub fn looks_like_sse_line(line: &[char]) -> (r: bool)
    ensures
        r == is_sse_line(line@),
{
    let t = trim_start_chars(line);
    let p1 = chars_of("data:");
    let p2 = chars_of("event:");
    let p3 = chars_of("id:");
    let p4 = chars_of("retry:");
    let p5 = chars_of(":");
    has_prefix(t.as_slice(), p1.as_slice()) || has_prefix(t.as_slice(), p2.as_slice()) || has_prefix(
        t.as_slice(),
        p3.as_slice(),
    ) || has_prefix(t.as_slice(), p4.as_slice()) || has_prefix(t.as_slice(), p5.as_slice())
}

fn any_sse_line(body: &str) -> (r: bool)
    ensures
        r == has_sse_line(body@),
{
    let raw = chars_of(body);
    let ls = lines_of(raw.as_slice());
    let mut i: usize = 0;
    while i < ls.len()
        invariant
            i <= ls@.len(),
            seqs(ls@) == lines(body@),
            forall|k: int| 0 <= k < i ==> !is_sse_line(#[trigger] lines(body@)[k]),
        decreases ls@.len() - i,
    {
        if looks_like_sse_line(ls[i].as_slice()) {
            assert(seqs(ls@)[i as int] == ls@[i as int]@);
            return true;
        }
        assert(seqs(ls@)[i as int] == ls@[i as int]@);
        i = i + 1;
    }
    false
}

fn content_type_is_html(content_type: &Option<String>) -> (r: bool)
    ensures
        r == html_content_type(opt_view(*content_type)),
{
    match content_type {
        None => false,
        Some(t) => {
            let c = chars_of(t.as_str());
            let l = lower_chars(c.as_slice());
            let p = chars_of("text/html");
            contains_chars(l.as_slice(), p.as_slice())
        },
    }
}

fn ensure_expected_content_shape(response: &TransportResponse) -> (r: Result<(), KagiError>)
    requires
        response.status < 300,
    ensures
        shape_checked(*response, r),
{
    let endpoint = response.endpoint;
    let status = response.status;
    match endpoint {
        EndpointId::SessionHtmlSearch => Ok(()),
        EndpointId::SessionSummaryLabsGet | EndpointId::SessionSummaryLabsPost => {
            let raw = chars_of(response.body.as_str());
            if body_is_html(raw.as_slice()) {
                return Err(
                    KagiError::InvalidSession {
                        endpoint,
                        status,
                        message: String::from_str(
                            "summary endpoint returned HTML instead of stream data",
                        ),
                    },
                );
            }
            if content_type_is_html(&response.content_type) {
                return Err(
                    KagiError::InvalidSession {
                        endpoint,
                        status,
                        message: String::from_str(
                            "summary endpoint returned text/html instead of stream data",
                        ),
                    },
                );
            }
            if any_sse_line(response.body.as_str()) {
                return Ok(());
            }
            Err(
                KagiError::ResponseParse {
                    endpoint,
                    parser: ParserShape::Stream,
                    reason: String::from_str(
                        "summary endpoint response did not contain SSE-style lines",
                    ),
                },
            )
        },
        _ => Err(
            KagiError::InvalidClientConfiguration {
                reason: String::from_str("session validation received non-session endpoint ").concat(
                    endpoint.name(),
                ),
            },
        ),
    }
}

/// Checks the status of a session-web answer: a status of 400 or more is an
/// API failure with the body as message, and a redirect means the session is
/// not valid.
pub fn ensure_session_status(response: &TransportResponse) -> (r: Result<(), KagiError>)
    ensures
        match status_failure(*response) {
            None => r is Ok,
            Some(f) => r matches Err(e) && shape_error(*response, f, e),
        },
{
    let endpoint = response.endpoint;
    let status = response.status;
    if status < 400 {
        if 300 <= status {
            let target = debug_opt_of(&response.redirect_location);
            let spec = endpoint.spec();
            let message = String::from_str("session-web request was redirected to ").concat(
                target.as_str(),
            ).concat("; expected endpoint route ").concat(spec.route);
            return Err(KagiError::InvalidSession { endpoint, status, message });
        }
        return Ok(());
    }
    Err(KagiError::ApiFailure { endpoint, status, code: None, message: response.body.clone() })
}

/// Checks a session-web answer before its body is parsed: its status (see
/// `ensure_session_status`), then, for a summary endpoint, that it is a
/// stream.
pub fn ensure_session_response_shape(response: &TransportResponse) -> (r: Result<(), KagiError>)
    ensures
        shape_checked(*response, r),
{
    match ensure_session_status(response) {
        Err(e) => Err(e),
        Ok(()) => ensure_expected_content_shape(response),
    }
}

/// The answer to an HTML search: checked, then parsed.
pub fn finish_html_search(response: TransportResponse) -> (r: Result<HtmlSearchResponse, KagiError>)
    ensures
        match shape_failure(response) {
            None => outcome_matches(response.endpoint, html_search_outcome(response.body@), r),
            Some(f) => r matches Err(e) && shape_error(response, f, e),
        },
{
    match ensure_session_response_shape(&response) {
        Err(e) => Err(e),
        Ok(()) => parse_html_search_response(response.endpoint, response.body.as_str()),
    }
}

/// The answer to a summary labs request: checked, then parsed as a stream.
pub fn finish_summary_stream(response: TransportResponse) -> (r: Result<SummaryStreamResponse, KagiError>)
    ensures
        match shape_failure(response) {
            None => match summary_stream(response.body@) {
                Ok(ch) => r matches Ok(resp) && strs(resp.chunks@) == ch && resp.text@ == concat_all(
                    ch,
                ),
                Err(f) => r matches Err(e) && stream_error(e, response.endpoint, f),
            },
            Some(f) => r matches Err(e) && shape_error(response, f, e),
        },
{
    match ensure_session_response_shape(&response) {
        Err(e) => Err(e),
        Ok(()) => parse_summary_stream_response(response.endpoint, response.body.as_str()),
    }
}

/// The answer to a summary labs request in its default JSON shape: its
/// status checked, then its body parsed.
pub fn finish_summarize(response: TransportResponse) -> (r: Result<SummarizeResponse, KagiError>)
    ensures
        match status_failure(response) {
            None => summarize_result(response.endpoint, summarize_outcome(response.body@), r),
            Some(f) => r matches Err(e) && shape_error(response, f, e),
        },
{
    match ensure_session_status(&response) {
        Err(e) => Err(e),
        Ok(()) => parse_summarize_response(response.endpoint, response.body.as_str()),
    }
}

} // verus!
