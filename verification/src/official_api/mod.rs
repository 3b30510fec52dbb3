//! The official API surface: JSON envelopes under `/api/v0` and `/api/v1`.

pub mod models;

use vstd::prelude::*;

use crate::client::KagiClient;
use crate::error::KagiError;
use crate::json::{
    describe_float, float_unexpected, get_str, json_parse, member, member_index, member_str,
    parse_json, JsonValue,
};
use crate::official_api::models::{
    post_input_json, single_member, EnrichNewsRequest, EnrichWebRequest, FastGptRequest,
    SearchRequest, SmallwebFeedRequest, SummarizeGetRequest, SummarizePostRequest,
};
use crate::parsing::failure::{failure_code, failure_details, failure_marker, is_failure_marker};
use crate::routing::{endpoint_parser, EndpointId, HttpMethod};
use crate::text::{
    chars_of, debug_str, debug_str_spec, decimal, opt_view, pairs_view, string_of, u64_decimal,
};
use crate::transport::{plan_request, planned, RequestBody, RequestPlan, TransportResponse};

verus! {

/// The official API, reached through a client that holds a bot token.
#[derive(Debug)]
pub struct OfficialApi<'a> {
    client: &'a KagiClient,
}

impl<'a> OfficialApi<'a> {
    pub closed spec fn client(&self) -> &'a KagiClient {
        self.client
    }

    pub(crate) fn new(client: &'a KagiClient) -> (r: Self)
        ensures
            r.client() == client,
    {
        OfficialApi { client }
    }

    fn plan(&self, endpoint: EndpointId, query: Vec<(String, String)>, body: RequestBody) -> (r: Result<RequestPlan, KagiError>)
        ensures
            planned(
                self.client().config_spec(),
                self.client().credentials_spec(),
                endpoint,
                pairs_view(query@),
                r,
            ),
            r matches Ok(p) ==> p.body == body,
    {
        plan_request(self.client.config(), self.client.credentials(), endpoint, query, body)
    }

    /// `GET /api/v0/search?q=<query>`.
    pub fn plan_search(&self, request: SearchRequest) -> (r: Result<RequestPlan, KagiError>)
        ensures
            planned(
                self.client().config_spec(),
                self.client().credentials_spec(),
                EndpointId::OfficialSearch,
                seq![("q"@, request@)],
                r,
            ),
            r matches Ok(p) ==> p.body is Empty,
            r matches Ok(p) ==> p.method == HttpMethod::Get,
    {
        self.plan(EndpointId::OfficialSearch, request.into_query(), RequestBody::Empty)
    }

    /// `GET /api/v0/enrich/web?url=<url>`.
    pub fn plan_enrich_web(&self, request: EnrichWebRequest) -> (r: Result<RequestPlan, KagiError>)
        ensures
            planned(
                self.client().config_spec(),
                self.client().credentials_spec(),
                EndpointId::OfficialEnrichWeb,
                seq![("url"@, request@)],
                r,
            ),
            r matches Ok(p) ==> p.body is Empty,
            r matches Ok(p) ==> p.method == HttpMethod::Get,
    {
        self.plan(EndpointId::OfficialEnrichWeb, request.into_query(), RequestBody::Empty)
    }

    /// `GET /api/v0/enrich/news?url=<url>`.
    pub fn plan_enrich_news(&self, request: EnrichNewsRequest) -> (r: Result<RequestPlan, KagiError>)
        ensures
            planned(
                self.client().config_spec(),
                self.client().credentials_spec(),
                EndpointId::OfficialEnrichNews,
                seq![("url"@, request@)],
                r,
            ),
            r matches Ok(p) ==> p.body is Empty,
            r matches Ok(p) ==> p.method == HttpMethod::Get,
    {
        self.plan(EndpointId::OfficialEnrichNews, request.into_query(), RequestBody::Empty)
    }

    /// `GET /api/v0/summarize?url=<url>`.
    pub fn plan_summarize_get(&self, request: SummarizeGetRequest) -> (r: Result<RequestPlan, KagiError>)
        ensures
            planned(
                self.client().config_spec(),
                self.client().credentials_spec(),
                EndpointId::OfficialSummarizeGet,
                seq![("url"@, request@)],
                r,
            ),
            r matches Ok(p) ==> p.body is Empty,
            r matches Ok(p) ==> p.method == HttpMethod::Get,
    {
        self.plan(EndpointId::OfficialSummarizeGet, request.into_query(), RequestBody::Empty)
    }

    /// `POST /api/v0/summarize` with `{"url": ...}` or `{"text": ...}`.
    pub fn plan_summarize_post(&self, request: SummarizePostRequest) -> (r: Result<RequestPlan, KagiError>)
        ensures
            planned(
                self.client().config_spec(),
                self.client().credentials_spec(),
                EndpointId::OfficialSummarizePost,
                Seq::empty(),
                r,
            ),
            r matches Ok(p) ==> (p.body matches RequestBody::Json(j) && post_input_json(request.input(), j)),
            r matches Ok(p) ==> p.method == HttpMethod::Post,
    {
        let ghost input = request.input();
        let body = request.into_json();
        let query: Vec<(String, String)> = Vec::new();
        assert(pairs_view(query@) =~= Seq::<(Seq<char>, Seq<char>)>::empty());
        self.plan(EndpointId::OfficialSummarizePost, query, RequestBody::Json(body))
    }

    /// `POST /api/v0/fastgpt` with `{"query": ...}`.
    pub fn plan_fastgpt(&self, request: FastGptRequest) -> (r: Result<RequestPlan, KagiError>)
        ensures
            planned(
                self.client().config_spec(),
                self.client().credentials_spec(),
                EndpointId::OfficialFastGpt,
                Seq::empty(),
                r,
            ),
            r matches Ok(p) ==> (p.body matches RequestBody::Json(j) && single_member(j, "query"@, request@)),
            r matches Ok(p) ==> p.method == HttpMethod::Post,
    {
        let body = request.into_json();
        let query: Vec<(String, String)> = Vec::new();
        assert(pairs_view(query@) =~= Seq::<(Seq<char>, Seq<char>)>::empty());
        self.plan(EndpointId::OfficialFastGpt, query, RequestBody::Json(body))
    }

    /// `GET /api/v1/smallweb/feed`, with `limit=<n>` when a limit is set.
    pub fn plan_smallweb_feed(&self, request: SmallwebFeedRequest) -> (r: Result<RequestPlan, KagiError>)
        ensures
            planned(
                self.client().config_spec(),
                self.client().credentials_spec(),
                EndpointId::OfficialSmallwebFeed,
                match request@ {
                    Some(n) => seq![("limit"@, decimal(n as nat))],
                    None => Seq::empty(),
                },
                r,
            ),
            r matches Ok(p) ==> p.body is Empty,
            r matches Ok(p) ==> p.method == HttpMethod::Get,
    {
        self.plan(EndpointId::OfficialSmallwebFeed, request.into_query(), RequestBody::Empty)
    }
}

/// `null` counts as absent.
pub open spec fn non_null(v: Option<JsonValue>) -> Option<JsonValue> {
    match v {
        Some(JsonValue::Null) => None,
        other => other,
    }
}

/// A number text with no decimal point and no exponent, as `serde_json`
/// writes an integer.
pub open spec fn is_integer_text(t: Seq<char>) -> bool {
    forall|i: int| 0 <= i < t.len() ==> #[trigger] t[i] != '.' && t[i] != 'e' && t[i] != 'E'
}

/// How serde names a JSON value that has the wrong type.
pub open spec fn unexpected_value(v: JsonValue) -> Seq<char> {
    match v {
        JsonValue::Null => "unit value"@,
        JsonValue::Bool(b) => "boolean `"@ + (if b {
            "true"@
        } else {
            "false"@
        }) + "`"@,
        JsonValue::Number(n) => if is_integer_text(n.text@) {
            "integer `"@ + n.text@ + "`"@
        } else {
            float_unexpected(n.text@)
        },
        JsonValue::String(t) => "string "@ + debug_str_spec(t@),
        JsonValue::Array(_) => "sequence"@,
        JsonValue::Object(_) => "map"@,
    }
}

/// The `data` and `error` of an envelope: the members of an object, or the
/// first and second element of an array of one or two elements. Any other
/// document is refused with the message serde gives for the envelope
/// struct (`ApiEnvelope`, whose `error` field has a default).
pub open spec fn envelope_fields(v: JsonValue) -> Result<(Option<JsonValue>, Option<JsonValue>), Seq<char>> {
    match v {
        JsonValue::Object(entries) => Ok(
            (non_null(member(entries@, "data"@)), non_null(member(entries@, "error"@))),
        ),
        JsonValue::Array(items) => if items@.len() == 0 {
            Err("invalid length 0, expected struct ApiEnvelope with 2 elements"@)
        } else if items@.len() > 2 {
            Err(
                "invalid length "@ + decimal(items@.len()) + ", expected fewer elements in array"@,
            )
        } else {
            Ok(
                (
                    non_null(Some(items@[0])),
                    if items@.len() == 2 {
                        non_null(Some(items@[1]))
                    } else {
                        None
                    },
                ),
            )
        },
        _ => Err("invalid type: "@ + unexpected_value(v) + ", expected struct ApiEnvelope"@),
    }
}

/// The message of a failed official answer: `message`, else `error` as a
/// string, else `error.message`, else a fixed text.
pub open spec fn api_message(entries: Seq<(String, JsonValue)>) -> Seq<char> {
    match member_str(entries, "message"@) {
        Some(m) => m,
        None => match member_str(entries, "error"@) {
            Some(m) => m,
            None => match (match member(entries, "error"@) {
                Some(e) => get_str(e, "message"@),
                None => None,
            }) {
                Some(m) => m,
                None => "unknown API failure"@,
            },
        },
    }
}

/// (code, message) of a failed official answer, when the body is an object.
pub open spec fn error_details(v: JsonValue) -> Option<(Option<Seq<char>>, Seq<char>)> {
    match v {
        JsonValue::Object(entries) => Some((failure_code(entries@), api_message(entries@))),
        _ => None,
    }
}

/// Why an official answer fails, or its `data`.
pub enum EnvelopeOutcome {
    Data(JsonValue),
    Parse(Seq<char>),
    Api(Option<Seq<char>>, Seq<char>),
}

/// What an official answer with `status` and `body` yields: the body must be
/// JSON; a status of 400 or more is a failure; an envelope whose `error`
/// marks a failure is a failure; otherwise `data` must be there.
pub open spec fn envelope_outcome(status: u16, body: Seq<char>) -> EnvelopeOutcome {
    match json_parse(body) {
        Err(e) => EnvelopeOutcome::Parse("response body is not valid JSON: "@ + e),
        Ok(json) => if status >= 400 {
            match error_details(json) {
                Some((code, message)) => EnvelopeOutcome::Api(code, message),
                None => EnvelopeOutcome::Api(
                    None,
                    "HTTP "@ + decimal(status as nat) + " returned without parseable envelope message"@,
                ),
            }
        } else {
            match envelope_fields(json) {
                Err(e) => EnvelopeOutcome::Parse("invalid JSON envelope shape: "@ + e),
                Ok((data, error)) => if error is Some && is_failure_marker(error.unwrap()) {
                    match error_details(json) {
                        Some((code, message)) => EnvelopeOutcome::Api(code, message),
                        None => EnvelopeOutcome::Api(
                            None,
                            "API envelope reported failure without details"@,
                        ),
                    }
                } else {
                    match data {
                        Some(d) => EnvelopeOutcome::Data(d),
                        None => EnvelopeOutcome::Parse("API envelope did not contain `data`"@),
                    }
                },
            }
        },
    }
}

/// `r` is the result `outcome` describes for `response`.
pub open spec fn envelope_result(response: TransportResponse, r: Result<JsonValue, KagiError>) -> bool {
    match envelope_outcome(response.status, response.body@) {
        EnvelopeOutcome::Data(d) => r == Ok::<JsonValue, KagiError>(d),
        EnvelopeOutcome::Parse(reason) => r matches Err(
            KagiError::ResponseParse { endpoint, parser, reason: m },
        ) && endpoint == response.endpoint && parser == endpoint_parser(response.endpoint) && m@
            == reason,
        EnvelopeOutcome::Api(code, message) => r matches Err(
            KagiError::ApiFailure { endpoint, status, code: c, message: m },
        ) && endpoint == response.endpoint && status == response.status && opt_view(c) == code
            && m@ == message,
    }
}

fn error_details_exec(v: &JsonValue) -> (r: Option<(Option<String>, String)>)
    ensures
        match error_details(*v) {
            Some((code, message)) => r matches Some((c, m)) && opt_view(c) == code && m@ == message,
            None => r is None,
        },
{
    match v {
        JsonValue::Object(entries) => {
            let (code, _) = failure_details(entries);
            let message = match crate::json::member_string(entries, "message") {
                Some(m) => m,
                None => match crate::json::member_string(entries, "error") {
                    Some(m) => m,
                    None => {
                        let nested = match crate::json::find_member(entries, "error") {
                            Some(e) => crate::json::get_string(e, "message"),
                            None => None,
                        };
                        match nested {
                            Some(m) => m,
                            None => String::from_str("unknown API failure"),
                        }
                    },
                },
            };
            Some((code, message))
        },
        _ => None,
    }
}

fn take_non_null(v: JsonValue) -> (r: Option<JsonValue>)
    ensures
        r == non_null(Some(v)),
{
    match v {
        JsonValue::Null => None,
        other => Some(other),
    }
}

/// Moves the members `data` and `error` out of an object's members.
fn take_data_and_error(entries: Vec<(String, JsonValue)>) -> (r: (Option<JsonValue>, Option<JsonValue>))
    ensures
        r == (non_null(member(entries@, "data"@)), non_null(member(entries@, "error"@))),
{
    let mut entries = entries;
    let ghost original = entries@;
    proof {
        crate::json::lemma_member_index(original, "data"@);
        crate::json::lemma_member_index(original, "error"@);
    }
    let di = crate::json::find_member_index(&entries, "data");
    let ei = crate::json::find_member_index(&entries, "error");
    match (di, ei) {
        (Some(d), Some(e)) => {
            if d == e {
                let v = entries.remove(d).1;
                proof {
                    reveal_strlit("data");
                    reveal_strlit("error");
                    assert(member_index(original, "data"@) == Some(d as int));
                    assert(original[d as int].0@ == "data"@);
                    assert(original[e as int].0@ == "error"@);
                    assert("data"@.len() != "error"@.len());
                    assert(false);
                }
                (take_non_null(v), None)
            } else if d < e {
                let ev = entries.remove(e).1;
                let dv = entries.remove(d).1;
                (take_non_null(dv), take_non_null(ev))
            } else {
                let dv = entries.remove(d).1;
                let ev = entries.remove(e).1;
                (take_non_null(dv), take_non_null(ev))
            }
        },
        (Some(d), None) => {
            let dv = entries.remove(d).1;
            (take_non_null(dv), None)
        },
        (None, Some(e)) => {
            let ev = entries.remove(e).1;
            (None, take_non_null(ev))
        },
        (None, None) => (None, None),
    }
}

fn integer_text(t: &str) -> (r: bool)
    ensures
        r == is_integer_text(t@),
{
    let c = chars_of(t);
    let mut i: usize = 0;
    while i < c.len()
        invariant
            i <= c@.len(),
            c@ == t@,
            forall|k: int| 0 <= k < i ==> #[trigger] c@[k] != '.' && c@[k] != 'e' && c@[k] != 'E',
        decreases c@.len() - i,
    {
        if c[i] == '.' || c[i] == 'e' || c[i] == 'E' {
            return false;
        }
        i = i + 1;
    }
    true
}

/// serde's name for a value of the wrong type.
fn unexpected_value_text(v: &JsonValue) -> (r: String)
    ensures
        r@ == unexpected_value(*v),
{
    match v {
        JsonValue::Null => String::from_str("unit value"),
        JsonValue::Bool(b) => {
            let shown = if *b {
                "true"
            } else {
                "false"
            };
            String::from_str("boolean `").concat(shown).concat("`")
        },
        JsonValue::Number(n) => if integer_text(n.text.as_str()) {
            String::from_str("integer `").concat(n.text.as_str()).concat("`")
        } else {
            describe_float(n.text.as_str())
        },
        JsonValue::String(t) => String::from_str("string ").concat(debug_str(t.as_str()).as_str()),
        JsonValue::Array(_) => String::from_str("sequence"),
        JsonValue::Object(_) => String::from_str("map"),
    }
}

fn envelope_fields_exec(v: JsonValue) -> (r: Result<(Option<JsonValue>, Option<JsonValue>), String>)
    ensures
        match envelope_fields(v) {
            Ok(fields) => r == Ok::<(Option<JsonValue>, Option<JsonValue>), String>(fields),
            Err(e) => r matches Err(m) && m@ == e,
        },
{
    match v {
        JsonValue::Object(entries) => Ok(take_data_and_error(entries)),
        JsonValue::Array(items) => {
            let mut items = items;
            if items.len() == 0 {
                return Err(
                    String::from_str("invalid length 0, expected struct ApiEnvelope with 2 elements"),
                );
            }
            if items.len() > 2 {
                let digits = u64_decimal(items.len() as u64);
                return Err(
                    String::from_str("invalid length ").concat(string_of(digits.as_slice()).as_str()).concat(
                        ", expected fewer elements in array",
                    ),
                );
            }
            let ghost original = items@;
            if items.len() == 2 {
                let error = items.remove(1);
                let data = items.remove(0);
                Ok((take_non_null(data), take_non_null(error)))
            } else {
                let data = items.remove(0);
                Ok((take_non_null(data), None))
            }
        },
        other => {
            let named = unexpected_value_text(&other);
            Err(
                String::from_str("invalid type: ").concat(named.as_str()).concat(
                    ", expected struct ApiEnvelope",
                ),
            )
        },
    }
}

/// Reads the `data` of an official JSON envelope, or the failure it reports.
pub fn parse_json_envelope(response: TransportResponse) -> (r: Result<JsonValue, KagiError>)
    ensures
        envelope_result(response, r),
{
    let endpoint = response.endpoint;
    let status = response.status;
    let parser = endpoint.spec().parser;
    let json_body = match parse_json(response.body.as_str()) {
        Err(source) => {
            return Err(
                KagiError::ResponseParse {
                    endpoint,
                    parser,
                    reason: String::from_str("response body is not valid JSON: ").concat(
                        source.as_str(),
                    ),
                },
            );
        },
        Ok(v) => v,
    };
    if status >= 400 {
        let (code, message) = match error_details_exec(&json_body) {
            Some(details) => details,
            None => {
                let digits = u64_decimal(status as u64);
                let message = String::from_str("HTTP ").concat(string_of(digits.as_slice()).as_str()).concat(
                    " returned without parseable envelope message",
                );
                (None, message)
            },
        };
        return Err(KagiError::ApiFailure { endpoint, status, code, message });
    }
    let details = error_details_exec(&json_body);
    match envelope_fields_exec(json_body) {
        Err(e) => Err(
            KagiError::ResponseParse {
                endpoint,
                parser,
                reason: String::from_str("invalid JSON envelope shape: ").concat(e.as_str()),
            },
        ),
        Ok((data, error)) => {
            let failed = match &error {
                Some(e) => failure_marker(e),
                None => false,
            };
            if failed {
                let (code, message) = match details {
                    Some(d) => d,
                    None => (None, String::from_str("API envelope reported failure without details")),
                };
                return Err(KagiError::ApiFailure { endpoint, status, code, message });
            }
            match data {
                Some(d) => Ok(d),
                None => Err(
                    KagiError::ResponseParse {
                        endpoint,
                        parser,
                        reason: String::from_str("API envelope did not contain `data`"),
                    },
                ),
            }
        },
    }
}

} // verus!
