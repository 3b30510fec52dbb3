//! Parser for the default JSON shape of a summary.

use vstd::prelude::*;

use crate::error::KagiError;
use crate::json::{
    find_member, find_member_index, lemma_member_index, member, member_str,
    member_string, parse_json, json_parse, JsonValue,
};
use crate::parsing::failure::{failure_of_object, object_failure};
use crate::routing::{EndpointId, ParserShape};
use crate::session_web::models::SummarizeResponse;
use crate::text::opt_view;

verus! {

/// A reason of a summary that does not parse.
pub open spec fn malformed(reason: Seq<char>) -> Seq<char> {
    "malformed default summarize JSON: "@ + reason
}

/// The object that holds the summary: `data` when it is an object, else
/// `output_data` when it is an object, else the top-level object.
pub open spec fn summarize_payload(root: Seq<(String, JsonValue)>) -> Seq<(String, JsonValue)> {
    match member(root, "data"@) {
        Some(JsonValue::Object(e)) => e@,
        _ => match member(root, "output_data"@) {
            Some(JsonValue::Object(e)) => e@,
            _ => root,
        },
    }
}

/// The markdown: the first string among `markdown`, `summary_markdown`,
/// `output_markdown`, `summary` and `output`.
pub open spec fn markdown_of(p: Seq<(String, JsonValue)>) -> Option<Seq<char>> {
    if member_str(p, "markdown"@) is Some {
        member_str(p, "markdown"@)
    } else if member_str(p, "summary_markdown"@) is Some {
        member_str(p, "summary_markdown"@)
    } else if member_str(p, "output_markdown"@) is Some {
        member_str(p, "output_markdown"@)
    } else if member_str(p, "summary"@) is Some {
        member_str(p, "summary"@)
    } else {
        member_str(p, "output"@)
    }
}

/// The refusal of a field that is there but not a string.
pub open spec fn not_a_string(key: Seq<char>) -> Seq<char> {
    malformed("`"@ + key + "` must be a string when present"@)
}

/// One step of the search for the plain text: a string is taken, an absent
/// or `null` field passes on to `rest`, anything else is refused.
pub open spec fn text_step(
    entries: Seq<(String, JsonValue)>,
    key: Seq<char>,
    rest: Result<Option<Seq<char>>, Seq<char>>,
) -> Result<Option<Seq<char>>, Seq<char>> {
    match member(entries, key) {
        None => rest,
        Some(JsonValue::Null) => rest,
        Some(JsonValue::String(s)) => Ok(Some(s@)),
        Some(_) => Err(not_a_string(key)),
    }
}

/// The plain text: `text` or `output_text` of the payload, then of the
/// top-level object.
pub open spec fn optional_text(root: Seq<(String, JsonValue)>, p: Seq<(String, JsonValue)>) -> Result<Option<Seq<char>>, Seq<char>> {
    text_step(
        p,
        "text"@,
        text_step(
            p,
            "output_text"@,
            text_step(root, "text"@, text_step(root, "output_text"@, Ok(None))),
        ),
    )
}

/// An optional string field.
pub open spec fn optional_string(entries: Seq<(String, JsonValue)>, key: Seq<char>) -> Result<Option<Seq<char>>, Seq<char>> {
    text_step(entries, key, Ok(None))
}

/// The metadata: an object, or nothing when absent or `null`.
pub open spec fn metadata_of(p: Seq<(String, JsonValue)>) -> Result<Seq<(String, JsonValue)>, Seq<char>> {
    match member(p, "metadata"@) {
        None => Ok(Seq::empty()),
        Some(JsonValue::Null) => Ok(Seq::empty()),
        Some(JsonValue::Object(m)) => Ok(m@),
        Some(_) => Err(malformed("`metadata` must be an object"@)),
    }
}

/// What a summary body gives.
pub enum SummarizeOutcome {
    Summary {
        markdown: Seq<char>,
        text: Option<Seq<char>>,
        status: Option<Seq<char>>,
        metadata: Seq<(String, JsonValue)>,
    },
    Parse(Seq<char>),
    Api(Option<Seq<char>>, Seq<char>),
}

/// The body must be a JSON object; a failure reported by it or by its payload
/// wins; then the markdown is required and the text, status and metadata are
/// read when there.
pub open spec fn summarize_outcome(raw: Seq<char>) -> SummarizeOutcome {
    match json_parse(raw) {
        Err(e) => SummarizeOutcome::Parse(malformed(e)),
        Ok(JsonValue::Object(root)) => match object_failure(root@) {
            Some((code, message)) => SummarizeOutcome::Api(code, message),
            None => {
                let p = summarize_payload(root@);
                match object_failure(p) {
                    Some((code, message)) => SummarizeOutcome::Api(code, message),
                    None => match markdown_of(p) {
                        None => SummarizeOutcome::Parse(malformed("missing markdown text"@)),
                        Some(markdown) => match optional_text(root@, p) {
                            Err(reason) => SummarizeOutcome::Parse(reason),
                            Ok(text) => match optional_string(p, "status"@) {
                                Err(reason) => SummarizeOutcome::Parse(reason),
                                Ok(status) => match metadata_of(p) {
                                    Err(reason) => SummarizeOutcome::Parse(reason),
                                    Ok(metadata) => SummarizeOutcome::Summary {
                                        markdown,
                                        text,
                                        status,
                                        metadata,
                                    },
                                },
                            },
                        },
                    },
                }
            },
        },
        Ok(_) => SummarizeOutcome::Parse(malformed("expected top-level object"@)),
    }
}

/// `r` is what `o` describes for `endpoint`.
pub open spec fn summarize_result(endpoint: EndpointId, o: SummarizeOutcome, r: Result<SummarizeResponse, KagiError>) -> bool {
    match o {
        SummarizeOutcome::Summary { markdown, text, status, metadata } => r matches Ok(resp)
            && resp.markdown@ == markdown && opt_view(resp.text) == text && opt_view(resp.status)
            == status && resp.metadata@ == metadata,
        SummarizeOutcome::Parse(reason) => r matches Err(KagiError::ResponseParse { endpoint: ep, parser, reason: m })
            && ep == endpoint && parser == ParserShape::JsonEnvelope && m@ == reason,
        SummarizeOutcome::Api(code, message) => r matches Err(KagiError::ApiFailure { endpoint: ep, status, code: c, message: m })
            && ep == endpoint && status == 200 && opt_view(c) == code && m@ == message,
    }
}

/// A `data` member that is an object is where the summary is read from.
pub proof fn law_data_object_is_the_payload(root: Seq<(String, JsonValue)>, e: Vec<(String, JsonValue)>)
    requires
        member(root, "data"@) == Some(JsonValue::Object(e)),
    ensures
        summarize_payload(root) == e@,
{
}

/// Without a `data` object, an `output_data` member that is an object is
/// where the summary is read from; with neither, the top-level object is.
pub proof fn law_output_data_or_top_level_is_the_payload(root: Seq<(String, JsonValue)>)
    requires
        !(member(root, "data"@) matches Some(JsonValue::Object(_))),
    ensures
        member(root, "output_data"@) matches Some(JsonValue::Object(e)) ==> summarize_payload(root)
            == e@,
        !(member(root, "output_data"@) matches Some(JsonValue::Object(_))) ==> summarize_payload(
            root,
        ) == root,
{
}

/// A summary wrapped as `{"data": {...}}`, whose `data` object has a string
/// `markdown` and reports no failure (nor does the top level), is read from
/// that object: it is not an API failure, when it parses its markdown is that
/// string, and it does parse when the optional fields are well formed.
pub proof fn law_wrapped_summary_is_read_from_data(
    raw: Seq<char>,
    root: Vec<(String, JsonValue)>,
    e: Vec<(String, JsonValue)>,
    markdown: Seq<char>,
)
    requires
        json_parse(raw) == Ok::<JsonValue, Seq<char>>(JsonValue::Object(root)),
        object_failure(root@) is None,
        member(root@, "data"@) == Some(JsonValue::Object(e)),
        object_failure(e@) is None,
        member_str(e@, "markdown"@) == Some(markdown),
    ensures
        optional_text(root@, e@) is Ok && optional_string(e@, "status"@) is Ok && metadata_of(e@) is Ok
            ==> summarize_outcome(raw) is Summary,
        summarize_outcome(raw) matches SummarizeOutcome::Summary { markdown: m, .. } ==> m == markdown,
        !(summarize_outcome(raw) is Api),
{
    assert(summarize_payload(root@) == e@);
    assert(markdown_of(e@) == Some(markdown));
}

fn malformed_reason(reason: &str) -> (r: String)
    ensures
        r@ == malformed(reason@),
{
    String::from_str("malformed default summarize JSON: ").concat(reason)
}

/// Where the payload sits among the top-level members: `Some(i)` for the
/// object at member `i`, `None` for the top-level object itself.
fn payload_index(root: &Vec<(String, JsonValue)>) -> (r: Option<usize>)
    ensures
        match r {
            Some(i) => i < root@.len() && (root@[i as int].1 matches JsonValue::Object(e) && e@
                == summarize_payload(root@)),
            None => summarize_payload(root@) == root@,
        },
{
    proof {
        lemma_member_index(root@, "data"@);
        lemma_member_index(root@, "output_data"@);
    }
    if let Some(i) = find_member_index(root, "data") {
        if let JsonValue::Object(_) = &root[i].1 {
            return Some(i);
        }
    }
    if let Some(i) = find_member_index(root, "output_data") {
        if let JsonValue::Object(_) = &root[i].1 {
            return Some(i);
        }
    }
    None
}

fn markdown_in(p: &Vec<(String, JsonValue)>) -> (r: Option<String>)
    ensures
        opt_view(r) == markdown_of(p@),
{
    let a = member_string(p, "markdown");
    if a.is_some() {
        return a;
    }
    let b = member_string(p, "summary_markdown");
    if b.is_some() {
        return b;
    }
    let c = member_string(p, "output_markdown");
    if c.is_some() {
        return c;
    }
    let d = member_string(p, "summary");
    if d.is_some() {
        return d;
    }
    member_string(p, "output")
}

/// One step of `text_step`: `Some` when this field decides.
fn text_at(entries: &Vec<(String, JsonValue)>, key: &str) -> (r: Option<Result<Option<String>, String>>)
    ensures
        match r {
            None => text_step(entries@, key@, Ok(None)) == Ok::<Option<Seq<char>>, Seq<char>>(None)
                && forall|rest| text_step(entries@, key@, rest) == rest,
            Some(Ok(s)) => s matches Some(t) && forall|rest| text_step(entries@, key@, rest)
                == Ok::<Option<Seq<char>>, Seq<char>>(Some(t@)),
            Some(Err(e)) => forall|rest| text_step(entries@, key@, rest) == Err::<
                Option<Seq<char>>,
                Seq<char>,
            >(e@),
        },
{
    match find_member(entries, key) {
        None => None,
        Some(JsonValue::Null) => None,
        Some(JsonValue::String(s)) => Some(Ok(Some(s.clone()))),
        Some(_) => {
            let detail = String::from_str("`").concat(key).concat("` must be a string when present");
            let reason = malformed_reason(detail.as_str());
            Some(Err(reason))
        },
    }
}

fn text_in(root: &Vec<(String, JsonValue)>, p: &Vec<(String, JsonValue)>) -> (r: Result<Option<String>, String>)
    ensures
        match optional_text(root@, p@) {
            Ok(t) => r matches Ok(x) && opt_view(x) == t,
            Err(e) => r matches Err(x) && x@ == e,
        },
{
    if let Some(r) = text_at(p, "text") {
        return r;
    }
    if let Some(r) = text_at(p, "output_text") {
        return r;
    }
    if let Some(r) = text_at(root, "text") {
        return r;
    }
    if let Some(r) = text_at(root, "output_text") {
        return r;
    }
    Ok(None)
}

fn status_in(p: &Vec<(String, JsonValue)>) -> (r: Result<Option<String>, String>)
    ensures
        match optional_string(p@, "status"@) {
            Ok(t) => r matches Ok(x) && opt_view(x) == t,
            Err(e) => r matches Err(x) && x@ == e,
        },
{
    match text_at(p, "status") {
        Some(r) => r,
        None => Ok(None),
    }
}

/// Moves the metadata out of the payload's members.
fn take_metadata(p: Vec<(String, JsonValue)>) -> (r: Result<Vec<(String, JsonValue)>, String>)
    ensures
        match metadata_of(p@) {
            Ok(m) => r matches Ok(x) && x@ == m,
            Err(e) => r matches Err(x) && x@ == e,
        },
{
    let mut p = p;
    let ghost original = p@;
    proof {
        lemma_member_index(original, "metadata"@);
    }
    match find_member_index(&p, "metadata") {
        None => {
            let none: Vec<(String, JsonValue)> = Vec::new();
            assert(none@ =~= Seq::<(String, JsonValue)>::empty());
            Ok(none)
        },
        Some(i) => {
            let (_, v) = p.remove(i);
            match v {
                JsonValue::Null => {
                    let none: Vec<(String, JsonValue)> = Vec::new();
                    assert(none@ =~= Seq::<(String, JsonValue)>::empty());
                    Ok(none)
                },
                JsonValue::Object(m) => Ok(m),
                _ => Err(malformed_reason("`metadata` must be an object")),
            }
        },
    }
}

fn parse_failure(endpoint: EndpointId, reason: String) -> (r: Result<SummarizeResponse, KagiError>)
    ensures
        r matches Err(KagiError::ResponseParse { endpoint: ep, parser, reason: m }) && ep == endpoint
            && parser == ParserShape::JsonEnvelope && m == reason,
{
    Err(KagiError::ResponseParse { endpoint, parser: ParserShape::JsonEnvelope, reason })
}

/// Reads a summary in its default JSON shape: the markdown is required; the
/// plain text, status and metadata are read when there; a failure that the
/// body reports becomes an API failure with status 200.
pub fn parse_summarize_response(endpoint: EndpointId, raw_body: &str) -> (r: Result<SummarizeResponse, KagiError>)
    ensures
        summarize_result(endpoint, summarize_outcome(raw_body@), r),
{
    let root = match parse_json(raw_body) {
        Err(source) => {
            return parse_failure(endpoint, malformed_reason(source.as_str()));
        },
        Ok(JsonValue::Object(entries)) => entries,
        Ok(_) => {
            return parse_failure(
                endpoint,
                malformed_reason("expected top-level object"),
            );
        },
    };
    if let Some((code, message)) = failure_of_object(&root) {
        return Err(KagiError::ApiFailure { endpoint, status: 200, code, message });
    }
    let ghost root_view = root@;
    let at = payload_index(&root);
    let (markdown, text, status) = {
        let p: &Vec<(String, JsonValue)> = match at {
            Some(i) => match &root[i].1 {
                JsonValue::Object(e) => e,
                _ => &root,
            },
            None => &root,
        };
        if let Some((code, message)) = failure_of_object(p) {
            return Err(KagiError::ApiFailure { endpoint, status: 200, code, message });
        }
        let markdown = match markdown_in(p) {
            None => {
                return parse_failure(
                    endpoint,
                    malformed_reason("missing markdown text"),
                );
            },
            Some(m) => m,
        };
        let text = match text_in(&root, p) {
            Err(reason) => {
                return parse_failure(endpoint, reason);
            },
            Ok(t) => t,
        };
        let status = match status_in(p) {
            Err(reason) => {
                return parse_failure(endpoint, reason);
            },
            Ok(s) => s,
        };
        (markdown, text, status)
    };
    let mut root = root;
    let payload = match at {
        Some(i) => {
            let (_, v) = root.remove(i);
            match v {
                JsonValue::Object(e) => e,
                _ => root,
            }
        },
        None => root,
    };
    assert(payload@ == summarize_payload(root_view));
    let metadata = match take_metadata(payload) {
        Err(reason) => {
            return parse_failure(endpoint, reason);
        },
        Ok(m) => m,
    };
    Ok(SummarizeResponse { markdown, text, status, metadata })
}

} // verus!
