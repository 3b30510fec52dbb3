//! Parser for the framed summary stream of `/mother/summary_labs`: either
//! Kagi's prefixed frames (`hi:`, `new_message.json:`, `update:`, `final:`,
//! separated by NUL or by lines) or server-sent events.

use vstd::prelude::*;

use crate::error::KagiError;
use crate::json::{
    get_str, get_string, json_array, json_get, json_parse, parse_json, JsonValue,
};
use crate::parsing::failure::{parse_kagi_failure_payload, payload_failure};
use crate::routing::{EndpointId, ParserShape};
use crate::session_web::models::SummaryStreamResponse;
use crate::text::{
    chars_eq, chars_of, concat_all, concat_chars, copy_range, extend_chars, find_char,
    find_char_from, has_prefix, join_chars, join_with, lemma_find_in_suffix, lines,
    lines_of, lower, lower_chars, opt_view, seqs, split_char, split_of, split_once, starts_with,
    string_of, strings_of_all, strs, trim, trim_chars, trim_end_newlines,
    trim_end_newlines_chars, trim_start, trim_start_chars,
};

verus! {

// ---------------------------------------------------------------------------
// Specification
// ---------------------------------------------------------------------------

/// Why a stream is refused: a failure Kagi reported, or a malformed body.
pub enum StreamFailure {
    Api { code: Option<Seq<char>>, message: Seq<char> },
    Parse { reason: Seq<char> },
}

/// A payload without one leading space and without trailing `\r`/`\n`.
pub open spec fn strip_json_space(p: Seq<char>) -> Seq<char> {
    let q = if p.len() > 0 && p[0] == ' ' {
        p.drop_first()
    } else {
        p
    };
    trim_end_newlines(q)
}

/// A payload that starts, after `strip_json_space`, with `{` or `[`.
pub open spec fn looks_like_json(p: Seq<char>) -> bool {
    let n = strip_json_space(p);
    n.len() > 0 && (n[0] == '{' || n[0] == '[')
}

/// The summary text a JSON event carries: the first string among `text`,
/// `delta`, `content`, `chunk`, `choices[0].delta.content`, `summary` and
/// `message.text`.
pub open spec fn stream_text(v: JsonValue) -> Option<Seq<char>> {
    if get_str(v, "text"@) is Some {
        get_str(v, "text"@)
    } else if get_str(v, "delta"@) is Some {
        get_str(v, "delta"@)
    } else if get_str(v, "content"@) is Some {
        get_str(v, "content"@)
    } else if get_str(v, "chunk"@) is Some {
        get_str(v, "chunk"@)
    } else if choice_content(v) is Some {
        choice_content(v)
    } else if get_str(v, "summary"@) is Some {
        get_str(v, "summary"@)
    } else {
        match json_get(v, "message"@) {
            Some(m) => get_str(m, "text"@),
            None => None,
        }
    }
}

/// `choices[0].delta.content` as a string.
pub open spec fn choice_content(v: JsonValue) -> Option<Seq<char>> {
    match json_get(v, "choices"@) {
        Some(c) => match json_array(c) {
            Some(items) => if items.len() > 0 {
                match json_get(items[0], "delta"@) {
                    Some(d) => get_str(d, "content"@),
                    None => None,
                }
            } else {
                None
            },
            None => None,
        },
        None => None,
    }
}

/// A frame whose payload must be JSON.
pub open spec fn required_json_frame(prefix: Seq<char>, payload: Seq<char>) -> Result<Option<Seq<char>>, StreamFailure> {
    let n = strip_json_space(payload);
    if n.len() == 0 {
        Err(
            StreamFailure::Parse {
                reason: "stream frame `"@ + prefix + "` did not contain JSON payload"@,
            },
        )
    } else {
        match json_parse(n) {
            Err(e) => Err(
                StreamFailure::Parse {
                    reason: "stream frame `"@ + prefix + "` contained invalid JSON: "@ + e,
                },
            ),
            Ok(v) => Ok(stream_text(v)),
        }
    }
}

/// A frame whose payload is text, JSON, or the end marker `[DONE]`.
pub open spec fn text_or_json_frame(prefix: Seq<char>, payload: Seq<char>) -> Result<Option<Seq<char>>, StreamFailure> {
    if payload == "[DONE]"@ {
        Ok(None)
    } else if looks_like_json(payload) {
        required_json_frame(prefix, payload)
    } else {
        Ok(Some(payload))
    }
}

/// The summary text of one prefixed frame, if it carries any.
pub open spec fn prefixed_frame(prefix: Seq<char>, payload: Seq<char>) -> Result<Option<Seq<char>>, StreamFailure> {
    let np = trim(prefix);
    let pt = trim_end_newlines(payload);
    match payload_failure(pt) {
        Some((code, message)) => Err(StreamFailure::Api { code, message }),
        None => if np == "hi"@ {
            Ok(None)
        } else if np == "new_message.json"@ {
            required_json_frame(np, pt)
        } else if np == "update"@ || np == "final"@ {
            text_or_json_frame(np, pt)
        } else {
            Err(StreamFailure::Parse { reason: "unsupported stream frame prefix `"@ + np + "`"@ })
        },
    }
}

/// The body holds a NUL character.
pub open spec fn has_nul(raw: Seq<char>) -> bool {
    find_char(raw, '\0') is Some
}

/// The frames of a prefixed stream: NUL-separated pieces without trailing
/// line endings, or the lines of the body when it has no NUL.
pub open spec fn prefixed_frames(raw: Seq<char>) -> Seq<Seq<char>> {
    if has_nul(raw) {
        split_char(raw, '\0').map_values(|f: Seq<char>| trim_end_newlines(f))
    } else {
        lines(raw)
    }
}

/// One frame of a prefixed stream applied to (chunks so far, a frame seen).
pub open spec fn prefixed_step(st: (Seq<Seq<char>>, bool), frame: Seq<char>) -> Result<(Seq<Seq<char>>, bool), StreamFailure> {
    if frame.len() == 0 {
        Ok(st)
    } else {
        match split_once(frame, ':') {
            None => Err(
                StreamFailure::Parse {
                    reason: "malformed stream frame without prefix delimiter: `"@ + frame + "`"@,
                },
            ),
            Some((p, pl)) => match prefixed_frame(p, pl) {
                Err(e) => Err(e),
                Ok(Some(c)) => Ok((st.0.push(c), true)),
                Ok(None) => Ok((st.0, true)),
            },
        }
    }
}

/// The frames applied in order, stopping at the first failure.
pub open spec fn prefixed_fold(frames: Seq<Seq<char>>) -> Result<(Seq<Seq<char>>, bool), StreamFailure>
    decreases frames.len(),
{
    if frames.len() == 0 {
        Ok((Seq::empty(), false))
    } else {
        match prefixed_fold(frames.drop_last()) {
            Ok(st) => prefixed_step(st, frames.last()),
            Err(e) => Err(e),
        }
    }
}

/// The chunks of a prefixed stream.
pub open spec fn prefixed_stream(raw: Seq<char>) -> Result<Seq<Seq<char>>, StreamFailure> {
    match prefixed_fold(prefixed_frames(raw)) {
        Err(e) => Err(e),
        Ok((chunks, saw)) => if !saw {
            Err(StreamFailure::Parse { reason: "stream did not contain Kagi prefixed frames"@ })
        } else if chunks.len() == 0 {
            Err(StreamFailure::Parse { reason: "stream did not contain any summary text chunks"@ })
        } else {
            Ok(chunks)
        },
    }
}

/// A line that opens a Kagi prefixed frame.
pub open spec fn is_prefixed_line(line: Seq<char>) -> bool {
    let t = trim_start(line);
    starts_with(t, "hi:"@) || starts_with(t, "new_message.json:"@) || starts_with(t, "update:"@)
        || starts_with(t, "final:"@)
}

/// The body uses Kagi's prefixed framing.
pub open spec fn looks_prefixed(raw: Seq<char>) -> bool {
    has_nul(raw) || exists|i: int| 0 <= i < lines(raw).len() && is_prefixed_line(#[trigger] lines(raw)[i])
}

/// The body is an HTML page.
pub open spec fn looks_like_html(raw: Seq<char>) -> bool {
    let n = lower(trim_start(raw));
    starts_with(n, "<!doctype html"@) || starts_with(n, "<html"@)
}

/// (code, message) of an SSE `error` event.
pub open spec fn error_event(payload: Seq<char>) -> (Option<Seq<char>>, Seq<char>) {
    match json_parse(payload) {
        Err(_) => (None, payload),
        Ok(v) => {
            let code = if get_str(v, "code"@) is Some {
                get_str(v, "code"@)
            } else {
                match json_get(v, "error"@) {
                    Some(e) => get_str(e, "code"@),
                    None => None,
                }
            };
            let message = if get_str(v, "message"@) is Some {
                get_str(v, "message"@).unwrap()
            } else if get_str(v, "error"@) is Some {
                get_str(v, "error"@).unwrap()
            } else {
                match (match json_get(v, "error"@) {
                    Some(e) => get_str(e, "message"@),
                    None => None,
                }) {
                    Some(m) => m,
                    None => payload,
                }
            };
            (code, message)
        },
    }
}

/// The summary text of one SSE event's data.
pub open spec fn sse_chunk(payload: Seq<char>) -> Result<Option<Seq<char>>, StreamFailure> {
    if !looks_like_json(payload) {
        Ok(Some(payload))
    } else {
        match json_parse(payload) {
            Err(e) => Err(StreamFailure::Parse { reason: "invalid stream JSON event: "@ + e }),
            Ok(v) => Ok(stream_text(v)),
        }
    }
}

/// Ends the pending event: its data lines joined with `\n` become a chunk,
/// unless empty or `[DONE]`; an `error` event is a failure.
pub open spec fn flush(name: Seq<char>, data: Seq<Seq<char>>, chunks: Seq<Seq<char>>) -> Result<Seq<Seq<char>>, StreamFailure> {
    if data.len() == 0 {
        Ok(chunks)
    } else {
        let payload = join_with(data, "\n"@);
        if payload.len() == 0 || payload == "[DONE]"@ {
            Ok(chunks)
        } else if name == "error"@ {
            let (code, message) = error_event(payload);
            Err(StreamFailure::Api { code, message })
        } else {
            match sse_chunk(payload) {
                Err(e) => Err(e),
                Ok(Some(t)) => Ok(chunks.push(t)),
                Ok(None) => Ok(chunks),
            }
        }
    }
}

/// Ending a pending event leaves the chunks before it as they were and adds
/// at most one; with no pending data nothing happens; an `error` event with
/// a payload (other than `[DONE]`) is a failure that Kagi reported.
pub proof fn law_flush_adds_at_most_one_chunk(name: Seq<char>, data: Seq<Seq<char>>, chunks: Seq<Seq<char>>)
    ensures
        flush(name, data, chunks) matches Ok(ch) ==> (ch == chunks || exists|c: Seq<char>|
            ch == chunks.push(c)),
        data.len() == 0 ==> flush(name, data, chunks) == Ok::<Seq<Seq<char>>, StreamFailure>(
            chunks,
        ),
        data.len() > 0 && name == "error"@ && join_with(data, "\n"@).len() > 0 && join_with(
            data,
            "\n"@,
        ) != "[DONE]"@ ==> flush(name, data, chunks) matches Err(StreamFailure::Api { .. }),
{
    if data.len() > 0 {
        let payload = join_with(data, "\n"@);
        if !(payload.len() == 0 || payload == "[DONE]"@) && name != "error"@ {
            if let Ok(Some(t)) = sse_chunk(payload) {
                assert(flush(name, data, chunks) == Ok::<Seq<Seq<char>>, StreamFailure>(
                    chunks.push(t),
                ));
            }
        }
    }
}

/// Taking trailing line ends off leaves a prefix.
proof fn lemma_trim_end_newlines_prefix(s: Seq<char>)
    ensures
        trim_end_newlines(s).len() <= s.len(),
        trim_end_newlines(s) == s.take(trim_end_newlines(s).len() as int),
    decreases s.len(),
{
    if s.len() > 0 && (s.last() == '\r' || s.last() == '\n') {
        lemma_trim_end_newlines_prefix(s.drop_last());
        let t = trim_end_newlines(s.drop_last());
        assert(s.drop_last().take(t.len() as int) =~= s.take(t.len() as int));
    } else {
        assert(s.take(s.len() as int) =~= s);
    }
}

/// A payload that, after one optional leading space, does not start with
/// `{` or `[`: plain text rather than JSON.
pub open spec fn plain_payload(p: Seq<char>) -> bool {
    let q = if p.len() > 0 && p[0] == ' ' {
        p.drop_first()
    } else {
        p
    };
    q.len() == 0 || (q[0] != '{' && q[0] != '[')
}

/// The data of a server-sent event that is plain text (neither empty nor
/// `[DONE]`, and not an `error` event) becomes one chunk, exactly as sent,
/// after the chunks before it.
pub proof fn law_plain_sse_data_is_kept_verbatim(name: Seq<char>, data: Seq<Seq<char>>, chunks: Seq<Seq<char>>)
    requires
        data.len() > 0,
        name != "error"@,
        join_with(data, "\n"@).len() > 0,
        join_with(data, "\n"@) != "[DONE]"@,
        plain_payload(join_with(data, "\n"@)),
    ensures
        flush(name, data, chunks) == Ok::<Seq<Seq<char>>, StreamFailure>(
            chunks.push(join_with(data, "\n"@)),
        ),
{
    let p = join_with(data, "\n"@);
    let q = if p.len() > 0 && p[0] == ' ' {
        p.drop_first()
    } else {
        p
    };
    lemma_trim_end_newlines_prefix(q);
    assert(strip_json_space(p) == trim_end_newlines(q));
    let n = trim_end_newlines(q);
    if n.len() > 0 {
        assert(n[0] == q.take(n.len() as int)[0]);
    }
    assert(!looks_like_json(p));
}

/// A data line that is a whole JSON object or array on its own.
pub open spec fn complete_json_line(line: Seq<char>) -> bool {
    let t = trim(line);
    t.len() > 0 && ((t[0] == '{' && t.last() == '}') || (t[0] == '[' && t.last() == ']'))
}

pub open spec fn complete_or_done(line: Seq<char>) -> bool {
    complete_json_line(line) || line == "[DONE]"@
}

/// Consecutive data lines that are each complete JSON values (or `[DONE]`)
/// are separate events.
pub open spec fn should_flush(data: Seq<Seq<char>>, next: Seq<char>) -> bool {
    data.len() > 0 && (forall|i: int| 0 <= i < data.len() ==> complete_or_done(#[trigger] data[i]))
        && complete_or_done(next)
}

/// `name: value` of an SSE line, the value without one leading space; a
/// line without `:` is a field with an empty value.
pub open spec fn sse_field(t: Seq<char>) -> Option<(Seq<char>, Seq<char>)> {
    let (n, v) = match split_once(t, ':') {
        Some(parts) => parts,
        None => (t, Seq::empty()),
    };
    if n.len() == 0 {
        None
    } else {
        Some((n, if v.len() > 0 && v[0] == ' ' { v.drop_first() } else { v }))
    }
}

/// State of the SSE reader.
pub struct SseState {
    pub name: Seq<char>,
    pub data: Seq<Seq<char>>,
    pub chunks: Seq<Seq<char>>,
    pub saw_field: bool,
}

/// One line of an SSE body.
pub open spec fn sse_step(st: SseState, line: Seq<char>) -> Result<SseState, StreamFailure> {
    let t = trim(line);
    if t.len() == 0 {
        match flush(st.name, st.data, st.chunks) {
            Err(e) => Err(e),
            Ok(ch) => Ok(SseState { name: "message"@, data: Seq::empty(), chunks: ch, saw_field: st.saw_field }),
        }
    } else if t[0] == ':' {
        Ok(st)
    } else {
        match sse_field(t) {
            None => Err(StreamFailure::Parse { reason: "encountered non-SSE line: `"@ + t + "`"@ }),
            Some((f, v)) => if f == "event"@ {
                Ok(SseState { name: v, saw_field: true, ..st })
            } else if f == "data"@ {
                if should_flush(st.data, v) {
                    match flush(st.name, st.data, st.chunks) {
                        Err(e) => Err(e),
                        Ok(ch) => Ok(SseState { data: seq![v], chunks: ch, saw_field: true, ..st }),
                    }
                } else {
                    Ok(SseState { data: st.data.push(v), saw_field: true, ..st })
                }
            } else if f == "id"@ || f == "retry"@ {
                Ok(SseState { saw_field: true, ..st })
            } else {
                Err(StreamFailure::Parse { reason: "unsupported SSE field `"@ + f + "`"@ })
            },
        }
    }
}

pub open spec fn sse_start() -> SseState {
    SseState { name: "message"@, data: Seq::empty(), chunks: Seq::empty(), saw_field: false }
}

/// The lines applied in order, stopping at the first failure.
pub open spec fn sse_fold(lines: Seq<Seq<char>>) -> Result<SseState, StreamFailure>
    decreases lines.len(),
{
    if lines.len() == 0 {
        Ok(sse_start())
    } else {
        match sse_fold(lines.drop_last()) {
            Ok(st) => sse_step(st, lines.last()),
            Err(e) => Err(e),
        }
    }
}

/// The chunks of an SSE body.
pub open spec fn sse_stream(raw: Seq<char>) -> Result<Seq<Seq<char>>, StreamFailure> {
    match sse_fold(lines(raw)) {
        Err(e) => Err(e),
        Ok(st) => match flush(st.name, st.data, st.chunks) {
            Err(e) => Err(e),
            Ok(ch) => if !st.saw_field {
                Err(StreamFailure::Parse { reason: "response did not contain supported stream frames"@ })
            } else if ch.len() == 0 {
                Err(StreamFailure::Parse { reason: "stream did not contain any summary text chunks"@ })
            } else {
                Ok(ch)
            },
        },
    }
}

/// The chunks of a summary stream body, or why it is refused.
pub open spec fn summary_stream(raw: Seq<char>) -> Result<Seq<Seq<char>>, StreamFailure> {
    match payload_failure(raw) {
        Some((code, message)) => Err(StreamFailure::Api { code, message }),
        None => if looks_like_html(raw) {
            Err(StreamFailure::Parse { reason: "expected framed summary stream but received HTML"@ })
        } else if looks_prefixed(raw) {
            prefixed_stream(raw)
        } else {
            sse_stream(raw)
        },
    }
}

/// `e` is the error `f` becomes for `endpoint`.
pub open spec fn stream_error(e: KagiError, endpoint: EndpointId, f: StreamFailure) -> bool {
    match f {
        StreamFailure::Api { code, message } => match e {
            KagiError::ApiFailure { endpoint: ep, status, code: c, message: m } => ep == endpoint
                && status == 200 && opt_view(c) == code && m@ == message,
            _ => false,
        },
        StreamFailure::Parse { reason } => match e {
            KagiError::ResponseParse { endpoint: ep, parser, reason: m } => ep == endpoint && parser
                == ParserShape::Stream && m@ == reason,
            _ => false,
        },
    }
}

/// Once a frame fails, the whole stream fails the same way.
proof fn lemma_prefixed_fold_stops(frames: Seq<Seq<char>>, k: int)
    requires
        0 <= k <= frames.len(),
        prefixed_fold(frames.take(k)) is Err,
    ensures
        prefixed_fold(frames) == prefixed_fold(frames.take(k)),
    decreases frames.len() - k,
{
    if k < frames.len() {
        assert(frames.take(k + 1).drop_last() =~= frames.take(k));
        lemma_prefixed_fold_stops(frames, k + 1);
    } else {
        assert(frames.take(k) =~= frames);
    }
}

/// Once a line fails, the whole body fails the same way.
proof fn lemma_sse_fold_stops(lines: Seq<Seq<char>>, k: int)
    requires
        0 <= k <= lines.len(),
        sse_fold(lines.take(k)) is Err,
    ensures
        sse_fold(lines) == sse_fold(lines.take(k)),
    decreases lines.len() - k,
{
    if k < lines.len() {
        assert(lines.take(k + 1).drop_last() =~= lines.take(k));
        lemma_sse_fold_stops(lines, k + 1);
    } else {
        assert(lines.take(k) =~= lines);
    }
}

// ---------------------------------------------------------------------------
// Implementation
// ---------------------------------------------------------------------------

/// Executable form of a stream failure.
enum Fail {
    Api(Option<String>, String),
    Parse(String),
}

spec fn fail_view(f: Fail) -> StreamFailure {
    match f {
        Fail::Api(c, m) => StreamFailure::Api { code: opt_view(c), message: m@ },
        Fail::Parse(r) => StreamFailure::Parse { reason: r@ },
    }
}

spec fn res_view<T>(r: Result<T, Fail>) -> Result<T, StreamFailure> {
    match r {
        Ok(x) => Ok(x),
        Err(f) => Err(fail_view(f)),
    }
}

spec fn opt_chars(o: Option<Vec<char>>) -> Option<Seq<char>> {
    match o {
        Some(v) => Some(v@),
        None => None,
    }
}

spec fn frame_view(r: Result<Option<Vec<char>>, Fail>) -> Result<Option<Seq<char>>, StreamFailure> {
    match r {
        Ok(o) => Ok(opt_chars(o)),
        Err(f) => Err(fail_view(f)),
    }
}

/// `a + b + c` as a string.
fn text3(a: &str, b: &[char], c: &str) -> (r: String)
    ensures
        r@ == a@ + b@ + c@,
{
    let mut v = chars_of(a);
    extend_chars(&mut v, b);
    let tail = chars_of(c);
    extend_chars(&mut v, tail.as_slice());
    string_of(v.as_slice())
}

fn parse_fail(reason: String) -> (r: Fail)
    ensures
        fail_view(r) == (StreamFailure::Parse { reason: reason@ }),
{
    Fail::Parse(reason)
}

fn lit(s: &str) -> (r: Vec<char>)
    ensures
        r@ == s@,
{
    chars_of(s)
}

fn strip_json_space_chars(p: &[char]) -> (r: Vec<char>)
    ensures
        r@ == strip_json_space(p@),
{
    let q = if p.len() > 0 && p[0] == ' ' {
        copy_range(p, 1, p.len())
    } else {
        copy_range(p, 0, p.len())
    };
    proof {
        if p@.len() > 0 && p@[0] == ' ' {
            assert(q@ =~= p@.drop_first());
        } else {
            assert(q@ =~= p@);
        }
    }
    trim_end_newlines_chars(q.as_slice())
}

fn json_like(p: &[char]) -> (r: bool)
    ensures
        r == looks_like_json(p@),
{
    let n = strip_json_space_chars(p);
    n.len() > 0 && (n[0] == '{' || n[0] == '[')
}

fn text_of_event(v: &JsonValue) -> (r: Option<Vec<char>>)
    ensures
        opt_chars(r) == stream_text(*v),
{
    if let Some(s) = get_string(v, "text") {
        return Some(chars_of(s.as_str()));
    }
    if let Some(s) = get_string(v, "delta") {
        return Some(chars_of(s.as_str()));
    }
    if let Some(s) = get_string(v, "content") {
        return Some(chars_of(s.as_str()));
    }
    if let Some(s) = get_string(v, "chunk") {
        return Some(chars_of(s.as_str()));
    }
    let choice = match v.get("choices") {
        Some(c) => match c.as_array() {
            Some(items) => if items.len() > 0 {
                match items[0].get("delta") {
                    Some(d) => get_string(d, "content"),
                    None => None,
                }
            } else {
                None
            },
            None => None,
        },
        None => None,
    };
    if let Some(s) = choice {
        return Some(chars_of(s.as_str()));
    }
    if let Some(s) = get_string(v, "summary") {
        return Some(chars_of(s.as_str()));
    }
    match v.get("message") {
        Some(m) => match get_string(m, "text") {
            Some(s) => Some(chars_of(s.as_str())),
            None => None,
        },
        None => None,
    }
}

fn json_frame(prefix: &[char], payload: &[char]) -> (r: Result<Option<Vec<char>>, Fail>)
    ensures
        frame_view(r) == required_json_frame(prefix@, payload@),
{
    let n = strip_json_space_chars(payload);
    if n.len() == 0 {
        return Err(parse_fail(text3("stream frame `", prefix, "` did not contain JSON payload")));
    }
    let text = string_of(n.as_slice());
    match parse_json(text.as_str()) {
        Err(e) => {
            let head = text3("stream frame `", prefix, "` contained invalid JSON: ");
            Err(parse_fail(head.concat(e.as_str())))
        },
        Ok(v) => Ok(text_of_event(&v)),
    }
}

fn text_or_json(prefix: &[char], payload: &[char]) -> (r: Result<Option<Vec<char>>, Fail>)
    ensures
        frame_view(r) == text_or_json_frame(prefix@, payload@),
{
    let done = lit("[DONE]");
    if chars_eq(payload, done.as_slice()) {
        return Ok(None);
    }
    if json_like(payload) {
        return json_frame(prefix, payload);
    }
    let copy = copy_range(payload, 0, payload.len());
    assert(copy@ =~= payload@);
    Ok(Some(copy))
}

fn frame_payload(prefix: &[char], payload: &[char]) -> (r: Result<Option<Vec<char>>, Fail>)
    ensures
        frame_view(r) == prefixed_frame(prefix@, payload@),
{
    let np = trim_chars(prefix);
    let pt = trim_end_newlines_chars(payload);
    let pt_text = string_of(pt.as_slice());
    if let Some((code, message)) = parse_kagi_failure_payload(pt_text.as_str()) {
        return Err(Fail::Api(code, message));
    }
    let hi = lit("hi");
    let nm = lit("new_message.json");
    let update = lit("update");
    let fin = lit("final");
    if chars_eq(np.as_slice(), hi.as_slice()) {
        Ok(None)
    } else if chars_eq(np.as_slice(), nm.as_slice()) {
        json_frame(np.as_slice(), pt.as_slice())
    } else if chars_eq(np.as_slice(), update.as_slice()) || chars_eq(np.as_slice(), fin.as_slice()) {
        text_or_json(np.as_slice(), pt.as_slice())
    } else {
        Err(parse_fail(text3("unsupported stream frame prefix `", np.as_slice(), "`")))
    }
}

fn split_once_chars(s: &[char], c: char) -> (r: Option<(Vec<char>, Vec<char>)>)
    ensures
        match split_once(s@, c) {
            Some((a, b)) => r matches Some((x, y)) && x@ == a && y@ == b,
            None => r is None,
        },
{
    let found = find_char_from(s, c, 0);
    proof {
        lemma_find_in_suffix(s@, c, 0, found);
        assert(s@.subrange(0, s@.len() as int) =~= s@);
    }
    match found {
        Some(i) => {
            assert(i < s.len());
            Some((copy_range(s, 0, i), copy_range(s, i + 1, s.len())))
        },
        None => None,
    }
}

fn frames_of(raw: &[char]) -> (r: Vec<Vec<char>>)
    ensures
        seqs(r@) == prefixed_frames(raw@),
{
    let nul = find_char_from(raw, '\0', 0);
    proof {
        lemma_find_in_suffix(raw@, '\0', 0, nul);
        assert(raw@.subrange(0, raw@.len() as int) =~= raw@);
    }
    if nul.is_some() {
        let pieces = split_of(raw, '\0');
        let mut r: Vec<Vec<char>> = Vec::new();
        let mut i: usize = 0;
        while i < pieces.len()
            invariant
                i <= pieces@.len(),
                seqs(r@) =~= split_char(raw@, '\0').map_values(|f: Seq<char>| trim_end_newlines(f)).take(i as int),
                seqs(pieces@) == split_char(raw@, '\0'),
            decreases pieces@.len() - i,
        {
            let ghost before = r@;
            r.push(trim_end_newlines_chars(pieces[i].as_slice()));
            proof {
                assert(seqs(r@) =~= seqs(before).push(trim_end_newlines(pieces@[i as int]@)));
                assert(seqs(pieces@)[i as int] == pieces@[i as int]@);
            }
            i = i + 1;
        }
        r
    } else {
        lines_of(raw)
    }
}

fn prefixed(raw: &[char]) -> (r: Result<Vec<Vec<char>>, Fail>)
    ensures
        match r {
            Ok(ch) => prefixed_stream(raw@) == Ok::<Seq<Seq<char>>, StreamFailure>(seqs(ch@)),
            Err(f) => prefixed_stream(raw@) == Err::<Seq<Seq<char>>, StreamFailure>(fail_view(f)),
        },
{
    let frames = frames_of(raw);
    let mut chunks: Vec<Vec<char>> = Vec::new();
    let mut saw = false;
    let mut i: usize = 0;
    assert(seqs(frames@).take(0) =~= Seq::<Seq<char>>::empty());
    assert(seqs(chunks@) =~= Seq::<Seq<char>>::empty());
    while i < frames.len()
        invariant
            i <= frames@.len(),
            seqs(frames@) == prefixed_frames(raw@),
            prefixed_fold(seqs(frames@).take(i as int)) == Ok::<(Seq<Seq<char>>, bool), StreamFailure>((seqs(chunks@), saw)),
        decreases frames@.len() - i,
    {
        let frame = &frames[i];
        let ghost fr = seqs(frames@).take(i + 1);
        proof {
            assert(fr.drop_last() =~= seqs(frames@).take(i as int));
            assert(fr.last() == frame@);
        }
        if frame.len() > 0 {
            match split_once_chars(frame.as_slice(), ':') {
                None => {
                    proof {
                        lemma_prefixed_fold_stops(seqs(frames@), i as int + 1);
                    }
                    return Err(
                        parse_fail(
                            text3(
                                "malformed stream frame without prefix delimiter: `",
                                frame.as_slice(),
                                "`",
                            ),
                        ),
                    );
                },
                Some((p, pl)) => {
                    saw = true;
                    match frame_payload(p.as_slice(), pl.as_slice()) {
                        Err(e) => {
                            proof {
                                lemma_prefixed_fold_stops(seqs(frames@), i as int + 1);
                            }
                            return Err(e);
                        },
                        Ok(Some(c)) => {
                            let ghost before = chunks@;
                            chunks.push(c);
                            proof {
                                assert(seqs(chunks@) =~= seqs(before).push(c@));
                            }
                        },
                        Ok(None) => {},
                    }
                },
            }
        }
        i = i + 1;
    }
    proof {
        assert(seqs(frames@).take(frames@.len() as int) =~= seqs(frames@));
    }
    if !saw {
        return Err(parse_fail(String::from_str("stream did not contain Kagi prefixed frames")));
    }
    if chunks.len() == 0 {
        return Err(parse_fail(String::from_str("stream did not contain any summary text chunks")));
    }
    Ok(chunks)
}

fn error_event_exec(payload: &[char]) -> (r: (Option<String>, String))
    ensures
        (opt_view(r.0), r.1@) == error_event(payload@),
{
    let text = string_of(payload);
    match parse_json(text.as_str()) {
        Err(_) => (None, text),
        Ok(v) => {
            let code = match get_string(&v, "code") {
                Some(c) => Some(c),
                None => match v.get("error") {
                    Some(e) => get_string(e, "code"),
                    None => None,
                },
            };
            let message = match get_string(&v, "message") {
                Some(m) => m,
                None => match get_string(&v, "error") {
                    Some(m) => m,
                    None => {
                        let nested = match v.get("error") {
                            Some(e) => get_string(e, "message"),
                            None => None,
                        };
                        match nested {
                            Some(m) => m,
                            None => text,
                        }
                    },
                },
            };
            (code, message)
        },
    }
}

fn sse_chunk_exec(payload: &[char]) -> (r: Result<Option<Vec<char>>, Fail>)
    ensures
        frame_view(r) == sse_chunk(payload@),
{
    if !json_like(payload) {
        let copy = copy_range(payload, 0, payload.len());
        assert(copy@ =~= payload@);
        return Ok(Some(copy));
    }
    let text = string_of(payload);
    match parse_json(text.as_str()) {
        Err(e) => Err(parse_fail(String::from_str("invalid stream JSON event: ").concat(e.as_str()))),
        Ok(v) => Ok(text_of_event(&v)),
    }
}

fn flush_exec(name: &[char], data: &mut Vec<Vec<char>>, chunks: &mut Vec<Vec<char>>) -> (r: Result<(), Fail>)
    ensures
        match flush(name@, seqs(old(data)@), seqs(old(chunks)@)) {
            Ok(ch) => r is Ok && seqs(final(chunks)@) == ch && final(data)@.len() == 0,
            Err(f) => r matches Err(e) && fail_view(e) == f && final(data)@.len() == 0 && seqs(
                final(chunks)@,
            ) == seqs(old(chunks)@),
        },
        final(data)@.len() == 0,
        r is Ok ==> (seqs(final(chunks)@) == seqs(old(chunks)@) || exists|c: Seq<char>|
            seqs(final(chunks)@) == seqs(old(chunks)@).push(c)),
        old(data)@.len() == 0 ==> (r is Ok && seqs(final(chunks)@) == seqs(old(chunks)@)),
        old(data)@.len() > 0 && name@ == "error"@ && join_with(seqs(old(data)@), "\n"@).len() > 0
            && join_with(seqs(old(data)@), "\n"@) != "[DONE]"@ ==> (r matches Err(Fail::Api(_, _))),
{
    proof {
        law_flush_adds_at_most_one_chunk(name@, seqs(old(data)@), seqs(old(chunks)@));
    }
    if data.len() == 0 {
        return Ok(());
    }
    let nl = lit("\n");
    let payload = join_chars(data, nl.as_slice());
    data.clear();
    let done = lit("[DONE]");
    if payload.len() == 0 || chars_eq(payload.as_slice(), done.as_slice()) {
        return Ok(());
    }
    let error = lit("error");
    if chars_eq(name, error.as_slice()) {
        let (code, message) = error_event_exec(payload.as_slice());
        return Err(Fail::Api(code, message));
    }
    match sse_chunk_exec(payload.as_slice()) {
        Err(e) => Err(e),
        Ok(Some(t)) => {
            let ghost before = chunks@;
            chunks.push(t);
            assert(seqs(chunks@) =~= seqs(before).push(t@));
            Ok(())
        },
        Ok(None) => Ok(()),
    }
}

fn complete_json_line_exec(line: &[char]) -> (r: bool)
    ensures
        r == complete_json_line(line@),
{
    let t = trim_chars(line);
    if t.len() == 0 {
        return false;
    }
    let first = t[0];
    let last = t[t.len() - 1];
    (first == '{' && last == '}') || (first == '[' && last == ']')
}

fn complete_or_done_exec(line: &[char]) -> (r: bool)
    ensures
        r == complete_or_done(line@),
{
    let done = lit("[DONE]");
    complete_json_line_exec(line) || chars_eq(line, done.as_slice())
}

fn should_flush_exec(data: &Vec<Vec<char>>, next: &[char]) -> (r: bool)
    ensures
        r == should_flush(seqs(data@), next@),
{
    if data.len() == 0 {
        return false;
    }
    let mut i: usize = 0;
    while i < data.len()
        invariant
            i <= data@.len(),
            forall|k: int| 0 <= k < i ==> complete_or_done(#[trigger] seqs(data@)[k]),
        decreases data@.len() - i,
    {
        if !complete_or_done_exec(data[i].as_slice()) {
            assert(!complete_or_done(seqs(data@)[i as int]));
            return false;
        }
        i = i + 1;
    }
    complete_or_done_exec(next)
}

fn sse_field_exec(t: &[char]) -> (r: Option<(Vec<char>, Vec<char>)>)
    ensures
        match sse_field(t@) {
            Some((n, v)) => r matches Some((x, y)) && x@ == n && y@ == v,
            None => r is None,
        },
{
    let (n, v) = match split_once_chars(t, ':') {
        Some(parts) => parts,
        None => (copy_range(t, 0, t.len()), Vec::new()),
    };
    proof {
        if split_once(t@, ':') is None {
            assert(n@ =~= t@);
            assert(v@ =~= Seq::<char>::empty());
        }
    }
    if n.len() == 0 {
        return None;
    }
    if v.len() > 0 && v[0] == ' ' {
        let rest = copy_range(v.as_slice(), 1, v.len());
        assert(rest@ =~= v@.drop_first());
        Some((n, rest))
    } else {
        Some((n, v))
    }
}

fn sse(raw: &[char]) -> (r: Result<Vec<Vec<char>>, Fail>)
    ensures
        match r {
            Ok(ch) => sse_stream(raw@) == Ok::<Seq<Seq<char>>, StreamFailure>(seqs(ch@)),
            Err(f) => sse_stream(raw@) == Err::<Seq<Seq<char>>, StreamFailure>(fail_view(f)),
        },
{
    let all = lines_of(raw);
    let mut name = lit("message");
    let mut data: Vec<Vec<char>> = Vec::new();
    let mut chunks: Vec<Vec<char>> = Vec::new();
    let mut saw = false;
    let mut i: usize = 0;
    let ghost ls = seqs(all@);
    assert(ls.take(0) =~= Seq::<Seq<char>>::empty());
    assert(seqs(data@) =~= Seq::<Seq<char>>::empty());
    assert(seqs(chunks@) =~= Seq::<Seq<char>>::empty());
    while i < all.len()
        invariant
            i <= all@.len(),
            ls == seqs(all@),
            ls == lines(raw@),
            sse_fold(ls.take(i as int)) == Ok::<SseState, StreamFailure>(
                SseState { name: name@, data: seqs(data@), chunks: seqs(chunks@), saw_field: saw },
            ),
        decreases all@.len() - i,
    {
        let ghost st = SseState { name: name@, data: seqs(data@), chunks: seqs(chunks@), saw_field: saw };
        proof {
            assert(ls.take(i + 1).drop_last() =~= ls.take(i as int));
            assert(ls.take(i + 1).last() == all@[i as int]@);
        }
        let t = trim_chars(all[i].as_slice());
        if t.len() == 0 {
            match flush_exec(name.as_slice(), &mut data, &mut chunks) {
                Err(e) => {
                    proof {
                        lemma_sse_fold_stops(ls, i as int + 1);
                    }
                    return Err(e);
                },
                Ok(()) => {},
            }
            name = lit("message");
            assert(seqs(data@) =~= Seq::<Seq<char>>::empty());
        } else if t[0] == ':' {
        } else {
            match sse_field_exec(t.as_slice()) {
                None => {
                    proof {
                        lemma_sse_fold_stops(ls, i as int + 1);
                    }
                    return Err(parse_fail(text3("encountered non-SSE line: `", t.as_slice(), "`")));
                },
                Some((f, v)) => {
                    let event = lit("event");
                    let data_name = lit("data");
                    let id = lit("id");
                    let retry = lit("retry");
                    if chars_eq(f.as_slice(), event.as_slice()) {
                        name = v;
                        saw = true;
                    } else if chars_eq(f.as_slice(), data_name.as_slice()) {
                        if should_flush_exec(&data, v.as_slice()) {
                            match flush_exec(name.as_slice(), &mut data, &mut chunks) {
                                Err(e) => {
                                    proof {
                                        lemma_sse_fold_stops(ls, i as int + 1);
                                    }
                                    return Err(e);
                                },
                                Ok(()) => {},
                            }
                            let ghost before = data@;
                            data.push(v);
                            assert(seqs(data@) =~= seq![v@]) by {
                                assert(before.len() == 0);
                            }
                        } else {
                            let ghost before = data@;
                            data.push(v);
                            assert(seqs(data@) =~= seqs(before).push(v@));
                        }
                        saw = true;
                    } else if chars_eq(f.as_slice(), id.as_slice()) || chars_eq(
                        f.as_slice(),
                        retry.as_slice(),
                    ) {
                        saw = true;
                    } else {
                        proof {
                            lemma_sse_fold_stops(ls, i as int + 1);
                        }
                        return Err(parse_fail(text3("unsupported SSE field `", f.as_slice(), "`")));
                    }
                },
            }
        }
        i = i + 1;
    }
    proof {
        assert(ls.take(all@.len() as int) =~= ls);
    }
    match flush_exec(name.as_slice(), &mut data, &mut chunks) {
        Err(e) => {
            return Err(e);
        },
        Ok(()) => {},
    }
    if !saw {
        return Err(parse_fail(String::from_str("response did not contain supported stream frames")));
    }
    if chunks.len() == 0 {
        return Err(parse_fail(String::from_str("stream did not contain any summary text chunks")));
    }
    Ok(chunks)
}

pub(crate) fn body_is_html(raw: &[char]) -> (r: bool)
    ensures
        r == looks_like_html(raw@),
{
    let t = trim_start_chars(raw);
    let n = lower_chars(t.as_slice());
    let a = lit("<!doctype html");
    let b = lit("<html");
    has_prefix(n.as_slice(), a.as_slice()) || has_prefix(n.as_slice(), b.as_slice())
}

fn prefixed_line(line: &[char]) -> (r: bool)
    ensures
        r == is_prefixed_line(line@),
{
    let t = trim_start_chars(line);
    let a = lit("hi:");
    let b = lit("new_message.json:");
    let c = lit("update:");
    let d = lit("final:");
    has_prefix(t.as_slice(), a.as_slice()) || has_prefix(t.as_slice(), b.as_slice()) || has_prefix(
        t.as_slice(),
        c.as_slice(),
    ) || has_prefix(t.as_slice(), d.as_slice())
}

fn uses_prefixed_frames(raw: &[char]) -> (r: bool)
    ensures
        r == looks_prefixed(raw@),
{
    let nul = find_char_from(raw, '\0', 0);
    proof {
        lemma_find_in_suffix(raw@, '\0', 0, nul);
        assert(raw@.subrange(0, raw@.len() as int) =~= raw@);
    }
    if nul.is_some() {
        return true;
    }
    let all = lines_of(raw);
    let mut i: usize = 0;
    while i < all.len()
        invariant
            i <= all@.len(),
            seqs(all@) == lines(raw@),
            forall|k: int| 0 <= k < i ==> !is_prefixed_line(#[trigger] lines(raw@)[k]),
        decreases all@.len() - i,
    {
        if prefixed_line(all[i].as_slice()) {
            assert(is_prefixed_line(lines(raw@)[i as int]));
            return true;
        }
        assert(!is_prefixed_line(lines(raw@)[i as int]));
        i = i + 1;
    }
    false
}

/// Parses a summary stream body: a failure that the whole body reports as a
/// JSON object, an HTML page, Kagi's prefixed frames or server-sent events.
pub fn parse_summary_stream_response(endpoint: EndpointId, raw_body: &str) -> (r: Result<SummaryStreamResponse, KagiError>)
    ensures
        match summary_stream(raw_body@) {
            Ok(ch) => r matches Ok(resp) && strs(resp.chunks@) == ch && resp.text@ == concat_all(ch),
            Err(f) => r matches Err(e) && stream_error(e, endpoint, f),
        },
{
    if let Some((code, message)) = parse_kagi_failure_payload(raw_body) {
        return Err(KagiError::ApiFailure { endpoint, status: 200, code, message });
    }
    let raw = chars_of(raw_body);
    if body_is_html(raw.as_slice()) {
        return Err(
            KagiError::ResponseParse {
                endpoint,
                parser: ParserShape::Stream,
                reason: String::from_str("expected framed summary stream but received HTML"),
            },
        );
    }
    let outcome = if uses_prefixed_frames(raw.as_slice()) {
        prefixed(raw.as_slice())
    } else {
        sse(raw.as_slice())
    };
    match outcome {
        Ok(chunks) => {
            let text = concat_chars(&chunks);
            Ok(SummaryStreamResponse { chunks: strings_of_all(&chunks), text: string_of(text.as_slice()) })
        },
        Err(Fail::Api(code, message)) => Err(KagiError::ApiFailure { endpoint, status: 200, code, message }),
        Err(Fail::Parse(reason)) => Err(
            KagiError::ResponseParse { endpoint, parser: ParserShape::Stream, reason },
        ),
    }
}

} // verus!
