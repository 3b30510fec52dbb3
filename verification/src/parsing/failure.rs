//! How Kagi reports a failure inside a JSON body: an `error` marker, a
//! `success: false` flag or an error-like `status`, with an optional code and
//! a message.

use vstd::prelude::*;

use crate::json::{
    find_member, get_str, json_bool, json_parse, member, member_str, member_string, parse_json,
    JsonValue,
};
use crate::text::{
    blank, chars_eq, chars_of, i64_decimal, int_decimal, is_blank, lower, lower_chars, opt_view,
    string_of, trim, trim_chars,
};

verus! {

/// Whether an `error` member marks a failure: `null`, `false`, `0`, a blank
/// string and an empty array do not; anything else does.
pub open spec fn is_failure_marker(v: JsonValue) -> bool {
    match v {
        JsonValue::Null => false,
        JsonValue::Bool(b) => b,
        JsonValue::String(s) => !is_blank(s@),
        JsonValue::Number(n) => match n.int {
            Some(x) => x != 0,
            None => true,
        },
        JsonValue::Array(items) => items@.len() > 0,
        JsonValue::Object(_) => true,
    }
}

/// A failure code read from a value: a string as is, an integer in decimal,
/// or the string member `code` of an object.
pub open spec fn value_code(v: JsonValue) -> Option<Seq<char>> {
    match v {
        JsonValue::String(s) => Some(s@),
        JsonValue::Number(n) => match n.int {
            Some(x) => Some(int_decimal(x as int)),
            None => None,
        },
        JsonValue::Object(entries) => member_str(entries@, "code"@),
        _ => None,
    }
}

/// `value_code` of member `key`, if present.
pub open spec fn member_code(entries: Seq<(String, JsonValue)>, key: Seq<char>) -> Option<Seq<char>> {
    match member(entries, key) {
        Some(v) => value_code(v),
        None => None,
    }
}

/// A `status` text that reports a failure, compared trimmed and in ASCII
/// lowercase.
pub open spec fn is_failure_status(status: Seq<char>) -> bool {
    let s = lower(trim(status));
    s == "error"@ || s == "failed"@ || s == "failure"@
}

/// The object reports a failure.
pub open spec fn looks_like_failure(entries: Seq<(String, JsonValue)>) -> bool {
    ||| (match member(entries, "error"@) {
        Some(v) => is_failure_marker(v),
        None => false,
    })
    ||| (match member(entries, "success"@) {
        Some(v) => json_bool(v) == Some(false),
        None => false,
    })
    ||| (match member_str(entries, "status"@) {
        Some(st) => is_failure_status(st),
        None => false,
    })
}

/// The failure's code: from `code`, else from `error`.
pub open spec fn failure_code(entries: Seq<(String, JsonValue)>) -> Option<Seq<char>> {
    match member_code(entries, "code"@) {
        Some(c) => Some(c),
        None => member_code(entries, "error"@),
    }
}

/// The failure's message: `message`, else `error` as a string, else
/// `error.message`, else `output_text`, else a fixed text.
pub open spec fn failure_message(entries: Seq<(String, JsonValue)>) -> Seq<char> {
    match member_str(entries, "message"@) {
        Some(m) => m,
        None => match member_str(entries, "error"@) {
            Some(m) => m,
            None => match (match member(entries, "error"@) {
                Some(e) => get_str(e, "message"@),
                None => None,
            }) {
                Some(m) => m,
                None => match member_str(entries, "output_text"@) {
                    Some(m) => m,
                    None => "unknown Kagi failure"@,
                },
            },
        },
    }
}

/// The failure an object reports, as (code, message).
pub open spec fn object_failure(entries: Seq<(String, JsonValue)>) -> Option<(Option<Seq<char>>, Seq<char>)> {
    if looks_like_failure(entries) {
        Some((failure_code(entries), failure_message(entries)))
    } else {
        None
    }
}

/// The failure a body reports, when it is a JSON object that reports one.
pub open spec fn payload_failure(text: Seq<char>) -> Option<(Option<Seq<char>>, Seq<char>)> {
    match json_parse(text) {
        Ok(JsonValue::Object(entries)) => object_failure(entries@),
        _ => None,
    }
}

/// (code, message) as characters.
pub open spec fn failure_view(f: (Option<String>, String)) -> (Option<Seq<char>>, Seq<char>) {
    (opt_view(f.0), f.1@)
}

pub open spec fn opt_failure_view(f: Option<(Option<String>, String)>) -> Option<(Option<Seq<char>>, Seq<char>)> {
    match f {
        Some(x) => Some(failure_view(x)),
        None => None,
    }
}

/// Whether an `error` member marks a failure.
pub fn failure_marker(v: &JsonValue) -> (r: bool)
    ensures
        r == is_failure_marker(*v),
{
    match v {
        JsonValue::Null => false,
        JsonValue::Bool(b) => *b,
        JsonValue::String(s) => {
            let c = chars_of(s.as_str());
            !blank(c.as_slice())
        },
        JsonValue::Number(n) => match n.int {
            Some(x) => x != 0,
            None => true,
        },
        JsonValue::Array(items) => items.len() > 0,
        JsonValue::Object(_) => true,
    }
}

/// A failure code read from a value.
pub fn code_of_value(v: &JsonValue) -> (r: Option<String>)
    ensures
        opt_view(r) == value_code(*v),
{
    match v {
        JsonValue::String(s) => Some(String::from_str(s.as_str())),
        JsonValue::Number(n) => match n.int {
            Some(x) => {
                let d = i64_decimal(x);
                Some(string_of(d.as_slice()))
            },
            None => None,
        },
        JsonValue::Object(entries) => member_string(entries, "code"),
        _ => None,
    }
}

fn code_of_member(entries: &Vec<(String, JsonValue)>, key: &str) -> (r: Option<String>)
    ensures
        opt_view(r) == member_code(entries@, key@),
{
    match find_member(entries, key) {
        Some(v) => code_of_value(v),
        None => None,
    }
}

fn failure_status(status: &str) -> (r: bool)
    ensures
        r == is_failure_status(status@),
{
    let c = chars_of(status);
    let t = trim_chars(c.as_slice());
    let l = lower_chars(t.as_slice());
    let e1 = chars_of("error");
    let e2 = chars_of("failed");
    let e3 = chars_of("failure");
    chars_eq(l.as_slice(), e1.as_slice()) || chars_eq(l.as_slice(), e2.as_slice()) || chars_eq(
        l.as_slice(),
        e3.as_slice(),
    )
}

/// Whether an object reports a failure.
pub fn reports_failure(entries: &Vec<(String, JsonValue)>) -> (r: bool)
    ensures
        r == looks_like_failure(entries@),
{
    let error_marked = match find_member(entries, "error") {
        Some(v) => failure_marker(v),
        None => false,
    };
    if error_marked {
        return true;
    }
    let success_false = match find_member(entries, "success") {
        Some(v) => match v.as_bool() {
            Some(b) => !b,
            None => false,
        },
        None => false,
    };
    if success_false {
        return true;
    }
    match find_member(entries, "status") {
        Some(v) => match v.as_str() {
            Some(st) => failure_status(st),
            None => false,
        },
        None => false,
    }
}

/// The (code, message) of a failure the object reports.
pub fn failure_details(entries: &Vec<(String, JsonValue)>) -> (r: (Option<String>, String))
    ensures
        failure_view(r) == (failure_code(entries@), failure_message(entries@)),
{
    let code = match code_of_member(entries, "code") {
        Some(c) => Some(c),
        None => code_of_member(entries, "error"),
    };
    let message = match member_string(entries, "message") {
        Some(m) => m,
        None => match member_string(entries, "error") {
            Some(m) => m,
            None => {
                let nested = match find_member(entries, "error") {
                    Some(e) => crate::json::get_string(e, "message"),
                    None => None,
                };
                match nested {
                    Some(m) => m,
                    None => match member_string(entries, "output_text") {
                        Some(m) => m,
                        None => String::from_str("unknown Kagi failure"),
                    },
                }
            },
        },
    };
    (code, message)
}

/// The failure an object reports, if any.
pub fn failure_of_object(entries: &Vec<(String, JsonValue)>) -> (r: Option<(Option<String>, String)>)
    ensures
        opt_failure_view(r) == object_failure(entries@),
{
    if reports_failure(entries) {
        Some(failure_details(entries))
    } else {
        None
    }
}

/// The failure a body reports, when it is a JSON object that reports one.
pub fn parse_kagi_failure_payload(raw_body: &str) -> (r: Option<(Option<String>, String)>)
    ensures
        opt_failure_view(r) == payload_failure(raw_body@),
{
    match parse_json(raw_body) {
        Ok(JsonValue::Object(entries)) => failure_of_object(&entries),
        _ => None,
    }
}

} // verus!
