//! JSON documents as plain values, parsed by `serde_json`.

use serde_json::Value;
use vstd::prelude::*;

use crate::text::{chars_eq, chars_of};

verus! {

/// A JSON number: the value as `i64` when it is an integer that fits, and its
/// text as `serde_json` writes it.
#[derive(Debug, Clone)]
pub struct JsonNumber {
    pub int: Option<i64>,
    pub text: String,
}

/// A JSON document. Object members keep the order in which `serde_json`
/// hands them out.
#[derive(Debug)]
pub enum JsonValue {
    Null,
    Bool(bool),
    Number(JsonNumber),
    String(String),
    Array(Vec<JsonValue>),
    Object(Vec<(String, JsonValue)>),
}

/// What `serde_json::from_str::<serde_json::Value>` gives for `text`, as a
/// `JsonValue`, or the display text of its error when the text is not a JSON
/// document.
pub uninterp spec fn json_parse(text: Seq<char>) -> Result<JsonValue, Seq<char>>;

/// Parses a JSON document with `serde_json`.
///
/// Trusted: the result is `json_parse(text)`. Each `serde_json::Value` is
/// turned into the `JsonValue` variant of the same name; numbers keep
/// `Number::as_i64` and their display text; the elements and members of
/// arrays and objects are converted by writing them back to JSON text and
/// parsing that again, which gives the same value back.
#[verifier::external_body]
fn parse_json_text(text: &str) -> (r: Result<JsonValue, String>)
    ensures
        json_parse(text@) == match r {
            Ok(v) => Ok::<JsonValue, Seq<char>>(v),
            Err(e) => Err(e@),
        },
{
    let again = |v: &Value| parse_json_text(&v.to_string());
    Ok(match serde_json::from_str(text).map_err(|e| e.to_string())? {
        Value::Null => JsonValue::Null,
        Value::Bool(b) => JsonValue::Bool(b),
        Value::Number(n) => JsonValue::Number(JsonNumber { int: n.as_i64(), text: n.to_string() }),
        Value::String(s) => JsonValue::String(s),
        Value::Array(items) => JsonValue::Array(Result::from_iter(items.iter().map(again))?),
        Value::Object(map) => JsonValue::Object(
            Result::<_, String>::from_iter(map.into_iter().map(|(k, v)| Ok((k, again(&v)?))))?,
        ),
    })
}

/// How serde describes, in a type error, the floating-point number that
/// `serde_json` writes as `text`: `floating point` and the value between
/// backquotes.
pub uninterp spec fn float_unexpected(text: Seq<char>) -> Seq<char>;

/// Displays `serde::de::Unexpected::Float` for the number written `text`.
///
/// Trusted: the result is `float_unexpected(text)`. `text` is read back with
/// `str::parse`, which gives the same value that `serde_json` wrote; the
/// rendering (the value's display, with `.0` added when it has no decimal
/// point) is serde's and is not restated here.
#[verifier::external_body]
pub(crate) fn describe_float(text: &str) -> (r: String)
    ensures
        r@ == float_unexpected(text@),
{
    serde::de::Unexpected::Float(text.parse().unwrap_or_default()).to_string()
}

/// Parses a JSON document; an error carries the parser's message.
pub fn parse_json(text: &str) -> (r: Result<JsonValue, String>)
    ensures
        json_parse(text@) == match r {
            Ok(v) => Ok::<JsonValue, Seq<char>>(v),
            Err(e) => Err(e@),
        },
{
    parse_json_text(text)
}

/// The value of the first member named `key`.
pub open spec fn member(entries: Seq<(String, JsonValue)>, key: Seq<char>) -> Option<JsonValue>
    decreases entries.len(),
{
    if entries.len() == 0 {
        None
    } else if entries[0].0@ == key {
        Some(entries[0].1)
    } else {
        member(entries.drop_first(), key)
    }
}

/// `value.get(key)`: the member `key` of an object, `None` for other values.
pub open spec fn json_get(v: JsonValue, key: Seq<char>) -> Option<JsonValue> {
    match v {
        JsonValue::Object(entries) => member(entries@, key),
        _ => None,
    }
}

/// `value.as_str()`.
pub open spec fn json_str(v: JsonValue) -> Option<Seq<char>> {
    match v {
        JsonValue::String(s) => Some(s@),
        _ => None,
    }
}

/// `value.get(key).and_then(Value::as_str)`.
pub open spec fn get_str(v: JsonValue, key: Seq<char>) -> Option<Seq<char>> {
    match json_get(v, key) {
        Some(x) => json_str(x),
        None => None,
    }
}

/// Same lookup, where the value is already known to be an object's members.
pub open spec fn member_str(entries: Seq<(String, JsonValue)>, key: Seq<char>) -> Option<Seq<char>> {
    match member(entries, key) {
        Some(x) => json_str(x),
        None => None,
    }
}

/// `value.as_i64()`.
pub open spec fn json_i64(v: JsonValue) -> Option<i64> {
    match v {
        JsonValue::Number(n) => n.int,
        _ => None,
    }
}

/// `value.as_bool()`.
pub open spec fn json_bool(v: JsonValue) -> Option<bool> {
    match v {
        JsonValue::Bool(b) => Some(b),
        _ => None,
    }
}

/// `value.as_array()`.
pub open spec fn json_array(v: JsonValue) -> Option<Seq<JsonValue>> {
    match v {
        JsonValue::Array(items) => Some(items@),
        _ => None,
    }
}

/// `value.as_object()`.
pub open spec fn json_object(v: JsonValue) -> Option<Seq<(String, JsonValue)>> {
    match v {
        JsonValue::Object(entries) => Some(entries@),
        _ => None,
    }
}

/// The value of the first member named `key`.
pub fn find_member<'a>(entries: &'a Vec<(String, JsonValue)>, key: &str) -> (r: Option<&'a JsonValue>)
    ensures
        match member(entries@, key@) {
            Some(x) => r == Some(&x),
            None => r is None,
        },
{
    let k = chars_of(key);
    let mut i: usize = 0;
    assert(entries@.skip(0) =~= entries@);
    while i < entries.len()
        invariant
            i <= entries@.len(),
            k@ == key@,
            member(entries@, key@) == member(entries@.skip(i as int), key@),
        decreases entries@.len() - i,
    {
        let name = chars_of(entries[i].0.as_str());
        if chars_eq(name.as_slice(), k.as_slice()) {
            return Some(&entries[i].1);
        }
        assert(entries@.skip(i as int).drop_first() =~= entries@.skip(i + 1));
        i = i + 1;
    }
    None
}

impl JsonValue {
    /// `value.get(key)`.
    pub fn get(&self, key: &str) -> (r: Option<&JsonValue>)
        ensures
            match json_get(*self, key@) {
                Some(x) => r == Some(&x),
                None => r is None,
            },
    {
        match self {
            JsonValue::Object(entries) => find_member(entries, key),
            _ => None,
        }
    }

    /// `value.as_str()`.
    pub fn as_str(&self) -> (r: Option<&str>)
        ensures
            match json_str(*self) {
                Some(s) => r matches Some(x) && x@ == s,
                None => r is None,
            },
    {
        match self {
            JsonValue::String(s) => Some(s.as_str()),
            _ => None,
        }
    }

    /// `value.as_i64()`.
    pub fn as_i64(&self) -> (r: Option<i64>)
        ensures
            r == json_i64(*self),
    {
        match self {
            JsonValue::Number(n) => n.int,
            _ => None,
        }
    }

    /// `value.as_bool()`.
    pub fn as_bool(&self) -> (r: Option<bool>)
        ensures
            r == json_bool(*self),
    {
        match self {
            JsonValue::Bool(b) => Some(*b),
            _ => None,
        }
    }

    /// `value.as_array()`.
    pub fn as_array(&self) -> (r: Option<&Vec<JsonValue>>)
        ensures
            match *self {
                JsonValue::Array(items) => r == Some(&items),
                _ => r is None,
            },
    {
        match self {
            JsonValue::Array(items) => Some(items),
            _ => None,
        }
    }

    /// `value.as_object()`.
    pub fn as_object(&self) -> (r: Option<&Vec<(String, JsonValue)>>)
        ensures
            match *self {
                JsonValue::Object(entries) => r == Some(&entries),
                _ => r is None,
            },
    {
        match self {
            JsonValue::Object(entries) => Some(entries),
            _ => None,
        }
    }
}

/// `value.get(key).and_then(Value::as_str)`, copied out.
pub fn get_string(v: &JsonValue, key: &str) -> (r: Option<String>)
    ensures
        match get_str(*v, key@) {
            Some(s) => r matches Some(x) && x@ == s,
            None => r is None,
        },
{
    match v.get(key) {
        Some(x) => match x.as_str() {
            Some(s) => Some(String::from_str(s)),
            None => None,
        },
        None => None,
    }
}

/// `object.get(key).and_then(Value::as_str)` on an object's members.
pub fn member_string(entries: &Vec<(String, JsonValue)>, key: &str) -> (r: Option<String>)
    ensures
        match member_str(entries@, key@) {
            Some(s) => r matches Some(x) && x@ == s,
            None => r is None,
        },
{
    match find_member(entries, key) {
        Some(x) => match x.as_str() {
            Some(s) => Some(String::from_str(s)),
            None => None,
        },
        None => None,
    }
}

/// Index of the first member named `key`.
pub open spec fn member_index(entries: Seq<(String, JsonValue)>, key: Seq<char>) -> Option<int>
    decreases entries.len(),
{
    if entries.len() == 0 {
        None
    } else if entries[0].0@ == key {
        Some(0)
    } else {
        match member_index(entries.drop_first(), key) {
            Some(i) => Some(i + 1),
            None => None,
        }
    }
}

/// `member` is the entry at `member_index`.
pub proof fn lemma_member_index(entries: Seq<(String, JsonValue)>, key: Seq<char>)
    ensures
        match member_index(entries, key) {
            Some(i) => 0 <= i < entries.len() && member(entries, key) == Some(entries[i].1)
                && entries[i].0@ == key,
            None => member(entries, key) is None,
        },
    decreases entries.len(),
{
    if entries.len() > 0 && entries[0].0@ != key {
        lemma_member_index(entries.drop_first(), key);
    }
}

/// Where the first member named `key` is.
pub fn find_member_index(entries: &Vec<(String, JsonValue)>, key: &str) -> (r: Option<usize>)
    ensures
        match r {
            Some(j) => member_index(entries@, key@) == Some(j as int),
            None => member_index(entries@, key@) is None,
        },
{
    let k = chars_of(key);
    let mut i: usize = 0;
    assert(entries@.skip(0) =~= entries@);
    while i < entries.len()
        invariant
            i <= entries@.len(),
            k@ == key@,
            member_index(entries@, key@) == match member_index(entries@.skip(i as int), key@) {
                Some(j) => Some(j + i),
                None => None::<int>,
            },
        decreases entries@.len() - i,
    {
        let name = chars_of(entries[i].0.as_str());
        if chars_eq(name.as_slice(), k.as_slice()) {
            return Some(i);
        }
        assert(entries@.skip(i as int).drop_first() =~= entries@.skip(i + 1));
        i = i + 1;
    }
    None
}

} // verus!
