//! Validated input strings shared by the request models.

use vstd::prelude::*;

use crate::error::KagiError;
use crate::text::{blank, chars_of, is_blank, string_of, trim, trim_chars};
use crate::weburl::{url_parse, ParsedUrl};

verus! {

/// `r` is `InvalidInput` for `field` with reason `reason`.
pub open spec fn is_invalid_input(r: KagiError, field: Seq<char>, reason: Seq<char>) -> bool {
    match r {
        KagiError::InvalidInput { field: f, reason: m } => f@ == field && m@ == reason,
        _ => false,
    }
}

/// A string stored trimmed, never empty.
#[derive(PartialEq, Eq, Hash, Debug)]
pub struct NonEmptyString(String);

impl View for NonEmptyString {
    type V = Seq<char>;

    closed spec fn view(&self) -> Seq<char> {
        self.0@
    }
}

impl Clone for NonEmptyString {
    fn clone(&self) -> (r: Self)
        ensures
            r == *self,
    {
        proof {
            use_type_invariant(self);
        }
        NonEmptyString(self.0.clone())
    }
}

/// What `NonEmptyString::new` keeps of `raw`, or `None` when it refuses it.
pub open spec fn non_empty_value(raw: Seq<char>) -> Option<Seq<char>> {
    if trim(raw).len() == 0 {
        None
    } else {
        Some(trim(raw))
    }
}

impl NonEmptyString {
    /// The string is trimmed and not empty.
    #[verifier::type_invariant]
    spec fn well_formed(self) -> bool {
        self.0@.len() > 0 && trim(self.0@) == self.0@
    }

    /// Trims `value`; refuses it when nothing is left.
    pub fn new(field: &'static str, value: &str) -> (r: Result<Self, KagiError>)
        ensures
            match non_empty_value(value@) {
                Some(v) => r matches Ok(s) && s@ == v,
                None => r matches Err(e) && is_invalid_input(e, field@, "value cannot be empty"@),
            },
    {
        let chars = chars_of(value);
        let trimmed = trim_chars(chars.as_slice());
        if trimmed.len() == 0 {
            return Err(
                KagiError::InvalidInput { field, reason: String::from_str("value cannot be empty") },
            );
        }
        proof {
            crate::text::lemma_trim_idempotent(value@);
        }
        Ok(NonEmptyString(string_of(trimmed.as_slice())))
    }

    /// The string: trimmed and never empty.
    pub fn as_str(&self) -> (r: &str)
        ensures
            r@ == self@,
            r@.len() > 0,
            trim(r@) == r@,
    {
        proof {
            use_type_invariant(self);
        }
        self.0.as_str()
    }
}

/// A string kept exactly as given, refused only when it is all whitespace.
#[derive(PartialEq, Eq, Hash, Debug)]
pub struct NonBlankString(String);

impl View for NonBlankString {
    type V = Seq<char>;

    closed spec fn view(&self) -> Seq<char> {
        self.0@
    }
}

impl Clone for NonBlankString {
    fn clone(&self) -> (r: Self)
        ensures
            r == *self,
    {
        proof {
            use_type_invariant(self);
        }
        NonBlankString(self.0.clone())
    }
}

impl NonBlankString {
    /// The string is not all whitespace.
    #[verifier::type_invariant]
    spec fn well_formed(self) -> bool {
        !is_blank(self.0@)
    }

    /// Keeps `value` unchanged; refuses it when it is empty or all whitespace.
    pub fn new(field: &'static str, value: &str) -> (r: Result<Self, KagiError>)
        ensures
            !is_blank(value@) ==> (r matches Ok(s) && s@ == value@),
            is_blank(value@) ==> (r matches Err(e) && is_invalid_input(e, field@, "value cannot be blank"@)),
    {
        let chars = chars_of(value);
        if blank(chars.as_slice()) {
            return Err(
                KagiError::InvalidInput { field, reason: String::from_str("value cannot be blank") },
            );
        }
        Ok(NonBlankString(String::from_str(value)))
    }

    /// The string as given: never all whitespace.
    pub fn as_str(&self) -> (r: &str)
        ensures
            r@ == self@,
            !is_blank(r@),
    {
        proof {
            use_type_invariant(self);
        }
        self.0.as_str()
    }
}

/// `scheme` is one of the schemes the library sends requests to.
pub open spec fn is_http_scheme(scheme: Seq<char>) -> bool {
    scheme == "http"@ || scheme == "https"@
}

/// Whether `scheme` is `http` or `https`.
pub fn http_scheme(scheme: &str) -> (r: bool)
    ensures
        r == is_http_scheme(scheme@),
{
    let c = chars_of(scheme);
    let http = chars_of("http");
    let https = chars_of("https");
    crate::text::chars_eq(c.as_slice(), http.as_slice()) || crate::text::chars_eq(
        c.as_slice(),
        https.as_slice(),
    )
}

/// What `HttpUrl::new` gives for `raw`: the URL's serialization, or the
/// reason it is refused.
pub open spec fn http_url_outcome(raw: Seq<char>) -> Result<Seq<char>, Seq<char>> {
    match url_parse(raw) {
        Err(e) => Err("invalid URL: "@ + e),
        Ok((scheme, href)) => if is_http_scheme(scheme) {
            Ok(href)
        } else {
            Err("URL must use http or https"@)
        },
    }
}

/// An absolute `http` or `https` URL, stored as its serialization.
#[derive(Clone, PartialEq, Eq, Hash, Debug)]
pub struct HttpUrl(String);

impl View for HttpUrl {
    type V = Seq<char>;

    closed spec fn view(&self) -> Seq<char> {
        self.0@
    }
}

impl HttpUrl {
    /// Parses `value` as an absolute URL and refuses other schemes than
    /// `http` and `https`.
    pub fn new(field: &'static str, value: &str) -> (r: Result<Self, KagiError>)
        ensures
            match http_url_outcome(value@) {
                Ok(href) => r matches Ok(u) && u@ == href,
                Err(reason) => r matches Err(e) && is_invalid_input(e, field@, reason),
            },
    {
        match ParsedUrl::parse(value) {
            Err(source) => Err(
                KagiError::InvalidInput {
                    field,
                    reason: String::from_str("invalid URL: ").concat(source.as_str()),
                },
            ),
            Ok(parsed) => {
                if !http_scheme(parsed.scheme()) {
                    return Err(
                        KagiError::InvalidInput {
                            field,
                            reason: String::from_str("URL must use http or https"),
                        },
                    );
                }
                Ok(HttpUrl(String::from_str(parsed.as_str())))
            },
        }
    }

    pub fn as_str(&self) -> (r: &str)
        ensures
            r@ == self@,
    {
        self.0.as_str()
    }
}

/// A trimmed-non-empty value keeps its content when validated again.
pub proof fn law_non_empty_idempotent(raw: Seq<char>)
    requires
        non_empty_value(raw) is Some,
    ensures
        non_empty_value(trim(raw)) == non_empty_value(raw),
{
    crate::text::lemma_trim_idempotent(raw);
}

} // verus!
