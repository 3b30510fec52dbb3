//! URLs, parsed by the `url` crate.

use vstd::prelude::*;

verus! {

/// What `url::Url::parse` gives for `input`: the URL's scheme and its
/// serialization, or the text of the parse error.
pub uninterp spec fn url_parse(input: Seq<char>) -> Result<(Seq<char>, Seq<char>), Seq<char>>;

/// What `url::Url::join` gives for the URL serialized as `base` and the
/// reference `reference`: the serialization of the joined URL, or the text of
/// the parse error.
pub uninterp spec fn url_join(base: Seq<char>, reference: Seq<char>) -> Result<Seq<char>, Seq<char>>;

/// An absolute URL as `url::Url` parsed it, with its scheme and its
/// serialization.
#[derive(Clone, Debug, PartialEq, Eq)]
pub struct ParsedUrl {
    scheme: String,
    href: String,
}

impl View for ParsedUrl {
    /// (scheme, serialization)
    type V = (Seq<char>, Seq<char>);

    closed spec fn view(&self) -> (Seq<char>, Seq<char>) {
        (self.scheme@, self.href@)
    }
}

impl ParsedUrl {
    /// Parses an absolute URL; an error carries the parser's message.
    pub fn parse(input: &str) -> (r: Result<ParsedUrl, String>)
        ensures
            url_parse(input@) == match r {
                Ok(u) => Ok(u@),
                Err(e) => Err(e@),
            },
    {
        Self::parse_with_url_crate(input)
    }

    /// Calls `url::Url::parse`.
    ///
    /// Trusted: the result is what `Url::parse` returns for `input`, with the
    /// scheme taken from `Url::scheme` and the serialization from
    /// `Url::as_str`; an error carries the parse error's display text.
    #[verifier::external_body]
    fn parse_with_url_crate(input: &str) -> (r: Result<ParsedUrl, String>)
        ensures
            url_parse(input@) == match r {
                Ok(u) => Ok(u@),
                Err(e) => Err(e@),
            },
    {
        match url::Url::parse(input) {
            Ok(url) => Ok(ParsedUrl { scheme: url.scheme().to_string(), href: url.as_str().to_string() }),
            Err(error) => Err(error.to_string()),
        }
    }

    /// `https://kagi.com/`, the serialization `Url::parse("https://kagi.com")`
    /// gives.
    pub fn kagi_default() -> (r: ParsedUrl)
        ensures
            r@ == ("https"@, "https://kagi.com/"@),
    {
        ParsedUrl { scheme: String::from_str("https"), href: String::from_str("https://kagi.com/") }
    }

    /// The URL's scheme, lower-cased, without the `:`.
    pub fn scheme(&self) -> (r: &str)
        ensures
            r@ == self@.0,
    {
        self.scheme.as_str()
    }

    /// The URL's serialization.
    pub fn as_str(&self) -> (r: &str)
        ensures
            r@ == self@.1,
    {
        self.href.as_str()
    }

    /// Resolves `reference` against this URL with `url::Url::join`.
    ///
    /// Trusted: the URL is rebuilt from its serialization with `Url::parse`
    /// (a parsed URL's serialization parses back to the same URL), then the
    /// result is the serialization of what `Url::join` returns, or the display
    /// text of the error.
    #[verifier::external_body]
    pub(crate) fn join(&self, reference: &str) -> (r: Result<String, String>)
        ensures
            url_join(self@.1, reference@) == match r {
                Ok(u) => Ok(u@),
                Err(e) => Err(e@),
            },
    {
        match url::Url::parse(self.href.as_str()).and_then(|base| base.join(reference)) {
            Ok(joined) => Ok(joined.as_str().to_string()),
            Err(error) => Err(error.to_string()),
        }
    }
}

} // verus!
