//! Credentials: bot tokens for the official API, session tokens for the
//! session-web surface.

use vstd::prelude::*;

use crate::error::KagiError;
use crate::text::{chars_of, contains_whitespace, has_ws, string_of, trim, trim_chars};

verus! {

/// The two kinds of credential.
#[derive(Debug, Clone, Copy, PartialEq, Eq, Hash, Structural)]
pub enum CredentialKind {
    BotToken,
    SessionToken,
}

impl CredentialKind {
    /// The name under which the kind is displayed.
    pub fn name(self) -> (r: &'static str)
        ensures
            r@ == kind_name(self),
    {
        match self {
            CredentialKind::BotToken => "BotToken",
            CredentialKind::SessionToken => "SessionToken",
        }
    }
}

pub open spec fn kind_name(k: CredentialKind) -> Seq<char> {
    match k {
        CredentialKind::BotToken => "BotToken"@,
        CredentialKind::SessionToken => "SessionToken"@,
    }
}

/// Why a raw token is refused, if it is.
pub open spec fn token_problem(raw: Seq<char>) -> Option<Seq<char>> {
    if trim(raw).len() == 0 {
        Some("token cannot be empty"@)
    } else if has_ws(trim(raw)) {
        Some("token cannot contain whitespace"@)
    } else {
        None
    }
}

/// `r` is the outcome of validating `raw` as a credential of kind `kind`:
/// the trimmed token, or the `InvalidCredential` error naming the problem.
pub open spec fn token_outcome(raw: Seq<char>, kind: CredentialKind, r: Result<Seq<char>, KagiError>) -> bool {
    match token_problem(raw) {
        None => r == Ok::<Seq<char>, KagiError>(trim(raw)),
        Some(reason) => match r {
            Err(KagiError::InvalidCredential { kind: k, reason: msg }) => k == kind && msg@
                == reason,
            _ => false,
        },
    }
}

/// Trims a raw token and refuses an empty one or one with inner whitespace.
fn parse_token(raw: &str, kind: CredentialKind) -> (r: Result<String, KagiError>)
    ensures
        token_outcome(
            raw@,
            kind,
            match r {
                Ok(s) => Ok(s@),
                Err(e) => Err(e),
            },
        ),
{
    let chars = chars_of(raw);
    let trimmed = trim_chars(chars.as_slice());
    if trimmed.len() == 0 {
        return Err(
            KagiError::InvalidCredential { kind, reason: String::from_str("token cannot be empty") },
        );
    }
    if contains_whitespace(trimmed.as_slice()) {
        return Err(
            KagiError::InvalidCredential {
                kind,
                reason: String::from_str("token cannot contain whitespace"),
            },
        );
    }
    Ok(string_of(trimmed.as_slice()))
}

/// A bot token for the official API.
#[derive(PartialEq, Eq, Hash)]
pub struct BotToken(String);

impl View for BotToken {
    type V = Seq<char>;

    open spec fn view(&self) -> Seq<char> {
        self.secret_view()
    }
}

impl Clone for BotToken {
    fn clone(&self) -> (r: Self)
        ensures
            r == *self,
    {
        proof {
            use_type_invariant(self);
        }
        BotToken(self.0.clone())
    }
}

impl BotToken {
    /// The token is trimmed and passes validation.
    #[verifier::type_invariant]
    spec fn well_formed(self) -> bool {
        token_problem(self.0@) is None && trim(self.0@) == self.0@
    }

    /// The token's characters.
    pub closed spec fn secret_view(&self) -> Seq<char> {
        self.0@
    }

    /// Validates a bot token: surrounding whitespace is dropped, and an empty
    /// token or one with whitespace inside is refused.
    pub fn new(value: &str) -> (r: Result<Self, KagiError>)
        ensures
            token_outcome(
                value@,
                CredentialKind::BotToken,
                match r {
                    Ok(t) => Ok(t@),
                    Err(e) => Err(e),
                },
            ),
    {
        proof {
            crate::text::lemma_trim_idempotent(value@);
        }
        match parse_token(value, CredentialKind::BotToken) {
            Ok(token) => Ok(BotToken(token)),
            Err(e) => Err(e),
        }
    }

    /// The secret itself.
    pub(crate) fn as_secret(&self) -> (r: &str)
        ensures
            r@ == self@,
    {
        self.0.as_str()
    }

    /// The text that the token's `Debug` output shows: never the secret.
    pub fn redacted(&self) -> (r: &'static str)
        ensures
            r@ == "BotToken(REDACTED)"@,
    {
        "BotToken(REDACTED)"
    }
}

/// A session token for the session-web surface.
#[derive(PartialEq, Eq, Hash)]
pub struct SessionToken(String);

impl View for SessionToken {
    type V = Seq<char>;

    open spec fn view(&self) -> Seq<char> {
        self.secret_view()
    }
}

impl Clone for SessionToken {
    fn clone(&self) -> (r: Self)
        ensures
            r == *self,
    {
        proof {
            use_type_invariant(self);
        }
        SessionToken(self.0.clone())
    }
}

impl SessionToken {
    /// The token is trimmed and passes validation.
    #[verifier::type_invariant]
    spec fn well_formed(self) -> bool {
        token_problem(self.0@) is None && trim(self.0@) == self.0@
    }

    /// The token's characters.
    pub closed spec fn secret_view(&self) -> Seq<char> {
        self.0@
    }

    /// Validates a session token with the same rules as a bot token.
    pub fn new(value: &str) -> (r: Result<Self, KagiError>)
        ensures
            token_outcome(
                value@,
                CredentialKind::SessionToken,
                match r {
                    Ok(t) => Ok(t@),
                    Err(e) => Err(e),
                },
            ),
    {
        proof {
            crate::text::lemma_trim_idempotent(value@);
        }
        match parse_token(value, CredentialKind::SessionToken) {
            Ok(token) => Ok(SessionToken(token)),
            Err(e) => Err(e),
        }
    }

    /// The secret itself.
    pub(crate) fn as_secret(&self) -> (r: &str)
        ensures
            r@ == self@,
    {
        self.0.as_str()
    }

    /// The text that the token's `Debug` output shows: never the secret.
    pub fn redacted(&self) -> (r: &'static str)
        ensures
            r@ == "SessionToken(REDACTED)"@,
    {
        "SessionToken(REDACTED)"
    }
}

#[verifier::external_type_specification]
#[verifier::external_body]
pub struct ExFormatter<'a>(core::fmt::Formatter<'a>);

#[verifier::external_type_specification]
#[verifier::external_body]
pub struct ExFmtError(core::fmt::Error);

/// `Formatter::write_str`: writes `text` to the formatter.
///
/// Trusted: nothing is stated of what it returns, since the formatter's
/// sink is std's; it writes `text` and nothing else.
#[verifier::external_body]
fn write_text(formatter: &mut core::fmt::Formatter<'_>, text: &str) -> core::fmt::Result {
    formatter.write_str(text)
}

impl core::fmt::Debug for BotToken {
    /// Writes `BotToken(REDACTED)`, never the secret.
    fn fmt(&self, formatter: &mut core::fmt::Formatter<'_>) -> core::fmt::Result {
        write_text(formatter, self.redacted())
    }
}

impl core::fmt::Debug for SessionToken {
    /// Writes `SessionToken(REDACTED)`, never the secret.
    fn fmt(&self, formatter: &mut core::fmt::Formatter<'_>) -> core::fmt::Result {
        write_text(formatter, self.redacted())
    }
}

/// A credential of either kind.
#[derive(Clone, PartialEq, Eq, Hash, Debug)]
pub enum Credentials {
    BotToken(BotToken),
    SessionToken(SessionToken),
}

pub open spec fn credentials_kind(c: Credentials) -> CredentialKind {
    match c {
        Credentials::BotToken(_) => CredentialKind::BotToken,
        Credentials::SessionToken(_) => CredentialKind::SessionToken,
    }
}

/// The token a credential holds.
pub open spec fn credentials_secret(c: Credentials) -> Seq<char> {
    match c {
        Credentials::BotToken(t) => t@,
        Credentials::SessionToken(t) => t@,
    }
}

/// Where a credential travels in a request.
#[derive(Debug, Clone, Copy, PartialEq, Eq, Structural)]
pub enum AuthHeader {
    /// `Authorization: Bot <token>`.
    Authorization,
    /// `Cookie: kagi_session=<token>`.
    Cookie,
}

/// The header and header value that carry credential `c`.
pub open spec fn auth_header_of(c: Credentials) -> (AuthHeader, Seq<char>) {
    match c {
        Credentials::BotToken(t) => (AuthHeader::Authorization, "Bot "@ + t@),
        Credentials::SessionToken(t) => (AuthHeader::Cookie, "kagi_session="@ + t@),
    }
}

/// A character that an HTTP header value may hold: a tab, or anything from a
/// space up but DEL. (A character from U+0080 up is written in UTF-8 with
/// bytes that are all 0x80 or more, which a header value accepts.)
pub open spec fn header_char_ok(c: char) -> bool {
    c == '\t' || (32 <= (c as u32) && (c as u32) != 127)
}

/// Every character of `value` may stand in an HTTP header value.
pub open spec fn header_encodable(value: Seq<char>) -> bool {
    forall|i: int| 0 <= i < value.len() ==> header_char_ok(#[trigger] value[i])
}

/// What `HeaderValue::from_str` reports for a value it refuses.
pub open spec fn header_refusal() -> Seq<char> {
    "failed to parse header value"@
}

/// `reqwest::header::HeaderValue::from_str` (the `http` crate's).
///
/// Trusted: it accepts `value` exactly when each byte of its UTF-8 form is a
/// tab, or at least 32 and not 127, which is `header_encodable`; an error
/// displays as `failed to parse header value`.
#[verifier::external_body]
pub(crate) fn check_header_value(value: &str) -> (r: Result<(), String>)
    ensures
        r is Ok <==> header_encodable(value@),
        r matches Err(e) ==> e@ == header_refusal(),
{
    reqwest::header::HeaderValue::from_str(value).map(|_| ()).map_err(|error| error.to_string())
}

/// The error for a credential whose header value HTTP cannot carry.
pub open spec fn header_encoding_failure(c: Credentials, r: KagiError) -> bool {
    r matches KagiError::InvalidCredential { kind, reason } && kind == credentials_kind(c) && reason@
        == (match c {
        Credentials::BotToken(_) => "token could not be encoded as header: "@,
        Credentials::SessionToken(_) => "token could not be encoded as cookie: "@,
    }) + header_refusal()
}

impl Credentials {
    /// The kind of the credential.
    pub fn kind(&self) -> (r: CredentialKind)
        ensures
            r == credentials_kind(*self),
    {
        match self {
            Credentials::BotToken(_) => CredentialKind::BotToken,
            Credentials::SessionToken(_) => CredentialKind::SessionToken,
        }
    }

    /// The header that carries the credential and its value: a bot token goes
    /// in `Authorization` as `Bot <token>`, a session token in `Cookie` as
    /// `kagi_session=<token>`.
    pub fn auth_header(&self) -> (r: (AuthHeader, String))
        ensures
            (r.0, r.1@) == auth_header_of(*self),
    {
        match self {
            Credentials::BotToken(t) => {
                let v = String::from_str("Bot ").concat(t.as_secret());
                (AuthHeader::Authorization, v)
            },
            Credentials::SessionToken(t) => {
                let v = String::from_str("kagi_session=").concat(t.as_secret());
                (AuthHeader::Cookie, v)
            },
        }
    }

    /// The error for a credential that HTTP cannot carry as a header value;
    /// `detail` is what the header encoder reported.
    pub fn header_encoding_error(&self, detail: &str) -> (r: KagiError)
        ensures
            r == (match *self {
                Credentials::BotToken(_) => KagiError::InvalidCredential {
                    kind: CredentialKind::BotToken,
                    reason: r->InvalidCredential_reason,
                },
                Credentials::SessionToken(_) => KagiError::InvalidCredential {
                    kind: CredentialKind::SessionToken,
                    reason: r->InvalidCredential_reason,
                },
            }),
            r->InvalidCredential_reason@ == (match *self {
                Credentials::BotToken(_) => "token could not be encoded as header: "@,
                Credentials::SessionToken(_) => "token could not be encoded as cookie: "@,
            }) + detail@,
    {
        match self {
            Credentials::BotToken(_) => KagiError::InvalidCredential {
                kind: CredentialKind::BotToken,
                reason: String::from_str("token could not be encoded as header: ").concat(detail),
            },
            Credentials::SessionToken(_) => KagiError::InvalidCredential {
                kind: CredentialKind::SessionToken,
                reason: String::from_str("token could not be encoded as cookie: ").concat(detail),
            },
        }
    }
}

impl From<BotToken> for Credentials {
    fn from(value: BotToken) -> (r: Self) {
        Credentials::BotToken(value)
    }
}

impl vstd::std_specs::convert::FromSpecImpl<BotToken> for Credentials {
    open spec fn obeys_from_spec() -> bool {
        true
    }

    open spec fn from_spec(v: BotToken) -> Self {
        Credentials::BotToken(v)
    }
}

impl From<SessionToken> for Credentials {
    fn from(value: SessionToken) -> (r: Self) {
        Credentials::SessionToken(value)
    }
}

impl vstd::std_specs::convert::FromSpecImpl<SessionToken> for Credentials {
    open spec fn obeys_from_spec() -> bool {
        true
    }

    open spec fn from_spec(v: SessionToken) -> Self {
        Credentials::SessionToken(v)
    }
}

/// A token that `new` accepted is accepted again, unchanged, when given back
/// to `new`: validation is idempotent.
pub proof fn law_token_validation_idempotent(raw: Seq<char>)
    requires
        token_problem(raw) is None,
    ensures
        token_problem(trim(raw)) is None,
        trim(trim(raw)) == trim(raw),
{
    crate::text::lemma_trim_idempotent(raw);
}

} // verus!
