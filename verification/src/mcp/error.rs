//! Startup errors and the failures the tools report.

use vstd::prelude::*;

use crate::auth::{kind_name, CredentialKind};
use crate::error::KagiError;
use crate::routing::{endpoint_credential, EndpointId};
use crate::text::{
    chars_eq, chars_of, contains_chars, contains_seq, decimal, lower, lower_chars, opt_view,
    string_of, trim, trim_chars, u64_decimal,
};

verus! {

/// Why the server cannot start.
#[derive(Debug)]
pub enum StartupError {
    InvalidBackendMode { env_var: &'static str, value: String },
    MissingCredential { env_var: &'static str, mode: &'static str, hint_suffix: String },
    InvalidCredential { env_var: &'static str, reason: String },
    ClientConstruction { reason: String },
}

/// The text a startup error is displayed with.
pub open spec fn startup_message(e: StartupError) -> Seq<char> {
    match e {
        StartupError::InvalidBackendMode { env_var, value } => "invalid `"@ + env_var@
            + "` value `"@ + value@ + "`; expected one of `auto`, `official`, or `session`"@,
        StartupError::MissingCredential { env_var, mode, hint_suffix } =>
            "missing required credential `"@ + env_var@ + "` for `"@ + mode@ + "` backend mode"@
            + hint_suffix@,
        StartupError::InvalidCredential { env_var, reason } => "invalid credential in `"@
            + env_var@ + "`: "@ + reason@,
        StartupError::ClientConstruction { reason } => "failed to construct Kagi client: "@
            + reason@,
    }
}

impl StartupError {
    /// The text the error is displayed with.
    pub fn message(&self) -> (r: String)
        ensures
            r@ == startup_message(*self),
    {
        match self {
            StartupError::InvalidBackendMode { env_var, value } => String::from_str(
                "invalid `",
            ).concat(env_var).concat("` value `").concat(value.as_str()).concat(
                "`; expected one of `auto`, `official`, or `session`",
            ),
            StartupError::MissingCredential { env_var, mode, hint_suffix } => String::from_str(
                "missing required credential `",
            ).concat(env_var).concat("` for `").concat(mode).concat("` backend mode").concat(
                hint_suffix.as_str(),
            ),
            StartupError::InvalidCredential { env_var, reason } => String::from_str(
                "invalid credential in `",
            ).concat(env_var).concat("`: ").concat(reason.as_str()),
            StartupError::ClientConstruction { reason } => String::from_str(
                "failed to construct Kagi client: ",
            ).concat(reason.as_str()),
        }
    }
}

/// A failure a tool reports to its caller, as one message.
#[derive(Debug)]
pub struct ToolFailure {
    message: String,
}

impl View for ToolFailure {
    type V = Seq<char>;

    closed spec fn view(&self) -> Seq<char> {
        self.message@
    }
}

/// The message of an unexpected answer shape.
pub open spec fn parse_drift_text(reason: Seq<char>) -> Seq<char> {
    "Kagi returned an unexpected response shape for this capability ("@ + reason + ")"@
}

/// The message of a refused credential, with guidance on which variable
/// holds which kind of credential.
pub open spec fn auth_failure_text(expected: Option<CredentialKind>) -> Seq<char> {
    "Authentication failed with Kagi. Verify the configured credential and restart the server."@
        + match expected {
        Some(CredentialKind::BotToken) =>
            " This backend expects an official bot token in `KAGI_API_KEY`; the configured value may belong to session-web auth (`KAGI_SESSION_TOKEN`) instead."@,
        Some(CredentialKind::SessionToken) =>
            " This backend expects a session-web token in `KAGI_SESSION_TOKEN`; the configured value may belong to official bot-token auth (`KAGI_API_KEY`) instead."@,
        None =>
            " `KAGI_API_KEY` should be used only for official bot tokens, and `KAGI_SESSION_TOKEN` should be used only for session-web tokens."@,
    }
}

/// An API failure that is in truth a refused credential: status 401 or 403,
/// an `unauthorized` or `invalid_session` code, or a message that says so.
pub open spec fn indicates_auth_failure(status: u16, code: Option<Seq<char>>, message: Seq<char>) -> bool {
    let n = lower(trim(message));
    ||| status == 401 || status == 403
    ||| (code matches Some(c) && (lower(trim(c)) == "unauthorized"@ || lower(trim(c))
        == "invalid_session"@))
    ||| n == "unauthorized"@ || n == "unauthorized: unauthorized"@ || contains_seq(
        n,
        "invalid session"@,
    )
}

/// The message of an API failure that is not a refused credential.
pub open spec fn api_failure_text(status: u16, code: Option<Seq<char>>, message: Seq<char>) -> Seq<char> {
    if status == 429 {
        "Kagi rate-limited this request (HTTP 429). Retry after a short delay."@
    } else if status >= 500 {
        "Kagi upstream service is currently failing (HTTP "@ + decimal(status as nat)
            + "). Retry later."@
    } else if status < 400 {
        "Kagi reported an application-level failure (HTTP "@ + decimal(status as nat) + "): "@
            + match code {
            Some(c) => c + ": "@ + message,
            None => message,
        }
    } else {
        "Kagi rejected the upstream request (HTTP "@ + decimal(status as nat)
            + "). Verify input and retry."@
    }
}

/// The message of a configuration that cannot work.
pub open spec fn startup_config_text(reason: Seq<char>) -> Seq<char> {
    "Server startup configuration is invalid ("@ + reason + ")."@
}

/// The message a tool reports for a library error.
pub open spec fn tool_failure_text(e: KagiError) -> Seq<char> {
    match e {
        KagiError::InvalidCredential { kind, reason } => "Server credential is invalid for "@
            + kind_name(kind) + ". Update the credential and restart ("@ + reason@ + ")."@,
        KagiError::MissingCredentialConfiguration { reason } => startup_config_text(reason@),
        KagiError::InvalidClientConfiguration { reason } => startup_config_text(reason@),
        KagiError::ConflictingCredentialConfiguration { .. } =>
            "Server startup configuration is invalid (conflicting credential configuration)."@,
        KagiError::InvalidInput { field, reason } =>
            "The server generated an invalid upstream request for `"@ + field@ + "` ("@ + reason@
            + ")."@,
        KagiError::UnsupportedAuthSurface { .. } =>
            "Selected backend mode does not support this capability. Update `KAGI_MCP_BACKEND` and restart."@,
        KagiError::UnsupportedCapability { .. } =>
            "Selected backend mode does not support this capability. Update `KAGI_MCP_BACKEND` and restart."@,
        KagiError::UnauthorizedBotToken { .. } => auth_failure_text(Some(CredentialKind::BotToken)),
        KagiError::InvalidSession { .. } => auth_failure_text(Some(CredentialKind::SessionToken)),
        KagiError::Transport { timed_out, .. } => if timed_out {
            "Kagi request timed out. Retry shortly."@
        } else {
            "Kagi transport request failed. Check network connectivity and retry."@
        },
        KagiError::ResponseParse { reason, .. } => parse_drift_text(reason@),
        KagiError::ApiFailure { endpoint, status, code, message } => api_failure_tool_text(
            endpoint,
            status,
            opt_view(code),
            message@,
        ),
    }
}

/// The message a tool reports for an API failure of `endpoint`.
pub open spec fn api_failure_tool_text(endpoint: EndpointId, status: u16, code: Option<Seq<char>>, message: Seq<char>) -> Seq<char> {
    if indicates_auth_failure(status, code, message) {
        auth_failure_text(Some(endpoint_credential(endpoint)))
    } else {
        api_failure_text(status, code, message)
    }
}

/// A refused credential is reported without the body of the refusal, which
/// may repeat the credential.
pub proof fn law_auth_failures_do_not_repeat_the_body(a: KagiError, b: KagiError)
    requires
        (a is UnauthorizedBotToken && b is UnauthorizedBotToken) || (a is InvalidSession
            && b is InvalidSession),
    ensures
        tool_failure_text(a) == tool_failure_text(b),
{
}

/// The message of a refused credential.
pub fn auth_failure_message(expected: Option<CredentialKind>) -> (r: String)
    ensures
        r@ == auth_failure_text(expected),
{
    let base = String::from_str(
        "Authentication failed with Kagi. Verify the configured credential and restart the server.",
    );
    let guidance = match expected {
        Some(CredentialKind::BotToken) =>
            " This backend expects an official bot token in `KAGI_API_KEY`; the configured value may belong to session-web auth (`KAGI_SESSION_TOKEN`) instead.",
        Some(CredentialKind::SessionToken) =>
            " This backend expects a session-web token in `KAGI_SESSION_TOKEN`; the configured value may belong to official bot-token auth (`KAGI_API_KEY`) instead.",
        None =>
            " `KAGI_API_KEY` should be used only for official bot tokens, and `KAGI_SESSION_TOKEN` should be used only for session-web tokens.",
    };
    base.concat(guidance)
}

fn normalized_is(s: &str, expected: &str) -> (r: bool)
    ensures
        r == (lower(trim(s@)) == expected@),
{
    let c = chars_of(s);
    let t = trim_chars(c.as_slice());
    let l = lower_chars(t.as_slice());
    let e = chars_of(expected);
    chars_eq(l.as_slice(), e.as_slice())
}

/// Tells an API failure that is in truth a refused credential.
pub fn api_failure_indicates_auth_failure(status: u16, code: Option<&str>, message: &str) -> (r: bool)
    ensures
        r == indicates_auth_failure(
            status,
            match code {
                Some(c) => Some(c@),
                None => None,
            },
            message@,
        ),
{
    if status == 401 || status == 403 {
        return true;
    }
    if let Some(raw_code) = code {
        if normalized_is(raw_code, "unauthorized") || normalized_is(raw_code, "invalid_session") {
            return true;
        }
    }
    let c = chars_of(message);
    let t = trim_chars(c.as_slice());
    let n = lower_chars(t.as_slice());
    let phrase = chars_of("invalid session");
    normalized_is(message, "unauthorized") || normalized_is(message, "unauthorized: unauthorized")
        || contains_chars(n.as_slice(), phrase.as_slice())
}

fn status_text(status: u16) -> (r: String)
    ensures
        r@ == decimal(status as nat),
{
    let digits = u64_decimal(status as u64);
    string_of(digits.as_slice())
}

impl ToolFailure {
    /// The message reported to the caller.
    pub fn message(&self) -> (r: &str)
        ensures
            r@ == self@,
    {
        self.message.as_str()
    }

    /// The failure of an answer whose shape was not the expected one.
    pub fn parse_drift(reason: &str) -> (r: Self)
        ensures
            r@ == parse_drift_text(reason@),
    {
        ToolFailure {
            message: String::from_str(
                "Kagi returned an unexpected response shape for this capability (",
            ).concat(reason).concat(")"),
        }
    }

    /// The failure a tool reports for a library error; secrets and raw
    /// bodies of refused credentials are never repeated.
    pub fn from_kagi_error(error: KagiError) -> (r: Self)
        ensures
            r@ == tool_failure_text(error),
    {
        let message = match error {
            KagiError::InvalidCredential { kind, reason } => String::from_str(
                "Server credential is invalid for ",
            ).concat(kind.name()).concat(". Update the credential and restart (").concat(
                reason.as_str(),
            ).concat(")."),
            KagiError::MissingCredentialConfiguration { reason } => String::from_str(
                "Server startup configuration is invalid (",
            ).concat(reason.as_str()).concat(")."),
            KagiError::InvalidClientConfiguration { reason } => String::from_str(
                "Server startup configuration is invalid (",
            ).concat(reason.as_str()).concat(")."),
            KagiError::ConflictingCredentialConfiguration { .. } => String::from_str(
                "Server startup configuration is invalid (conflicting credential configuration).",
            ),
            KagiError::InvalidInput { field, reason } => String::from_str(
                "The server generated an invalid upstream request for `",
            ).concat(field).concat("` (").concat(reason.as_str()).concat(")."),
            KagiError::UnsupportedAuthSurface { .. } => String::from_str(
                "Selected backend mode does not support this capability. Update `KAGI_MCP_BACKEND` and restart.",
            ),
            KagiError::UnsupportedCapability { .. } => String::from_str(
                "Selected backend mode does not support this capability. Update `KAGI_MCP_BACKEND` and restart.",
            ),
            KagiError::UnauthorizedBotToken { .. } => auth_failure_message(
                Some(CredentialKind::BotToken),
            ),
            KagiError::InvalidSession { .. } => auth_failure_message(
                Some(CredentialKind::SessionToken),
            ),
            KagiError::Transport { timed_out, .. } => if timed_out {
                String::from_str("Kagi request timed out. Retry shortly.")
            } else {
                String::from_str(
                    "Kagi transport request failed. Check network connectivity and retry.",
                )
            },
            KagiError::ResponseParse { reason, .. } => {
                return ToolFailure::parse_drift(reason.as_str());
            },
            KagiError::ApiFailure { endpoint, status, code, message } => {
                let code_ref: Option<&str> = match &code {
                    Some(c) => Some(c.as_str()),
                    None => None,
                };
                if api_failure_indicates_auth_failure(status, code_ref, message.as_str()) {
                    let spec = endpoint.spec();
                    auth_failure_message(Some(spec.allowed_credential))
                } else if status == 429 {
                    String::from_str(
                        "Kagi rate-limited this request (HTTP 429). Retry after a short delay.",
                    )
                } else if status >= 500 {
                    String::from_str("Kagi upstream service is currently failing (HTTP ").concat(
                        status_text(status).as_str(),
                    ).concat("). Retry later.")
                } else if status < 400 {
                    let detail = match code {
                        Some(c) => c.concat(": ").concat(message.as_str()),
                        None => message,
                    };
                    String::from_str("Kagi reported an application-level failure (HTTP ").concat(
                        status_text(status).as_str(),
                    ).concat("): ").concat(detail.as_str())
                } else {
                    String::from_str("Kagi rejected the upstream request (HTTP ").concat(
                        status_text(status).as_str(),
                    ).concat("). Verify input and retry.")
                }
            },
        };
        ToolFailure { message }
    }
}

} // verus!
