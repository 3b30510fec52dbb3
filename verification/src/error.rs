//! The library's error model.

use vstd::prelude::*;

use crate::auth::{kind_name, CredentialKind};
use crate::routing::{endpoint_name, parser_name, surface_name, EndpointId, ParserShape, ProtocolSurface};
use crate::text::{debug_opt, debug_opt_of, decimal, opt_view, string_of, u64_decimal};

verus! {

/// Every failure the library reports.
#[derive(Debug)]
pub enum KagiError {
    InvalidCredential { kind: CredentialKind, reason: String },
    MissingCredentialConfiguration { reason: String },
    ConflictingCredentialConfiguration { already_set: CredentialKind, attempted: CredentialKind },
    InvalidInput { field: &'static str, reason: String },
    InvalidClientConfiguration { reason: String },
    UnsupportedAuthSurface {
        surface: ProtocolSurface,
        credential: CredentialKind,
        expected: CredentialKind,
    },
    UnsupportedCapability {
        endpoint: EndpointId,
        credential: CredentialKind,
        expected: CredentialKind,
    },
    /// The HTTP exchange failed; `timed_out` tells a timeout apart, `detail`
    /// is what the HTTP client reported.
    Transport { endpoint: EndpointId, timed_out: bool, detail: String },
    ResponseParse { endpoint: EndpointId, parser: ParserShape, reason: String },
    UnauthorizedBotToken { endpoint: EndpointId, message: String },
    InvalidSession { endpoint: EndpointId, status: u16, message: String },
    ApiFailure { endpoint: EndpointId, status: u16, code: Option<String>, message: String },
}

/// The text an error is displayed with.
pub open spec fn error_message(e: KagiError) -> Seq<char> {
    match e {
        KagiError::InvalidCredential { kind, reason } => "invalid "@ + kind_name(kind)
            + " credential: "@ + reason@,
        KagiError::MissingCredentialConfiguration { reason } => "missing credential configuration: "@
            + reason@,
        KagiError::ConflictingCredentialConfiguration { already_set, attempted } =>
            "conflicting credential configuration: attempted to set "@ + kind_name(attempted)
            + " after "@ + kind_name(already_set),
        KagiError::InvalidInput { field, reason } => "invalid input for `"@ + field@ + "`: "@
            + reason@,
        KagiError::InvalidClientConfiguration { reason } => "invalid client configuration: "@
            + reason@,
        KagiError::UnsupportedAuthSurface { surface, credential, expected } =>
            "unsupported credential/surface combination: "@ + kind_name(credential)
            + " cannot access "@ + surface_name(surface) + "; expected "@ + kind_name(expected),
        KagiError::UnsupportedCapability { endpoint, credential, expected } =>
            "unsupported capability for "@ + endpoint_name(endpoint) + ": provided "@ + kind_name(
            credential,
        ) + ", expected "@ + kind_name(expected),
        KagiError::Transport { endpoint, timed_out, detail } => "network transport failed for "@
            + endpoint_name(endpoint) + ": "@ + detail@,
        KagiError::ResponseParse { endpoint, parser, reason } => "failed to parse "@ + parser_name(
            parser,
        ) + " response for "@ + endpoint_name(endpoint) + ": "@ + reason@,
        KagiError::UnauthorizedBotToken { endpoint, message } => "bot token unauthorized for "@
            + endpoint_name(endpoint) + ": "@ + message@,
        KagiError::InvalidSession { endpoint, status, message } =>
            "session token invalid or expired for "@ + endpoint_name(endpoint) + " (HTTP "@
            + decimal(status as nat) + "): "@ + message@,
        KagiError::ApiFailure { endpoint, status, code, message } => "kagi API failure for "@
            + endpoint_name(endpoint) + " (HTTP "@ + decimal(status as nat) + ", code "@
            + debug_opt(opt_view(code)) + "): "@ + message@,
    }
}

impl KagiError {
    /// The text the error is displayed with.
    pub fn message(&self) -> (r: String)
        ensures
            r@ == error_message(*self),
    {
        match self {
            KagiError::InvalidCredential { kind, reason } => String::from_str("invalid ").concat(
                kind.name(),
            ).concat(" credential: ").concat(reason.as_str()),
            KagiError::MissingCredentialConfiguration { reason } => String::from_str(
                "missing credential configuration: ",
            ).concat(reason.as_str()),
            KagiError::ConflictingCredentialConfiguration { already_set, attempted } =>
                String::from_str("conflicting credential configuration: attempted to set ").concat(
                attempted.name(),
            ).concat(" after ").concat(already_set.name()),
            KagiError::InvalidInput { field, reason } => String::from_str(
                "invalid input for `",
            ).concat(field).concat("`: ").concat(reason.as_str()),
            KagiError::InvalidClientConfiguration { reason } => String::from_str(
                "invalid client configuration: ",
            ).concat(reason.as_str()),
            KagiError::UnsupportedAuthSurface { surface, credential, expected } => String::from_str(
                "unsupported credential/surface combination: ",
            ).concat(credential.name()).concat(" cannot access ").concat(surface.name()).concat(
                "; expected ",
            ).concat(expected.name()),
            KagiError::UnsupportedCapability { endpoint, credential, expected } => String::from_str(
                "unsupported capability for ",
            ).concat(endpoint.name()).concat(": provided ").concat(credential.name()).concat(
                ", expected ",
            ).concat(expected.name()),
            KagiError::Transport { endpoint, timed_out: _, detail } => String::from_str(
                "network transport failed for ",
            ).concat(endpoint.name()).concat(": ").concat(detail.as_str()),
            KagiError::ResponseParse { endpoint, parser, reason } => String::from_str(
                "failed to parse ",
            ).concat(parser.name()).concat(" response for ").concat(endpoint.name()).concat(
                ": ",
            ).concat(reason.as_str()),
            KagiError::UnauthorizedBotToken { endpoint, message } => String::from_str(
                "bot token unauthorized for ",
            ).concat(endpoint.name()).concat(": ").concat(message.as_str()),
            KagiError::InvalidSession { endpoint, status, message } => {
                let digits = u64_decimal(*status as u64);
                String::from_str("session token invalid or expired for ").concat(
                    endpoint.name(),
                ).concat(" (HTTP ").concat(string_of(digits.as_slice()).as_str()).concat(
                    "): ",
                ).concat(message.as_str())
            },
            KagiError::ApiFailure { endpoint, status, code, message } => {
                let digits = u64_decimal(*status as u64);
                let shown = debug_opt_of(code);
                String::from_str("kagi API failure for ").concat(endpoint.name()).concat(
                    " (HTTP ",
                ).concat(string_of(digits.as_slice()).as_str()).concat(", code ").concat(
                    shown.as_str(),
                ).concat("): ").concat(message.as_str())
            },
        }
    }
}

} // verus!
