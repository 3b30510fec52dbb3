//! Which backend the server runs on, and what each tool call sends and
//! answers.
//!
//! A tool call is planned here, sent by the caller's HTTP client, and its
//! answer is turned into the tool's output here.

use vstd::prelude::*;

use crate::auth::{
    credentials_kind, credentials_secret, token_problem, BotToken, CredentialKind, Credentials,
    SessionToken,
};
use crate::client::KagiClient;
use crate::config::{config_problem, ClientConfig};
use crate::error::KagiError;
use crate::boundary::{http_url_outcome, is_invalid_input, non_empty_value};
use crate::client::surface_access;
use crate::json::member_str;
use crate::mcp::error::{
    api_failure_tool_text, auth_failure_text, parse_drift_text, startup_config_text,
    tool_failure_text, StartupError, ToolFailure,
};
use crate::mcp::normalize::official::{official_search_outcome, official_summarize_outcome};
use crate::mcp::normalize::session::{first_results, session_source_url};
use crate::mcp::normalize::{official, session};
use crate::mcp::schema::{
    cards_view, SearchToolInput, SearchToolOutput, SummarizeToolInput, SummarizeToolOutput,
};
use crate::official_api::models::{SearchRequest, SummarizeGetRequest, SummarizePostRequest};
use crate::official_api::models::single_member;
use crate::official_api::{envelope_outcome, parse_json_envelope, EnvelopeOutcome};
use crate::parsing::html_search::{html_search_outcome, HtmlOutcome};
use crate::parsing::summarize::{summarize_outcome, SummarizeOutcome};
use crate::routing::{endpoint_name, surface_credential, EndpointId, HttpMethod, ProtocolSurface};
use crate::session_web::models::{HtmlSearchRequest, SummaryLabsTextRequest, SummaryLabsUrlRequest};
use crate::session_web::{
    finish_html_search, finish_summarize, shape_failure, status_failure, ShapeFailure,
};
use crate::text::pairs_view;
use crate::transport::{planned, RequestBody, RequestPlan, TransportResponse};
use crate::text::{blank, chars_of, is_blank, lower, lower_chars, opt_view, trim, trim_chars};

verus! {

/// The variable that names the backend mode.
pub const ENV_BACKEND_MODE: &'static str = "KAGI_MCP_BACKEND";

/// The variable that holds an official bot token.
pub const ENV_API_KEY: &'static str = "KAGI_API_KEY";

/// The variable that holds a session-web token.
pub const ENV_SESSION_TOKEN: &'static str = "KAGI_SESSION_TOKEN";

/// Which backend the server runs on.
#[derive(Debug, Clone, Copy, PartialEq, Eq, Structural)]
pub enum BackendMode {
    /// The official API when a bot token is set, else the session web.
    Auto,
    Official,
    Session,
}

/// The mode a variable's value names: none names `Auto`; otherwise the
/// value, trimmed and lower-cased, must be `auto`, `official` or `session`.
pub open spec fn mode_of(raw: Option<Seq<char>>) -> Option<BackendMode> {
    match raw {
        None => Some(BackendMode::Auto),
        Some(r) => {
            let n = lower(trim(r));
            if n == "auto"@ {
                Some(BackendMode::Auto)
            } else if n == "official"@ {
                Some(BackendMode::Official)
            } else if n == "session"@ {
                Some(BackendMode::Session)
            } else {
                None
            }
        },
    }
}

fn names(normalized: &[char], expected: &str) -> (r: bool)
    ensures
        r == (normalized@ == expected@),
{
    let e = chars_of(expected);
    crate::text::chars_eq(normalized, e.as_slice())
}

impl BackendMode {
    /// The mode `value` names; an unknown name is refused.
    pub fn parse(value: Option<&str>) -> (r: Result<Self, StartupError>)
        ensures
            match mode_of(
                match value {
                    Some(v) => Some(v@),
                    None => None,
                },
            ) {
                Some(m) => r == Ok::<BackendMode, StartupError>(m),
                None => r matches Err(StartupError::InvalidBackendMode { env_var, value: v }) && env_var@
                    == "KAGI_MCP_BACKEND"@ && v@ == value.unwrap()@,
            },
    {
        let raw_mode = match value {
            None => {
                return Ok(BackendMode::Auto);
            },
            Some(v) => v,
        };
        let c = chars_of(raw_mode);
        let t = trim_chars(c.as_slice());
        let n = lower_chars(t.as_slice());
        if names(n.as_slice(), "auto") {
            Ok(BackendMode::Auto)
        } else if names(n.as_slice(), "official") {
            Ok(BackendMode::Official)
        } else if names(n.as_slice(), "session") {
            Ok(BackendMode::Session)
        } else {
            Err(
                StartupError::InvalidBackendMode {
                    env_var: ENV_BACKEND_MODE,
                    value: String::from_str(raw_mode),
                },
            )
        }
    }
}

/// The variables the server reads at startup.
#[derive(Debug, Clone, Default)]
pub struct EnvConfig {
    pub backend_mode: Option<String>,
    pub api_key: Option<String>,
    pub session_token: Option<String>,
}

/// The backend the server runs on, with its client.
#[derive(Debug, Clone)]
pub enum BackendRuntime {
    Official(KagiClient),
    Session(KagiClient),
}

/// The client of a backend.
pub open spec fn runtime_client(b: BackendRuntime) -> KagiClient {
    match b {
        BackendRuntime::Official(c) => c,
        BackendRuntime::Session(c) => c,
    }
}

/// The credential kind a backend is meant for.
pub open spec fn runtime_kind(b: BackendRuntime) -> CredentialKind {
    match b {
        BackendRuntime::Official(_) => CredentialKind::BotToken,
        BackendRuntime::Session(_) => CredentialKind::SessionToken,
    }
}

/// The variable that holds a credential of `kind`.
pub open spec fn env_var_of(kind: CredentialKind) -> Seq<char> {
    match kind {
        CredentialKind::BotToken => "KAGI_API_KEY"@,
        CredentialKind::SessionToken => "KAGI_SESSION_TOKEN"@,
    }
}

/// A variable that is set to something other than whitespace.
pub open spec fn has_credential(value: Option<Seq<char>>) -> bool {
    value matches Some(s) && !is_blank(s)
}

/// The hint added when `official` mode lacks its token but a session token
/// is set.
pub open spec fn official_hint(session_token: Option<Seq<char>>) -> Seq<char> {
    if has_credential(session_token) {
        "; `KAGI_SESSION_TOKEN` is set, so the configured credential may belong to `session` mode. Use `KAGI_API_KEY` for `official`, or set `KAGI_MCP_BACKEND=session` if you intended session-web auth."@
    } else {
        ""@
    }
}

/// The hint added when `session` mode lacks its token but a bot token is
/// set.
pub open spec fn session_hint(api_key: Option<Seq<char>>) -> Seq<char> {
    if has_credential(api_key) {
        "; `KAGI_API_KEY` is set, so the configured credential may belong to `official` mode. Use `KAGI_SESSION_TOKEN` for `session`, or set `KAGI_MCP_BACKEND=official` if you intended bot-token auth."@
    } else {
        ""@
    }
}

/// `r` is the backend built for a credential of `kind` read as `raw`, with
/// `config`: the credential is checked, then the configuration.
pub open spec fn built(kind: CredentialKind, raw: Seq<char>, config: ClientConfig, r: Result<BackendRuntime, StartupError>) -> bool {
    match token_problem(raw) {
        Some(reason) => r matches Err(StartupError::InvalidCredential { env_var, reason: m })
            && env_var@ == env_var_of(kind) && m@ == reason,
        None => match config_problem(config) {
            Some(reason) => r matches Err(StartupError::ClientConstruction { reason: m }) && m@
                == "invalid client configuration: "@ + reason,
            None => r matches Ok(b) && runtime_kind(b) == kind && credentials_kind(
                runtime_client(b).credentials_spec(),
            ) == kind && credentials_secret(runtime_client(b).credentials_spec()) == trim(raw)
                && runtime_client(b).config_spec() == config,
        },
    }
}

/// `r` is the missing-credential error for `env_var` in `mode`.
pub open spec fn missing(r: Result<BackendRuntime, StartupError>, env_var: Seq<char>, mode: Seq<char>, hint: Seq<char>) -> bool {
    r matches Err(StartupError::MissingCredential { env_var: v, mode: m, hint_suffix: h }) && v@
        == env_var && m@ == mode && h@ == hint
}

/// `r` is the backend the variables select: the mode first; in `auto` mode
/// a bot token wins over a session token; a mode without its credential is
/// refused, with a hint when the other credential is set.
pub open spec fn startup_outcome(
    backend_mode: Option<Seq<char>>,
    api_key: Option<Seq<char>>,
    session_token: Option<Seq<char>>,
    config: ClientConfig,
    r: Result<BackendRuntime, StartupError>,
) -> bool {
    match mode_of(backend_mode) {
        None => r matches Err(StartupError::InvalidBackendMode { env_var, value }) && env_var@
            == "KAGI_MCP_BACKEND"@ && value@ == backend_mode.unwrap(),
        Some(BackendMode::Auto) => match api_key {
            Some(k) => built(CredentialKind::BotToken, k, config, r),
            None => match session_token {
                Some(s) => built(CredentialKind::SessionToken, s, config, r),
                None => missing(r, "KAGI_API_KEY"@, "auto"@, ""@),
            },
        },
        Some(BackendMode::Official) => match api_key {
            Some(k) => built(CredentialKind::BotToken, k, config, r),
            None => missing(r, "KAGI_API_KEY"@, "official"@, official_hint(session_token)),
        },
        Some(BackendMode::Session) => match session_token {
            Some(s) => built(CredentialKind::SessionToken, s, config, r),
            None => missing(r, "KAGI_SESSION_TOKEN"@, "session"@, session_hint(api_key)),
        },
    }
}

fn no_hint() -> (r: String)
    ensures
        r@ == ""@,
{
    proof {
        reveal_strlit("");
    }
    let r = String::new();
    assert(r@ =~= ""@);
    r
}

/// Whether `value` is set to something other than whitespace.
pub fn has_non_blank_credential(value: Option<&str>) -> (r: bool)
    ensures
        r == has_credential(
            match value {
                Some(v) => Some(v@),
                None => None,
            },
        ),
{
    match value {
        None => false,
        Some(v) => {
            let c = chars_of(v);
            !blank(c.as_slice())
        },
    }
}

/// The hint for `official` mode without a bot token.
pub fn missing_credential_hint_for_official(session_token: Option<&str>) -> (r: String)
    ensures
        r@ == official_hint(
            match session_token {
                Some(v) => Some(v@),
                None => None,
            },
        ),
{
    if !has_non_blank_credential(session_token) {
        return no_hint();
    }
    String::from_str(
        "; `KAGI_SESSION_TOKEN` is set, so the configured credential may belong to `session` mode. Use `KAGI_API_KEY` for `official`, or set `KAGI_MCP_BACKEND=session` if you intended session-web auth.",
    )
}

/// The hint for `session` mode without a session token.
pub fn missing_credential_hint_for_session(api_key: Option<&str>) -> (r: String)
    ensures
        r@ == session_hint(
            match api_key {
                Some(v) => Some(v@),
                None => None,
            },
        ),
{
    if !has_non_blank_credential(api_key) {
        return no_hint();
    }
    String::from_str(
        "; `KAGI_API_KEY` is set, so the configured credential may belong to `official` mode. Use `KAGI_SESSION_TOKEN` for `session`, or set `KAGI_MCP_BACKEND=official` if you intended bot-token auth.",
    )
}

fn as_opt_str(v: &Option<String>) -> (r: Option<&str>)
    ensures
        match r {
            Some(s) => v matches Some(x) && s@ == x@,
            None => v is None,
        },
{
    match v {
        Some(s) => Some(s.as_str()),
        None => None,
    }
}

impl BackendRuntime {
    /// The backend the variables select, on a client with `config`.
    pub fn from_env_config(env: EnvConfig, config: ClientConfig) -> (r: Result<Self, StartupError>)
        ensures
            startup_outcome(
                opt_view(env.backend_mode),
                opt_view(env.api_key),
                opt_view(env.session_token),
                config,
                r,
            ),
    {
        let mode = match BackendMode::parse(as_opt_str(&env.backend_mode)) {
            Ok(m) => m,
            Err(e) => {
                return Err(e);
            },
        };
        match mode {
            BackendMode::Auto => {
                if let Some(api_key) = &env.api_key {
                    return Self::build_official(api_key.as_str(), config);
                }
                if let Some(session_token) = &env.session_token {
                    return Self::build_session(session_token.as_str(), config);
                }
                Err(
                    StartupError::MissingCredential {
                        env_var: ENV_API_KEY,
                        mode: "auto",
                        hint_suffix: no_hint(),
                    },
                )
            },
            BackendMode::Official => match &env.api_key {
                Some(api_key) => Self::build_official(api_key.as_str(), config),
                None => Err(
                    StartupError::MissingCredential {
                        env_var: ENV_API_KEY,
                        mode: "official",
                        hint_suffix: missing_credential_hint_for_official(
                            as_opt_str(&env.session_token),
                        ),
                    },
                ),
            },
            BackendMode::Session => match &env.session_token {
                Some(session_token) => Self::build_session(session_token.as_str(), config),
                None => Err(
                    StartupError::MissingCredential {
                        env_var: ENV_SESSION_TOKEN,
                        mode: "session",
                        hint_suffix: missing_credential_hint_for_session(as_opt_str(&env.api_key)),
                    },
                ),
            },
        }
    }

    /// The official backend for the bot token `api_key`.
    pub fn build_official(api_key: &str, config: ClientConfig) -> (r: Result<Self, StartupError>)
        ensures
            built(CredentialKind::BotToken, api_key@, config, r),
    {
        let token = match BotToken::new(api_key) {
            Ok(t) => t,
            Err(KagiError::InvalidCredential { reason, .. }) => {
                return Err(StartupError::InvalidCredential { env_var: ENV_API_KEY, reason });
            },
            Err(unexpected) => {
                return Err(StartupError::ClientConstruction { reason: unexpected.message() });
            },
        };
        match KagiClient::new(Credentials::BotToken(token), config) {
            Ok(client) => Ok(BackendRuntime::Official(client)),
            Err(error) => Err(StartupError::ClientConstruction { reason: error.message() }),
        }
    }

    /// The session backend for the session token `session_token`.
    pub fn build_session(session_token: &str, config: ClientConfig) -> (r: Result<Self, StartupError>)
        ensures
            built(CredentialKind::SessionToken, session_token@, config, r),
    {
        let token = match SessionToken::new(session_token) {
            Ok(t) => t,
            Err(KagiError::InvalidCredential { reason, .. }) => {
                return Err(StartupError::InvalidCredential { env_var: ENV_SESSION_TOKEN, reason });
            },
            Err(unexpected) => {
                return Err(StartupError::ClientConstruction { reason: unexpected.message() });
            },
        };
        match KagiClient::new(Credentials::SessionToken(token), config) {
            Ok(client) => Ok(BackendRuntime::Session(client)),
            Err(error) => Err(StartupError::ClientConstruction { reason: error.message() }),
        }
    }
}

/// In `auto` mode a valid bot token wins: the official backend is built
/// whether or not a session token is set.
pub proof fn law_auto_prefers_bot_token(
    backend_mode: Option<Seq<char>>,
    api_key: Seq<char>,
    session_token: Option<Seq<char>>,
    config: ClientConfig,
    r: Result<BackendRuntime, StartupError>,
)
    requires
        mode_of(backend_mode) == Some(BackendMode::Auto),
        token_problem(api_key) is None,
        config_problem(config) is None,
        startup_outcome(backend_mode, Some(api_key), session_token, config, r),
    ensures
        r matches Ok(BackendRuntime::Official(_)),
{
}

/// A backend that starts holds a credential that its surface accepts, so no
/// tool call is refused for the credential's kind.
pub proof fn law_started_backend_can_use_its_surface(
    backend_mode: Option<Seq<char>>,
    api_key: Option<Seq<char>>,
    session_token: Option<Seq<char>>,
    config: ClientConfig,
    r: Result<BackendRuntime, StartupError>,
)
    requires
        startup_outcome(backend_mode, api_key, session_token, config, r),
    ensures
        r matches Ok(b) ==> access_ok(b),
{
}

/// The surface a backend uses.
pub open spec fn runtime_surface(b: BackendRuntime) -> ProtocolSurface {
    match b {
        BackendRuntime::Official(_) => ProtocolSurface::OfficialApi,
        BackendRuntime::Session(_) => ProtocolSurface::SessionWeb,
    }
}

/// The backend's client holds a credential its surface accepts.
pub open spec fn access_ok(b: BackendRuntime) -> bool {
    credentials_kind(runtime_client(b).credentials_spec()) == surface_credential(runtime_surface(b))
}

/// `r` is the refusal of the backend's client on its surface.
pub open spec fn access_refused(b: BackendRuntime, r: Result<RequestPlan, KagiError>) -> bool {
    surface_access(
        credentials_kind(runtime_client(b).credentials_spec()),
        runtime_surface(b),
        match r {
            Ok(_) => Ok(()),
            Err(e) => Err(e),
        },
    )
}

/// `r` plans `endpoint` with `query` on the backend's client.
pub open spec fn planned_on(b: BackendRuntime, endpoint: EndpointId, query: Seq<(Seq<char>, Seq<char>)>, r: Result<RequestPlan, KagiError>) -> bool {
    planned(
        runtime_client(b).config_spec(),
        runtime_client(b).credentials_spec(),
        endpoint,
        query,
        r,
    )
}

/// The endpoint a backend searches with.
pub open spec fn search_endpoint(b: BackendRuntime) -> EndpointId {
    match b {
        BackendRuntime::Official(_) => EndpointId::OfficialSearch,
        BackendRuntime::Session(_) => EndpointId::SessionHtmlSearch,
    }
}

/// `r` is what a search for `query` sends: the query trimmed, as `q`.
pub open spec fn search_planned(b: BackendRuntime, query: Seq<char>, r: Result<RequestPlan, KagiError>) -> bool {
    if !access_ok(b) {
        access_refused(b, r)
    } else {
        match non_empty_value(query) {
            None => r matches Err(e) && is_invalid_input(e, "query"@, "value cannot be empty"@),
            Some(q) => planned_on(b, search_endpoint(b), seq![("q"@, q)], r) && (r matches Ok(p)
                ==> p.body is Empty),
        }
    }
}

/// The endpoint a backend summarizes a URL with.
pub open spec fn summarize_url_endpoint(b: BackendRuntime) -> EndpointId {
    match b {
        BackendRuntime::Official(_) => EndpointId::OfficialSummarizeGet,
        BackendRuntime::Session(_) => EndpointId::SessionSummaryLabsGet,
    }
}

/// The endpoint a backend summarizes a text with.
pub open spec fn summarize_text_endpoint(b: BackendRuntime) -> EndpointId {
    match b {
        BackendRuntime::Official(_) => EndpointId::OfficialSummarizePost,
        BackendRuntime::Session(_) => EndpointId::SessionSummaryLabsPost,
    }
}

/// The body that carries a text to summarize: `{"text": ...}` on the
/// official API, the form `text=...` on the session web.
pub open spec fn text_body(b: BackendRuntime, body: RequestBody, text: Seq<char>) -> bool {
    match b {
        BackendRuntime::Official(_) => body matches RequestBody::Json(j) && single_member(j, "text"@, text),
        BackendRuntime::Session(_) => body matches RequestBody::Form(f) && pairs_view(f@) == seq![
            ("text"@, text),
        ],
    }
}

/// `r` is what a summary of `url` or else `text` sends: the URL in its
/// serialized form as `url`, or the text exactly as given.
pub open spec fn summarize_planned(b: BackendRuntime, url: Option<Seq<char>>, text: Option<Seq<char>>, r: Result<RequestPlan, KagiError>) -> bool {
    if !access_ok(b) {
        access_refused(b, r)
    } else {
        match url {
            Some(u) => match http_url_outcome(u) {
                Err(reason) => r matches Err(e) && is_invalid_input(e, "url"@, reason),
                Ok(href) => planned_on(b, summarize_url_endpoint(b), seq![("url"@, href)], r) && (r matches Ok(
                    p,
                ) ==> p.body is Empty),
            },
            None => {
                let t = text.unwrap();
                if is_blank(t) {
                    r matches Err(e) && is_invalid_input(e, "text"@, "value cannot be blank"@)
                } else {
                    planned_on(b, summarize_text_endpoint(b), Seq::empty(), r) && (r matches Ok(p)
                        ==> text_body(b, p.body, t) && p.method == HttpMethod::Post)
                }
            },
        }
    }
}

/// `r` is a failure with message `text`.
pub open spec fn failed<T>(r: Result<T, ToolFailure>, text: Seq<char>) -> bool {
    r matches Err(f) && f@ == text
}

/// The message of a session-web answer refused before its body is read.
pub open spec fn shape_tool_text(response: TransportResponse, f: ShapeFailure) -> Seq<char> {
    match f {
        ShapeFailure::Http => api_failure_tool_text(
            response.endpoint,
            response.status,
            None,
            response.body@,
        ),
        ShapeFailure::Redirected => auth_failure_text(Some(CredentialKind::SessionToken)),
        ShapeFailure::HtmlBody => auth_failure_text(Some(CredentialKind::SessionToken)),
        ShapeFailure::HtmlContentType => auth_failure_text(Some(CredentialKind::SessionToken)),
        ShapeFailure::NoEventLines => parse_drift_text(
            "summary endpoint response did not contain SSE-style lines"@,
        ),
        ShapeFailure::NotSession => startup_config_text(
            "session validation received non-session endpoint "@ + endpoint_name(response.endpoint),
        ),
    }
}

/// `r` is what the search tool answers on backend `b`, with `limit`, for
/// the transport's `answer`.
pub open spec fn search_answered(b: BackendRuntime, limit: nat, answer: Result<TransportResponse, KagiError>, r: Result<SearchToolOutput, ToolFailure>) -> bool {
    match answer {
        Err(e) => failed(r, tool_failure_text(e)),
        Ok(resp) => match b {
            BackendRuntime::Official(_) => match envelope_outcome(resp.status, resp.body@) {
                EnvelopeOutcome::Data(d) => match official_search_outcome(d, limit) {
                    Ok(cs) => r matches Ok(out) && cards_view(out.results@) == cs
                        && out.total_returned == out.results@.len(),
                    Err(reason) => failed(r, parse_drift_text(reason)),
                },
                EnvelopeOutcome::Parse(reason) => failed(r, parse_drift_text(reason)),
                EnvelopeOutcome::Api(code, m) => failed(
                    r,
                    api_failure_tool_text(resp.endpoint, resp.status, code, m),
                ),
            },
            BackendRuntime::Session(_) => match shape_failure(resp) {
                Some(f) => failed(r, shape_tool_text(resp, f)),
                None => match html_search_outcome(resp.body@) {
                    HtmlOutcome::Results(v) => r matches Ok(out) && cards_view(out.results@)
                        == first_results(v, limit) && out.total_returned == out.results@.len(),
                    HtmlOutcome::Config(reason) => failed(r, startup_config_text(reason)),
                    HtmlOutcome::Parse(reason) => failed(r, parse_drift_text(reason)),
                },
            },
        },
    }
}

/// `r` is what the summarize tool answers on backend `b` for the
/// transport's `answer`; `url` is the URL that was asked for, if any.
pub open spec fn summarize_answered(b: BackendRuntime, url: Option<Seq<char>>, answer: Result<TransportResponse, KagiError>, r: Result<SummarizeToolOutput, ToolFailure>) -> bool {
    match answer {
        Err(e) => failed(r, tool_failure_text(e)),
        Ok(resp) => match b {
            BackendRuntime::Official(_) => match envelope_outcome(resp.status, resp.body@) {
                EnvelopeOutcome::Data(d) => match official_summarize_outcome(d, url) {
                    Ok((markdown, text, source_url)) => r matches Ok(out) && out.markdown@ == markdown
                        && opt_view(out.text) == text && opt_view(out.source_url) == source_url,
                    Err(reason) => failed(r, parse_drift_text(reason)),
                },
                EnvelopeOutcome::Parse(reason) => failed(r, parse_drift_text(reason)),
                EnvelopeOutcome::Api(code, m) => failed(
                    r,
                    api_failure_tool_text(resp.endpoint, resp.status, code, m),
                ),
            },
            BackendRuntime::Session(_) => match status_failure(resp) {
                Some(f) => failed(r, shape_tool_text(resp, f)),
                None => match summarize_outcome(resp.body@) {
                    SummarizeOutcome::Summary { markdown, text, status: _, metadata } => r matches Ok(
                        out,
                    ) && out.markdown@ == markdown && opt_view(out.text) == text && opt_view(
                        out.source_url,
                    ) == session_source_url(metadata, url),
                    SummarizeOutcome::Parse(reason) => failed(r, parse_drift_text(reason)),
                    SummarizeOutcome::Api(code, m) => failed(
                        r,
                        api_failure_tool_text(resp.endpoint, 200, code, m),
                    ),
                },
            },
        },
    }
}

/// A session-web summary of the URL `url`, answered with a summary whose
/// metadata has no string `source_url`, gives that URL as the output's source
/// URL, along with the summary's markdown and text.
pub proof fn law_session_summary_keeps_the_summarized_url(
    client: KagiClient,
    url: Seq<char>,
    response: TransportResponse,
    r: Result<SummarizeToolOutput, ToolFailure>,
)
    requires
        summarize_answered(BackendRuntime::Session(client), Some(url), Ok(response), r),
        status_failure(response) is None,
        summarize_outcome(response.body@) matches SummarizeOutcome::Summary { metadata, .. }
            && member_str(metadata, "source_url"@) is None,
    ensures
        r matches Ok(out) && opt_view(out.source_url) == Some(url),
        summarize_outcome(response.body@) matches SummarizeOutcome::Summary { markdown, text, .. }
            ==> (r matches Ok(out) && out.markdown@ == markdown && opt_view(out.text) == text),
{
}

impl BackendRuntime {
    /// The request a search sends.
    pub fn plan_search(&self, input: &SearchToolInput) -> (r: Result<RequestPlan, KagiError>)
        ensures
            search_planned(*self, input.query@, r),
    {
        match self {
            BackendRuntime::Official(client) => {
                let api = match client.official_api() {
                    Ok(api) => api,
                    Err(e) => {
                        return Err(e);
                    },
                };
                let request = match SearchRequest::new(input.query.as_str()) {
                    Ok(request) => request,
                    Err(e) => {
                        return Err(e);
                    },
                };
                api.plan_search(request)
            },
            BackendRuntime::Session(client) => {
                let web = match client.session_web() {
                    Ok(web) => web,
                    Err(e) => {
                        return Err(e);
                    },
                };
                let request = match HtmlSearchRequest::new(input.query.as_str()) {
                    Ok(request) => request,
                    Err(e) => {
                        return Err(e);
                    },
                };
                web.plan_html_search(request)
            },
        }
    }

    /// The search tool's answer for what the transport returned.
    pub fn finish_search(&self, input: &SearchToolInput, answer: Result<TransportResponse, KagiError>) -> (r: Result<SearchToolOutput, ToolFailure>)
        ensures
            search_answered(*self, input.limit as nat, answer, r),
            r matches Ok(out) ==> out.total_returned <= input.limit,
    {
        let response = match answer {
            Err(e) => {
                return Err(ToolFailure::from_kagi_error(e));
            },
            Ok(response) => response,
        };
        let limit = input.limit_as_usize();
        match self {
            BackendRuntime::Official(_) => match parse_json_envelope(response) {
                Err(e) => Err(ToolFailure::from_kagi_error(e)),
                Ok(data) => official::normalize_search(data, limit),
            },
            BackendRuntime::Session(_) => match finish_html_search(response) {
                Err(e) => Err(ToolFailure::from_kagi_error(e)),
                Ok(page) => Ok(session::normalize_search(page, limit)),
            },
        }
    }

    /// The request a summary sends: of the URL when one is given, else of the
    /// text.
    pub fn plan_summarize(&self, input: &SummarizeToolInput) -> (r: Result<RequestPlan, KagiError>)
        requires
            input.url is Some || input.text is Some,
        ensures
            summarize_planned(*self, opt_view(input.url), opt_view(input.text), r),
    {
        match self {
            BackendRuntime::Official(client) => {
                let api = match client.official_api() {
                    Ok(api) => api,
                    Err(e) => {
                        return Err(e);
                    },
                };
                if let Some(url) = &input.url {
                    let request = match SummarizeGetRequest::new(url.as_str()) {
                        Ok(request) => request,
                        Err(e) => {
                            return Err(e);
                        },
                    };
                    return api.plan_summarize_get(request);
                }
                let text = input.text.as_ref().unwrap();
                let request = match SummarizePostRequest::from_text(text.as_str()) {
                    Ok(request) => request,
                    Err(e) => {
                        return Err(e);
                    },
                };
                api.plan_summarize_post(request)
            },
            BackendRuntime::Session(client) => {
                let web = match client.session_web() {
                    Ok(web) => web,
                    Err(e) => {
                        return Err(e);
                    },
                };
                if let Some(url) = &input.url {
                    let request = match SummaryLabsUrlRequest::new(url.as_str()) {
                        Ok(request) => request,
                        Err(e) => {
                            return Err(e);
                        },
                    };
                    return web.plan_summary_labs_url(request);
                }
                let text = input.text.as_ref().unwrap();
                let request = match SummaryLabsTextRequest::new(text.as_str()) {
                    Ok(request) => request,
                    Err(e) => {
                        return Err(e);
                    },
                };
                web.plan_summary_labs_text(request)
            },
        }
    }

    /// The summarize tool's answer for what the transport returned.
    pub fn finish_summarize(&self, input: &SummarizeToolInput, answer: Result<TransportResponse, KagiError>) -> (r: Result<SummarizeToolOutput, ToolFailure>)
        ensures
            summarize_answered(*self, opt_view(input.url), answer, r),
    {
        let response = match answer {
            Err(e) => {
                return Err(ToolFailure::from_kagi_error(e));
            },
            Ok(response) => response,
        };
        let hint: Option<&str> = match &input.url {
            Some(u) => Some(u.as_str()),
            None => None,
        };
        match self {
            BackendRuntime::Official(_) => match parse_json_envelope(response) {
                Err(e) => Err(ToolFailure::from_kagi_error(e)),
                Ok(data) => official::normalize_summarize(data, hint),
            },
            BackendRuntime::Session(_) => match finish_summarize(response) {
                Err(e) => Err(ToolFailure::from_kagi_error(e)),
                Ok(summary) => Ok(session::normalize_summarize(summary, hint)),
            },
        }
    }
}

} // verus!
