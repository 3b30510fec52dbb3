//! Endpoint metadata: surface, method, route, version, parser shape and the
//! credential each endpoint accepts.

use vstd::prelude::*;

use crate::auth::CredentialKind;

verus! {

/// The two protocol surfaces of Kagi.
#[derive(Debug, Clone, Copy, PartialEq, Eq, Hash, Structural)]
pub enum ProtocolSurface {
    OfficialApi,
    SessionWeb,
}

impl ProtocolSurface {
    /// The name under which the surface is displayed.
    pub fn name(self) -> (r: &'static str)
        ensures
            r@ == surface_name(self),
    {
        match self {
            ProtocolSurface::OfficialApi => "OfficialApi",
            ProtocolSurface::SessionWeb => "SessionWeb",
        }
    }
}

pub open spec fn surface_name(s: ProtocolSurface) -> Seq<char> {
    match s {
        ProtocolSurface::OfficialApi => "OfficialApi"@,
        ProtocolSurface::SessionWeb => "SessionWeb"@,
    }
}

/// API version of a route.
#[derive(Debug, Clone, Copy, PartialEq, Eq, Hash, Structural)]
pub enum ApiVersion {
    V0,
    V1,
    NotApplicable,
}

impl ApiVersion {
    /// The label under which the version is displayed.
    pub fn label(self) -> (r: &'static str)
        ensures
            r@ == version_label(self),
    {
        match self {
            ApiVersion::V0 => "v0",
            ApiVersion::V1 => "v1",
            ApiVersion::NotApplicable => "n/a",
        }
    }
}

pub open spec fn version_label(v: ApiVersion) -> Seq<char> {
    match v {
        ApiVersion::V0 => "v0"@,
        ApiVersion::V1 => "v1"@,
        ApiVersion::NotApplicable => "n/a"@,
    }
}

/// Shape of the response body an endpoint returns.
#[derive(Debug, Clone, Copy, PartialEq, Eq, Hash, Structural)]
pub enum ParserShape {
    JsonEnvelope,
    Html,
    Stream,
}

impl ParserShape {
    /// The variant's name, as its `Debug` output writes it.
    pub fn name(self) -> (r: &'static str)
        ensures
            r@ == parser_name(self),
    {
        match self {
            ParserShape::JsonEnvelope => "JsonEnvelope",
            ParserShape::Html => "Html",
            ParserShape::Stream => "Stream",
        }
    }
}

pub open spec fn parser_name(p: ParserShape) -> Seq<char> {
    match p {
        ParserShape::JsonEnvelope => "JsonEnvelope"@,
        ParserShape::Html => "Html"@,
        ParserShape::Stream => "Stream"@,
    }
}

/// HTTP method of an endpoint.
#[derive(Debug, Clone, Copy, PartialEq, Eq, Hash, Structural)]
pub enum HttpMethod {
    Get,
    Post,
}

/// Every endpoint the library supports.
#[derive(Debug, Clone, Copy, PartialEq, Eq, Hash, Structural)]
pub enum EndpointId {
    OfficialSearch,
    OfficialEnrichWeb,
    OfficialEnrichNews,
    OfficialSummarizeGet,
    OfficialSummarizePost,
    OfficialFastGpt,
    OfficialSmallwebFeed,
    SessionHtmlSearch,
    SessionSummaryLabsGet,
    SessionSummaryLabsPost,
}

/// Metadata of one endpoint.
#[derive(Debug, Clone, Copy)]
pub struct EndpointSpec {
    pub name: &'static str,
    pub surface: ProtocolSurface,
    pub method: HttpMethod,
    pub route: &'static str,
    pub version: ApiVersion,
    pub parser: ParserShape,
    pub allowed_credential: CredentialKind,
}

/// Identifier under which an endpoint is displayed.
pub open spec fn endpoint_name(e: EndpointId) -> Seq<char> {
    match e {
        EndpointId::OfficialSearch => "official.search"@,
        EndpointId::OfficialEnrichWeb => "official.enrich_web"@,
        EndpointId::OfficialEnrichNews => "official.enrich_news"@,
        EndpointId::OfficialSummarizeGet => "official.summarize_get"@,
        EndpointId::OfficialSummarizePost => "official.summarize_post"@,
        EndpointId::OfficialFastGpt => "official.fastgpt"@,
        EndpointId::OfficialSmallwebFeed => "official.smallweb_feed"@,
        EndpointId::SessionHtmlSearch => "session.html_search"@,
        EndpointId::SessionSummaryLabsGet => "session.summary_labs_get"@,
        EndpointId::SessionSummaryLabsPost => "session.summary_labs_post"@,
    }
}

/// Route of an endpoint, relative to the base URL.
pub open spec fn endpoint_route(e: EndpointId) -> Seq<char> {
    match e {
        EndpointId::OfficialSearch => "/api/v0/search"@,
        EndpointId::OfficialEnrichWeb => "/api/v0/enrich/web"@,
        EndpointId::OfficialEnrichNews => "/api/v0/enrich/news"@,
        EndpointId::OfficialSummarizeGet => "/api/v0/summarize"@,
        EndpointId::OfficialSummarizePost => "/api/v0/summarize"@,
        EndpointId::OfficialFastGpt => "/api/v0/fastgpt"@,
        EndpointId::OfficialSmallwebFeed => "/api/v1/smallweb/feed"@,
        EndpointId::SessionHtmlSearch => "/html/search"@,
        EndpointId::SessionSummaryLabsGet => "/mother/summary_labs"@,
        EndpointId::SessionSummaryLabsPost => "/mother/summary_labs/"@,
    }
}

/// The official endpoints are those of the official API surface.
pub open spec fn is_official(e: EndpointId) -> bool {
    match e {
        EndpointId::SessionHtmlSearch
        | EndpointId::SessionSummaryLabsGet
        | EndpointId::SessionSummaryLabsPost => false,
        _ => true,
    }
}

pub open spec fn endpoint_surface(e: EndpointId) -> ProtocolSurface {
    if is_official(e) {
        ProtocolSurface::OfficialApi
    } else {
        ProtocolSurface::SessionWeb
    }
}

pub open spec fn endpoint_method(e: EndpointId) -> HttpMethod {
    match e {
        EndpointId::OfficialSummarizePost
        | EndpointId::OfficialFastGpt
        | EndpointId::SessionSummaryLabsPost => HttpMethod::Post,
        _ => HttpMethod::Get,
    }
}

pub open spec fn endpoint_version(e: EndpointId) -> ApiVersion {
    match e {
        EndpointId::OfficialSmallwebFeed => ApiVersion::V1,
        _ => if is_official(e) {
            ApiVersion::V0
        } else {
            ApiVersion::NotApplicable
        },
    }
}

pub open spec fn endpoint_parser(e: EndpointId) -> ParserShape {
    match e {
        EndpointId::SessionHtmlSearch => ParserShape::Html,
        _ => if is_official(e) {
            ParserShape::JsonEnvelope
        } else {
            ParserShape::Stream
        },
    }
}

/// The credential a surface accepts.
pub open spec fn surface_credential(s: ProtocolSurface) -> CredentialKind {
    match s {
        ProtocolSurface::OfficialApi => CredentialKind::BotToken,
        ProtocolSurface::SessionWeb => CredentialKind::SessionToken,
    }
}

pub open spec fn endpoint_credential(e: EndpointId) -> CredentialKind {
    surface_credential(endpoint_surface(e))
}

/// `r` is the metadata of endpoint `e`.
pub open spec fn spec_matches(e: EndpointId, r: EndpointSpec) -> bool {
    &&& r.name@ == endpoint_name(e)
    &&& r.surface == endpoint_surface(e)
    &&& r.method == endpoint_method(e)
    &&& r.route@ == endpoint_route(e)
    &&& r.version == endpoint_version(e)
    &&& r.parser == endpoint_parser(e)
    &&& r.allowed_credential == endpoint_credential(e)
}

impl EndpointId {
    /// The endpoint's metadata.
    pub fn spec(self) -> (r: EndpointSpec)
        ensures
            spec_matches(self, r),
    {
        match self {
            EndpointId::OfficialSearch => EndpointSpec {
                name: "official.search",
                surface: ProtocolSurface::OfficialApi,
                method: HttpMethod::Get,
                route: "/api/v0/search",
                version: ApiVersion::V0,
                parser: ParserShape::JsonEnvelope,
                allowed_credential: CredentialKind::BotToken,
            },
            EndpointId::OfficialEnrichWeb => EndpointSpec {
                name: "official.enrich_web",
                surface: ProtocolSurface::OfficialApi,
                method: HttpMethod::Get,
                route: "/api/v0/enrich/web",
                version: ApiVersion::V0,
                parser: ParserShape::JsonEnvelope,
                allowed_credential: CredentialKind::BotToken,
            },
            EndpointId::OfficialEnrichNews => EndpointSpec {
                name: "official.enrich_news",
                surface: ProtocolSurface::OfficialApi,
                method: HttpMethod::Get,
                route: "/api/v0/enrich/news",
                version: ApiVersion::V0,
                parser: ParserShape::JsonEnvelope,
                allowed_credential: CredentialKind::BotToken,
            },
            EndpointId::OfficialSummarizeGet => EndpointSpec {
                name: "official.summarize_get",
                surface: ProtocolSurface::OfficialApi,
                method: HttpMethod::Get,
                route: "/api/v0/summarize",
                version: ApiVersion::V0,
                parser: ParserShape::JsonEnvelope,
                allowed_credential: CredentialKind::BotToken,
            },
            EndpointId::OfficialSummarizePost => EndpointSpec {
                name: "official.summarize_post",
                surface: ProtocolSurface::OfficialApi,
                method: HttpMethod::Post,
                route: "/api/v0/summarize",
                version: ApiVersion::V0,
                parser: ParserShape::JsonEnvelope,
                allowed_credential: CredentialKind::BotToken,
            },
            EndpointId::OfficialFastGpt => EndpointSpec {
                name: "official.fastgpt",
                surface: ProtocolSurface::OfficialApi,
                method: HttpMethod::Post,
                route: "/api/v0/fastgpt",
                version: ApiVersion::V0,
                parser: ParserShape::JsonEnvelope,
                allowed_credential: CredentialKind::BotToken,
            },
            EndpointId::OfficialSmallwebFeed => EndpointSpec {
                name: "official.smallweb_feed",
                surface: ProtocolSurface::OfficialApi,
                method: HttpMethod::Get,
                route: "/api/v1/smallweb/feed",
                version: ApiVersion::V1,
                parser: ParserShape::JsonEnvelope,
                allowed_credential: CredentialKind::BotToken,
            },
            EndpointId::SessionHtmlSearch => EndpointSpec {
                name: "session.html_search",
                surface: ProtocolSurface::SessionWeb,
                method: HttpMethod::Get,
                route: "/html/search",
                version: ApiVersion::NotApplicable,
                parser: ParserShape::Html,
                allowed_credential: CredentialKind::SessionToken,
            },
            EndpointId::SessionSummaryLabsGet => EndpointSpec {
                name: "session.summary_labs_get",
                surface: ProtocolSurface::SessionWeb,
                method: HttpMethod::Get,
                route: "/mother/summary_labs",
                version: ApiVersion::NotApplicable,
                parser: ParserShape::Stream,
                allowed_credential: CredentialKind::SessionToken,
            },
            EndpointId::SessionSummaryLabsPost => EndpointSpec {
                name: "session.summary_labs_post",
                surface: ProtocolSurface::SessionWeb,
                method: HttpMethod::Post,
                route: "/mother/summary_labs/",
                version: ApiVersion::NotApplicable,
                parser: ParserShape::Stream,
                allowed_credential: CredentialKind::SessionToken,
            },
        }
    }

    /// The endpoint's display name (`spec().name`).
    pub fn name(self) -> (r: &'static str)
        ensures
            r@ == endpoint_name(self),
    {
        self.spec().name
    }
}

/// Every endpoint accepts exactly the credential of its surface: official
/// routes take a bot token, session-web routes a session token.
pub proof fn law_endpoint_credential_follows_surface(e: EndpointId)
    ensures
        endpoint_credential(e) == CredentialKind::BotToken <==> endpoint_surface(e)
            == ProtocolSurface::OfficialApi,
        endpoint_credential(e) == CredentialKind::SessionToken <==> endpoint_surface(e)
            == ProtocolSurface::SessionWeb,
{
}

/// The endpoints that carry a request body (the summarize `POST`, FastGPT and
/// the summary labs `POST`) are sent with `POST`, as the endpoint matrix
/// lists them; every other endpoint is sent with `GET`.
pub proof fn law_body_endpoints_use_post(e: EndpointId)
    ensures
        endpoint_method(e) == HttpMethod::Post <==> (e == EndpointId::OfficialSummarizePost || e
            == EndpointId::OfficialFastGpt || e == EndpointId::SessionSummaryLabsPost),
        endpoint_method(e) == HttpMethod::Get <==> !(e == EndpointId::OfficialSummarizePost || e
            == EndpointId::OfficialFastGpt || e == EndpointId::SessionSummaryLabsPost),
{
}

/// No two endpoints share a name, nor a method together with a route: each
/// request the library sends names its endpoint unambiguously.
pub proof fn law_endpoints_are_distinct(a: EndpointId, b: EndpointId)
    requires
        a != b,
    ensures
        endpoint_name(a) != endpoint_name(b),
        endpoint_method(a) != endpoint_method(b) || endpoint_route(a) != endpoint_route(b),
{
    reveal_strlit("official.search");
    reveal_strlit("official.enrich_web");
    reveal_strlit("official.enrich_news");
    reveal_strlit("official.summarize_get");
    reveal_strlit("official.summarize_post");
    reveal_strlit("official.fastgpt");
    reveal_strlit("official.smallweb_feed");
    reveal_strlit("session.html_search");
    reveal_strlit("session.summary_labs_get");
    reveal_strlit("session.summary_labs_post");
    reveal_strlit("/api/v0/search");
    reveal_strlit("/api/v0/enrich/web");
    reveal_strlit("/api/v0/enrich/news");
    reveal_strlit("/api/v0/summarize");
    reveal_strlit("/api/v0/fastgpt");
    reveal_strlit("/api/v1/smallweb/feed");
    reveal_strlit("/html/search");
    reveal_strlit("/mother/summary_labs");
    reveal_strlit("/mother/summary_labs/");
    assert("official.search"@.len() == 15);
    assert("official.enrich_web"@.len() == 19);
    assert("official.enrich_news"@.len() == 20);
    assert("official.summarize_get"@.len() == 22);
    assert("official.summarize_post"@.len() == 23);
    assert("official.fastgpt"@.len() == 16);
    assert("official.smallweb_feed"@.len() == 22);
    assert("session.html_search"@.len() == 19);
    assert("session.summary_labs_get"@.len() == 24);
    assert("session.summary_labs_post"@.len() == 25);
    assert("/api/v0/search"@.len() == 14);
    assert("/api/v0/enrich/web"@.len() == 18);
    assert("/api/v0/enrich/news"@.len() == 19);
    assert("/api/v0/summarize"@.len() == 17);
    assert("/api/v0/fastgpt"@.len() == 15);
    assert("/api/v1/smallweb/feed"@.len() == 21);
    assert("/html/search"@.len() == 12);
    assert("/mother/summary_labs"@.len() == 20);
    assert("/mother/summary_labs/"@.len() == 21);
    assert("official.summarize_get"@[10] != "official.smallweb_feed"@[10]);
    assert("official.enrich_web"@[0] != "session.html_search"@[0]);
    assert("/api/v1/smallweb/feed"@[1] != "/mother/summary_labs/"@[1]);
}

/// Official endpoints answer with JSON envelopes under `/api/v0/` or
/// `/api/v1/`, and the route's version segment is the endpoint's version;
/// session-web endpoints have no API version.
pub proof fn law_official_routes_are_versioned(e: EndpointId)
    ensures
        endpoint_surface(e) == ProtocolSurface::OfficialApi ==> {
            &&& endpoint_parser(e) == ParserShape::JsonEnvelope
            &&& endpoint_version(e) == ApiVersion::V0 ==> crate::text::starts_with(
                endpoint_route(e),
                "/api/v0/"@,
            )
            &&& endpoint_version(e) == ApiVersion::V1 ==> crate::text::starts_with(
                endpoint_route(e),
                "/api/v1/"@,
            )
            &&& endpoint_version(e) != ApiVersion::NotApplicable
        },
        endpoint_surface(e) == ProtocolSurface::SessionWeb ==> endpoint_version(e)
            == ApiVersion::NotApplicable,
{
    reveal_strlit("/api/v0/");
    reveal_strlit("/api/v1/");
    reveal_strlit("/api/v0/search");
    reveal_strlit("/api/v0/enrich/web");
    reveal_strlit("/api/v0/enrich/news");
    reveal_strlit("/api/v0/summarize");
    reveal_strlit("/api/v0/fastgpt");
    reveal_strlit("/api/v1/smallweb/feed");
    match e {
        EndpointId::OfficialSearch => {
            assert("/api/v0/search"@.subrange(0, 8) =~= "/api/v0/"@);
        },
        EndpointId::OfficialEnrichWeb => {
            assert("/api/v0/enrich/web"@.subrange(0, 8) =~= "/api/v0/"@);
        },
        EndpointId::OfficialEnrichNews => {
            assert("/api/v0/enrich/news"@.subrange(0, 8) =~= "/api/v0/"@);
        },
        EndpointId::OfficialSummarizeGet | EndpointId::OfficialSummarizePost => {
            assert("/api/v0/summarize"@.subrange(0, 8) =~= "/api/v0/"@);
        },
        EndpointId::OfficialFastGpt => {
            assert("/api/v0/fastgpt"@.subrange(0, 8) =~= "/api/v0/"@);
        },
        EndpointId::OfficialSmallwebFeed => {
            assert("/api/v1/smallweb/feed"@.subrange(0, 8) =~= "/api/v1/"@);
        },
        _ => {},
    }
}

} // verus!
