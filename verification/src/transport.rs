//! What a request is made of before it goes on the wire, and how an HTTP
//! answer is classified when it comes back. The exchange itself is done by
//! the caller's HTTP client.

use vstd::prelude::*;

use crate::auth::{
    auth_header_of, check_header_value, credentials_kind, header_encodable, header_encoding_failure,
    AuthHeader, Credentials,
};
use crate::config::ClientConfig;
use crate::error::KagiError;
use crate::json::JsonValue;
use crate::routing::{
    endpoint_credential, endpoint_method, endpoint_name, endpoint_route, endpoint_surface,
    EndpointId, HttpMethod, ProtocolSurface,
};
use crate::text::pairs_view;
use crate::weburl::url_join;

verus! {

/// The body of a request.
#[derive(Debug)]
pub enum RequestBody {
    Empty,
    Json(JsonValue),
    Form(Vec<(String, String)>),
}

/// Everything needed to send one request.
#[derive(Debug)]
pub struct RequestPlan {
    pub endpoint: EndpointId,
    pub method: HttpMethod,
    /// The absolute URL: the endpoint's route joined to the base URL.
    pub url: String,
    pub auth: AuthHeader,
    pub auth_value: String,
    pub query: Vec<(String, String)>,
    pub body: RequestBody,
}

/// `r` is the plan for sending `query` to `endpoint` with `credentials`
/// through `config`; the body is checked separately.
pub open spec fn planned(
    config: ClientConfig,
    credentials: Credentials,
    endpoint: EndpointId,
    query: Seq<(Seq<char>, Seq<char>)>,
    r: Result<RequestPlan, KagiError>,
) -> bool {
    if credentials_kind(credentials) != endpoint_credential(endpoint) {
        r matches Err(KagiError::UnsupportedCapability { endpoint: ep, credential, expected }) && ep
            == endpoint && credential == credentials_kind(credentials) && expected
            == endpoint_credential(endpoint)
    } else if !header_encodable(auth_header_of(credentials).1) {
        r matches Err(e) && header_encoding_failure(credentials, e)
    } else {
        match url_join(config.base_url@.1, endpoint_route(endpoint)) {
            Err(e) => r matches Err(KagiError::InvalidClientConfiguration { reason }) && reason@
                == "invalid route join for "@ + endpoint_name(endpoint) + ": "@ + e,
            Ok(url) => r matches Ok(p) && p.endpoint == endpoint && p.method == endpoint_method(
                endpoint,
            ) && p.url@ == url && (p.auth, p.auth_value@) == auth_header_of(credentials)
                && pairs_view(p.query@) == query,
        }
    }
}

/// Plans a request: refuses a credential the endpoint does not accept, then
/// one whose header value HTTP cannot carry, then joins the route to the
/// base URL.
pub fn plan_request(
    config: &ClientConfig,
    credentials: &Credentials,
    endpoint: EndpointId,
    query: Vec<(String, String)>,
    body: RequestBody,
) -> (r: Result<RequestPlan, KagiError>)
    ensures
        planned(*config, *credentials, endpoint, pairs_view(query@), r),
        r matches Ok(p) ==> p.body == body,
{
    let spec = endpoint.spec();
    let provided = credentials.kind();
    if provided != spec.allowed_credential {
        return Err(
            KagiError::UnsupportedCapability {
                endpoint,
                credential: provided,
                expected: spec.allowed_credential,
            },
        );
    }
    let (auth, auth_value) = credentials.auth_header();
    if let Err(detail) = check_header_value(auth_value.as_str()) {
        return Err(credentials.header_encoding_error(detail.as_str()));
    }
    match config.base_url.join(spec.route) {
        Err(source) => {
            let reason = String::from_str("invalid route join for ").concat(spec.name).concat(
                ": ",
            ).concat(source.as_str());
            Err(KagiError::InvalidClientConfiguration { reason })
        },
        Ok(url) => {
            Ok(RequestPlan { endpoint, method: spec.method, url, auth, auth_value, query, body })
        },
    }
}

/// A request is only planned with a credential that its endpoint accepts and
/// that HTTP can carry, and the credential travels in the header of the
/// endpoint's surface: `Authorization` on the official API, `Cookie` on the
/// session web.
pub proof fn law_plans_carry_an_accepted_credential(
    config: ClientConfig,
    credentials: Credentials,
    endpoint: EndpointId,
    query: Seq<(Seq<char>, Seq<char>)>,
    r: Result<RequestPlan, KagiError>,
)
    requires
        planned(config, credentials, endpoint, query, r),
        r is Ok,
    ensures
        credentials_kind(credentials) == endpoint_credential(endpoint),
        header_encodable(r->Ok_0.auth_value@),
        r->Ok_0.auth == (if endpoint_surface(endpoint) == ProtocolSurface::OfficialApi {
            AuthHeader::Authorization
        } else {
            AuthHeader::Cookie
        }),
{
    crate::routing::law_endpoint_credential_follows_surface(endpoint);
}

/// An HTTP answer that was not refused for its credential.
#[derive(Debug, Clone)]
pub struct TransportResponse {
    pub endpoint: EndpointId,
    pub status: u16,
    pub body: String,
    pub content_type: Option<String>,
    pub redirect_location: Option<String>,
}

/// Classifies an HTTP answer: `401` and `403` become `UnauthorizedBotToken`
/// on the official API and `InvalidSession` on the session web, with the body
/// as message; any other status is handed on.
pub fn classify_response(
    endpoint: EndpointId,
    status: u16,
    body: String,
    content_type: Option<String>,
    redirect_location: Option<String>,
) -> (r: Result<TransportResponse, KagiError>)
    ensures
        (status == 401 || status == 403) && endpoint_surface(endpoint) == ProtocolSurface::OfficialApi
            ==> (r matches Err(KagiError::UnauthorizedBotToken { endpoint: ep, message }) && ep
            == endpoint && message == body),
        (status == 401 || status == 403) && endpoint_surface(endpoint) == ProtocolSurface::SessionWeb
            ==> (r matches Err(KagiError::InvalidSession { endpoint: ep, status: s, message }) && ep
            == endpoint && s == status && message == body),
        !(status == 401 || status == 403) ==> r == Ok::<TransportResponse, KagiError>(
            TransportResponse { endpoint, status, body, content_type, redirect_location },
        ),
{
    if status == 401 || status == 403 {
        let spec = endpoint.spec();
        return match spec.surface {
            ProtocolSurface::OfficialApi => Err(
                KagiError::UnauthorizedBotToken { endpoint, message: body },
            ),
            ProtocolSurface::SessionWeb => Err(
                KagiError::InvalidSession { endpoint, status, message: body },
            ),
        };
    }
    Ok(TransportResponse { endpoint, status, body, content_type, redirect_location })
}

} // verus!
