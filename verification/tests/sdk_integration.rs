use kagi::auth::{BotToken, SessionToken};
use kagi::client::KagiClient;
use kagi::error::KagiError;
use kagi::official_api::models::{SummarizePostInput, SummarizePostRequest};
use kagi::parsing::html_search::parse_html_search_response;
use kagi::parsing::summary_stream::parse_summary_stream_response;
use kagi::routing::{ApiVersion, EndpointId, ProtocolSurface};

#[test]
fn routing_matrix_mixes_v0_and_v1_routes() {
    let search = EndpointId::OfficialSearch.spec();
    let feed = EndpointId::OfficialSmallwebFeed.spec();

    assert_eq!(search.version, ApiVersion::V0);
    assert_eq!(search.route, "/api/v0/search");
    assert_eq!(feed.version, ApiVersion::V1);
    assert_eq!(feed.route, "/api/v1/smallweb/feed");
}

#[test]
fn summarize_input_modes_enforce_boundaries() {
    assert!(SummarizePostInput::from_text("   ").is_err());
    assert!(SummarizePostInput::from_url("ftp://example.com").is_err());

    let valid = SummarizePostRequest::from_text("Summarize me");
    assert!(valid.is_ok());
}

#[test]
fn unsupported_auth_surface_combinations_fail_loudly() {
    let bot_client = KagiClient::with_bot_token(BotToken::new("bot_token").expect("valid token"))
        .expect("client should build");
    let session_client =
        KagiClient::with_session_token(SessionToken::new("session_token").expect("valid token"))
            .expect("client should build");

    let bot_to_session = bot_client.session_web();
    let session_to_official = session_client.official_api();

    assert!(matches!(
        bot_to_session,
        Err(KagiError::UnsupportedAuthSurface {
            surface: ProtocolSurface::SessionWeb,
            ..
        })
    ));
    assert!(matches!(
        session_to_official,
        Err(KagiError::UnsupportedAuthSurface {
            surface: ProtocolSurface::OfficialApi,
            ..
        })
    ));
}

#[test]
fn summary_stream_parser_supports_kagi_prefixed_frames() {
    let framed_stream =
        "hi:{}\0new_message.json:{\"text\":\"Hello\"}\0update: \0update:world\0final:{\"status\":\"done\"}\0";

    let parsed = parse_summary_stream_response(EndpointId::SessionSummaryLabsGet, framed_stream)
        .expect("Kagi framed stream should parse");

    assert_eq!(parsed.chunks, vec!["Hello", " ", "world"]);
    assert_eq!(parsed.text, "Hello world");
}

#[test]
fn summary_stream_parser_rejects_unsupported_frame_prefixes() {
    let framed_stream = "unknown:payload\0";
    let parsed = parse_summary_stream_response(EndpointId::SessionSummaryLabsGet, framed_stream);

    assert!(matches!(parsed, Err(KagiError::ResponseParse { .. })));
}

#[test]
fn html_parser_rejects_non_result_markup() {
    let markup = r#"
        <html>
          <body>
            <nav><a href="https://kagi.com/login">Sign in</a></nav>
            <ul><li><a href="https://example.com">Random link</a></li></ul>
          </body>
        </html>
    "#;

    let parsed = parse_html_search_response(EndpointId::SessionHtmlSearch, markup);
    assert!(matches!(parsed, Err(KagiError::ResponseParse { .. })));
}

#[test]
fn html_parser_returns_empty_results_for_no_result_pages() {
    let markup = r#"
        <html>
          <body>
            <form action="/html/search"><input name="q" /></form>
            <p>No results found for your query.</p>
          </body>
        </html>
    "#;

    let parsed = parse_html_search_response(EndpointId::SessionHtmlSearch, markup)
        .expect("empty search pages should parse");
    assert!(parsed.results.is_empty());
}

#[test]
fn summary_stream_parser_rejects_non_sse_bodies() {
    let invalid_body = "this is not an sse payload";
    let parsed = parse_summary_stream_response(EndpointId::SessionSummaryLabsGet, invalid_body);

    assert!(matches!(parsed, Err(KagiError::ResponseParse { .. })));
}

#[test]
fn summary_stream_parser_ignores_metadata_and_handles_error_events() {
    let metadata_stream = "id: 1\nevent: message\ndata: {\"text\":\"Hello\"}\n\nretry: 1000\ndata: {\"text\":\" world\"}\n\n";
    let parsed = parse_summary_stream_response(EndpointId::SessionSummaryLabsGet, metadata_stream)
        .expect("metadata stream should parse");

    assert_eq!(parsed.text, "Hello world");

    let error_stream =
        "event: error\ndata: {\"code\":\"UPSTREAM\",\"message\":\"generation failed\"}\n\n";
    let error = parse_summary_stream_response(EndpointId::SessionSummaryLabsGet, error_stream);
    assert!(matches!(
        error,
        Err(KagiError::ApiFailure {
            code: Some(ref code),
            ..
        }) if code == "UPSTREAM"
    ));
}

#[test]
fn summary_stream_parser_preserves_whitespace_only_chunks() {
    let framed_stream = "update:Hello\0update: \0update:world\0";
    let parsed = parse_summary_stream_response(EndpointId::SessionSummaryLabsGet, framed_stream)
        .expect("stream should parse");

    assert_eq!(parsed.chunks, vec!["Hello", " ", "world"]);
    assert_eq!(parsed.text, "Hello world");
}

#[test]
fn builder_rejects_conflicting_credential_setup() {
    let result = KagiClient::builder()
        .bot_token(BotToken::new("bot_token").expect("token is valid"))
        .session_token(SessionToken::new("session_token").expect("token is valid"))
        .build();

    assert!(matches!(
        result,
        Err(KagiError::ConflictingCredentialConfiguration { .. })
    ));
}

/// A search page in Kagi's markup: two results, a repeated one, and a
/// navigation link outside any result.
const HTML_SEARCH_PAGE: &str = r#"<!doctype html>
<html>
  <head><title>rust - Kagi Search</title></head>
  <body>
    <nav><a href="https://kagi.com/settings">Settings</a></nav>
    <form action="/html/search"><input name="q" value="rust" /></form>
    <div class="search-result __sri">
      <h3><a class="__sri_title_link" href="https://example.com/one">Example Result One</a></h3>
      <div class="__sri-desc">The first result.</div>
    </div>
    <div class="search-result __sri">
      <h3><a class="__sri_title_link" href="https://example.com/two">Example Result Two</a></h3>
      <div class="__sri-desc">The second result.</div>
    </div>
    <div class="search-result __sri">
      <h3><a class="__sri_title_link" href="https://example.com/one">Example Result One</a></h3>
    </div>
  </body>
</html>
"#;

/// A summary stream of three server-sent events.
const SUMMARY_STREAM: &str = "event: message\ndata: {\"text\":\"Hello\"}\n\ndata: {\"text\":\" world\"}\n\ndata: {\"text\":\"!\"}\n\n";

#[test]
fn html_parser_is_stable_on_fixture() {
    let fixture = HTML_SEARCH_PAGE;
    let parsed = parse_html_search_response(EndpointId::SessionHtmlSearch, fixture)
        .expect("fixture should parse");

    assert_eq!(parsed.results.len(), 2);
    assert_eq!(parsed.results[0].title, "Example Result One");
    assert_eq!(parsed.results[0].url, "https://example.com/one");
}

#[test]
fn summary_stream_parser_is_stable_on_fixture() {
    let fixture = SUMMARY_STREAM;
    let parsed = parse_summary_stream_response(EndpointId::SessionSummaryLabsGet, fixture)
        .expect("fixture should parse");

    assert_eq!(parsed.chunks.len(), 3);
    assert_eq!(parsed.text, "Hello world!");
}
