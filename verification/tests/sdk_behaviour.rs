use kagi::auth::{AuthHeader, BotToken, Credentials, SessionToken};
use kagi::client::KagiClient;
use kagi::config::ClientConfig;
use kagi::error::KagiError;
use kagi::json::parse_json;
use kagi::official_api::models::SearchRequest;
use kagi::official_api::parse_json_envelope;
use kagi::parsing::html_search::{deduplicate_results, parse_html_search_response};
use kagi::parsing::summarize::parse_summarize_response;
use kagi::routing::{EndpointId, HttpMethod, ParserShape};
use kagi::session_web::models::{HtmlSearchRequest, HtmlSearchResult};
use kagi::session_web::{finish_html_search, finish_summarize, finish_summary_stream};
use kagi::transport::{classify_response, RequestBody, TransportResponse};
use kagi::weburl::ParsedUrl;

fn search_result_html(count: usize) -> String {
    let mut html = String::from("<html><body>");
    for index in 0..count {
        html.push_str(&format!(
            r#"<div class="search-result"><a class="__sri_title_link" href="https://example.com/{index}">Result {index}</a><div class="__sri-desc">Snippet {index}</div></div>"#
        ));
    }
    html.push_str("</body></html>");
    html
}

fn response(endpoint: EndpointId, status: u16, body: &str) -> TransportResponse {
    TransportResponse {
        endpoint,
        status,
        body: body.to_string(),
        content_type: None,
        redirect_location: None,
    }
}

fn result(title: &str, url: &str) -> HtmlSearchResult {
    HtmlSearchResult {
        title: title.to_string(),
        url: url.to_string(),
        snippet: None,
    }
}

#[test]
fn html_parser_reads_titles_links_and_snippets_in_page_order() {
    let parsed = parse_html_search_response(EndpointId::SessionHtmlSearch, &search_result_html(3))
        .expect("generated page should parse");
    assert_eq!(parsed.results.len(), 3);
    assert_eq!(parsed.results[0].title, "Result 0");
    assert_eq!(parsed.results[2].url, "https://example.com/2");
    assert_eq!(parsed.results[1].snippet.as_deref(), Some("Snippet 1"));
}

#[test]
fn html_parser_collapses_whitespace_and_skips_non_http_links() {
    let page = r#"<html><body>
        <div class="__sri"><a class="__sri_title_link" href="ftp://example.com/x">Skipped</a></div>
        <div class="__sri"><a class="__sri_title_link" href="https://example.com/kept">  Kept
            <b>title</b>  </a><div class="__sri-desc">   </div></div>
    </body></html>"#;
    let parsed = parse_html_search_response(EndpointId::SessionHtmlSearch, page)
        .expect("one result should parse");
    assert_eq!(parsed.results.len(), 1);
    assert_eq!(parsed.results[0].title, "Kept title");
    assert_eq!(parsed.results[0].url, "https://example.com/kept");
    assert_eq!(parsed.results[0].snippet, None);
}

#[test]
fn html_parser_drops_repeated_url_and_title_pairs() {
    let page = r#"<html><body>
        <div class="search-result"><a class="__sri_title_link" href="https://a.test/">A</a></div>
        <div class="search-result"><a class="__sri_title_link" href="https://a.test/">A</a></div>
        <div class="search-result"><a class="__sri_title_link" href="https://a.test/">Other</a></div>
    </body></html>"#;
    let parsed = parse_html_search_response(EndpointId::SessionHtmlSearch, page)
        .expect("page should parse");
    let titles: Vec<&str> = parsed.results.iter().map(|r| r.title.as_str()).collect();
    assert_eq!(titles, vec!["A", "Other"]);
    for item in &parsed.results {
        assert!(item.url.starts_with("http://") || item.url.starts_with("https://"));
        assert!(!item.title.is_empty());
    }
}

#[test]
fn deduplication_keeps_first_of_each_pair_and_is_idempotent() {
    let items = vec![
        result("A", "https://a.test/"),
        result("B", "https://b.test/"),
        result("A", "https://a.test/"),
        result("A", "https://b.test/"),
    ];
    let once = deduplicate_results(&items);
    assert_eq!(once.len(), 3);
    assert_eq!(once[0].title, "A");
    assert_eq!(once[1].title, "B");
    assert_eq!(once[2].url, "https://b.test/");
    let twice = deduplicate_results(&once);
    assert_eq!(twice, once);
}

#[test]
fn summarize_parser_reads_top_level_fields_and_metadata() {
    let parsed = parse_summarize_response(
        EndpointId::SessionSummaryLabsGet,
        r###"{"markdown":"## Summary","text":"Short summary","status":"ok","metadata":{"tokens":42}}"###,
    )
    .expect("summary should parse");
    assert_eq!(parsed.markdown, "## Summary");
    assert_eq!(parsed.text.as_deref(), Some("Short summary"));
    assert_eq!(parsed.status.as_deref(), Some("ok"));
    assert_eq!(parsed.metadata.len(), 1);
    assert_eq!(parsed.metadata[0].0, "tokens");
    assert_eq!(parsed.metadata[0].1.as_i64(), Some(42));
}

#[test]
fn summarize_parser_refuses_malformed_json_and_wrong_field_types() {
    let malformed = parse_summarize_response(EndpointId::SessionSummaryLabsGet, "not-json");
    assert!(matches!(
        malformed,
        Err(KagiError::ResponseParse { parser: ParserShape::JsonEnvelope, ref reason, .. })
            if reason.starts_with("malformed default summarize JSON: ")
    ));
    let wrong_text = parse_summarize_response(
        EndpointId::SessionSummaryLabsGet,
        r#"{"markdown":"x","text":5}"#,
    );
    assert!(matches!(
        wrong_text,
        Err(KagiError::ResponseParse { ref reason, .. })
            if reason == "malformed default summarize JSON: `text` must be a string when present"
    ));
    let wrong_metadata = parse_summarize_response(
        EndpointId::SessionSummaryLabsGet,
        r#"{"markdown":"x","metadata":[1]}"#,
    );
    assert!(matches!(
        wrong_metadata,
        Err(KagiError::ResponseParse { ref reason, .. })
            if reason == "malformed default summarize JSON: `metadata` must be an object"
    ));
    let failure = parse_summarize_response(
        EndpointId::SessionSummaryLabsGet,
        r#"{"success":false,"message":"Unauthorized: Unauthorized"}"#,
    );
    assert!(matches!(
        failure,
        Err(KagiError::ApiFailure { status: 200, ref message, .. }) if message == "Unauthorized: Unauthorized"
    ));
}

#[test]
fn summarize_parser_defaults_metadata_to_empty() {
    let parsed = parse_summarize_response(EndpointId::SessionSummaryLabsGet, r###"{"markdown":"## Summary"}"###)
        .expect("summary should parse");
    assert!(parsed.metadata.is_empty());
    assert_eq!(parsed.text, None);
}

#[test]
fn official_search_plan_joins_route_and_carries_bot_token() {
    let client = KagiClient::with_bot_token(BotToken::new("bot_token_123").expect("token is valid"))
        .expect("client builds");
    let api = client.official_api().expect("official api available");
    let plan = api
        .plan_search(SearchRequest::new("  rust  ").expect("query valid"))
        .expect("plan should build");
    assert_eq!(plan.url, "https://kagi.com/api/v0/search");
    assert_eq!(plan.method, HttpMethod::Get);
    assert_eq!(plan.auth, AuthHeader::Authorization);
    assert_eq!(plan.auth_value, "Bot bot_token_123");
    assert_eq!(plan.query, vec![("q".to_string(), "rust".to_string())]);
    assert!(matches!(plan.body, RequestBody::Empty));
}

#[test]
fn session_plan_uses_configured_base_url_and_cookie() {
    let base = ParsedUrl::parse("http://127.0.0.1:8080").expect("url should parse");
    assert_eq!(base.as_str(), "http://127.0.0.1:8080/");
    let client = KagiClient::builder()
        .config(ClientConfig::default().with_base_url(base))
        .session_token(SessionToken::new("session_token_123").expect("token is valid"))
        .build()
        .expect("client builds");
    let web = client.session_web().expect("session web available");
    let plan = web
        .plan_html_search(HtmlSearchRequest::new("rust").expect("query valid"))
        .expect("plan should build");
    assert_eq!(plan.url, "http://127.0.0.1:8080/html/search");
    assert_eq!(plan.auth, AuthHeader::Cookie);
    assert_eq!(plan.auth_value, "kagi_session=session_token_123");
}

#[test]
fn plans_refuse_a_credential_the_endpoint_does_not_accept() {
    let credentials = Credentials::SessionToken(SessionToken::new("s").expect("token is valid"));
    let plan = kagi::transport::plan_request(
        &ClientConfig::default(),
        &credentials,
        EndpointId::OfficialSearch,
        Vec::new(),
        RequestBody::Empty,
    );
    assert!(matches!(plan, Err(KagiError::UnsupportedCapability { endpoint: EndpointId::OfficialSearch, .. })));
}

#[test]
fn refused_credentials_map_to_typed_errors() {
    let official = classify_response(EndpointId::OfficialSearch, 401, "bad bot token".to_string(), None, None);
    assert!(matches!(official, Err(KagiError::UnauthorizedBotToken { ref message, .. }) if message == "bad bot token"));
    let session = classify_response(EndpointId::SessionHtmlSearch, 403, "expired session".to_string(), None, None);
    assert!(matches!(session, Err(KagiError::InvalidSession { status: 403, .. })));
    let passed = classify_response(EndpointId::SessionHtmlSearch, 200, "ok".to_string(), None, None);
    assert!(matches!(passed, Ok(ref r) if r.status == 200 && r.body == "ok"));
}

#[test]
fn envelope_reads_data_and_reports_failures() {
    let ok = parse_json_envelope(response(EndpointId::OfficialSearch, 200, r#"{"error":false,"data":{"ok":true}}"#))
        .expect("response should parse");
    assert_eq!(ok.get("ok").and_then(|v| v.as_bool()), Some(true));

    let limited = parse_json_envelope(response(EndpointId::OfficialSearch, 429, r#"{"error":"rate limited"}"#));
    assert!(matches!(limited, Err(KagiError::ApiFailure { status: 429, ref message, .. }) if message == "rate limited"));

    let failed = parse_json_envelope(response(
        EndpointId::OfficialSearch,
        200,
        r#"{"data":null,"error":[{"code":7,"msg":"bad"}]}"#,
    ));
    assert!(matches!(failed, Err(KagiError::ApiFailure { status: 200, .. })));

    let missing = parse_json_envelope(response(EndpointId::OfficialSearch, 200, r#"{"meta":{}}"#));
    assert!(matches!(missing, Err(KagiError::ResponseParse { ref reason, .. }) if reason == "API envelope did not contain `data`"));

    let not_json = parse_json_envelope(response(EndpointId::OfficialSearch, 502, "<html>"));
    assert!(matches!(not_json, Err(KagiError::ResponseParse { ref reason, .. }) if reason.starts_with("response body is not valid JSON: ")));

    let no_message = parse_json_envelope(response(EndpointId::OfficialSearch, 503, "[1]"));
    assert!(matches!(no_message, Err(KagiError::ApiFailure { ref message, .. }) if message == "HTTP 503 returned without parseable envelope message"));
}

#[test]
fn json_parser_reads_numbers_strings_and_nesting() {
    let value = parse_json(r#"{"a":1,"b":{"c":"d"},"e":[true,null]}"#).expect("json should parse");
    assert_eq!(value.get("a").and_then(|v| v.as_i64()), Some(1));
    assert_eq!(
        value.get("b").and_then(|b| b.get("c")).and_then(|v| v.as_str()),
        Some("d")
    );
    assert_eq!(value.get("e").and_then(|v| v.as_array()).map(|a| a.len()), Some(2));
    assert!(parse_json("{").is_err());
}

#[test]
fn session_redirect_is_an_invalid_session_naming_the_target() {
    let mut redirected = response(EndpointId::SessionHtmlSearch, 302, "");
    redirected.redirect_location = Some("/auth/login".to_string());
    let result = finish_html_search(redirected);
    assert!(matches!(
        result,
        Err(KagiError::InvalidSession { status: 302, ref message, .. })
            if message == "session-web request was redirected to Some(\"/auth/login\"); expected endpoint route /html/search"
    ));
}

#[test]
fn session_errors_and_interstitials_are_refused_before_parsing() {
    let failed = finish_html_search(response(EndpointId::SessionHtmlSearch, 500, "boom"));
    assert!(matches!(failed, Err(KagiError::ApiFailure { status: 500, code: None, ref message, .. }) if message == "boom"));

    let html = finish_summary_stream(response(
        EndpointId::SessionSummaryLabsGet,
        200,
        "  <!DOCTYPE html><html></html>",
    ));
    assert!(matches!(html, Err(KagiError::InvalidSession { ref message, .. }) if message == "summary endpoint returned HTML instead of stream data"));

    let mut typed = response(EndpointId::SessionSummaryLabsGet, 200, "data: {\"text\":\"x\"}\n");
    typed.content_type = Some("Text/HTML; charset=utf-8".to_string());
    let typed = finish_summary_stream(typed);
    assert!(matches!(typed, Err(KagiError::InvalidSession { ref message, .. }) if message == "summary endpoint returned text/html instead of stream data"));

    let no_events = finish_summary_stream(response(EndpointId::SessionSummaryLabsGet, 200, "plain words"));
    assert!(matches!(no_events, Err(KagiError::ResponseParse { parser: ParserShape::Stream, .. })));

    let wrong = finish_summary_stream(response(EndpointId::OfficialSearch, 200, "data: x\n"));
    assert!(matches!(wrong, Err(KagiError::InvalidClientConfiguration { ref reason }) if reason == "session validation received non-session endpoint official.search"));
}

#[test]
fn session_stream_round_trip_concatenates_chunks() {
    let parsed = finish_summary_stream(response(
        EndpointId::SessionSummaryLabsPost,
        200,
        "data: {\"text\":\"Hello \"}\ndata: {\"text\":\"from SDK\"}\n",
    ))
    .expect("summary labs post should parse");
    assert_eq!(parsed.text, "Hello from SDK");
    assert_eq!(parsed.text, parsed.chunks.concat());
}

#[test]
fn session_summarize_reads_json_after_status_check() {
    let parsed = finish_summarize(response(
        EndpointId::SessionSummaryLabsGet,
        200,
        r##"{"markdown":"# Session URL","metadata":{"source_url":"https://example.com/post"}}"##,
    ))
    .expect("summary should parse");
    assert_eq!(parsed.markdown, "# Session URL");
    let refused = finish_summarize(response(EndpointId::SessionSummaryLabsGet, 404, "missing"));
    assert!(matches!(refused, Err(KagiError::ApiFailure { status: 404, .. })));
}

#[test]
fn error_messages_match_their_display_text() {
    let api = KagiError::ApiFailure {
        endpoint: EndpointId::OfficialSearch,
        status: 429,
        code: Some("LIMIT".to_string()),
        message: "slow down".to_string(),
    };
    assert_eq!(
        api.message(),
        "kagi API failure for official.search (HTTP 429, code Some(\"LIMIT\")): slow down"
    );
    let parse = KagiError::ResponseParse {
        endpoint: EndpointId::SessionHtmlSearch,
        parser: ParserShape::Html,
        reason: "x".to_string(),
    };
    assert_eq!(parse.message(), "failed to parse Html response for session.html_search: x");
    let invalid = BotToken::new("two words").expect_err("inner whitespace is refused");
    assert_eq!(invalid.message(), "invalid BotToken credential: token cannot contain whitespace");
}

#[test]
fn config_validation_refuses_unusable_settings() {
    let zero = ClientConfig::default().with_timeout_nanos(0).validate();
    assert!(matches!(zero, Err(KagiError::InvalidClientConfiguration { ref reason }) if reason == "timeout must be greater than zero"));
    let agent = ClientConfig::default().with_user_agent("  ").validate();
    assert!(matches!(agent, Err(KagiError::InvalidClientConfiguration { ref reason }) if reason == "user_agent cannot be empty"));
    let scheme = ClientConfig::default()
        .with_base_url(ParsedUrl::parse("ftp://example.com").expect("url parses"))
        .validate();
    assert!(matches!(scheme, Err(KagiError::InvalidClientConfiguration { ref reason }) if reason == "base_url must use http or https"));
    assert!(ClientConfig::default().validate().is_ok());
}

#[test]
fn tokens_are_trimmed_and_validated_once() {
    let token = BotToken::new("  abc  ").expect("token is valid");
    let again = BotToken::new("abc").expect("token is valid");
    assert_eq!(token, again);
    assert!(matches!(BotToken::new("   "), Err(KagiError::InvalidCredential { ref reason, .. }) if reason == "token cannot be empty"));
}

#[test]
fn validated_strings_are_stable_under_revalidation() {
    let first = kagi::boundary::NonEmptyString::new("query", "  rust  ").expect("query is valid");
    assert_eq!(first.as_str(), "rust");
    let again = kagi::boundary::NonEmptyString::new("query", first.as_str()).expect("query is valid");
    assert_eq!(again.as_str(), first.as_str());
    let url = kagi::boundary::HttpUrl::new("url", "HTTPS://Example.com/a b").expect("url is valid");
    assert_eq!(url.as_str(), "https://example.com/a%20b");
}

#[test]
fn timeouts_are_kept_in_nanoseconds() {
    let config = ClientConfig::default().with_timeout(std::time::Duration::from_millis(1500));
    assert_eq!(config.timeout_nanos, 1_500_000_000);
    assert_eq!(ClientConfig::default().timeout_nanos, 20_000_000_000);
}

#[test]
fn envelope_shape_refusals_use_serde_messages() {
    let reason = |body: &str| match parse_json_envelope(response(EndpointId::OfficialSearch, 200, body)) {
        Err(KagiError::ResponseParse { reason, .. }) => reason,
        other => panic!("expected a shape refusal, got {other:?}"),
    };
    assert_eq!(
        reason("[]"),
        "invalid JSON envelope shape: invalid length 0, expected struct ApiEnvelope with 2 elements"
    );
    assert_eq!(
        reason("[1,2,3]"),
        "invalid JSON envelope shape: invalid length 3, expected fewer elements in array"
    );
    assert_eq!(
        reason("null"),
        "invalid JSON envelope shape: invalid type: unit value, expected struct ApiEnvelope"
    );
    assert_eq!(
        reason("true"),
        "invalid JSON envelope shape: invalid type: boolean `true`, expected struct ApiEnvelope"
    );
    assert_eq!(
        reason("-12"),
        "invalid JSON envelope shape: invalid type: integer `-12`, expected struct ApiEnvelope"
    );
    assert_eq!(
        reason("1.5"),
        "invalid JSON envelope shape: invalid type: floating point `1.5`, expected struct ApiEnvelope"
    );
    assert_eq!(
        reason("1e20"),
        "invalid JSON envelope shape: invalid type: floating point `100000000000000000000.0`, expected struct ApiEnvelope"
    );
    assert_eq!(
        reason(r#""a\"b""#),
        "invalid JSON envelope shape: invalid type: string \"a\\\"b\", expected struct ApiEnvelope"
    );
    let data = parse_json_envelope(response(EndpointId::OfficialSearch, 200, r#"[{"ok":true}]"#))
        .expect("a one-element array carries data");
    assert_eq!(data.get("ok").and_then(|v| v.as_bool()), Some(true));
}

#[test]
fn plans_refuse_a_token_that_http_cannot_carry() {
    let bot = Credentials::BotToken(BotToken::new("bad\u{1}token").expect("token has no whitespace"));
    let plan = kagi::transport::plan_request(
        &ClientConfig::default(),
        &bot,
        EndpointId::OfficialSearch,
        Vec::new(),
        RequestBody::Empty,
    );
    assert!(matches!(
        plan,
        Err(KagiError::InvalidCredential { ref reason, .. })
            if reason == "token could not be encoded as header: failed to parse header value"
    ));
    let session = Credentials::SessionToken(SessionToken::new("bad\u{7f}").expect("token has no whitespace"));
    let plan = kagi::transport::plan_request(
        &ClientConfig::default(),
        &session,
        EndpointId::SessionHtmlSearch,
        Vec::new(),
        RequestBody::Empty,
    );
    assert!(matches!(
        plan,
        Err(KagiError::InvalidCredential { ref reason, .. })
            if reason == "token could not be encoded as cookie: failed to parse header value"
    ));
    let accented = Credentials::BotToken(BotToken::new("tök").expect("token is valid"));
    let plan = kagi::transport::plan_request(
        &ClientConfig::default(),
        &accented,
        EndpointId::OfficialSearch,
        Vec::new(),
        RequestBody::Empty,
    )
    .expect("non-ASCII characters are carried");
    assert_eq!(plan.auth_value, "Bot tök");
}
