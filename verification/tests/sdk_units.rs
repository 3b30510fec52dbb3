use kagi::auth::BotToken;
use kagi::boundary::{HttpUrl, NonBlankString, NonEmptyString};
use kagi::error::KagiError;
use kagi::official_api::models::SummarizePostInput;
use kagi::parsing::failure::parse_kagi_failure_payload;
use kagi::parsing::summarize::parse_summarize_response;
use kagi::routing::{ApiVersion, EndpointId, ParserShape};
use kagi::session_web::models::SummaryLabsTextRequest;

#[test]
fn token_debug_is_redacted() {
    let token = BotToken::new("super-secret").expect("token should parse");
    assert_eq!(format!("{token:?}"), "BotToken(REDACTED)");
}

#[test]
fn non_empty_string_rejects_blank_values() {
    let result = NonEmptyString::new("query", "   ");
    assert!(result.is_err());
}

#[test]
fn http_url_rejects_non_http_scheme() {
    let result = HttpUrl::new("url", "ftp://example.com");
    assert!(result.is_err());
}

#[test]
fn non_blank_string_preserves_original_whitespace() {
    let parsed = NonBlankString::new("text", "  keep me  ").expect("should parse");
    assert_eq!(parsed.as_str(), "  keep me  ");
}

#[test]
fn summarize_post_text_preserves_whitespace() {
    let payload = SummarizePostInput::from_text("  keep exact spacing  ")
        .expect("text should parse")
        .into_json();

    assert_eq!(
        payload.get("text").and_then(|v| v.as_str()),
        Some("  keep exact spacing  ")
    );
}

#[test]
fn official_endpoints_cover_both_v0_and_v1_routes() {
    let v0 = EndpointId::OfficialSearch.spec();
    let v1 = EndpointId::OfficialSmallwebFeed.spec();

    assert_eq!(v0.version, ApiVersion::V0);
    assert_eq!(v0.route, "/api/v0/search");
    assert_eq!(v1.version, ApiVersion::V1);
    assert_eq!(v1.route, "/api/v1/smallweb/feed");
}

#[test]
fn summary_labs_text_preserves_whitespace() {
    let form = SummaryLabsTextRequest::new("  keep exact spacing  ")
        .expect("text should parse")
        .into_form();

    assert_eq!(form[0].0, "text");
    assert_eq!(form[0].1, "  keep exact spacing  ");
}

#[test]
fn parse_summarize_response_supports_output_data_payload_shape() {
    let response = parse_summarize_response(
        EndpointId::SessionSummaryLabsGet,
        r##"{
            "output_text": "plain summary",
            "output_data": {
                "status": "completed",
                "markdown": "# summary markdown"
            }
        }"##,
    )
    .expect("output_data markdown response should parse");

    assert_eq!(response.markdown, "# summary markdown");
    assert_eq!(response.text.as_deref(), Some("plain summary"));
    assert_eq!(response.status.as_deref(), Some("completed"));
}

#[test]
fn parse_summarize_response_returns_actionable_parse_error_when_markdown_missing() {
    let error = parse_summarize_response(
        EndpointId::SessionSummaryLabsGet,
        r#"{ "output_data": { "status": "completed" } }"#,
    )
    .expect_err("missing markdown should fail loudly");

    match error {
        KagiError::ResponseParse {
            parser: ParserShape::JsonEnvelope,
            reason,
            ..
        } => {
            assert!(
                reason.contains("missing markdown text"),
                "unexpected parse failure reason: {reason}"
            );
        }
        unexpected => panic!("expected ResponseParse error, got {unexpected:?}"),
    }
}

#[test]
fn parse_kagi_failure_payload_uses_output_text_when_error_message_missing() {
    let (_, message) = parse_kagi_failure_payload(
        r#"{
            "error": true,
            "output_text": "Min document size not reached"
        }"#,
    )
    .expect("error payload should be extracted");

    assert_eq!(message, "Min document size not reached");
}
