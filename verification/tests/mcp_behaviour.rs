use kagi::config::ClientConfig;
use kagi::error::KagiError;
use kagi::json::parse_json;
use kagi::mcp::backend::{BackendMode, BackendRuntime, EnvConfig};
use kagi::mcp::error::{api_failure_indicates_auth_failure, ToolFailure};
use kagi::mcp::normalize::official;
use kagi::mcp::schema::{SearchToolInput, SummarizeToolInput, SUMMARIZE_MAX_TEXT_BYTES};
use kagi::routing::EndpointId;
use kagi::transport::{RequestBody, TransportResponse};

fn backend(mode: &str) -> BackendRuntime {
    BackendRuntime::from_env_config(
        EnvConfig {
            backend_mode: Some(mode.to_string()),
            api_key: Some("official_token".to_string()),
            session_token: Some("session_token".to_string()),
        },
        ClientConfig::default(),
    )
    .expect("backend should build")
}

fn ok_response(endpoint: EndpointId, body: &str) -> Result<TransportResponse, KagiError> {
    Ok(TransportResponse {
        endpoint,
        status: 200,
        body: body.to_string(),
        content_type: None,
        redirect_location: None,
    })
}

fn search_result_html(count: usize) -> String {
    let mut html = String::from("<html><body>");
    for index in 0..count {
        html.push_str(&format!(
            r#"<div class="search-result"><a class="__sri_title_link" href="https://example.com/{index}">Result {index}</a><div class="__sri-desc">Snippet {index}</div></div>"#
        ));
    }
    html.push_str("</body></html>");
    html
}

#[test]
fn backend_mode_names_are_trimmed_and_case_insensitive() {
    assert_eq!(BackendMode::parse(None).ok(), Some(BackendMode::Auto));
    assert_eq!(BackendMode::parse(Some("  Official ")).ok(), Some(BackendMode::Official));
    assert_eq!(BackendMode::parse(Some("SESSION")).ok(), Some(BackendMode::Session));
    let refused = BackendMode::parse(Some("both")).expect_err("unknown mode is refused");
    assert_eq!(
        refused.message(),
        "invalid `KAGI_MCP_BACKEND` value `both`; expected one of `auto`, `official`, or `session`"
    );
}

#[test]
fn search_input_trims_query_and_bounds_limit() {
    let input = SearchToolInput::new("  rust  ", None).expect("query is valid");
    assert_eq!(input.query, "rust");
    assert_eq!(input.limit, 5);
    assert_eq!(input.limit_as_usize(), 5);
    assert_eq!(SearchToolInput::new("x", Some(10)).expect("limit is valid").limit, 10);
    assert_eq!(SearchToolInput::new("    ", None).err().as_deref(), Some("`query` cannot be blank"));
    assert_eq!(
        SearchToolInput::new("x", Some(0)).err().as_deref(),
        Some("`limit` must be between 1 and 10")
    );
    assert!(SearchToolInput::new("x", Some(11)).is_err());
}

#[test]
fn summarize_input_takes_exactly_one_of_url_and_text() {
    let some = |s: &str| Some(s.to_string());
    let url = SummarizeToolInput::from_raw(some("https://example.com/post"), some(""))
        .expect("url with empty text is accepted");
    assert_eq!(url.url.as_deref(), Some("https://example.com/post"));
    assert_eq!(url.text, None);
    let text = SummarizeToolInput::from_raw(some(""), some("real text")).expect("text is accepted");
    assert_eq!(text.text.as_deref(), Some("real text"));
    let normalized = SummarizeToolInput::from_raw(some("HTTPS://Example.com"), None)
        .expect("url is accepted");
    assert_eq!(normalized.url.as_deref(), Some("https://example.com/"));

    let cases: Vec<(Option<String>, Option<String>, &str)> = vec![
        (None, None, "exactly one of `url` or `text` must be provided"),
        (some("https://example.com/post"), some("hello"), "exactly one of `url` or `text` must be provided"),
        (some(""), some(""), "exactly one of `url` or `text` must be provided"),
        (some("https://example.com/post"), some("   "), "exactly one of `url` or `text` must be provided"),
        (some(" https://example.com/post"), None, "`url` cannot have leading or trailing whitespace"),
        (some("ftp://example.com/post"), None, "`url` must use `http` or `https`"),
        (None, some("    "), "`text` cannot be blank"),
    ];
    for (u, t, expected) in cases {
        assert_eq!(SummarizeToolInput::from_raw(u, t).err().as_deref(), Some(expected));
    }
    let relative = SummarizeToolInput::from_raw(some("not a url"), None).expect_err("relative url is refused");
    assert!(relative.starts_with("`url` must be an absolute HTTP(S) URL ("));
}

#[test]
fn summarize_text_limit_counts_utf8_bytes() {
    let ascii_ok = "a".repeat(SUMMARIZE_MAX_TEXT_BYTES);
    assert!(SummarizeToolInput::from_raw(None, Some(ascii_ok)).is_ok());
    let ascii_long = "a".repeat(SUMMARIZE_MAX_TEXT_BYTES + 1);
    assert_eq!(
        SummarizeToolInput::from_raw(None, Some(ascii_long)).err().as_deref(),
        Some("`text` exceeds 50000 UTF-8 bytes")
    );
    let wide_ok = "é".repeat(25000);
    assert!(SummarizeToolInput::from_raw(None, Some(wide_ok)).is_ok());
    let wide_long = "é".repeat(25001);
    assert!(SummarizeToolInput::from_raw(None, Some(wide_long)).is_err());
}

#[test]
fn tool_failures_explain_without_leaking_credentials() {
    let auth = ToolFailure::from_kagi_error(KagiError::UnauthorizedBotToken {
        endpoint: EndpointId::OfficialSearch,
        message: "bad token secret_auth_token".to_string(),
    });
    assert!(auth.message().contains("Authentication failed"));
    assert!(!auth.message().contains("secret_auth_token"));

    let limited = ToolFailure::from_kagi_error(KagiError::ApiFailure {
        endpoint: EndpointId::OfficialSearch,
        status: 429,
        code: None,
        message: "rate limited".to_string(),
    });
    assert!(limited.message().contains("HTTP 429"));

    let upstream = ToolFailure::from_kagi_error(KagiError::ApiFailure {
        endpoint: EndpointId::OfficialSearch,
        status: 502,
        code: None,
        message: "x".to_string(),
    });
    assert_eq!(
        upstream.message(),
        "Kagi upstream service is currently failing (HTTP 502). Retry later."
    );

    let app = ToolFailure::from_kagi_error(KagiError::ApiFailure {
        endpoint: EndpointId::SessionSummaryLabsGet,
        status: 200,
        code: Some("E1".to_string()),
        message: "too short".to_string(),
    });
    assert_eq!(
        app.message(),
        "Kagi reported an application-level failure (HTTP 200): E1: too short"
    );

    let session_auth = ToolFailure::from_kagi_error(KagiError::ApiFailure {
        endpoint: EndpointId::SessionSummaryLabsGet,
        status: 200,
        code: Some(" Unauthorized ".to_string()),
        message: "Unauthorized".to_string(),
    });
    assert!(session_auth.message().contains("KAGI_SESSION_TOKEN"));
    assert!(session_auth.message().contains("may belong"));

    let timed_out = ToolFailure::from_kagi_error(KagiError::Transport {
        endpoint: EndpointId::OfficialSearch,
        timed_out: true,
        detail: "deadline".to_string(),
    });
    assert!(timed_out.message().contains("timed out"));
    let transport = ToolFailure::from_kagi_error(KagiError::Transport {
        endpoint: EndpointId::OfficialSearch,
        timed_out: false,
        detail: "refused".to_string(),
    });
    assert!(transport.message().contains("transport"));

    let drift = ToolFailure::parse_drift("shape");
    assert_eq!(
        drift.message(),
        "Kagi returned an unexpected response shape for this capability (shape)"
    );
}

#[test]
fn auth_like_api_failures_are_recognized() {
    assert!(api_failure_indicates_auth_failure(401, None, "x"));
    assert!(api_failure_indicates_auth_failure(200, Some("INVALID_SESSION"), "x"));
    assert!(api_failure_indicates_auth_failure(200, None, "  Unauthorized: Unauthorized "));
    assert!(api_failure_indicates_auth_failure(200, None, "your Invalid Session expired"));
    assert!(!api_failure_indicates_auth_failure(200, Some("LIMIT"), "too short"));
}

#[test]
fn official_search_keeps_cards_in_order_up_to_the_limit() {
    let runtime = backend("official");
    let input = SearchToolInput::new("  rust sdk  ", Some(2)).expect("input is valid");
    let plan = runtime.plan_search(&input).expect("plan should build");
    assert_eq!(plan.url, "https://kagi.com/api/v0/search");
    assert_eq!(plan.query, vec![("q".to_string(), "rust sdk".to_string())]);
    let body = r#"{"data":{"results":[
        {"title":"One","url":"https://one.test","snippet":"first"},
        {"name":"no url"},
        {"title":"Two","link":"https://two.test","desc":"  "},
        {"title":"Three","url":"https://three.test"}
    ]}}"#;
    let output = runtime
        .finish_search(&input, ok_response(EndpointId::OfficialSearch, body))
        .expect("search should succeed");
    assert_eq!(output.total_returned, 2);
    assert_eq!(output.results[0].title, "One");
    assert_eq!(output.results[0].snippet.as_deref(), Some("first"));
    assert_eq!(output.results[1].url, "https://two.test");
    assert_eq!(output.results[1].snippet, None);
}

#[test]
fn official_search_reports_shape_drift() {
    let runtime = backend("official");
    let input = SearchToolInput::new("rust", None).expect("input is valid");
    let drift = runtime
        .finish_search(&input, ok_response(EndpointId::OfficialSearch, r#"{"data":{"unexpected":[]}}"#))
        .expect_err("missing results array is drift");
    assert!(drift.message().contains("unexpected response shape"));
    let empty = runtime
        .finish_search(&input, ok_response(EndpointId::OfficialSearch, r#"{"data":[]}"#))
        .expect("empty results are fine");
    assert_eq!(empty.total_returned, 0);
    let no_cards = runtime
        .finish_search(&input, ok_response(EndpointId::OfficialSearch, r#"{"data":[{"x":1}]}"#))
        .expect_err("results without cards are drift");
    assert!(no_cards.message().contains("no item exposed `title` + `url`"));
}

#[test]
fn session_search_parses_the_page_and_applies_the_limit() {
    let runtime = backend("session");
    let input = SearchToolInput::new("rust sdk", Some(2)).expect("input is valid");
    let plan = runtime.plan_search(&input).expect("plan should build");
    assert_eq!(plan.url, "https://kagi.com/html/search");
    let output = runtime
        .finish_search(&input, ok_response(EndpointId::SessionHtmlSearch, &search_result_html(3)))
        .expect("session search should succeed");
    assert_eq!(output.total_returned, 2);
    assert_eq!(output.results[0].title, "Result 0");
    assert_eq!(output.results[1].snippet.as_deref(), Some("Snippet 1"));
}

#[test]
fn summarize_plans_follow_the_input_mode() {
    let official_runtime = backend("official");
    let text_input = SummarizeToolInput::from_raw(None, Some("  keep exact spacing  ".to_string()))
        .expect("text is valid");
    let plan = official_runtime.plan_summarize(&text_input).expect("plan should build");
    assert_eq!(plan.url, "https://kagi.com/api/v0/summarize");
    match &plan.body {
        RequestBody::Json(json) => assert_eq!(
            json.get("text").and_then(|v| v.as_str()),
            Some("  keep exact spacing  ")
        ),
        _ => panic!("expected a JSON body"),
    }

    let session_runtime = backend("session");
    let plan = session_runtime.plan_summarize(&text_input).expect("plan should build");
    assert_eq!(plan.url, "https://kagi.com/mother/summary_labs/");
    match &plan.body {
        RequestBody::Form(form) => assert_eq!(
            form,
            &vec![("text".to_string(), "  keep exact spacing  ".to_string())]
        ),
        _ => panic!("expected a form body"),
    }

    let url_input = SummarizeToolInput::from_raw(Some("https://example.com/post".to_string()), None)
        .expect("url is valid");
    let plan = session_runtime.plan_summarize(&url_input).expect("plan should build");
    assert_eq!(plan.url, "https://kagi.com/mother/summary_labs");
    assert_eq!(plan.query, vec![("url".to_string(), "https://example.com/post".to_string())]);
}

#[test]
fn summarize_answers_are_normalized_per_backend() {
    let url_input = SummarizeToolInput::from_raw(Some("https://example.com/post".to_string()), None)
        .expect("url is valid");

    let official_runtime = backend("official");
    let official_output = official_runtime
        .finish_summarize(
            &url_input,
            ok_response(
                EndpointId::OfficialSummarizeGet,
                r##"{"data":{"markdown":"# Official URL","text":"url summary","metadata":{"ignored":true}}}"##,
            ),
        )
        .expect("official summarize should succeed");
    assert_eq!(official_output.markdown, "# Official URL");
    assert_eq!(official_output.text.as_deref(), Some("url summary"));
    assert_eq!(official_output.source_url.as_deref(), Some("https://example.com/post"));

    let session_runtime = backend("session");
    let session_output = session_runtime
        .finish_summarize(
            &url_input,
            ok_response(
                EndpointId::SessionSummaryLabsGet,
                r##"{"markdown":"# Session URL","text":"session url","metadata":{"source_url":"https://source.test/","tokens":42}}"##,
            ),
        )
        .expect("session summarize should succeed");
    assert_eq!(session_output.markdown, "# Session URL");
    assert_eq!(session_output.source_url.as_deref(), Some("https://source.test/"));

    for payload in [
        r#"{"error":"Unauthorized"}"#,
        r#"{"success":false,"message":"Unauthorized: Unauthorized"}"#,
    ] {
        let failure = session_runtime
            .finish_summarize(&url_input, ok_response(EndpointId::SessionSummaryLabsGet, payload))
            .expect_err("auth-like payload is a failure");
        assert!(failure.message().contains("Authentication failed with Kagi"));
        assert!(failure.message().contains("KAGI_SESSION_TOKEN"));
        assert!(failure.message().contains("KAGI_API_KEY"));
        assert!(failure.message().contains("may belong"));
        assert!(!failure.message().contains("application-level failure"));
    }

    let transport = official_runtime
        .finish_summarize(
            &url_input,
            Err(KagiError::Transport {
                endpoint: EndpointId::OfficialSummarizeGet,
                timed_out: true,
                detail: "deadline".to_string(),
            }),
        )
        .expect_err("transport failure is reported");
    assert!(transport.message().contains("timed out"));
}

#[test]
fn official_summary_without_markdown_is_drift() {
    let data = parse_json(r#"{"summary_text":"x"}"#).expect("json parses");
    let failure = official::normalize_summarize(data, None).expect_err("markdown is required");
    assert_eq!(
        failure.message(),
        "Kagi returned an unexpected response shape for this capability (official summarize payload did not contain markdown text)"
    );
}
