use kagi::config::ClientConfig;
use kagi::mcp::backend::{BackendRuntime, EnvConfig, ENV_API_KEY, ENV_BACKEND_MODE, ENV_SESSION_TOKEN};

#[test]
fn startup_backend_selection_and_failures_match_contract() {
    let default_config = ClientConfig::default();

    let auto_prefers_official = BackendRuntime::from_env_config(
        EnvConfig {
            backend_mode: Some("auto".to_string()),
            api_key: Some("official_token".to_string()),
            session_token: Some("session_token".to_string()),
        },
        default_config.clone(),
    )
    .expect("auto mode should prefer api key");
    assert!(matches!(auto_prefers_official, BackendRuntime::Official(_)));

    let auto_falls_back_to_session = BackendRuntime::from_env_config(
        EnvConfig {
            backend_mode: Some("auto".to_string()),
            api_key: None,
            session_token: Some("session_token".to_string()),
        },
        default_config.clone(),
    )
    .expect("auto mode should use session when api key missing");
    assert!(matches!(
        auto_falls_back_to_session,
        BackendRuntime::Session(_)
    ));

    let missing = BackendRuntime::from_env_config(
        EnvConfig {
            backend_mode: Some("auto".to_string()),
            api_key: None,
            session_token: None,
        },
        default_config.clone(),
    )
    .expect_err("auto mode without any credential must fail");
    assert!(missing.message().contains(ENV_API_KEY));

    let missing_official_with_session_present = BackendRuntime::from_env_config(
        EnvConfig {
            backend_mode: Some("official".to_string()),
            api_key: None,
            session_token: Some("session_token".to_string()),
        },
        default_config.clone(),
    )
    .expect_err("official mode without api key must fail");
    let missing_official_message = missing_official_with_session_present.message();
    assert!(missing_official_message.contains(ENV_API_KEY));
    assert!(missing_official_message.contains(ENV_SESSION_TOKEN));
    assert!(missing_official_message.contains("may belong"));
    assert!(missing_official_message.contains("session"));

    let missing_session_with_api_present = BackendRuntime::from_env_config(
        EnvConfig {
            backend_mode: Some("session".to_string()),
            api_key: Some("official_token".to_string()),
            session_token: None,
        },
        default_config.clone(),
    )
    .expect_err("session mode without session token must fail");
    let missing_session_message = missing_session_with_api_present.message();
    assert!(missing_session_message.contains(ENV_SESSION_TOKEN));
    assert!(missing_session_message.contains(ENV_API_KEY));
    assert!(missing_session_message.contains("may belong"));
    assert!(missing_session_message.contains("official"));

    let invalid_mode = BackendRuntime::from_env_config(
        EnvConfig {
            backend_mode: Some("invalid".to_string()),
            api_key: Some("official_token".to_string()),
            session_token: None,
        },
        default_config.clone(),
    )
    .expect_err("invalid backend mode must fail");
    assert!(invalid_mode.message().contains(ENV_BACKEND_MODE));

    let invalid_official_credential = BackendRuntime::from_env_config(
        EnvConfig {
            backend_mode: Some("official".to_string()),
            api_key: Some("secret official token".to_string()),
            session_token: None,
        },
        default_config.clone(),
    )
    .expect_err("invalid official credential must fail");
    let invalid_official_message = invalid_official_credential.message();
    assert!(invalid_official_message.contains(ENV_API_KEY));
    assert!(!invalid_official_message.contains("secret official token"));

    let invalid_session_credential = BackendRuntime::from_env_config(
        EnvConfig {
            backend_mode: Some("session".to_string()),
            api_key: None,
            session_token: Some("secret session token".to_string()),
        },
        default_config,
    )
    .expect_err("invalid session credential must fail");
    let invalid_session_message = invalid_session_credential.message();
    assert!(invalid_session_message.contains(ENV_SESSION_TOKEN));
    assert!(!invalid_session_message.contains("secret session token"));
}
