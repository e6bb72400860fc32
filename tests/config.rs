use mochow_rust_sdk::error::SdkError;
use mochow_rust_sdk::mochow::client::{bearer_token, prepare_client, request_url};
use mochow_rust_sdk::mochow::config::{
    has_prefix, normalize_endpoint, ClientConfiguration, ClientConfigurationBuilder,
};

fn configuration(endpoint: &str) -> ClientConfiguration {
    ClientConfigurationBuilder::default()
        .account("acc")
        .api_key("key")
        .endpoint(endpoint)
        .build()
        .unwrap()
}

#[test]
fn builder_fills_defaults() {
    let conf = configuration("127.0.0.1:5287");
    assert_eq!(conf.version, "v1");
    assert_eq!(conf.time_out_seconds, 30);
    assert_eq!(conf.max_retries, 3);
    assert_eq!(conf.user_agent, "");
    assert_eq!(conf.endpoint, "127.0.0.1:5287");
}

#[test]
fn builder_keeps_set_values() {
    let conf = ClientConfigurationBuilder::default()
        .account("acc")
        .api_key("key")
        .endpoint("http://h")
        .time_out_seconds(5)
        .max_retries(7)
        .user_agent("agent")
        .build()
        .unwrap();
    assert_eq!(conf.time_out_seconds, 5);
    assert_eq!(conf.max_retries, 7);
    assert_eq!(conf.user_agent, "agent");
}

#[test]
fn builder_requires_account_key_and_endpoint() {
    let missing = ClientConfigurationBuilder::default().account("a").api_key("k").build();
    assert!(matches!(missing, Err(SdkError::ParamsError(_))));
    let missing = ClientConfigurationBuilder::default().build();
    assert!(matches!(missing, Err(SdkError::ParamsError(_))));
}

#[test]
fn request_headers_carry_user_agent() {
    let conf = configuration("h");
    let headers = conf.get_request_headers();
    assert_eq!(headers.len(), 1);
    assert_eq!(headers[0].0, "user-agent");
    assert_eq!(headers[0].1, "mochow-sdk-rust");
    let conf = ClientConfigurationBuilder::default()
        .account("a")
        .api_key("k")
        .endpoint("h")
        .user_agent("my-app")
        .build()
        .unwrap();
    assert_eq!(conf.get_request_headers()[0].1, "mochow-sdk-rust/my-app");
}

#[test]
fn endpoint_without_scheme_gains_http() {
    assert_eq!(normalize_endpoint("127.0.0.1:5287"), "http://127.0.0.1:5287");
    assert_eq!(normalize_endpoint("example.com"), "http://example.com");
    assert_eq!(normalize_endpoint("httpx://a"), "http://httpx://a");
}

#[test]
fn endpoint_with_scheme_is_kept() {
    assert_eq!(normalize_endpoint("http://127.0.0.1:5287"), "http://127.0.0.1:5287");
    assert_eq!(normalize_endpoint("https://example.com"), "https://example.com");
    let once = normalize_endpoint("h:1");
    assert_eq!(normalize_endpoint(&once), once);
}

#[test]
fn prefix_test_compares_characters() {
    assert!(has_prefix("https://x", "https://"));
    assert!(!has_prefix("http", "https://"));
    assert!(has_prefix("abc", ""));
    assert!(!has_prefix("abd", "abc"));
}

#[test]
fn prepare_client_normalizes_endpoint() {
    let parts = prepare_client(&configuration("127.0.0.1:5287")).unwrap();
    assert_eq!(parts.configuration.endpoint, "http://127.0.0.1:5287");
    assert_eq!(parts.credential.token(), "account=acc&api_key=key");
    assert_eq!(bearer_token(&parts.credential), Some("account=acc&api_key=key"));
    let parts = prepare_client(&configuration("https://h")).unwrap();
    assert_eq!(parts.configuration.endpoint, "https://h");
}

#[test]
fn prepare_client_rejects_empty_settings() {
    let mut conf = configuration("h");
    conf.endpoint = String::new();
    match prepare_client(&conf) {
        Err(SdkError::ParamsError(m)) => {
            assert_eq!(m, "account, apiKey and endpoint missing for creating mochow client")
        }
        _ => panic!("expected a params error"),
    }
    let mut conf = configuration("h");
    conf.api_key = String::new();
    assert!(matches!(prepare_client(&conf), Err(SdkError::ParamsError(_))));
}

#[test]
fn urls_join_endpoint_version_segment_and_action() {
    let conf = prepare_client(&configuration("127.0.0.1:5287")).unwrap().configuration;
    assert_eq!(request_url(&conf, "database", "create"), "http://127.0.0.1:5287/v1/database?create");
    assert_eq!(request_url(&conf, "table", ""), "http://127.0.0.1:5287/v1/table");
}
