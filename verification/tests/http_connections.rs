use codex_mcp_client::client::McpClient;
use codex_mcp_client::error::ClientError;
use codex_mcp_client::header::{collect_headers, parse_header};
use codex_mcp_client::http::{HttpClient, HttpConnection, HttpTransportConfig};
use reqwest::header::HeaderMap;
use std::time::Duration;

fn headers(texts: &[&str]) -> HeaderMap {
    let headers = texts.iter().map(|text| parse_header(text).unwrap()).collect();
    collect_headers(&headers).unwrap()
}

fn configured() -> HttpTransportConfig<&'static str> {
    HttpTransportConfig {
        uri: "http://configured".to_owned(),
        retry_config: Some("twice"),
        channel_buffer_capacity: 3,
        allow_stateless: false,
        auth_header: Some("configured".to_owned()),
    }
}

fn connect(
    client: Option<u8>,
    headers: Option<HeaderMap>,
    config: Option<HttpTransportConfig<&'static str>>,
) -> HttpConnection<u8, &'static str> {
    McpClient::connect_http("http://given".to_owned(), client, headers, config, Duration::from_secs(4))
}

#[test]
fn the_settings_have_defaults() {
    let connection = connect(None, None, None);
    assert_eq!(connection.config.uri, "http://given");
    assert_eq!(connection.config.retry_config, None);
    assert_eq!(connection.config.channel_buffer_capacity, 16);
    assert!(connection.config.allow_stateless);
    assert_eq!(connection.config.auth_header, None);
    assert!(matches!(connection.client, HttpClient::Build { default_headers: None }));
    assert_eq!(connection.timeout, Duration::from_secs(4));
}

#[test]
fn configured_settings_are_kept_but_for_the_address() {
    let connection = connect(None, Some(headers(&["x-a: 1"])), Some(configured()));
    assert_eq!(connection.config.uri, "http://given");
    assert_eq!(connection.config.retry_config, Some("twice"));
    assert_eq!(connection.config.channel_buffer_capacity, 3);
    assert!(!connection.config.allow_stateless);
    assert_eq!(connection.config.auth_header.as_deref(), Some("configured"));
}

#[test]
fn a_written_authorization_is_sent() {
    let map = headers(&["Authorization: one", "AUTHORIZATION: two "]);
    let connection = connect(None, Some(map), Some(configured()));
    assert_eq!(connection.config.auth_header.as_deref(), Some("two"));
}

#[test]
fn an_authorization_that_is_no_text_leaves_the_configured_one() {
    let map = headers(&["Authorization: \u{e9}"]);
    let connection = connect(None, Some(map), Some(configured()));
    assert_eq!(connection.config.auth_header.as_deref(), Some("configured"));
}

#[test]
fn a_new_client_sends_the_headers() {
    match connect(None, Some(headers(&["x-a: 1"])), None).client {
        HttpClient::Build { default_headers: Some(headers) } => {
            assert_eq!(headers.get("x-a").unwrap(), "1");
        }
        _ => panic!("a new client was expected"),
    }
}

#[test]
fn an_existing_client_is_used() {
    let connection = connect(Some(7), Some(headers(&["authorization: t"])), None);
    assert!(matches!(connection.client, HttpClient::Existing(7)));
    assert_eq!(connection.config.auth_header.as_deref(), Some("t"));
}

#[test]
fn a_configuration_may_leave_the_retries_to_the_transport() {
    let config = HttpTransportConfig { retry_config: None, ..configured() };
    assert_eq!(connect(None, None, Some(config)).config.retry_config, None);
}

#[test]
fn a_client_that_cannot_be_built_is_reported() {
    assert_eq!(McpClient::client_built::<u8, &str>(Ok(7)).unwrap(), 7);
    let error = McpClient::client_built::<u8, &str>(Err("no TLS")).unwrap_err();
    assert!(matches!(error, ClientError::BuildingClient { cause: "no TLS" }));
    assert_eq!(error.message().as_deref(), Some("building reqwest client"));
}
