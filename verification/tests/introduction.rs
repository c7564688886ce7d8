use codex_mcp_client::info::{
    codex_client_info, parse_protocol_version, protocol_version_or_latest, MCP_SCHEMA_VERSION,
};
use codex_mcp_client::service::{
    ClientResult, CodexClientService, Delivery, ElicitationAction, ServerRequest,
    NOTIFICATION_CHANNEL_CAPACITY,
};

#[test]
fn a_plain_version_is_taken_as_it_is() {
    for version in ["2025-06-18", "2024-11-05", "2099-01-01", "", "n\u{e9}w \u{7f}"] {
        assert_eq!(parse_protocol_version(version), version);
    }
}

#[test]
fn escape_sequences_are_read() {
    assert_eq!(parse_protocol_version("a\\u0041\\\\"), "aA\\");
}

#[test]
fn what_is_no_json_string_gives_the_latest_version() {
    for version in ["a\nb", "a\"b", "\\", "\\x", "\u{1f}"] {
        assert_eq!(parse_protocol_version(version), "2025-03-26");
    }
}

#[test]
fn the_latest_version_stands_in_for_none() {
    assert_eq!(protocol_version_or_latest(None), "2025-03-26");
    assert_eq!(protocol_version_or_latest(Some("x".to_owned())), "x");
}

#[test]
fn the_client_introduces_itself() {
    assert_eq!(MCP_SCHEMA_VERSION, "2025-06-18");
    let info = codex_client_info("1.2.3");
    assert_eq!(info.protocol_version, "2025-06-18");
    assert!(!info.capabilities.experimental);
    assert!(!info.capabilities.roots);
    assert!(!info.capabilities.sampling);
    assert_eq!(info.capabilities.elicitation.unwrap().schema_validation, None);
    assert_eq!(info.client_info.name, "codex-mcp-client");
    assert_eq!(info.client_info.title.as_deref(), Some("Codex"));
    assert_eq!(info.client_info.version, "1.2.3");
    assert_eq!(info.client_info.icons, None);
    assert_eq!(info.client_info.website_url, None);
}

#[test]
fn the_service_hands_out_the_introduction() {
    let info = CodexClientService::new("1.2.3").get_info();
    assert_eq!(info.protocol_version, "2025-06-18");
    assert_eq!(info.client_info.version, "1.2.3");
    assert_eq!(info.client_info.title.as_deref(), Some("Codex"));
    assert!(info.capabilities.elicitation.is_some());
}

#[test]
fn copies_of_an_introduction_say_the_same() {
    let mut info = codex_client_info("1");
    info.client_info.icons = Some(vec!["a.png".to_owned(), "b.png".to_owned()]);
    info.client_info.website_url = Some("https://example.com".to_owned());
    let copy = info.clone();
    assert_eq!(copy.client_info.icons, info.client_info.icons);
    assert_eq!(copy.client_info.website_url, info.client_info.website_url);
    assert_eq!(copy.client_info.name, info.client_info.name);
}

#[test]
fn a_ping_is_acknowledged() {
    let answer = CodexClientService::new("1").handle_request(ServerRequest::Ping);
    assert!(matches!(answer, Ok(ClientResult::Empty)));
}

#[test]
fn messages_are_not_created() {
    let answer = CodexClientService::new("1").handle_request(ServerRequest::CreateMessage);
    let error = answer.unwrap_err();
    assert_eq!(error.code, -32601);
    assert_eq!(error.message, "sampling/createMessage");
    assert_eq!(error.data, None);
}

#[test]
fn there_are_no_roots() {
    let answer = CodexClientService::new("1").handle_request(ServerRequest::ListRoots);
    assert!(matches!(answer, Ok(ClientResult::ListRoots { roots }) if roots.is_empty()));
}

#[test]
fn elicitations_are_declined() {
    let answer = CodexClientService::new("1").handle_request(ServerRequest::CreateElicitation);
    assert!(matches!(
        answer,
        Ok(ClientResult::CreateElicitation { action: ElicitationAction::Decline, content: None })
    ));
}

#[test]
fn nobody_listening_is_no_error() {
    let service = CodexClientService::new("1");
    let report = service.handle_notification(Delivery::NoSubscribers);
    assert!(report.answer.is_ok() && report.dropped);
    let report = service.handle_notification(Delivery::Delivered { subscribers: 2 });
    assert!(report.answer.is_ok() && !report.dropped);
    assert_eq!(NOTIFICATION_CHANNEL_CAPACITY, 128);
}
