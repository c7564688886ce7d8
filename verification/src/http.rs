//! Connecting to a server over HTTP.
use crate::client::McpClient;
use crate::error::ClientError;
use crate::header::{
    authorization, authorization_text, header_fields, inserted_fields,
    law_written_authorization_is_found, lemma_visible_ascii_is_text, lower, reads_as_header, Header,
};
use crate::text::{splits_at_first, trimmed};
use reqwest::header::{HeaderMap, HeaderValue};
use rmcp::transport::streamable_http_client::StreamableHttpClientTransportConfig;
use std::time::Duration;
use vstd::prelude::*;
use vstd::utf8::{encode_utf8, is_ascii_chars};

verus! {

/// The settings of the HTTP transport that a client chooses. `P` is the type of a policy for
/// retries.
pub struct HttpTransportConfig<P> {
    /// Where the server is.
    pub uri: String,
    /// When a broken connection is tried again; the transport has a policy of its own where none
    /// is chosen.
    pub retry_config: Option<P>,
    /// The number of messages that the transport keeps until they are read.
    pub channel_buffer_capacity: usize,
    /// Whether a server without sessions will do.
    pub allow_stateless: bool,
    /// What is sent as the authorization.
    pub auth_header: Option<String>,
}

/// Which HTTP client carries the requests.
pub enum HttpClient<C> {
    /// One that exists.
    Existing(C),
    /// A new one, which sends `default_headers` with every request.
    Build { default_headers: Option<HeaderMap<HeaderValue>> },
}

/// A connection to be made.
pub struct HttpConnection<C, P> {
    pub config: HttpTransportConfig<P>,
    pub client: HttpClient<C>,
    /// How long the initialization may take.
    pub timeout: Duration,
}

/// Calls `StreamableHttpClientTransportConfig::with_uri`, which sets the address and leaves the
/// rest as it is by default. Handed on are the address, the number of messages that are kept
/// (sixteen), whether a server without sessions will do (it will), and the authorization (none).
/// The policy for retries is left to the transport.
#[verifier::external_body]
fn default_settings(uri: &str) -> (settings: (String, usize, bool, Option<String>))
    ensures
        settings.0@ == uri@,
        settings.1 == 16,
        settings.2,
        settings.3 is None,
{
    let config = StreamableHttpClientTransportConfig::with_uri(uri);
    (
        config.uri.to_string(),
        config.channel_buffer_capacity,
        config.allow_stateless,
        config.auth_header,
    )
}

/// The settings for the server at `uri` where none are given.
pub fn default_config<P>(uri: &str) -> (config: HttpTransportConfig<P>)
    ensures
        config.uri@ == uri@,
        config.retry_config is None,
        config.channel_buffer_capacity == 16,
        config.allow_stateless,
        config.auth_header is None,
{
    let (uri, channel_buffer_capacity, allow_stateless, auth_header) = default_settings(uri);
    HttpTransportConfig {
        uri,
        retry_config: None,
        channel_buffer_capacity,
        allow_stateless,
        auth_header,
    }
}

/// The authorization that is sent: the one among `headers`, and if there is none that can be
/// written as text, the one that was `configured`.
pub open spec fn chosen_authorization(
    headers: Option<HeaderMap<HeaderValue>>,
    configured: Option<Seq<char>>,
) -> Option<Seq<char>> {
    match headers {
        Some(headers) => match authorization_text(header_fields(headers)) {
            Some(text) => Some(text),
            None => configured,
        },
        None => configured,
    }
}

impl McpClient {
    /// Decides how to connect to the server at `uri`. The address goes before the one in
    /// `transport_config`, an authorization among `headers` before the one there, and an existing
    /// `client` before a new one with `headers`.
    pub fn connect_http<C, P>(
        uri: String,
        client: Option<C>,
        headers: Option<HeaderMap<HeaderValue>>,
        transport_config: Option<HttpTransportConfig<P>>,
        timeout: Duration,
    ) -> (connection: HttpConnection<C, P>)
        ensures
            connection.config.uri@ == uri@,
            match transport_config {
                Some(config) => {
                    &&& connection.config.retry_config == config.retry_config
                    &&& connection.config.channel_buffer_capacity == config.channel_buffer_capacity
                    &&& connection.config.allow_stateless == config.allow_stateless
                    &&& connection.config.auth_header.deep_view() == chosen_authorization(
                        headers,
                        config.auth_header.deep_view(),
                    )
                },
                None => {
                    &&& connection.config.retry_config is None
                    &&& connection.config.channel_buffer_capacity == 16
                    &&& connection.config.allow_stateless
                    &&& connection.config.auth_header.deep_view() == chosen_authorization(
                        headers,
                        None,
                    )
                },
            },
            connection.client == (match client {
                Some(existing) => HttpClient::Existing(existing),
                None => HttpClient::Build { default_headers: headers },
            }),
            headers is None ==> connection.config.auth_header.deep_view() == (
            match transport_config {
                Some(config) => config.auth_header.deep_view(),
                None => None,
            }),
            connection.timeout == timeout,
    {
        let mut config = match transport_config {
            Some(config) => config,
            None => default_config(uri.as_str()),
        };
        config.uri = uri;
        if let Some(headers) = &headers {
            if let Some(value) = authorization(headers) {
                config.auth_header = Some(value);
            }
        }
        let client = match client {
            Some(existing) => HttpClient::Existing(existing),
            None => HttpClient::Build { default_headers: headers },
        };
        HttpConnection { config, client, timeout }
    }

    /// The HTTP client after an attempt to build one, or why there is none.
    pub fn client_built<C, E>(built: Result<C, E>) -> (client: Result<C, ClientError<E>>)
        ensures
            client == (match built {
                Ok(client) => Ok(client),
                Err(cause) => Err(ClientError::BuildingClient { cause }),
            }),
    {
        match built {
            Ok(client) => Ok(client),
            Err(cause) => Err(ClientError::BuildingClient { cause }),
        }
    }
}

/// An authorization that is written as a header, whatever the case of its name, is the one that is
/// sent, whatever else is configured, provided that its value is visible ASCII and that no later
/// header has the same name.
pub proof fn law_written_authorization_is_sent(
    headers: Seq<Header>,
    map: HeaderMap<HeaderValue>,
    at: int,
    text: Seq<char>,
    name: Seq<char>,
    value: Seq<char>,
    configured: Option<Seq<char>>,
)
    requires
        header_fields(map) == inserted_fields(headers),
        0 <= at < headers.len(),
        reads_as_header(text, Ok(headers[at])),
        splits_at_first(text, ':', name, value),
        lower(trimmed(name)) == "authorization"@,
        is_ascii_chars(trimmed(value)),
        forall|j: int|
            at < j < headers.len() ==> (#[trigger] headers[j])@.0 != "authorization"@,
    ensures
        chosen_authorization(Some(map), configured) == Some(trimmed(value)),
{
    law_written_authorization_is_found(headers, at, text, name, value);
}

/// Without an authorization among the headers, the one that is configured is sent.
pub proof fn law_configured_authorization_is_kept(
    map: HeaderMap<HeaderValue>,
    configured: Option<Seq<char>>,
)
    requires
        !header_fields(map).contains_key("authorization"@),
    ensures
        chosen_authorization(Some(map), configured) == configured,
{
}

/// Without headers, the authorization that is configured is the one that is chosen.
pub proof fn law_no_headers_leave_the_authorization_alone(configured: Option<Seq<char>>)
    ensures
        chosen_authorization(None, configured) == configured,
{
}

/// A connection without headers sends the authorization that is configured, and none if no settings
/// are given.
pub proof fn law_connection_without_headers<C, P>(
    uri: String,
    client: Option<C>,
    transport_config: Option<HttpTransportConfig<P>>,
    timeout: Duration,
    connection: HttpConnection<C, P>,
)
    requires
        call_ensures(
            McpClient::connect_http::<C, P>,
            (uri, client, None, transport_config, timeout),
            connection,
        ),
    ensures
        transport_config matches Some(config) ==> connection.config.auth_header.deep_view()
            == config.auth_header.deep_view(),
        transport_config is None ==> connection.config.auth_header is None,
{
}

/// A connection sends the first authorization among its headers, byte for byte, whatever is
/// configured, if all its bytes are visible ASCII characters, spaces or tabs.
pub proof fn law_connection_sends_the_authorization_among_headers<C, P>(
    uri: String,
    client: Option<C>,
    map: HeaderMap<HeaderValue>,
    transport_config: Option<HttpTransportConfig<P>>,
    timeout: Duration,
    connection: HttpConnection<C, P>,
)
    requires
        call_ensures(
            McpClient::connect_http::<C, P>,
            (uri, client, Some(map), transport_config, timeout),
            connection,
        ),
        header_fields(map).contains_key("authorization"@),
        forall|i: int|
            0 <= i < header_fields(map)["authorization"@].first().len() ==> {
                let byte = #[trigger] header_fields(map)["authorization"@].first()[i];
                byte == 9 || 32 <= byte <= 126
            },
    ensures
        connection.config.auth_header matches Some(text) && encode_utf8(text@) == header_fields(
            map,
        )["authorization"@].first(),
{
    lemma_visible_ascii_is_text(header_fields(map)["authorization"@].first());
}

/// A connection whose headers have no authorization, or one whose first value is no text, sends the
/// authorization that is configured, and none if no settings are given.
pub proof fn law_connection_keeps_the_configured_authorization<C, P>(
    uri: String,
    client: Option<C>,
    map: HeaderMap<HeaderValue>,
    transport_config: Option<HttpTransportConfig<P>>,
    timeout: Duration,
    connection: HttpConnection<C, P>,
)
    requires
        call_ensures(
            McpClient::connect_http::<C, P>,
            (uri, client, Some(map), transport_config, timeout),
            connection,
        ),
        !header_fields(map).contains_key("authorization"@) || exists|i: int|
            0 <= i < header_fields(map)["authorization"@].first().len() && {
                let byte = #[trigger] header_fields(map)["authorization"@].first()[i];
                byte != 9 && !(32 <= byte <= 126)
            },
    ensures
        transport_config matches Some(config) ==> connection.config.auth_header.deep_view()
            == config.auth_header.deep_view(),
        transport_config is None ==> connection.config.auth_header is None,
{
}

/// Whatever else is given, a connection goes to the address that is asked for and waits as long as
/// it is told. It keeps the other settings, or has the default ones. An existing client is used as it
/// is, and a new one sends the headers.
pub proof fn law_connection_keeps_what_is_given<C, P>(
    uri: String,
    client: Option<C>,
    headers: Option<HeaderMap<HeaderValue>>,
    transport_config: Option<HttpTransportConfig<P>>,
    timeout: Duration,
    connection: HttpConnection<C, P>,
)
    requires
        call_ensures(
            McpClient::connect_http::<C, P>,
            (uri, client, headers, transport_config, timeout),
            connection,
        ),
    ensures
        connection.config.uri@ == uri@,
        connection.timeout == timeout,
        transport_config matches Some(config) ==> {
            &&& connection.config.retry_config == config.retry_config
            &&& connection.config.channel_buffer_capacity == config.channel_buffer_capacity
            &&& connection.config.allow_stateless == config.allow_stateless
        },
        transport_config is None ==> {
            &&& connection.config.retry_config is None
            &&& connection.config.channel_buffer_capacity == 16
            &&& connection.config.allow_stateless
        },
        client matches Some(existing) ==> connection.client == HttpClient::Existing(existing),
        client is None ==> connection.client == (HttpClient::<C>::Build {
            default_headers: headers,
        }),
{
}

/// A client that was built is handed on as it is, and a failure to build one with its cause.
pub proof fn law_built_client_is_handed_on<C, E>(
    built: Result<C, E>,
    client: Result<C, ClientError<E>>,
)
    requires
        call_ensures(McpClient::client_built::<C, E>, (built,), client),
    ensures
        built matches Ok(existing) ==> (client matches Ok(handed) && handed == existing),
        built matches Err(error) ==> (client matches Err(ClientError::BuildingClient { cause })
            && cause == error),
{
}

} // verus!
