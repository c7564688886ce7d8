use codex_mcp_client::cli::{
    parse_key_val, plan_connection, CliError, CliOptions, Connection, DEFAULT_TIMEOUT_SECS,
    LIST_FAILURE_CONTEXT,
};
use codex_mcp_client::client::McpClient;
use codex_mcp_client::env::{create_env_for_mcp_server, EnvMap, Platform};
use codex_mcp_client::header::parse_header;
use codex_mcp_client::stdio::Stream;
use std::time::Duration;

fn options(http: Option<&str>, headers: &[&str], env: &[&str], args: &[&str]) -> CliOptions<String> {
    CliOptions {
        http: http.map(str::to_owned),
        headers: headers.iter().map(|text| parse_header(text).unwrap()).collect(),
        env: env.iter().map(|text| parse_key_val(text).unwrap()).collect(),
        args: args.iter().map(|arg| arg.to_string()).collect(),
    }
}

#[test]
fn the_name_ends_at_the_first_equals_sign() {
    assert_eq!(parse_key_val("A=b=c").unwrap(), ("A".to_owned(), "b=c".to_owned()));
    assert_eq!(parse_key_val("=").unwrap(), (String::new(), String::new()));
    assert_eq!(parse_key_val(" A = b ").unwrap(), (" A ".to_owned(), " b ".to_owned()));
}

#[test]
fn a_pair_without_an_equals_sign_is_refused() {
    let error = parse_key_val("A:b").unwrap_err();
    assert_eq!(error.got, "A:b");
    assert_eq!(error.message(), "expected NAME=VALUE, got A:b");
}

#[test]
fn a_server_goes_before_a_program() {
    let plan = plan_connection(options(
        Some("http://localhost/mcp"),
        &["X-A: 1", "x-a: 2"],
        &["A=b"],
        &["server"],
    ));
    match plan {
        Ok(Connection::Http { url, headers }) => {
            assert_eq!(url, "http://localhost/mcp");
            assert_eq!(headers.len(), 1);
            assert_eq!(headers.get("X-A").unwrap(), "2");
        }
        _ => panic!("a connection over HTTP was expected"),
    }
}

#[test]
fn too_many_headers_are_refused() {
    let headers = (0..30000).map(|i| parse_header(&format!("x-{i}:")).unwrap()).collect();
    let plan = plan_connection(CliOptions {
        http: Some("http://localhost".to_owned()),
        headers,
        env: Vec::new(),
        args: Vec::<String>::new(),
    });
    match plan {
        Err(error) => {
            assert!(matches!(error, CliError::TooManyHeaders { .. }));
            assert_eq!(error.message(), "size overflows MAX_SIZE: MaxSizeReached");
        }
        Ok(_) => panic!("an error was expected"),
    }
}

#[test]
fn the_first_argument_is_the_program() {
    let plan = plan_connection(options(None, &[], &["A=1", "B=2", "A=3"], &["server", "-v", "x"]));
    match plan {
        Ok(Connection::Stdio { program, args, env }) => {
            assert_eq!(program, "server");
            assert_eq!(args, ["-v", "x"]);
            assert_eq!(env.get("A").map(String::as_str), Some("3"));
            assert_eq!(env.get("B").map(String::as_str), Some("2"));
        }
        _ => panic!("a program was expected"),
    }
}

#[test]
fn without_a_server_or_a_program_the_usage_is_shown() {
    match plan_connection(options(None, &["x-a: 1"], &[], &[])) {
        Err(error) => {
            assert!(matches!(error, CliError::Usage));
            assert_eq!(
                error.message(),
                "Usage: codex-mcp-client <program> [args..]\n\nExample: codex-mcp-client codex-mcp-server"
            );
        }
        Ok(_) => panic!("an error was expected"),
    }
}

#[test]
fn the_default_timeout_is_ten_seconds() {
    assert_eq!(DEFAULT_TIMEOUT_SECS, 10);
}

#[test]
fn a_written_variable_reaches_the_server() {
    let mut own_env = EnvMap::new();
    own_env.insert("LANG".to_owned(), "C".to_owned());
    let extra = EnvMap::from_pairs(vec![parse_key_val("LANG=a=b").unwrap()]);
    let env = create_env_for_mcp_server(Platform::Unix, &own_env, Some(extra));
    assert_eq!(env.get("LANG").map(String::as_str), Some("a=b"));
}

#[test]
fn a_server_is_spawned_in_an_environment_of_its_own() {
    let mut own_env = EnvMap::new();
    own_env.insert("PATH".to_owned(), "/bin".to_owned());
    own_env.insert("OTHER".to_owned(), "x".to_owned());
    let launch = McpClient::spawn_stdio(
        Platform::Unix,
        &own_env,
        "server".to_owned(),
        vec!["-v".to_owned()],
        None,
        Duration::from_secs(7),
    );
    assert_eq!(launch.program, "server");
    assert_eq!(launch.args, ["-v"]);
    assert!(!launch.keep_own_env);
    assert_eq!(launch.env.into_pairs(), [("PATH".to_owned(), "/bin".to_owned())]);
    assert_eq!(launch.stdin, Stream::Piped);
    assert_eq!(launch.stdout, Stream::Piped);
    assert_eq!(launch.stderr, Stream::Inherited);
    assert!(launch.kill_on_drop);
    assert_eq!(launch.timeout, Duration::from_secs(7));
}

#[test]
fn failures_are_put_in_context() {
    let http = plan_connection(options(Some("http://localhost"), &[], &[], &[]));
    let stdio = plan_connection(options(None, &[], &[], &["server"]));
    match (http, stdio) {
        (Ok(http), Ok(stdio)) => {
            assert_eq!(http.failure_context(), "failed to connect to HTTP MCP server");
            assert_eq!(stdio.failure_context(), "failed to spawn subprocess");
        }
        _ => panic!("two connections were expected"),
    }
    assert_eq!(LIST_FAILURE_CONTEXT, "tools/list request failed");
}
