use codex_mcp_client::call::{
    advance_call, begin_call, CallAction, CallEvent, CallStep, CallToolParams,
    ServerReply,
};
use codex_mcp_client::client::McpClient;
use codex_mcp_client::error::ClientError;
use codex_mcp_client::json::{value_to_json_object, ArgumentsError, JsonObject};
use codex_mcp_client::startup::Startup;
use serde_json::Value;
use std::time::Duration;

type Step = CallStep<u8, u16, &'static str>;
type Event = CallEvent<u8, u16, &'static str>;

fn text_argument() -> JsonObject {
    let mut members = JsonObject::new();
    members.insert("text".to_owned(), Value::String("hello".to_owned()));
    members
}

fn result(step: Step) -> Result<u16, ClientError<&'static str>> {
    match step {
        CallStep::Finished { result } => result,
        CallStep::Perform { .. } => panic!("the call has not ended"),
    }
}

fn sent_params(step: Step) -> (CallToolParams, Option<Duration>) {
    match step {
        CallStep::Perform { action: CallAction::SendRequest { params, timeout } } => {
            (params, Some(timeout))
        }
        CallStep::Perform { action: CallAction::CallTool { params } } => (params, None),
        _ => panic!("a request was expected"),
    }
}

#[test]
fn an_object_keeps_its_members() {
    let members = value_to_json_object(Value::Object(text_argument())).unwrap();
    assert_eq!(members, text_argument());
    assert!(value_to_json_object(Value::Object(JsonObject::new())).unwrap().is_empty());
}

#[test]
fn other_values_are_refused_with_their_text() {
    let cases = [
        (Value::Null, "null"),
        (Value::Bool(true), "true"),
        (Value::from(7), "7"),
        (Value::String("a\"b".to_owned()), "\"a\\\"b\""),
        (Value::Array(vec![Value::from(1), Value::Null]), "[1,null]"),
    ];
    for (value, text) in cases {
        let error = value_to_json_object(value).unwrap_err();
        assert_eq!(error.got, text);
        assert_eq!(error.message(), format!("expected arguments to be a JSON object, got {text}"));
    }
}

#[test]
fn a_timeout_is_sent_along() {
    let timeout = Duration::from_secs(5);
    let (params, sent) = sent_params(McpClient::call_tool(
        "echo".to_owned(),
        Some(Value::Object(text_argument())),
        Some(timeout),
    ));
    assert_eq!(params.name, "echo");
    assert_eq!(params.arguments, Some(text_argument()));
    assert_eq!(sent, Some(timeout));
}

#[test]
fn a_timeout_leaves_the_request_alone() {
    let arguments = || Some(Value::Object(text_argument()));
    let (timed, _) =
        sent_params(McpClient::call_tool("echo".to_owned(), arguments(), Some(Duration::from_secs(1))));
    let (untimed, timeout) = sent_params(McpClient::call_tool("echo".to_owned(), arguments(), None));
    assert_eq!(timed.name, untimed.name);
    assert_eq!(timed.arguments, untimed.arguments);
    assert_eq!(timeout, None);
}

#[test]
fn arguments_may_be_left_out() {
    let (params, _) = sent_params(McpClient::call_tool("echo".to_owned(), None, None));
    assert_eq!(params.arguments, None);
}

#[test]
fn arguments_that_are_no_object_end_the_call() {
    for timeout in [None, Some(Duration::from_secs(1))] {
        let step: Step = McpClient::call_tool("echo".to_owned(), Some(Value::from(3)), timeout);
        let error = result(step).unwrap_err();
        assert_eq!(error.message().as_deref(), Some("invalid arguments for tool `echo`"));
        match error {
            ClientError::InvalidArguments { tool, cause } => {
                assert_eq!(tool, "echo");
                assert_eq!(cause.message(), "expected arguments to be a JSON object, got 3");
            }
            other => panic!("unexpected error: {other:?}"),
        }
    }
}

#[test]
fn a_call_begins_with_what_was_found_of_its_arguments() {
    let refused: Step =
        begin_call("t".to_owned(), Some(Err(ArgumentsError { got: "1".to_owned() })), None);
    assert!(matches!(result(refused), Err(ClientError::InvalidArguments { .. })));
    let (params, _) = sent_params(begin_call("t".to_owned(), Some(Ok(text_argument())), None));
    assert_eq!(params.arguments, Some(text_argument()));
}

#[test]
fn a_call_with_a_timeout_takes_three_events() {
    let step: Step = advance_call(CallEvent::Sent(Ok(())));
    assert!(matches!(step, CallStep::Perform { action: CallAction::AwaitResponse }));
    let step: Step = advance_call(CallEvent::Answered(Ok(ServerReply::ToolResult(3))));
    assert!(matches!(step, CallStep::Perform { action: CallAction::Convert { result: 3 } }));
    let step: Step = advance_call(CallEvent::Converted(Ok(300)));
    assert_eq!(result(step).unwrap(), 300);
}

#[test]
fn a_call_without_a_timeout_takes_two_events() {
    let step: Step = advance_call(CallEvent::Called(Ok(4)));
    assert!(matches!(step, CallStep::Perform { action: CallAction::Convert { result: 4 } }));
    let step: Step = advance_call(CallEvent::Converted(Ok(400)));
    assert_eq!(result(step).unwrap(), 400);
}

#[test]
fn an_unexpected_response_ends_the_call() {
    let other = ServerReply::Other { response: "EmptyResult".to_owned() };
    let step: Step = advance_call(CallEvent::Answered(Ok(other)));
    let error = result(step).unwrap_err();
    assert!(matches!(&error, ClientError::UnexpectedResponse { response } if response == "EmptyResult"));
    assert_eq!(error.message().as_deref(), Some("unexpected response variant: EmptyResult"));
}

#[test]
fn every_failure_of_the_service_ends_the_call() {
    let events: [Event; 4] = [
        CallEvent::Sent(Err("down")),
        CallEvent::Answered(Err("down")),
        CallEvent::Called(Err("down")),
        CallEvent::Converted(Err("down")),
    ];
    for event in events {
        let error = result(advance_call(event)).unwrap_err();
        assert!(matches!(error, ClientError::Service("down")));
        assert_eq!(error.message(), None);
    }
}

#[test]
fn tools_are_listed_in_their_order() {
    let listed: Result<Vec<Result<u8, &str>>, &str> = Ok(vec![Ok(3), Ok(1), Ok(2)]);
    assert_eq!(McpClient::list_all_tools(listed).unwrap(), [3, 1, 2]);
    assert!(McpClient::list_all_tools::<u8, &str>(Ok(Vec::new())).unwrap().is_empty());
}

#[test]
fn the_first_tool_that_cannot_be_converted_is_reported() {
    let listed: Result<Vec<Result<u8, &str>>, &str> = Ok(vec![Ok(3), Err("a"), Ok(1), Err("b")]);
    assert!(matches!(McpClient::list_all_tools(listed), Err(ClientError::Service("a"))));
}

#[test]
fn a_list_that_is_not_given_is_reported() {
    assert!(matches!(McpClient::list_all_tools::<u8, &str>(Err("closed")), Err(ClientError::Service("closed"))));
}

#[test]
fn the_initialization_has_three_outcomes() {
    assert_eq!(McpClient::start_with_transport::<u8, &str>(Startup::Running(9)).unwrap(), 9);
    assert!(matches!(
        McpClient::start_with_transport::<u8, &str>(Startup::Failed("refused")),
        Err(ClientError::Service("refused"))
    ));
    let error = McpClient::start_with_transport::<u8, &str>(Startup::TimedOut).unwrap_err();
    assert!(matches!(error, ClientError::InitializationTimedOut));
    assert_eq!(
        error.message().as_deref(),
        Some("timed out waiting for MCP client initialization")
    );
}
