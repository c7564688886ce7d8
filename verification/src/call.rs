//! Calling a tool: which messages go out, and what becomes of the answers.
use crate::client::McpClient;
use crate::error::ClientError;
use crate::json::{json_object, json_text, value_to_json_object, ArgumentsError, JsonObject};
use serde_json::Value;
use std::time::Duration;
use vstd::prelude::*;

verus! {

/// What is sent to the server when a tool is called.
pub struct CallToolParams {
    pub name: String,
    pub arguments: Option<JsonObject>,
}

/// A response of the server, told apart by its kind.
pub enum ServerReply<R> {
    /// The result of a tool.
    ToolResult(R),
    /// Anything else; `response` describes it.
    Other { response: String },
}

/// What happened to the action that was last asked for. `R` is the type of a tool's result as the
/// service gives it, `U` the type to which it is converted, `E` the error of the service.
pub enum CallEvent<R, U, E> {
    /// The request was sent, or not.
    Sent(Result<(), E>),
    /// The response came, or not.
    Answered(Result<ServerReply<R>, E>),
    /// The request was sent and a tool's result came, or not.
    Called(Result<R, E>),
    /// The result was converted, or not.
    Converted(Result<U, E>),
}

/// What to do next.
pub enum CallAction<R> {
    /// Send the request, to be given up after `timeout`.
    SendRequest { params: CallToolParams, timeout: Duration },
    /// Wait for the response to the request that was sent.
    AwaitResponse,
    /// Send the request and wait for a tool's result, however long it takes.
    CallTool { params: CallToolParams },
    /// Convert the result of the tool.
    Convert { result: R },
}

/// How a call goes on.
pub enum CallStep<R, U, E> {
    /// With an action, whose event is to be handed back.
    Perform { action: CallAction<R> },
    /// Not at all: this is its result.
    Finished { result: Result<U, ClientError<E>> },
}

/// How a call begins. Arguments that are not an object end it before anything is sent.
pub open spec fn first_step<R, U, E>(
    tool_name: String,
    arguments: Option<Result<JsonObject, ArgumentsError>>,
    timeout: Option<Duration>,
) -> CallStep<R, U, E> {
    match arguments {
        Some(Err(cause)) => CallStep::Finished {
            result: Err(ClientError::InvalidArguments { tool: tool_name, cause }),
        },
        _ => {
            let params = CallToolParams {
                name: tool_name,
                arguments: match arguments {
                    Some(Ok(members)) => Some(members),
                    _ => None,
                },
            };
            match timeout {
                Some(timeout) => CallStep::Perform {
                    action: CallAction::SendRequest { params, timeout },
                },
                None => CallStep::Perform { action: CallAction::CallTool { params } },
            }
        },
    }
}

/// How a call goes on after an event. Every failure of the service ends the call, and so does a
/// response that is not the result of a tool.
pub open spec fn next_step<R, U, E>(event: CallEvent<R, U, E>) -> CallStep<R, U, E> {
    match event {
        CallEvent::Sent(Ok(_)) => CallStep::Perform { action: CallAction::AwaitResponse },
        CallEvent::Answered(Ok(ServerReply::ToolResult(result)))
        | CallEvent::Called(Ok(result)) => CallStep::Perform {
            action: CallAction::Convert { result },
        },
        CallEvent::Answered(Ok(ServerReply::Other { response })) => CallStep::Finished {
            result: Err(ClientError::UnexpectedResponse { response }),
        },
        CallEvent::Converted(Ok(converted)) => CallStep::Finished { result: Ok(converted) },
        CallEvent::Sent(Err(error))
        | CallEvent::Answered(Err(error))
        | CallEvent::Called(Err(error))
        | CallEvent::Converted(Err(error)) => CallStep::Finished {
            result: Err(ClientError::Service(error)),
        },
    }
}

/// Begins a call with arguments that have been looked at.
pub fn begin_call<R, U, E>(
    tool_name: String,
    arguments: Option<Result<JsonObject, ArgumentsError>>,
    timeout: Option<Duration>,
) -> (step: CallStep<R, U, E>)
    ensures
        step == first_step::<R, U, E>(tool_name, arguments, timeout),
{
    let arguments = match arguments {
        Some(Err(cause)) => {
            return CallStep::Finished {
                result: Err(ClientError::InvalidArguments { tool: tool_name, cause }),
            };
        },
        Some(Ok(members)) => Some(members),
        None => None,
    };
    let params = CallToolParams { name: tool_name, arguments };
    match timeout {
        Some(timeout) => CallStep::Perform { action: CallAction::SendRequest { params, timeout } },
        None => CallStep::Perform { action: CallAction::CallTool { params } },
    }
}

impl McpClient {
    /// Begins to invoke a tool by name with optional JSON arguments.
    pub fn call_tool<R, U, E>(
        tool_name: String,
        arguments: Option<Value>,
        timeout: Option<Duration>,
    ) -> (step: CallStep<R, U, E>)
        ensures
            match arguments {
                None => step == first_step::<R, U, E>(tool_name, None, timeout),
                Some(value) => match json_object(value) {
                    Some(members) => step == first_step::<R, U, E>(
                        tool_name,
                        Some(Ok(members)),
                        timeout,
                    ),
                    None => {
                        &&& step matches CallStep::Finished {
                            result: Err(ClientError::InvalidArguments { tool, cause }),
                        }
                        &&& tool == tool_name
                        &&& cause.got@ == json_text(value)
                    },
                },
            },
    {
        let arguments = match arguments {
            Some(value) => Some(value_to_json_object(value)),
            None => None,
        };
        begin_call(tool_name, arguments, timeout)
    }
}

/// Goes on with a call after an event.
pub fn advance_call<R, U, E>(event: CallEvent<R, U, E>) -> (step: CallStep<R, U, E>)
    ensures
        step == next_step(event),
{
    match event {
        CallEvent::Sent(Ok(_)) => CallStep::Perform { action: CallAction::AwaitResponse },
        CallEvent::Answered(Ok(ServerReply::ToolResult(result)))
        | CallEvent::Called(Ok(result)) => CallStep::Perform {
            action: CallAction::Convert { result },
        },
        CallEvent::Answered(Ok(ServerReply::Other { response })) => CallStep::Finished {
            result: Err(ClientError::UnexpectedResponse { response }),
        },
        CallEvent::Converted(Ok(converted)) => CallStep::Finished { result: Ok(converted) },
        CallEvent::Sent(Err(error))
        | CallEvent::Answered(Err(error))
        | CallEvent::Called(Err(error))
        | CallEvent::Converted(Err(error)) => CallStep::Finished {
            result: Err(ClientError::Service(error)),
        },
    }
}

/// `event` tells what happened to `action`.
pub open spec fn is_event_of<R, U, E>(event: CallEvent<R, U, E>, action: CallAction<R>) -> bool {
    match action {
        CallAction::SendRequest { .. } => event is Sent,
        CallAction::AwaitResponse => event is Answered,
        CallAction::CallTool { .. } => event is Called,
        CallAction::Convert { .. } => event is Converted,
    }
}

/// The most events that a call can take once `action` is to be performed.
pub open spec fn events_left<R>(action: CallAction<R>) -> nat {
    match action {
        CallAction::SendRequest { .. } => 3,
        CallAction::AwaitResponse => 2,
        CallAction::CallTool { .. } => 2,
        CallAction::Convert { .. } => 1,
    }
}

/// The result of a call in which `respond` tells what happens to each action. There is none if an
/// event comes that does not belong to its action.
pub open spec fn call_result<R, U, E>(
    step: CallStep<R, U, E>,
    respond: spec_fn(CallAction<R>) -> CallEvent<R, U, E>,
) -> Option<Result<U, ClientError<E>>>
    decreases
            match step {
                CallStep::Finished { .. } => 0,
                CallStep::Perform { action } => events_left(action),
            },
{
    match step {
        CallStep::Finished { result } => Some(result),
        CallStep::Perform { action } => if is_event_of(respond(action), action) {
            call_result(next_step(respond(action)), respond)
        } else {
            None
        },
    }
}

/// Every call ends, after three events at the latest: whatever happens to its actions, as long as
/// each event belongs to its action, it has a result.
pub proof fn law_calls_end<R, U, E>(
    step: CallStep<R, U, E>,
    respond: spec_fn(CallAction<R>) -> CallEvent<R, U, E>,
)
    requires
        forall|action: CallAction<R>| is_event_of(#[trigger] respond(action), action),
    ensures
        call_result(step, respond) is Some,
        step matches CallStep::Perform { action } ==> events_left(action) <= 3,
        forall|action: CallAction<R>, event: CallEvent<R, U, E>|
            #![trigger is_event_of(event, action)]
            is_event_of(event, action) ==> (next_step(event) matches CallStep::Perform {
                action: following,
            } ==> events_left(following) < events_left(action)),
{
    reveal_with_fuel(call_result, 4);
}

/// A call sends at most one request, at its beginning: no event asks for another.
pub proof fn law_one_request_per_call<R, U, E>(event: CallEvent<R, U, E>)
    ensures
        next_step(event) matches CallStep::Perform { action } ==> !(action is SendRequest) && !(
        action is CallTool),
{
}

/// What is sent does not depend on whether there is a timeout, and a timeout is sent along as it
/// was given.
pub proof fn law_timeout_leaves_the_request_alone<R, U, E>(
    tool_name: String,
    arguments: Option<Result<JsonObject, ArgumentsError>>,
    timeout: Duration,
)
    ensures
        match (
            first_step::<R, U, E>(tool_name, arguments, Some(timeout)),
            first_step::<R, U, E>(tool_name, arguments, None),
        ) {
            (
                CallStep::Perform { action: CallAction::SendRequest { params, timeout: sent } },
                CallStep::Perform { action: CallAction::CallTool { params: others } },
            ) => params == others && sent == timeout,
            (CallStep::Finished { result }, CallStep::Finished { result: other }) => result
                == other && result is Err,
            _ => false,
        },
{
}

/// The arguments of a call, when they are an object or left out.
pub open spec fn accepted(arguments: Option<JsonObject>) -> Option<
    Result<JsonObject, ArgumentsError>,
> {
    match arguments {
        Some(members) => Some(Ok(members)),
        None => None,
    }
}

/// A call with a timeout gives the conversion of the tool's result, if the request was sent and
/// answered with one; otherwise it gives the first failure, or the response that was not expected.
pub proof fn law_result_of_a_call_with_timeout<R, U, E>(
    tool_name: String,
    arguments: Option<JsonObject>,
    timeout: Duration,
    sent: Result<(), E>,
    answered: Result<ServerReply<R>, E>,
    convert: spec_fn(R) -> Result<U, E>,
    respond: spec_fn(CallAction<R>) -> CallEvent<R, U, E>,
)
    requires
        respond(
            CallAction::SendRequest {
                params: CallToolParams { name: tool_name, arguments },
                timeout,
            },
        ) == CallEvent::<R, U, E>::Sent(sent),
        respond(CallAction::AwaitResponse) == CallEvent::<R, U, E>::Answered(answered),
        forall|result: R|
            #[trigger] respond(CallAction::Convert { result }) == CallEvent::<R, U, E>::Converted(
                convert(result),
            ),
    ensures
        call_result(first_step::<R, U, E>(tool_name, accepted(arguments), Some(timeout)), respond)
            == Some(
            match (sent, answered) {
                (Err(error), _) | (Ok(_), Err(error)) => Err(ClientError::Service(error)),
                (Ok(_), Ok(ServerReply::Other { response })) => Err(
                    ClientError::UnexpectedResponse { response },
                ),
                (Ok(_), Ok(ServerReply::ToolResult(result))) => match convert(result) {
                    Ok(converted) => Ok(converted),
                    Err(error) => Err(ClientError::Service(error)),
                },
            },
        ),
{
    reveal_with_fuel(call_result, 4);
}

/// A call without a timeout gives the conversion of the tool's result, if there is one; otherwise
/// it gives the failure.
pub proof fn law_result_of_a_call_without_timeout<R, U, E>(
    tool_name: String,
    arguments: Option<JsonObject>,
    called: Result<R, E>,
    convert: spec_fn(R) -> Result<U, E>,
    respond: spec_fn(CallAction<R>) -> CallEvent<R, U, E>,
)
    requires
        respond(
            CallAction::CallTool { params: CallToolParams { name: tool_name, arguments } },
        ) == CallEvent::<R, U, E>::Called(called),
        forall|result: R|
            #[trigger] respond(CallAction::Convert { result }) == CallEvent::<R, U, E>::Converted(
                convert(result),
            ),
    ensures
        call_result(first_step::<R, U, E>(tool_name, accepted(arguments), None), respond) == Some(
            match called {
                Err(error) => Err(ClientError::Service(error)),
                Ok(result) => match convert(result) {
                    Ok(converted) => Ok(converted),
                    Err(error) => Err(ClientError::Service(error)),
                },
            },
        ),
{
    reveal_with_fuel(call_result, 3);
}

/// Arguments that are not an object end the call before anything is sent, whether or not there is a
/// timeout. The error names the tool and keeps the cause.
pub proof fn law_refused_arguments_end_the_call<R, U, E>(
    tool_name: String,
    cause: ArgumentsError,
    timeout: Option<Duration>,
    step: CallStep<R, U, E>,
)
    requires
        call_ensures(
            begin_call::<R, U, E>,
            (tool_name, Some(Err::<JsonObject, ArgumentsError>(cause)), timeout),
            step,
        ),
    ensures
        step matches CallStep::Finished {
            result: Err(ClientError::InvalidArguments { tool, cause: kept }),
        } && tool@ == tool_name@ && kept.got@ == cause.got@,
{
}

/// A value that is not an object ends the call before anything is sent; the error names the tool and
/// has the text of the value.
pub proof fn law_only_objects_are_sent<R, U, E>(
    tool_name: String,
    value: Value,
    timeout: Option<Duration>,
    step: CallStep<R, U, E>,
)
    requires
        call_ensures(McpClient::call_tool::<R, U, E>, (tool_name, Some(value), timeout), step),
        json_object(value) is None,
    ensures
        step matches CallStep::Finished {
            result: Err(ClientError::InvalidArguments { tool, cause }),
        } && tool@ == tool_name@ && cause.got@ == json_text(value),
{
}

/// A call with an object or without arguments begins with its one request, which has the name of
/// the tool and the arguments as they were given. With a timeout it is sent to be given up after
/// that time, and without one it is waited for.
pub proof fn law_request_carries_what_is_given<R, U, E>(
    tool_name: String,
    arguments: Option<Value>,
    timeout: Option<Duration>,
    step: CallStep<R, U, E>,
)
    requires
        call_ensures(McpClient::call_tool::<R, U, E>, (tool_name, arguments, timeout), step),
        arguments matches Some(value) ==> json_object(value) is Some,
    ensures
        match (timeout, step) {
            (
                Some(given),
                CallStep::Perform { action: CallAction::SendRequest { params, timeout: sent } },
            ) => {
                &&& sent == given
                &&& params.name@ == tool_name@
                &&& params.arguments == (match arguments {
                    Some(value) => json_object(value),
                    None => None,
                })
            },
            (None, CallStep::Perform { action: CallAction::CallTool { params } }) => {
                &&& params.name@ == tool_name@
                &&& params.arguments == (match arguments {
                    Some(value) => json_object(value),
                    None => None,
                })
            },
            _ => false,
        },
{
}

/// A failure of the service ends the call wherever it comes, with the error of the service.
pub proof fn law_failures_end_the_call<R, U, E>(
    event: CallEvent<R, U, E>,
    error: E,
    step: CallStep<R, U, E>,
)
    requires
        call_ensures(advance_call::<R, U, E>, (event,), step),
        event == CallEvent::<R, U, E>::Sent(Err(error)) || event
            == CallEvent::<R, U, E>::Answered(Err(error)) || event
            == CallEvent::<R, U, E>::Called(Err(error)) || event
            == CallEvent::<R, U, E>::Converted(Err(error)),
    ensures
        step matches CallStep::Finished { result: Err(ClientError::Service(kept)) } && kept
            == error,
{
}

/// A response that is not the result of a tool ends the call, with that response in the error.
pub proof fn law_other_responses_end_the_call<R, U, E>(response: String, step: CallStep<R, U, E>)
    requires
        call_ensures(
            advance_call::<R, U, E>,
            (CallEvent::Answered(Ok(ServerReply::Other { response })),),
            step,
        ),
    ensures
        step matches CallStep::Finished {
            result: Err(ClientError::UnexpectedResponse { response: kept }),
        } && kept@ == response@,
{
}

/// After a request that was sent the response is awaited. The result of a tool, on whichever way it
/// came, is converted, and what it is converted to is the result of the call.
pub proof fn law_successful_calls_go_on<R, U, E>(
    result: R,
    converted: U,
    after_sent: CallStep<R, U, E>,
    after_answered: CallStep<R, U, E>,
    after_called: CallStep<R, U, E>,
    after_converted: CallStep<R, U, E>,
)
    requires
        call_ensures(advance_call::<R, U, E>, (CallEvent::Sent(Ok(())),), after_sent),
        call_ensures(
            advance_call::<R, U, E>,
            (CallEvent::Answered(Ok(ServerReply::ToolResult(result))),),
            after_answered,
        ),
        call_ensures(advance_call::<R, U, E>, (CallEvent::Called(Ok(result)),), after_called),
        call_ensures(
            advance_call::<R, U, E>,
            (CallEvent::Converted(Ok(converted)),),
            after_converted,
        ),
    ensures
        after_sent matches CallStep::Perform { action } && action is AwaitResponse,
        after_answered matches CallStep::Perform { action: CallAction::Convert { result: kept } }
            && kept == result,
        after_called == after_answered,
        after_converted matches CallStep::Finished { result: Ok(kept) } && kept == converted,
{
}

} // verus!
