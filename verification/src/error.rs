//! What can go wrong on the way to a server's answer.
use crate::json::ArgumentsError;
use crate::text::joined;
use vstd::prelude::*;

verus! {

/// Why a request to the server has no result. `E` is the error of the service that carries the
/// messages and converts what they hold.
#[derive(Debug)]
pub enum ClientError<E> {
    /// The arguments for `tool` are not a JSON object.
    InvalidArguments { tool: String, cause: ArgumentsError },
    /// The server answered with something other than the result of a tool.
    UnexpectedResponse { response: String },
    /// There is no HTTP client to carry the requests.
    BuildingClient { cause: E },
    /// The server did not finish the initialization in time.
    InitializationTimedOut,
    /// A message was not carried, or its result not converted.
    Service(E),
}

impl<E> ClientError<E> {
    /// What `message` says.
    pub open spec fn message_text(self) -> Option<Seq<char>> {
        match self {
            ClientError::InvalidArguments { tool, .. } => Some(
                "invalid arguments for tool `"@ + tool@ + "`"@,
            ),
            ClientError::UnexpectedResponse { response } => Some(
                "unexpected response variant: "@ + response@,
            ),
            ClientError::BuildingClient { .. } => Some("building reqwest client"@),
            ClientError::InitializationTimedOut => Some(
                "timed out waiting for MCP client initialization"@,
            ),
            ClientError::Service(_) => None,
        }
    }

    /// The error in words. An error of the service has words of its own.
    pub fn message(&self) -> (text: Option<String>)
        ensures
            text.deep_view() == self.message_text(),
    {
        match self {
            ClientError::InvalidArguments { tool, .. } => Some(
                joined("invalid arguments for tool `", tool.as_str()).concat("`"),
            ),
            ClientError::UnexpectedResponse { response } => Some(
                joined("unexpected response variant: ", response.as_str()),
            ),
            ClientError::BuildingClient { .. } => Some("building reqwest client".to_owned()),
            ClientError::InitializationTimedOut => Some(
                "timed out waiting for MCP client initialization".to_owned(),
            ),
            ClientError::Service(_) => None,
        }
    }
}

/// What is said of an error names what it is about: the tool whose arguments are refused, or the
/// response that was not expected. Only an error of the service is left to its own words.
pub proof fn law_messages_name_their_subject<E>(error: ClientError<E>, text: Option<String>)
    requires
        call_ensures(ClientError::<E>::message, (&error,), text),
    ensures
        text is None <==> error is Service,
        error matches ClientError::InvalidArguments { tool, .. } ==> text->Some_0@
            == "invalid arguments for tool `"@ + tool@ + "`"@,
        error matches ClientError::UnexpectedResponse { response } ==> text->Some_0@
            == "unexpected response variant: "@ + response@,
        error is BuildingClient ==> text->Some_0@ == "building reqwest client"@,
        error is InitializationTimedOut ==> text->Some_0@
            == "timed out waiting for MCP client initialization"@,
{
}

} // verus!
