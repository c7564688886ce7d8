//! What the client answers when the server asks.
use crate::info::{codex_client_info, introduces_codex, same_info, ClientInfo};
use vstd::prelude::*;

verus! {

/// The number of notifications that are kept for a subscriber who has not read them yet.
pub const NOTIFICATION_CHANNEL_CAPACITY: usize = 128;

/// The requests that a server can make of a client.
#[derive(Debug, Clone, Copy, PartialEq, Eq)]
pub enum ServerRequest {
    Ping,
    CreateMessage,
    ListRoots,
    CreateElicitation,
}

/// What a user does about an elicitation.
#[derive(Debug, Clone, Copy, PartialEq, Eq)]
pub enum ElicitationAction {
    Accept,
    Decline,
    Cancel,
}

/// The results that the client gives to a server.
#[derive(Debug)]
pub enum ClientResult {
    /// The request is acknowledged.
    Empty,
    /// The directories and files that the server may work on.
    ListRoots { roots: Vec<String> },
    /// What became of an elicitation; `content` is the JSON text of what the user gave.
    CreateElicitation { action: ElicitationAction, content: Option<String> },
}

/// An error in the form of JSON-RPC; `data` is JSON text.
#[derive(Debug)]
pub struct ErrorData {
    pub code: i32,
    pub message: String,
    pub data: Option<String>,
}

/// Calls `ErrorData::method_not_found` for the method that creates messages, which gives the error
/// code that JSON-RPC has for unknown methods and the name of the method, and no data.
#[verifier::external_body]
fn create_message_not_found() -> (error: ErrorData)
    ensures
        error.code == -32601,
        error.message@ == "sampling/createMessage"@,
        error.data is None,
{
    let error = rmcp::ErrorData::method_not_found::<rmcp::model::CreateMessageRequestMethod>();
    ErrorData {
        code: error.code.0,
        message: error.message.into_owned(),
        data: error.data.map(|data| data.to_string()),
    }
}

/// What became of a notification that was handed to the subscribers.
#[derive(Debug, Clone, Copy, PartialEq, Eq)]
pub enum Delivery {
    /// There were subscribers.
    Delivered { subscribers: usize },
    /// There was none.
    NoSubscribers,
}

/// How a notification is dealt with.
#[derive(Debug)]
pub struct NotificationReport {
    /// What the server is told.
    pub answer: Result<(), ErrorData>,
    /// Whether the notification was dropped.
    pub dropped: bool,
}

/// `answer` is what the client answers to `request`: it acknowledges a ping, has no roots,
/// declines every elicitation, and does not know how to create messages.
pub open spec fn answers(request: ServerRequest, answer: Result<ClientResult, ErrorData>) -> bool {
    match request {
        ServerRequest::Ping => answer == Ok::<ClientResult, ErrorData>(ClientResult::Empty),
        ServerRequest::CreateMessage => {
            &&& answer matches Err(error)
            &&& error.code == -32601
            &&& error.message@ == "sampling/createMessage"@
            &&& error.data is None
        },
        ServerRequest::ListRoots => answer matches Ok(ClientResult::ListRoots { roots })
            && roots@.len() == 0,
        ServerRequest::CreateElicitation => answer == Ok::<ClientResult, ErrorData>(
            ClientResult::CreateElicitation { action: ElicitationAction::Decline, content: None },
        ),
    }
}

/// The side of the client that serves the server's requests.
pub struct CodexClientService {
    client_info: ClientInfo,
}

impl CodexClientService {
    /// How the service introduces the client.
    pub closed spec fn info(self) -> ClientInfo {
        self.client_info
    }

    /// The service of a program with the given version.
    pub fn new(version: &str) -> (service: CodexClientService)
        ensures
            introduces_codex(service.info(), version@),
    {
        CodexClientService { client_info: codex_client_info(version) }
    }

    /// Answers a request of the server.
    pub fn handle_request(&self, request: ServerRequest) -> (answer: Result<
        ClientResult,
        ErrorData,
    >)
        ensures
            answers(request, answer),
    {
        match request {
            ServerRequest::Ping => Ok(ClientResult::Empty),
            ServerRequest::CreateMessage => Err(create_message_not_found()),
            ServerRequest::ListRoots => Ok(ClientResult::ListRoots { roots: Vec::new() }),
            ServerRequest::CreateElicitation => Ok(
                ClientResult::CreateElicitation {
                    action: ElicitationAction::Decline,
                    content: None,
                },
            ),
        }
    }

    /// Reports on a notification that was handed to the subscribers. That nobody listens is no
    /// error.
    pub fn handle_notification(&self, delivery: Delivery) -> (report: NotificationReport)
        ensures
            report.answer is Ok,
            report.dropped <==> delivery is NoSubscribers,
    {
        let dropped = match delivery {
            Delivery::Delivered { .. } => false,
            Delivery::NoSubscribers => true,
        };
        NotificationReport { answer: Ok(()), dropped }
    }

    /// How the client introduces itself.
    pub fn get_info(&self) -> (info: ClientInfo)
        ensures
            same_info(info, self.info()),
            info.capabilities == self.info().capabilities,
            forall|version: Seq<char>|
                introduces_codex(self.info(), version) ==> #[trigger] introduces_codex(
                    info,
                    version,
                ),
    {
        self.client_info.clone()
    }
}

/// The client keeps to what it offers: it offers to handle elicitation and answers every one of
/// them, and it does not offer sampling and refuses to create messages.
pub proof fn law_answers_fit_the_capabilities(
    info: ClientInfo,
    version: Seq<char>,
    elicited: Result<ClientResult, ErrorData>,
    sampled: Result<ClientResult, ErrorData>,
)
    requires
        introduces_codex(info, version),
        answers(ServerRequest::CreateElicitation, elicited),
        answers(ServerRequest::CreateMessage, sampled),
    ensures
        info.capabilities.elicitation is Some && elicited is Ok,
        !info.capabilities.sampling && sampled is Err,
{
}

/// No request makes the client act for the user: nothing is accepted, nothing is handed out, and
/// only the creation of messages is refused with an error.
pub proof fn law_nothing_is_given_away(
    request: ServerRequest,
    answer: Result<ClientResult, ErrorData>,
)
    requires
        answers(request, answer),
    ensures
        answer is Err <==> request is CreateMessage,
        answer matches Ok(ClientResult::ListRoots { roots }) ==> roots@.len() == 0,
        answer matches Ok(ClientResult::CreateElicitation { action, content }) ==> action
            is Decline && content is None,
{
}

/// A service introduces the program as the program introduces itself: under its name, in the
/// version that the service was made for, with elicitation as all that it offers.
pub proof fn law_service_introduces_the_program(
    version: &str,
    service: CodexClientService,
    info: ClientInfo,
)
    requires
        call_ensures(CodexClientService::new, (version,), service),
        call_ensures(CodexClientService::get_info, (&service,), info),
    ensures
        introduces_codex(info, version@),
        info.protocol_version@ == "2025-06-18"@,
        !info.capabilities.experimental,
        !info.capabilities.roots,
        !info.capabilities.sampling,
        info.capabilities.elicitation matches Some(elicitation)
            && elicitation.schema_validation is None,
        info.client_info.name@ == "codex-mcp-client"@,
        info.client_info.title.deep_view() == Some("Codex"@),
        info.client_info.version@ == version@,
        info.client_info.icons is None,
        info.client_info.website_url is None,
{
}

/// However often a service is asked for its introduction, it says the same.
pub proof fn law_introductions_agree(
    service: CodexClientService,
    one: ClientInfo,
    other: ClientInfo,
)
    requires
        call_ensures(CodexClientService::get_info, (&service,), one),
        call_ensures(CodexClientService::get_info, (&service,), other),
    ensures
        one.protocol_version@ == other.protocol_version@,
        one.capabilities == other.capabilities,
        one.client_info.name@ == other.client_info.name@,
        one.client_info.title.deep_view() == other.client_info.title.deep_view(),
        one.client_info.version@ == other.client_info.version@,
        one.client_info.icons.deep_view() == other.client_info.icons.deep_view(),
        one.client_info.website_url.deep_view() == other.client_info.website_url.deep_view(),
{
}

/// Every service gives each kind of request its one answer: a ping is acknowledged, there are no
/// roots, an elicitation is declined without content, and to create messages is an unknown method.
pub proof fn law_each_request_has_its_answer(
    service: CodexClientService,
    request: ServerRequest,
    answer: Result<ClientResult, ErrorData>,
)
    requires
        call_ensures(CodexClientService::handle_request, (&service, request), answer),
    ensures
        request is Ping ==> (answer matches Ok(result) && result is Empty),
        request is ListRoots ==> (answer matches Ok(ClientResult::ListRoots { roots }) && roots@
            == Seq::<String>::empty()),
        request is CreateElicitation ==> (answer matches Ok(
            ClientResult::CreateElicitation { action, content },
        ) && action is Decline && content is None),
        request is CreateMessage ==> (answer matches Err(error) && error.code == -32601
            && error.message@ == "sampling/createMessage"@ && error.data is None),
{
    if let Ok(ClientResult::ListRoots { roots }) = answer {
        assert(roots@ =~= Seq::<String>::empty());
    }
}

/// A notification never makes an error for the server, and it is dropped exactly when nobody
/// listens, however many there are when somebody does.
pub proof fn law_notifications_are_no_errors(
    service: CodexClientService,
    subscribers: usize,
    heard: NotificationReport,
    unheard: NotificationReport,
)
    requires
        call_ensures(
            CodexClientService::handle_notification,
            (&service, Delivery::Delivered { subscribers }),
            heard,
        ),
        call_ensures(
            CodexClientService::handle_notification,
            (&service, Delivery::NoSubscribers),
            unheard,
        ),
    ensures
        heard.answer is Ok && unheard.answer is Ok,
        !heard.dropped && unheard.dropped,
{
}

} // verus!
