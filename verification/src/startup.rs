//! Waiting for the initialization of a client.
use crate::client::McpClient;
use crate::error::ClientError;
use vstd::prelude::*;

verus! {

/// What became of the initialization. `S` is a service that runs, `E` an error of the service.
pub enum Startup<S, E> {
    /// The time was up before it ended.
    TimedOut,
    /// It ended with an error.
    Failed(E),
    /// It ended with a service that runs.
    Running(S),
}

impl McpClient {
    /// The service that runs after the initialization, or why none does.
    pub fn start_with_transport<S, E>(startup: Startup<S, E>) -> (service: Result<S, ClientError<E>>)
        ensures
            service == (match startup {
                Startup::TimedOut => Err(ClientError::InitializationTimedOut),
                Startup::Failed(error) => Err(ClientError::Service(error)),
                Startup::Running(service) => Ok(service),
            }),
    {
        match startup {
            Startup::TimedOut => Err(ClientError::InitializationTimedOut),
            Startup::Failed(error) => Err(ClientError::Service(error)),
            Startup::Running(service) => Ok(service),
        }
    }
}

/// A service that runs is handed on as it is, a failure with its error, and running out of time is
/// an error of its own.
pub proof fn law_startup_is_handed_on<S, E>(
    startup: Startup<S, E>,
    service: Result<S, ClientError<E>>,
)
    requires
        call_ensures(McpClient::start_with_transport::<S, E>, (startup,), service),
    ensures
        startup matches Startup::Running(running) ==> (service matches Ok(handed) && handed
            == running),
        startup matches Startup::Failed(error) ==> (service matches Err(ClientError::Service(kept))
            && kept == error),
        startup is TimedOut ==> (service matches Err(error) && error is InitializationTimedOut),
{
}

} // verus!
