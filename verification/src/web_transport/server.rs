//! The decisions of the server: set up the endpoint and accept sessions for
//! ever, and for each session establish it, accept one bidirectional stream
//! and run the handler's conversation over it.
use crate::error::{CommunicationError, ServerError};
use vstd::prelude::*;

verus! {

/// The outcome of the listen loop's last action.
pub enum ListenEvent {
    /// Whether the endpoint could be bound and set up.
    EndpointReady(Result<(), std::io::Error>),
    /// A client asked for a session.
    SessionArrived,
}

/// What the listen loop does next.
pub enum ListenAction {
    /// Bind and set up the endpoint.
    CreateEndpoint,
    /// Wait for the next client.
    Accept,
    /// Serve the new session in a task of its own, and wait for the next client.
    ServeAndAccept,
    /// Stop, with this error.
    Fail(ServerError),
}

/// The first action of the listen loop.
pub open spec fn listen_first() -> ListenAction {
    ListenAction::CreateEndpoint
}

/// The action that follows an event: a failed setup stops the server with an
/// `IoError`; after that, every client is served and the loop never stops.
pub open spec fn listen_next(event: ListenEvent) -> ListenAction {
    match event {
        ListenEvent::EndpointReady(Ok(())) => ListenAction::Accept,
        ListenEvent::EndpointReady(Err(error)) => ListenAction::Fail(ServerError::IoError(error)),
        ListenEvent::SessionArrived => ListenAction::ServeAndAccept,
    }
}

/// The first action of the listen loop.
pub fn listen_start() -> (action: ListenAction)
    ensures
        action == listen_first(),
{
    ListenAction::CreateEndpoint
}

/// The action that follows `event` in the listen loop.
pub fn listen_step(event: ListenEvent) -> (action: ListenAction)
    ensures
        action == listen_next(event),
{
    match event {
        ListenEvent::EndpointReady(Ok(())) => ListenAction::Accept,
        ListenEvent::EndpointReady(Err(error)) => ListenAction::Fail(ServerError::from(error)),
        ListenEvent::SessionArrived => ListenAction::ServeAndAccept,
    }
}

/// The outcome of a session task's last action.
pub enum SessionEvent {
    /// Whether the WebTransport session was established.
    Established(Result<(), wtransport::error::ConnectionError>),
    /// Whether the client's bidirectional stream was accepted.
    StreamAccepted(Result<(), wtransport::error::ConnectionError>),
    /// How the handler's conversation ended.
    HandlerFinished(Result<(), CommunicationError>),
}

/// What a session task does next.
pub enum SessionAction {
    /// Establish the WebTransport session with the client.
    Establish,
    /// Accept the client's bidirectional stream.
    AcceptStream,
    /// Run the handler's conversation over the stream.
    RunHandler,
    /// Stop, with this result.
    Finish(Result<(), ServerError>),
}

/// The first action of a session task.
pub open spec fn session_first() -> SessionAction {
    SessionAction::Establish
}

/// The action that follows an event: a connection failure ends the session
/// with `ConnectionError`, and the end of the conversation ends the session
/// with the conversation's result.
pub open spec fn session_next(event: SessionEvent) -> SessionAction {
    match event {
        SessionEvent::Established(Ok(())) => SessionAction::AcceptStream,
        SessionEvent::Established(Err(_)) => SessionAction::Finish(Err(ServerError::ConnectionError)),
        SessionEvent::StreamAccepted(Ok(())) => SessionAction::RunHandler,
        SessionEvent::StreamAccepted(Err(_)) => SessionAction::Finish(Err(ServerError::ConnectionError)),
        SessionEvent::HandlerFinished(Ok(())) => SessionAction::Finish(Ok(())),
        SessionEvent::HandlerFinished(Err(error)) => SessionAction::Finish(
            Err(ServerError::CommunicationError(error)),
        ),
    }
}

/// The first action of a session task.
pub fn session_start() -> (action: SessionAction)
    ensures
        action == session_first(),
{
    SessionAction::Establish
}

/// The action that follows `event` in a session task.
pub fn session_step(event: SessionEvent) -> (action: SessionAction)
    ensures
        action == session_next(event),
{
    match event {
        SessionEvent::Established(Ok(())) => SessionAction::AcceptStream,
        SessionEvent::Established(Err(_)) => SessionAction::Finish(Err(ServerError::ConnectionError)),
        SessionEvent::StreamAccepted(Ok(())) => SessionAction::RunHandler,
        SessionEvent::StreamAccepted(Err(error)) => SessionAction::Finish(Err(ServerError::from(error))),
        SessionEvent::HandlerFinished(Ok(())) => SessionAction::Finish(Ok(())),
        SessionEvent::HandlerFinished(Err(error)) => SessionAction::Finish(Err(ServerError::from(error))),
    }
}

} // verus!

verus! {

/// The server stops only when its endpoint cannot be set up, with that
/// `IoError`; once it runs, every client is served and the loop goes on.
pub proof fn lemma_listen_fails_only_at_setup(event: ListenEvent)
    ensures
        (listen_next(event) is Fail) <==> (event matches ListenEvent::EndpointReady(Err(_))),
        event is SessionArrived ==> listen_next(event) == ListenAction::ServeAndAccept,
        listen_first() == ListenAction::CreateEndpoint,
{
}

/// A session ends successfully exactly when its conversation does; a
/// connection failure ends it with `ConnectionError`, and a failed
/// conversation ends it with that `CommunicationError`.
pub proof fn lemma_session_result(event: SessionEvent)
    ensures
        (session_next(event) == SessionAction::Finish(Ok(()))) <==> (event matches SessionEvent::HandlerFinished(Ok(_))),
        event matches SessionEvent::Established(Err(_)) ==> session_next(event) == SessionAction::Finish(
            Err(ServerError::ConnectionError),
        ),
        event matches SessionEvent::StreamAccepted(Err(_)) ==> session_next(event) == SessionAction::Finish(
            Err(ServerError::ConnectionError),
        ),
        event matches SessionEvent::HandlerFinished(Err(error)) ==> session_next(event)
            == SessionAction::Finish(Err(ServerError::CommunicationError(error))),
        session_first() == SessionAction::Establish,
{
}


/// Every step of the listen loop: it starts by setting up the endpoint; a
/// failed setup stops the server with that `IoError`; once set up it waits for
/// a client, and every client that arrives is served while it waits for the
/// next one.
pub proof fn lemma_listen_steps(error: std::io::Error)
    ensures
        listen_first() == ListenAction::CreateEndpoint,
        listen_next(ListenEvent::EndpointReady(Ok(()))) == ListenAction::Accept,
        listen_next(ListenEvent::EndpointReady(Err(error))) == ListenAction::Fail(ServerError::IoError(error)),
        listen_next(ListenEvent::SessionArrived) == ListenAction::ServeAndAccept,
{
}

/// Every step of a session task: it starts by establishing the session; once
/// established it accepts the client's stream; once accepted it runs the
/// conversation; and it finishes with the conversation's result, or with
/// `ConnectionError` when establishing the session or accepting the stream
/// fails.
pub proof fn lemma_session_steps(
    failure: wtransport::error::ConnectionError,
    error: CommunicationError,
)
    ensures
        session_first() == SessionAction::Establish,
        session_next(SessionEvent::Established(Ok(()))) == SessionAction::AcceptStream,
        session_next(SessionEvent::Established(Err(failure))) == SessionAction::Finish(
            Err(ServerError::ConnectionError),
        ),
        session_next(SessionEvent::StreamAccepted(Ok(()))) == SessionAction::RunHandler,
        session_next(SessionEvent::StreamAccepted(Err(failure))) == SessionAction::Finish(
            Err(ServerError::ConnectionError),
        ),
        session_next(SessionEvent::HandlerFinished(Ok(()))) == SessionAction::Finish(Ok(())),
        session_next(SessionEvent::HandlerFinished(Err(error))) == SessionAction::Finish(
            Err(ServerError::CommunicationError(error)),
        ),
{
}

} // verus!
