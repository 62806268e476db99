//! The client handle and the decisions of its connect loop: set up the local
//! endpoint once, then connect, open a stream and run the handler, and after
//! any failure wait a second and try again.
use crate::error::{ClientError, CommunicationError};
use vstd::prelude::*;

verus! {

/// How long the client waits, in seconds, before it tries to connect again.
pub const RECONNECT_DELAY_SECS: u64 = 1;

/// A client that talks to the server named `server_name` through `handler`.
pub struct WebTransportClient<H> {
    server_name: String,
    handler: H,
}

impl<H> WebTransportClient<H> {
    /// The name under which the server is reached.
    pub closed spec fn server_name_view(&self) -> Seq<char> {
        self.server_name@
    }

    /// The handler that runs each conversation.
    pub closed spec fn handler_view(&self) -> H {
        self.handler
    }

    /// A client for the server `server_name`, with `handler`.
    pub fn new(server_name: &str, handler: H) -> (client: Self)
        ensures
            client.server_name_view() == server_name@,
            client.handler_view() == handler,
    {
        WebTransportClient { server_name: server_name.to_owned(), handler }
    }

    /// The name under which the server is reached.
    pub fn server_name(&self) -> (name: &str)
        ensures
            name@ == self.server_name_view(),
    {
        self.server_name.as_str()
    }

    /// The server name and the handler, taken apart.
    pub fn into_parts(self) -> (parts: (String, H))
        ensures
            parts.0@ == self.server_name_view(),
            parts.1 == self.handler_view(),
    {
        (self.server_name, self.handler)
    }
}

/// Where one attempt connects: the server's address (`ip`, four or sixteen
/// octets, and `port`) and the name the server is expected to present.
pub struct ConnectTarget {
    pub server_name: String,
    pub ip: Vec<u8>,
    pub port: u16,
}

/// The mathematical form of `ConnectTarget`.
pub struct TargetView {
    pub server_name: Seq<char>,
    pub ip: Seq<u8>,
    pub port: u16,
}

impl View for ConnectTarget {
    type V = TargetView;

    open spec fn view(&self) -> TargetView {
        TargetView { server_name: self.server_name@, ip: self.ip@, port: self.port }
    }
}

impl ConnectTarget {
    /// A copy of the target.
    pub fn duplicate(&self) -> (copy: Self)
        ensures
            copy@ == self@,
    {
        let ip = self.ip.clone();
        assert(ip@ =~= self.ip@);
        ConnectTarget { server_name: self.server_name.clone(), ip, port: self.port }
    }
}

impl<H> WebTransportClient<H> {
    /// The target of every attempt to reach the server at `ip`:`port`: that
    /// address, under the client's server name.
    pub fn target(&self, ip: &[u8], port: u16) -> (target: ConnectTarget)
        ensures
            target@ == (TargetView { server_name: self.server_name_view(), ip: ip@, port }),
    {
        let mut octets: Vec<u8> = Vec::new();
        let mut i: usize = 0;
        while i < ip.len()
            invariant
                i <= ip@.len(),
                octets@ == ip@.take(i as int),
            decreases ip@.len() - i,
        {
            octets.push(ip[i]);
            i = i + 1;
            assert(octets@ =~= ip@.take(i as int));
        }
        assert(octets@ =~= ip@);
        ConnectTarget { server_name: self.server_name.clone(), ip: octets, port }
    }
}

/// The outcome of the connect loop's last action.
pub enum ConnectEvent {
    /// Whether the local endpoint could be set up.
    EndpointReady(Result<(), std::io::Error>),
    /// Whether the session with the server was established.
    Connected(Result<(), wtransport::error::ConnectingError>),
    /// Whether the request for a bidirectional stream was accepted.
    StreamRequested(Result<(), wtransport::error::ConnectionError>),
    /// Whether the bidirectional stream was opened.
    StreamOpened(Result<(), wtransport::error::StreamOpeningError>),
    /// How the handler's conversation ended.
    HandlerFinished(Result<(), CommunicationError>),
    /// The pause before the next attempt is over.
    DelayElapsed,
}

/// What the connect loop does next.
pub enum ConnectAction {
    /// Set up the local endpoint on `bind_port` of every local IPv4 address
    /// (0: any free port), checking the server's certificate or not.
    CreateEndpoint { bind_port: u16, validate_certificates: bool },
    /// Establish a session with this target.
    Connect(ConnectTarget),
    /// Ask for a bidirectional stream.
    RequestStream,
    /// Wait until the bidirectional stream is open.
    AwaitStream,
    /// Run the handler's conversation over the stream.
    RunHandler,
    /// Report `error`, wait `delay_secs` seconds, then try again.
    Retry { error: ClientError, delay_secs: u64 },
    /// Stop, with this result.
    Return(Result<(), ClientError>),
}

/// The mathematical form of `ConnectAction`.
pub enum ConnectStep {
    CreateEndpoint { bind_port: u16, validate_certificates: bool },
    Connect(TargetView),
    RequestStream,
    AwaitStream,
    RunHandler,
    Retry { error: ClientError, delay_secs: u64 },
    Return(Result<(), ClientError>),
}

impl View for ConnectAction {
    type V = ConnectStep;

    open spec fn view(&self) -> ConnectStep {
        match self {
            ConnectAction::CreateEndpoint { bind_port, validate_certificates } => ConnectStep::CreateEndpoint {
                bind_port: *bind_port,
                validate_certificates: *validate_certificates,
            },
            ConnectAction::Connect(target) => ConnectStep::Connect(target@),
            ConnectAction::RequestStream => ConnectStep::RequestStream,
            ConnectAction::AwaitStream => ConnectStep::AwaitStream,
            ConnectAction::RunHandler => ConnectStep::RunHandler,
            ConnectAction::Retry { error, delay_secs } => ConnectStep::Retry { error: *error, delay_secs: *delay_secs },
            ConnectAction::Return(result) => ConnectStep::Return(*result),
        }
    }
}

/// The first action of the connect loop: a local endpoint on any free port,
/// which does not check the server's certificate.
pub open spec fn connect_first() -> ConnectStep {
    ConnectStep::CreateEndpoint { bind_port: 0, validate_certificates: false }
}

/// The action that follows an event, for attempts that go to `target`. Only
/// a failure to set up the local endpoint ends the loop with an error; every
/// failure after that is reported and retried after `RECONNECT_DELAY_SECS`
/// seconds with a new connection to `target`, and the loop returns `Ok` once a
/// conversation ends without error.
pub open spec fn connect_next(event: ConnectEvent, target: TargetView) -> ConnectStep {
    match event {
        ConnectEvent::EndpointReady(Ok(())) => ConnectStep::Connect(target),
        ConnectEvent::EndpointReady(Err(error)) => ConnectStep::Return(Err(ClientError::IoError(error))),
        ConnectEvent::Connected(Ok(())) => ConnectStep::RequestStream,
        ConnectEvent::Connected(Err(_)) => ConnectStep::Retry {
            error: ClientError::ConnectionError,
            delay_secs: RECONNECT_DELAY_SECS,
        },
        ConnectEvent::StreamRequested(Ok(())) => ConnectStep::AwaitStream,
        ConnectEvent::StreamRequested(Err(_)) => ConnectStep::Retry {
            error: ClientError::ConnectionError,
            delay_secs: RECONNECT_DELAY_SECS,
        },
        ConnectEvent::StreamOpened(Ok(())) => ConnectStep::RunHandler,
        ConnectEvent::StreamOpened(Err(_)) => ConnectStep::Retry {
            error: ClientError::ConnectionError,
            delay_secs: RECONNECT_DELAY_SECS,
        },
        ConnectEvent::HandlerFinished(Ok(())) => ConnectStep::Return(Ok(())),
        ConnectEvent::HandlerFinished(Err(error)) => ConnectStep::Retry {
            error: ClientError::CommunicationError(error),
            delay_secs: RECONNECT_DELAY_SECS,
        },
        ConnectEvent::DelayElapsed => ConnectStep::Connect(target),
    }
}

/// The first action of the connect loop.
pub fn connect_start() -> (action: ConnectAction)
    ensures
        action@ == connect_first(),
{
    ConnectAction::CreateEndpoint { bind_port: 0, validate_certificates: false }
}

/// The action that follows `event` in the connect loop, for attempts that go
/// to `target`.
pub fn connect_step(event: ConnectEvent, target: &ConnectTarget) -> (action: ConnectAction)
    ensures
        action@ == connect_next(event, target@),
{
    match event {
        ConnectEvent::EndpointReady(Ok(())) => ConnectAction::Connect(target.duplicate()),
        ConnectEvent::EndpointReady(Err(error)) => ConnectAction::Return(Err(ClientError::from(error))),
        ConnectEvent::Connected(Ok(())) => ConnectAction::RequestStream,
        ConnectEvent::Connected(Err(error)) => ConnectAction::Retry {
            error: ClientError::from(error),
            delay_secs: RECONNECT_DELAY_SECS,
        },
        ConnectEvent::StreamRequested(Ok(())) => ConnectAction::AwaitStream,
        ConnectEvent::StreamRequested(Err(error)) => ConnectAction::Retry {
            error: ClientError::from(error),
            delay_secs: RECONNECT_DELAY_SECS,
        },
        ConnectEvent::StreamOpened(Ok(())) => ConnectAction::RunHandler,
        ConnectEvent::StreamOpened(Err(error)) => ConnectAction::Retry {
            error: ClientError::from(error),
            delay_secs: RECONNECT_DELAY_SECS,
        },
        ConnectEvent::HandlerFinished(Ok(())) => ConnectAction::Return(Ok(())),
        ConnectEvent::HandlerFinished(Err(error)) => ConnectAction::Retry {
            error: ClientError::from(error),
            delay_secs: RECONNECT_DELAY_SECS,
        },
        ConnectEvent::DelayElapsed => ConnectAction::Connect(target.duplicate()),
    }
}

} // verus!

verus! {

/// Whether an event of the connect loop reports a failure after the local
/// endpoint was set up.
pub open spec fn attempt_failed(event: ConnectEvent) -> bool {
    match event {
        ConnectEvent::Connected(Err(_)) => true,
        ConnectEvent::StreamRequested(Err(_)) => true,
        ConnectEvent::StreamOpened(Err(_)) => true,
        ConnectEvent::HandlerFinished(Err(_)) => true,
        _ => false,
    }
}

/// The connect loop gives up only when the local endpoint cannot be set up,
/// with that `IoError`; it succeeds only when a conversation ends without
/// error; every other failure is reported and retried after one second,
/// starting again from the connection; and every connection goes to the one
/// target, from a local endpoint that does not check certificates.
pub proof fn lemma_connect_retries_every_failure(event: ConnectEvent, target: TargetView)
    ensures
        (connect_next(event, target) matches ConnectStep::Return(Err(_))) <==> (event matches ConnectEvent::EndpointReady(Err(_))),
        (connect_next(event, target) matches ConnectStep::Return(Ok(_))) <==> (event matches ConnectEvent::HandlerFinished(Ok(_))),
        attempt_failed(event) <==> (connect_next(event, target) is Retry),
        connect_next(event, target) matches ConnectStep::Retry { delay_secs, .. } ==> delay_secs == 1,
        connect_next(event, target) matches ConnectStep::Connect(to) ==> to == target,
        connect_next(ConnectEvent::DelayElapsed, target) == ConnectStep::Connect(target),
        connect_first() == (ConnectStep::CreateEndpoint { bind_port: 0, validate_certificates: false }),
{
}

/// The handler runs only once the stream is open, and once per opened stream;
/// a failed connection or stream never reaches it.
pub proof fn lemma_handler_runs_only_on_an_open_stream(event: ConnectEvent, target: TargetView)
    ensures
        (connect_next(event, target) is RunHandler) <==> (event matches ConnectEvent::StreamOpened(Ok(_))),
{
}

/// Each step of an attempt leads to the next one, for every target alike:
/// a ready endpoint or an elapsed pause leads to a connection to the target,
/// an established session to a stream request, a granted request to waiting
/// for the stream, an open stream to the handler's conversation, and a
/// conversation that ends cleanly to `Ok`.
pub proof fn lemma_attempt_steps(target: TargetView)
    ensures
        connect_next(ConnectEvent::EndpointReady(Ok(())), target) == ConnectStep::Connect(target),
        connect_next(ConnectEvent::Connected(Ok(())), target) == ConnectStep::RequestStream,
        connect_next(ConnectEvent::StreamRequested(Ok(())), target) == ConnectStep::AwaitStream,
        connect_next(ConnectEvent::StreamOpened(Ok(())), target) == ConnectStep::RunHandler,
        connect_next(ConnectEvent::HandlerFinished(Ok(())), target) == ConnectStep::Return(Ok(())),
        connect_next(ConnectEvent::DelayElapsed, target) == ConnectStep::Connect(target),
{
}

/// The failures of the connect loop, for every target alike: a failed endpoint
/// setup returns its `IoError`; a failed connection, stream request or stream
/// opening is retried after one second as a `ConnectionError`; a failed
/// conversation is retried after one second with its `CommunicationError`.
pub proof fn lemma_attempt_failures(
    target: TargetView,
    io: std::io::Error,
    connecting: wtransport::error::ConnectingError,
    connection: wtransport::error::ConnectionError,
    opening: wtransport::error::StreamOpeningError,
    communication: CommunicationError,
)
    ensures
        connect_next(ConnectEvent::EndpointReady(Err(io)), target) == ConnectStep::Return(
            Err(ClientError::IoError(io)),
        ),
        connect_next(ConnectEvent::Connected(Err(connecting)), target) == (ConnectStep::Retry {
            error: ClientError::ConnectionError,
            delay_secs: 1,
        }),
        connect_next(ConnectEvent::StreamRequested(Err(connection)), target) == (ConnectStep::Retry {
            error: ClientError::ConnectionError,
            delay_secs: 1,
        }),
        connect_next(ConnectEvent::StreamOpened(Err(opening)), target) == (ConnectStep::Retry {
            error: ClientError::ConnectionError,
            delay_secs: 1,
        }),
        connect_next(ConnectEvent::HandlerFinished(Err(communication)), target) == (ConnectStep::Retry {
            error: ClientError::CommunicationError(communication),
            delay_secs: 1,
        }),
{
}

/// The target only decides where a connection goes: for two targets, the
/// loop takes the same step after every event, except that a connection goes
/// to the target of the run.
pub proof fn lemma_target_only_chooses_the_destination(
    event: ConnectEvent,
    first: TargetView,
    second: TargetView,
)
    ensures
        (connect_next(event, first) is Connect) == (connect_next(event, second) is Connect),
        connect_next(event, first) matches ConnectStep::Connect(to) ==> to == first,
        !(connect_next(event, first) is Connect) ==> connect_next(event, first) == connect_next(event, second),
{
}

} // verus!
