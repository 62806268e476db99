use pingpong::error::{ClientError, CommunicationError, ServerError};
use pingpong::web_transport::client::{
    connect_start, connect_step, ConnectAction, ConnectEvent, ConnectTarget, RECONNECT_DELAY_SECS,
};
use pingpong::web_transport::server::{
    listen_start, listen_step, session_start, session_step, ListenAction, ListenEvent, SessionAction, SessionEvent,
};
use pingpong::web_transport::{received_message, WebTransportClient, WebTransportServerConfig, BUFFER_LENGTH};
use wtransport::error::{ConnectingError, ConnectionError, StreamOpeningError, StreamReadError, StreamWriteError};

fn io_error() -> std::io::Error {
    std::io::Error::new(std::io::ErrorKind::AddrInUse, "address in use")
}

#[test]
fn error_messages() {
    assert_eq!(CommunicationError::ConnectionError.message(), "Connection error");
    assert_eq!(CommunicationError::StreamError.message(), "Stream error");
    assert_eq!(CommunicationError::StreamClosed.message(), "Stream closed");
    assert_eq!(ServerError::IoError(io_error()).message(), "IO error");
    assert_eq!(ServerError::ConnectionError.message(), "Connection error");
    assert_eq!(ServerError::CommunicationError(CommunicationError::StreamClosed).message(), "Communication error");
    assert_eq!(ClientError::IoError(io_error()).message(), "IO error");
    assert_eq!(ClientError::ConnectionError.message(), "Connection error");
    assert_eq!(ClientError::CommunicationError(CommunicationError::StreamError).message(), "Communication error");
}

#[test]
fn transport_errors_convert() {
    assert_eq!(CommunicationError::from(ConnectionError::LocallyClosed), CommunicationError::ConnectionError);
    assert_eq!(CommunicationError::from(StreamReadError::NotConnected), CommunicationError::StreamError);
    assert_eq!(CommunicationError::from(StreamWriteError::NotConnected), CommunicationError::StreamError);
    assert!(matches!(ServerError::from(ConnectionError::TimedOut), ServerError::ConnectionError));
    assert!(matches!(ServerError::from(io_error()), ServerError::IoError(e) if e.kind() == std::io::ErrorKind::AddrInUse));
    assert!(matches!(
        ServerError::from(CommunicationError::StreamClosed),
        ServerError::CommunicationError(CommunicationError::StreamClosed)
    ));
    assert!(matches!(ClientError::from(ConnectionError::TimedOut), ClientError::ConnectionError));
    assert!(matches!(ClientError::from(ConnectingError::DnsNotFound), ClientError::ConnectionError));
    assert!(matches!(ClientError::from(StreamOpeningError::Refused), ClientError::ConnectionError));
    assert!(matches!(ClientError::from(io_error()), ClientError::IoError(_)));
    assert!(matches!(
        ClientError::from(CommunicationError::StreamError),
        ClientError::CommunicationError(CommunicationError::StreamError)
    ));
}

#[test]
fn received_message_takes_the_filled_prefix() {
    let mut buffer = [0u8; BUFFER_LENGTH];
    buffer[..4].copy_from_slice(b"ping");
    assert_eq!(received_message(&buffer, Ok(Some(4))), Ok(b"ping".to_vec()));
    assert_eq!(received_message(&buffer, Ok(Some(2))), Ok(b"pi".to_vec()));
    assert_eq!(received_message(&buffer, Ok(Some(0))), Ok(Vec::new()));
    assert_eq!(received_message(&buffer, Ok(Some(BUFFER_LENGTH))).unwrap().len(), BUFFER_LENGTH);
}

#[test]
fn received_message_reports_closed_and_failed_streams() {
    let buffer = [7u8; 16];
    assert_eq!(received_message(&buffer, Ok(None)), Err(CommunicationError::StreamClosed));
    assert_eq!(
        received_message(&buffer, Err(StreamReadError::NotConnected)),
        Err(CommunicationError::StreamError)
    );
}

#[test]
fn buffer_and_delay_constants() {
    assert_eq!(BUFFER_LENGTH, 2048);
    assert_eq!(RECONNECT_DELAY_SECS, 1);
}

#[test]
fn client_keeps_its_name_and_handler() {
    let client = WebTransportClient::new("localhost", 42u32);
    assert_eq!(client.server_name(), "localhost");
    let (name, handler) = client.into_parts();
    assert_eq!(name, "localhost".to_string());
    assert_eq!(handler, 42);
}

#[test]
fn server_config_holds_both_paths() {
    let config = WebTransportServerConfig { path_to_certificate: "certs/certificate.pem", path_to_key: "certs/private_key.pem" };
    assert_eq!(config.path_to_certificate, "certs/certificate.pem");
    assert_eq!(config.path_to_key, "certs/private_key.pem");
}

fn localhost_target() -> ConnectTarget {
    WebTransportClient::new("localhost", ()).target(&[127, 0, 0, 1], 4433)
}

fn assert_connects_to_localhost(action: ConnectAction) {
    match action {
        ConnectAction::Connect(target) => {
            assert_eq!(target.server_name, "localhost");
            assert_eq!(target.ip, vec![127, 0, 0, 1]);
            assert_eq!(target.port, 4433);
        }
        _ => panic!("expected a connection"),
    }
}

#[test]
fn target_is_the_address_under_the_server_name() {
    let client = WebTransportClient::new("example.org", 7u8);
    let target = client.target(&[0, 0, 0, 0, 0, 0, 0, 0, 0, 0, 0, 0, 0, 0, 0, 1], 443);
    assert_eq!(target.server_name, "example.org");
    assert_eq!(target.ip.len(), 16);
    assert_eq!(target.ip[15], 1);
    assert_eq!(target.port, 443);
    let copy = target.duplicate();
    assert_eq!(copy.server_name, target.server_name);
    assert_eq!(copy.ip, target.ip);
    assert_eq!(copy.port, target.port);
}

#[test]
fn connect_loop_happy_path() {
    let target = localhost_target();
    assert!(matches!(
        connect_start(),
        ConnectAction::CreateEndpoint { bind_port: 0, validate_certificates: false }
    ));
    assert_connects_to_localhost(connect_step(ConnectEvent::EndpointReady(Ok(())), &target));
    assert!(matches!(connect_step(ConnectEvent::Connected(Ok(())), &target), ConnectAction::RequestStream));
    assert!(matches!(connect_step(ConnectEvent::StreamRequested(Ok(())), &target), ConnectAction::AwaitStream));
    assert!(matches!(connect_step(ConnectEvent::StreamOpened(Ok(())), &target), ConnectAction::RunHandler));
    assert!(matches!(connect_step(ConnectEvent::HandlerFinished(Ok(())), &target), ConnectAction::Return(Ok(()))));
}

#[test]
fn connect_loop_gives_up_only_on_endpoint_setup() {
    let target = localhost_target();
    assert!(matches!(
        connect_step(ConnectEvent::EndpointReady(Err(io_error())), &target),
        ConnectAction::Return(Err(ClientError::IoError(_)))
    ));
}

#[test]
fn connect_loop_retries_after_a_second() {
    let target = localhost_target();
    assert!(matches!(
        connect_step(ConnectEvent::Connected(Err(ConnectingError::DnsNotFound)), &target),
        ConnectAction::Retry { error: ClientError::ConnectionError, delay_secs: 1 }
    ));
    assert!(matches!(
        connect_step(ConnectEvent::StreamRequested(Err(ConnectionError::TimedOut)), &target),
        ConnectAction::Retry { error: ClientError::ConnectionError, delay_secs: 1 }
    ));
    assert!(matches!(
        connect_step(ConnectEvent::StreamOpened(Err(StreamOpeningError::NotConnected)), &target),
        ConnectAction::Retry { error: ClientError::ConnectionError, delay_secs: 1 }
    ));
    assert!(matches!(
        connect_step(ConnectEvent::HandlerFinished(Err(CommunicationError::StreamClosed)), &target),
        ConnectAction::Retry { error: ClientError::CommunicationError(CommunicationError::StreamClosed), delay_secs: 1 }
    ));
    assert_connects_to_localhost(connect_step(ConnectEvent::DelayElapsed, &target));
}

#[test]
fn listen_loop() {
    assert!(matches!(listen_start(), ListenAction::CreateEndpoint));
    assert!(matches!(listen_step(ListenEvent::EndpointReady(Ok(()))), ListenAction::Accept));
    assert!(matches!(listen_step(ListenEvent::EndpointReady(Err(io_error()))), ListenAction::Fail(ServerError::IoError(_))));
    assert!(matches!(listen_step(ListenEvent::SessionArrived), ListenAction::ServeAndAccept));
}

#[test]
fn session_task() {
    assert!(matches!(session_start(), SessionAction::Establish));
    assert!(matches!(session_step(SessionEvent::Established(Ok(()))), SessionAction::AcceptStream));
    assert!(matches!(
        session_step(SessionEvent::Established(Err(ConnectionError::LocallyClosed))),
        SessionAction::Finish(Err(ServerError::ConnectionError))
    ));
    assert!(matches!(session_step(SessionEvent::StreamAccepted(Ok(()))), SessionAction::RunHandler));
    assert!(matches!(
        session_step(SessionEvent::StreamAccepted(Err(ConnectionError::TimedOut))),
        SessionAction::Finish(Err(ServerError::ConnectionError))
    ));
    assert!(matches!(session_step(SessionEvent::HandlerFinished(Ok(()))), SessionAction::Finish(Ok(()))));
    assert!(matches!(
        session_step(SessionEvent::HandlerFinished(Err(CommunicationError::StreamError))),
        SessionAction::Finish(Err(ServerError::CommunicationError(CommunicationError::StreamError)))
    ));
}
