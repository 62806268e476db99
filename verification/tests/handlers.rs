use pingpong::client;
use pingpong::error::CommunicationError;
use pingpong::handler::{is_ping, Handler, HandlerAction, HandlerEvent};
use pingpong::server;
use pingpong::server::reply_to;

/// A channel whose reads and writes succeed or fail as scripted, and which
/// remembers the last bytes written.
struct MockCommunication {
    read_data: Option<Result<Vec<u8>, CommunicationError>>,
    write_data: Option<Result<(), CommunicationError>>,
    writes_always_succeed: bool,
    last_data: Option<Vec<u8>>,
    writes: usize,
}

impl MockCommunication {
    fn read(&mut self) -> Result<Vec<u8>, CommunicationError> {
        self.read_data.take().unwrap_or(Err(CommunicationError::StreamClosed))
    }

    fn write(&mut self, data: &[u8]) -> Result<(), CommunicationError> {
        self.last_data = Some(data.to_vec());
        self.writes += 1;
        if self.writes_always_succeed {
            return Ok(());
        }
        self.write_data.take().unwrap_or(Err(CommunicationError::StreamClosed))
    }
}

/// Runs a handler's conversation over the mock channel until it finishes.
fn run<H: Handler>(handler: &mut H, communication: &mut MockCommunication) -> Result<(), CommunicationError> {
    let mut action = handler.start();
    loop {
        action = match action {
            HandlerAction::Read => {
                let event = HandlerEvent::Read(communication.read());
                handler.handle(event)
            }
            HandlerAction::Write(data) => {
                let event = HandlerEvent::Written(communication.write(&data));
                handler.handle(event)
            }
            HandlerAction::Finish(result) => return result,
        };
    }
}

fn server_mock(read: Result<Vec<u8>, CommunicationError>) -> MockCommunication {
    MockCommunication {
        read_data: Some(read),
        write_data: Some(Ok(())),
        writes_always_succeed: false,
        last_data: None,
        writes: 0,
    }
}

#[test]
fn should_send_ping() {
    let mut mock_communication = MockCommunication {
        read_data: Some(Ok(b"pong".to_vec())),
        write_data: None,
        writes_always_succeed: true,
        last_data: None,
        writes: 0,
    };
    let mut handler = client::PingPongHandler;

    let result = run(&mut handler, &mut mock_communication);

    assert!(matches!(result, Err(CommunicationError::StreamClosed)));
    assert_eq!(mock_communication.last_data.as_ref().unwrap(), b"ping");
}

#[test]
fn should_response_on_ping() {
    let mut mock_communication = server_mock(Ok(b"ping".to_vec()));
    let mut handler = server::PingPongHandler;

    let result = run(&mut handler, &mut mock_communication);

    assert!(matches!(result, Err(CommunicationError::StreamClosed)));
    assert_eq!(mock_communication.last_data.as_ref().unwrap(), b"pong");
}

#[test]
fn should_response_on_unknown_message() {
    let mut mock_communication = server_mock(Ok(b"Unknown".to_vec()));
    let mut handler = server::PingPongHandler;

    let result = run(&mut handler, &mut mock_communication);

    assert!(matches!(result, Err(CommunicationError::StreamClosed)));
    assert_eq!(mock_communication.last_data.as_ref().unwrap(), b"?");
}

#[test]
fn should_not_response_with_anything_on_error() {
    let mut mock_communication = server_mock(Err(CommunicationError::ConnectionError));
    let mut handler = server::PingPongHandler;

    let result = run(&mut handler, &mut mock_communication);

    assert!(matches!(result, Err(CommunicationError::ConnectionError)));
    assert!(mock_communication.last_data.is_none());
}

#[test]
fn reply_is_pong_only_for_exactly_ping() {
    assert_eq!(reply_to(b"ping"), b"pong".to_vec());
    assert_eq!(reply_to(b"Unknown"), b"?".to_vec());
    assert_eq!(reply_to(b""), b"?".to_vec());
    assert_eq!(reply_to(b"pin"), b"?".to_vec());
    assert_eq!(reply_to(b"pingping"), b"?".to_vec());
    assert_eq!(reply_to(b"PING"), b"?".to_vec());
    assert_eq!(reply_to(b"pong"), b"?".to_vec());
}

#[test]
fn is_ping_checks_every_byte() {
    assert!(is_ping(b"ping"));
    assert!(!is_ping(b"pinG"));
    assert!(!is_ping(b"ping "));
    assert!(!is_ping(b""));
}

#[test]
fn server_answers_each_message_in_order() {
    let mut handler = server::PingPongHandler;
    assert!(matches!(handler.start(), HandlerAction::Read));
    for (message, answer) in [(&b"ping"[..], &b"pong"[..]), (b"hello", b"?"), (b"ping", b"pong")] {
        match handler.handle(HandlerEvent::Read(Ok(message.to_vec()))) {
            HandlerAction::Write(data) => assert_eq!(data, answer.to_vec()),
            _ => panic!("expected a write"),
        }
        assert!(matches!(handler.handle(HandlerEvent::Written(Ok(()))), HandlerAction::Read));
    }
}

#[test]
fn server_stops_on_failed_write_with_that_error() {
    let mut handler = server::PingPongHandler;
    let action = handler.handle(HandlerEvent::Written(Err(CommunicationError::StreamError)));
    assert!(matches!(action, HandlerAction::Finish(Err(CommunicationError::StreamError))));
}

#[test]
fn client_keeps_sending_ping_whatever_the_answer() {
    let mut handler = client::PingPongHandler;
    match handler.start() {
        HandlerAction::Write(data) => assert_eq!(data, b"ping".to_vec()),
        _ => panic!("expected a write"),
    }
    for answer in [&b"pong"[..], b"?", b""] {
        assert!(matches!(handler.handle(HandlerEvent::Written(Ok(()))), HandlerAction::Read));
        match handler.handle(HandlerEvent::Read(Ok(answer.to_vec()))) {
            HandlerAction::Write(data) => assert_eq!(data, b"ping".to_vec()),
            _ => panic!("expected a write"),
        }
    }
}

#[test]
fn client_stops_on_failure_with_that_error() {
    let mut handler = client::PingPongHandler;
    let action = handler.handle(HandlerEvent::Written(Err(CommunicationError::ConnectionError)));
    assert!(matches!(action, HandlerAction::Finish(Err(CommunicationError::ConnectionError))));
    let action = handler.handle(HandlerEvent::Read(Err(CommunicationError::StreamClosed)));
    assert!(matches!(action, HandlerAction::Finish(Err(CommunicationError::StreamClosed))));
}

#[test]
fn client_and_server_play_ping_pong() {
    let mut client_handler = client::PingPongHandler;
    let mut server_handler = server::PingPongHandler;
    let mut client_action = client_handler.start();
    assert!(matches!(server_handler.start(), HandlerAction::Read));
    for _ in 0..3 {
        let sent = match client_action {
            HandlerAction::Write(data) => data,
            _ => panic!("the client should write"),
        };
        assert_eq!(sent, b"ping".to_vec());
        assert!(matches!(client_handler.handle(HandlerEvent::Written(Ok(()))), HandlerAction::Read));
        let answer = match server_handler.handle(HandlerEvent::Read(Ok(sent))) {
            HandlerAction::Write(data) => data,
            _ => panic!("the server should answer"),
        };
        assert_eq!(answer, b"pong".to_vec());
        assert!(matches!(server_handler.handle(HandlerEvent::Written(Ok(()))), HandlerAction::Read));
        client_action = client_handler.handle(HandlerEvent::Read(Ok(answer)));
    }
}
