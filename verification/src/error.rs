//! The error types of the client, the server and the channel between them,
//! and how the errors of the transport map onto them.
use vstd::prelude::*;
use vstd::std_specs::convert::{FromSpec, FromSpecImpl};

verus! {

/// Why reading from or writing to a channel failed.
#[derive(Debug, Clone, Copy, PartialEq, Eq, Structural)]
pub enum CommunicationError {
    ConnectionError,
    StreamError,
    StreamClosed,
}

/// Why the server stopped.
#[derive(Debug)]
pub enum ServerError {
    IoError(std::io::Error),
    ConnectionError,
    CommunicationError(CommunicationError),
}

/// Why the client stopped.
#[derive(Debug)]
pub enum ClientError {
    IoError(std::io::Error),
    ConnectionError,
    CommunicationError(CommunicationError),
}

impl CommunicationError {
    /// The human-readable description of the error.
    pub open spec fn description(self) -> Seq<char> {
        match self {
            CommunicationError::ConnectionError => "Connection error"@,
            CommunicationError::StreamError => "Stream error"@,
            CommunicationError::StreamClosed => "Stream closed"@,
        }
    }

    /// Returns the human-readable description of the error.
    pub fn message(&self) -> (text: &'static str)
        ensures
            text@ == self.description(),
    {
        match self {
            CommunicationError::ConnectionError => "Connection error",
            CommunicationError::StreamError => "Stream error",
            CommunicationError::StreamClosed => "Stream closed",
        }
    }
}

impl ServerError {
    /// The human-readable description of the error.
    pub open spec fn description(self) -> Seq<char> {
        match self {
            ServerError::IoError(_) => "IO error"@,
            ServerError::ConnectionError => "Connection error"@,
            ServerError::CommunicationError(_) => "Communication error"@,
        }
    }

    /// Returns the human-readable description of the error.
    pub fn message(&self) -> (text: &'static str)
        ensures
            text@ == self.description(),
    {
        match self {
            ServerError::IoError(_) => "IO error",
            ServerError::ConnectionError => "Connection error",
            ServerError::CommunicationError(_) => "Communication error",
        }
    }
}

impl ClientError {
    /// The human-readable description of the error.
    pub open spec fn description(self) -> Seq<char> {
        match self {
            ClientError::IoError(_) => "IO error"@,
            ClientError::ConnectionError => "Connection error"@,
            ClientError::CommunicationError(_) => "Communication error"@,
        }
    }

    /// Returns the human-readable description of the error.
    pub fn message(&self) -> (text: &'static str)
        ensures
            text@ == self.description(),
    {
        match self {
            ClientError::IoError(_) => "IO error",
            ClientError::ConnectionError => "Connection error",
            ClientError::CommunicationError(_) => "Communication error",
        }
    }
}

// ---- CommunicationError from transport errors ----

impl From<wtransport::error::ConnectionError> for CommunicationError {
    fn from(value: wtransport::error::ConnectionError) -> (error: Self) {
        CommunicationError::ConnectionError
    }
}

impl FromSpecImpl<wtransport::error::ConnectionError> for CommunicationError {
    open spec fn obeys_from_spec() -> bool {
        true
    }

    open spec fn from_spec(v: wtransport::error::ConnectionError) -> Self {
        CommunicationError::ConnectionError
    }
}

impl From<wtransport::error::StreamReadError> for CommunicationError {
    fn from(value: wtransport::error::StreamReadError) -> (error: Self) {
        CommunicationError::StreamError
    }
}

impl FromSpecImpl<wtransport::error::StreamReadError> for CommunicationError {
    open spec fn obeys_from_spec() -> bool {
        true
    }

    open spec fn from_spec(v: wtransport::error::StreamReadError) -> Self {
        CommunicationError::StreamError
    }
}

impl From<wtransport::error::StreamWriteError> for CommunicationError {
    fn from(value: wtransport::error::StreamWriteError) -> (error: Self) {
        CommunicationError::StreamError
    }
}

impl FromSpecImpl<wtransport::error::StreamWriteError> for CommunicationError {
    open spec fn obeys_from_spec() -> bool {
        true
    }

    open spec fn from_spec(v: wtransport::error::StreamWriteError) -> Self {
        CommunicationError::StreamError
    }
}

// ---- ServerError ----

impl From<std::io::Error> for ServerError {
    fn from(value: std::io::Error) -> (error: Self) {
        ServerError::IoError(value)
    }
}

impl FromSpecImpl<std::io::Error> for ServerError {
    open spec fn obeys_from_spec() -> bool {
        true
    }

    open spec fn from_spec(v: std::io::Error) -> Self {
        ServerError::IoError(v)
    }
}

impl From<wtransport::error::ConnectionError> for ServerError {
    fn from(value: wtransport::error::ConnectionError) -> (error: Self) {
        ServerError::ConnectionError
    }
}

impl FromSpecImpl<wtransport::error::ConnectionError> for ServerError {
    open spec fn obeys_from_spec() -> bool {
        true
    }

    open spec fn from_spec(v: wtransport::error::ConnectionError) -> Self {
        ServerError::ConnectionError
    }
}

impl From<CommunicationError> for ServerError {
    fn from(value: CommunicationError) -> (error: Self) {
        ServerError::CommunicationError(value)
    }
}

impl FromSpecImpl<CommunicationError> for ServerError {
    open spec fn obeys_from_spec() -> bool {
        true
    }

    open spec fn from_spec(v: CommunicationError) -> Self {
        ServerError::CommunicationError(v)
    }
}

// ---- ClientError ----

impl From<std::io::Error> for ClientError {
    fn from(value: std::io::Error) -> (error: Self) {
        ClientError::IoError(value)
    }
}

impl FromSpecImpl<std::io::Error> for ClientError {
    open spec fn obeys_from_spec() -> bool {
        true
    }

    open spec fn from_spec(v: std::io::Error) -> Self {
        ClientError::IoError(v)
    }
}

impl From<wtransport::error::ConnectionError> for ClientError {
    fn from(value: wtransport::error::ConnectionError) -> (error: Self) {
        ClientError::ConnectionError
    }
}

impl FromSpecImpl<wtransport::error::ConnectionError> for ClientError {
    open spec fn obeys_from_spec() -> bool {
        true
    }

    open spec fn from_spec(v: wtransport::error::ConnectionError) -> Self {
        ClientError::ConnectionError
    }
}

impl From<wtransport::error::ConnectingError> for ClientError {
    fn from(value: wtransport::error::ConnectingError) -> (error: Self) {
        ClientError::ConnectionError
    }
}

impl FromSpecImpl<wtransport::error::ConnectingError> for ClientError {
    open spec fn obeys_from_spec() -> bool {
        true
    }

    open spec fn from_spec(v: wtransport::error::ConnectingError) -> Self {
        ClientError::ConnectionError
    }
}

impl From<wtransport::error::StreamOpeningError> for ClientError {
    fn from(value: wtransport::error::StreamOpeningError) -> (error: Self) {
        ClientError::ConnectionError
    }
}

impl FromSpecImpl<wtransport::error::StreamOpeningError> for ClientError {
    open spec fn obeys_from_spec() -> bool {
        true
    }

    open spec fn from_spec(v: wtransport::error::StreamOpeningError) -> Self {
        ClientError::ConnectionError
    }
}

impl From<CommunicationError> for ClientError {
    fn from(value: CommunicationError) -> (error: Self) {
        ClientError::CommunicationError(value)
    }
}

impl FromSpecImpl<CommunicationError> for ClientError {
    open spec fn obeys_from_spec() -> bool {
        true
    }

    open spec fn from_spec(v: CommunicationError) -> Self {
        ClientError::CommunicationError(v)
    }
}


/// The descriptions of the errors.
pub proof fn lemma_error_descriptions(io: std::io::Error, error: CommunicationError)
    ensures
        CommunicationError::ConnectionError.description() == "Connection error"@,
        CommunicationError::StreamError.description() == "Stream error"@,
        CommunicationError::StreamClosed.description() == "Stream closed"@,
        ServerError::IoError(io).description() == "IO error"@,
        ServerError::ConnectionError.description() == "Connection error"@,
        ServerError::CommunicationError(error).description() == "Communication error"@,
        ClientError::IoError(io).description() == "IO error"@,
        ClientError::ConnectionError.description() == "Connection error"@,
        ClientError::CommunicationError(error).description() == "Communication error"@,
{
}

/// How the errors convert: an I/O error is kept as `IoError`, a
/// communication error is kept inside `CommunicationError`, every connection
/// failure becomes `ConnectionError`, and every failure of a stream read or
/// write becomes `StreamError`.
pub proof fn lemma_error_conversions(
    io: std::io::Error,
    error: CommunicationError,
    connection: wtransport::error::ConnectionError,
    connecting: wtransport::error::ConnectingError,
    opening: wtransport::error::StreamOpeningError,
    read: wtransport::error::StreamReadError,
    write: wtransport::error::StreamWriteError,
)
    ensures
        <ServerError as FromSpec<std::io::Error>>::obeys_from_spec(),
        <ServerError as FromSpec<std::io::Error>>::from_spec(io) == ServerError::IoError(io),
        <ServerError as FromSpec<CommunicationError>>::obeys_from_spec(),
        <ServerError as FromSpec<CommunicationError>>::from_spec(error) == ServerError::CommunicationError(error),
        <ServerError as FromSpec<wtransport::error::ConnectionError>>::obeys_from_spec(),
        <ServerError as FromSpec<wtransport::error::ConnectionError>>::from_spec(connection) == ServerError::ConnectionError,
        <ClientError as FromSpec<std::io::Error>>::obeys_from_spec(),
        <ClientError as FromSpec<std::io::Error>>::from_spec(io) == ClientError::IoError(io),
        <ClientError as FromSpec<CommunicationError>>::obeys_from_spec(),
        <ClientError as FromSpec<CommunicationError>>::from_spec(error) == ClientError::CommunicationError(error),
        <ClientError as FromSpec<wtransport::error::ConnectionError>>::obeys_from_spec(),
        <ClientError as FromSpec<wtransport::error::ConnectionError>>::from_spec(connection) == ClientError::ConnectionError,
        <ClientError as FromSpec<wtransport::error::ConnectingError>>::obeys_from_spec(),
        <ClientError as FromSpec<wtransport::error::ConnectingError>>::from_spec(connecting) == ClientError::ConnectionError,
        <ClientError as FromSpec<wtransport::error::StreamOpeningError>>::obeys_from_spec(),
        <ClientError as FromSpec<wtransport::error::StreamOpeningError>>::from_spec(opening) == ClientError::ConnectionError,
        <CommunicationError as FromSpec<wtransport::error::ConnectionError>>::obeys_from_spec(),
        <CommunicationError as FromSpec<wtransport::error::ConnectionError>>::from_spec(connection) == CommunicationError::ConnectionError,
        <CommunicationError as FromSpec<wtransport::error::StreamReadError>>::obeys_from_spec(),
        <CommunicationError as FromSpec<wtransport::error::StreamReadError>>::from_spec(read) == CommunicationError::StreamError,
        <CommunicationError as FromSpec<wtransport::error::StreamWriteError>>::obeys_from_spec(),
        <CommunicationError as FromSpec<wtransport::error::StreamWriteError>>::from_spec(write) == CommunicationError::StreamError,
{
}

} // verus!
