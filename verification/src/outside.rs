//! Outside types that the library carries through without looking inside.
use vstd::prelude::*;

verus! {

/// `std::io::Error`, carried inside `ServerError::IoError` and `ClientError::IoError`.
#[verifier::external_type_specification]
#[verifier::external_body]
pub struct ExIoError(std::io::Error);

/// `wtransport::error::ConnectionError`: a WebTransport connection failed or was closed.
#[verifier::external_type_specification]
#[verifier::external_body]
pub struct ExConnectionError(wtransport::error::ConnectionError);

/// `wtransport::error::ConnectingError`: a client could not establish a session.
#[verifier::external_type_specification]
#[verifier::external_body]
pub struct ExConnectingError(wtransport::error::ConnectingError);

/// `wtransport::error::StreamOpeningError`: a bidirectional stream could not be opened.
#[verifier::external_type_specification]
#[verifier::external_body]
pub struct ExStreamOpeningError(wtransport::error::StreamOpeningError);

/// `wtransport::error::StreamReadError`: reading from a stream failed.
#[verifier::external_type_specification]
#[verifier::external_body]
pub struct ExStreamReadError(wtransport::error::StreamReadError);

/// `wtransport::error::StreamWriteError`: writing to a stream failed.
#[verifier::external_type_specification]
#[verifier::external_body]
pub struct ExStreamWriteError(wtransport::error::StreamWriteError);

} // verus!
