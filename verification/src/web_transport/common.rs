//! What both sides share: the read buffer and how a read outcome becomes a
//! message or an error.
use crate::error::CommunicationError;
use vstd::prelude::*;

verus! {

/// The size of the buffer that one read fills at most.
pub const BUFFER_LENGTH: usize = 2048;

/// Where the server finds its certificate and its private key.
pub struct WebTransportServerConfig<T> {
    pub path_to_certificate: T,
    pub path_to_key: T,
}

/// The message that a read produced: the first `n` bytes of the buffer when
/// the read filled `n` bytes, `StreamClosed` when the stream had ended, and
/// `StreamError` when the read failed.
pub open spec fn read_result(
    buffer: Seq<u8>,
    outcome: Result<Option<usize>, wtransport::error::StreamReadError>,
) -> Result<Seq<u8>, CommunicationError> {
    match outcome {
        Ok(Some(n)) => Ok(buffer.take(n as int)),
        Ok(None) => Err(CommunicationError::StreamClosed),
        Err(_) => Err(CommunicationError::StreamError),
    }
}

/// Turns the outcome of reading into `buffer` into the message that was read.
pub fn received_message(
    buffer: &[u8],
    outcome: Result<Option<usize>, wtransport::error::StreamReadError>,
) -> (message: Result<Vec<u8>, CommunicationError>)
    requires
        outcome matches Ok(Some(n)) ==> n <= buffer@.len(),
    ensures
        match message {
            Ok(bytes) => read_result(buffer@, outcome) == Ok::<Seq<u8>, CommunicationError>(bytes@),
            Err(error) => read_result(buffer@, outcome) == Err::<Seq<u8>, CommunicationError>(error),
        },
        outcome matches Ok(Some(n)) ==> (message matches Ok(bytes) && bytes@.len() == n && forall|i: int|
            0 <= i < n ==> bytes@[i] == buffer@[i]),
        outcome matches Ok(None) ==> message == Err::<Vec<u8>, CommunicationError>(
            CommunicationError::StreamClosed,
        ),
        outcome is Err ==> message == Err::<Vec<u8>, CommunicationError>(CommunicationError::StreamError),
{
    match outcome {
        Err(error) => Err(CommunicationError::from(error)),
        Ok(None) => Err(CommunicationError::StreamClosed),
        Ok(Some(bytes_read)) => {
            let mut bytes: Vec<u8> = Vec::new();
            let mut i: usize = 0;
            while i < bytes_read
                invariant
                    bytes_read <= buffer@.len(),
                    i <= bytes_read,
                    bytes@ == buffer@.take(i as int),
                decreases bytes_read - i,
            {
                bytes.push(buffer[i]);
                i = i + 1;
                assert(bytes@ =~= buffer@.take(i as int));
            }
            Ok(bytes)
        },
    }
}


/// A read that filled `n` bytes delivers exactly those bytes, unchanged and
/// in order; the end of the stream is reported as `StreamClosed` and a failed
/// read as `StreamError`, whatever the buffer holds.
pub proof fn lemma_read_delivers_the_filled_bytes(
    buffer: Seq<u8>,
    n: usize,
    failure: wtransport::error::StreamReadError,
)
    requires
        n <= buffer.len(),
    ensures
        read_result(buffer, Ok(Some(n))) matches Ok(bytes) && bytes.len() == n && forall|i: int|
            0 <= i < n ==> bytes[i] == buffer[i],
        read_result(buffer, Ok(None)) == Err::<Seq<u8>, CommunicationError>(CommunicationError::StreamClosed),
        read_result(buffer, Err(failure)) == Err::<Seq<u8>, CommunicationError>(CommunicationError::StreamError),
{
}

} // verus!
