//! What a handler waits for, and the faults it is told about.
use vstd::prelude::*;

verus! {

#[verifier::external_type_specification]
#[verifier::external_body]
pub struct ExIoError(std::io::Error);

/// What the handler waits for before its next callback.
#[derive(Clone, Copy, Debug)]
pub enum Expectation {
    /// Wait until the input buffer holds at least this many bytes.
    ///
    /// `bytes_read` is then given exactly this number, however many more
    /// bytes are buffered.
    Bytes(usize),
    /// Wait for a delimiter: `(offset, delimiter, max_bytes)`.
    ///
    /// The input is searched from `offset` on; `bytes_read` is given the
    /// position of the delimiter in the buffer. When more than `max_bytes`
    /// are buffered without a match, the handler gets `LimitReached`.
    Delimiter(usize, &'static [u8], usize),
    /// Wait until no more than this many bytes are left in the output buffer.
    Flush(usize),
    /// Wait for the deadline or a wakeup.
    Sleep,
}

/// A fault reported to the handler.
#[derive(Debug)]
pub enum Exception {
    /// Reading returned end of stream.
    EndOfStream,
    /// The delimiter was not found within the byte limit.
    LimitReached,
    /// Reading from the socket failed.
    ReadError(std::io::Error),
    /// Writing to the socket failed; a socket that accepts no bytes gives
    /// `WriteZero` here.
    WriteError(std::io::Error),
    /// Connecting failed (seen on the first writable event).
    ConnectError(std::io::Error),
}

/// The kinds of I/O failure that the engine tells apart.
#[derive(Clone, Copy, Debug, PartialEq, Eq, Structural)]
pub enum IoErrorKind {
    WouldBlock,
    BrokenPipe,
    ConnectionReset,
    Other,
}

/// Outcome of one socket operation, as the engine sees it.
#[derive(Debug)]
pub enum IoOp {
    /// Bytes moved (for a write: the output buffer is empty).
    Done,
    /// The socket would block.
    NoOp,
    /// End of stream: zero bytes moved, or the peer is gone.
    Eos,
    /// Any other failure.
    Error(std::io::Error),
}

/// Relies on `std::io::Error::kind`, mapped onto the kinds the engine
/// distinguishes (every other kind is `Other`).
#[verifier::external_body]
pub(crate) fn error_kind(e: &std::io::Error) -> IoErrorKind {
    match e.kind() {
        std::io::ErrorKind::WouldBlock => IoErrorKind::WouldBlock,
        std::io::ErrorKind::BrokenPipe => IoErrorKind::BrokenPipe,
        std::io::ErrorKind::ConnectionReset => IoErrorKind::ConnectionReset,
        _ => IoErrorKind::Other,
    }
}

/// Relies on `std::io::Error::new`: builds the `WriteZero` error reported
/// when a socket accepts no bytes.
#[verifier::external_body]
pub(crate) fn write_zero_error() -> std::io::Error {
    std::io::Error::new(std::io::ErrorKind::WriteZero, "failed to write whole buffer")
}

/// Classifies a failed socket operation: a broken pipe or a reset
/// connection ends the stream, "would block" means no progress, anything
/// else is an error that carries `e`.
pub fn classify_failure(kind: IoErrorKind, e: std::io::Error) -> (r: IoOp)
    ensures
        kind == IoErrorKind::WouldBlock ==> r is NoOp,
        kind == IoErrorKind::BrokenPipe ==> r is Eos,
        kind == IoErrorKind::ConnectionReset ==> r is Eos,
        kind == IoErrorKind::Other ==> r == IoOp::Error(e),
{
    match kind {
        IoErrorKind::WouldBlock => IoOp::NoOp,
        IoErrorKind::BrokenPipe => IoOp::Eos,
        IoErrorKind::ConnectionReset => IoOp::Eos,
        IoErrorKind::Other => IoOp::Error(e),
    }
}

/// Classifies the result of one read or write call: zero bytes is end of
/// stream, more is progress, a failure goes by its kind.
pub fn classify(r: Result<usize, std::io::Error>) -> (op: IoOp)
    ensures
        r matches Ok(n) && n == 0 ==> op is Eos,
        r matches Ok(n) && n > 0 ==> op is Done,
        r is Err ==> (op is NoOp || op is Eos || op == IoOp::Error(r->Err_0)),
{
    match r {
        Ok(n) => {
            if n == 0 {
                IoOp::Eos
            } else {
                IoOp::Done
            }
        },
        Err(e) => {
            let kind = error_kind(&e);
            classify_failure(kind, e)
        },
    }
}

} // verus!
