//! The error taxonomy of the transfer service.

use vstd::prelude::*;

verus! {

/// Every failure category the service distinguishes.
///
/// Identity generation and bind failures are fatal to the whole process;
/// every other category is contained to one connection or one stream.
#[derive(Clone, Copy, Debug, PartialEq, Eq, Structural)]
pub enum TransferError {
    /// Generating a fresh transport identity failed; the process cannot proceed.
    IdentityError,
    /// Binding the listening socket failed; the process cannot proceed.
    BindError,
    /// A connection attempt failed its certificate handshake; the connection
    /// is dropped, siblings are unaffected.
    HandshakeError,
    /// Accepting the next stream on a connection failed; if the connection
    /// itself is unusable this also tears the connection down.
    StreamAcceptError,
    /// A stream carried more bytes than the configured ceiling; the stream is
    /// abandoned and none of its data is stored.
    PayloadTooLarge,
    /// The owning connection terminated before the stream was finished; the
    /// partial data is discarded, never reported as a completed transfer.
    ConnectionLost,
    /// The sink failed to persist a completed payload; the data is not
    /// considered durably stored.
    SinkWriteError,
    /// A client-side send attempt failed; the attempt must not be reported
    /// as a success.
    SendError,
}

} // verus!
