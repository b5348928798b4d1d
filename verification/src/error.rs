//! The error kinds that the library reports.

use crate::messages::MessageType;
use vstd::prelude::*;

verus! {

/// How a transport operation failed, as far as the library distinguishes it.
#[derive(Copy, Clone, Debug, PartialEq, Eq, Structural)]
pub enum IoKind {
    /// The operation would block.
    WouldBlock,
    /// The operation timed out.
    TimedOut,
    /// The peer closed the stream before the requested bytes arrived.
    UnexpectedEof,
    /// Any other failure.
    Other,
}

/// Errors of the library.  All but `Timeout` are fatal to the connection.
#[derive(Copy, Clone, Debug, PartialEq, Eq, Structural)]
pub enum Error {
    /// No data to be read, or the send buffer is full.
    Timeout,
    /// A transport failure that is no timeout.
    TransportIO(IoKind),
    /// Malformed or unexpected binary structure.
    InvalidData,
    /// A field needs more bytes than the input holds.
    TruncatedInput,
    /// A `string` field does not hold UTF-8.
    InvalidUtf8,
    /// A length field contradicts the data it describes.
    InvalidLength,
    /// A packet is not complete yet.
    Truncated,
    /// The message type byte is outside the registry.
    UnknownMessageType(u8),
    /// A well-formed message of another type than the expected one.
    UnexpectedMessageType(MessageType),
    /// A well-formed message whose semantics are not implemented.
    Unimplemented,
    /// The peer does not offer the algorithms of the fixed suite.
    NoAlgorithmOverlap,
    /// The MAC of a packet does not verify.
    BadMac,
    /// The signature over the exchange hash does not verify.
    HostKeyNotVerifiable,
    /// The server rejected the credentials.
    AuthenticationFailure,
    /// Persisted key material is not 128 hexadecimal digits of a key pair.
    InvalidKeypair,
    /// A write to a channel that is closed.
    ProcessHasExited,
    /// A channel event arrived during a half-duplex write.
    UnexpectedEventDuringWrite,
}

impl Error {
    /// The error for a failed transport operation: a timeout where the
    /// operation would block or timed out, a transport error otherwise.
    pub open spec fn spec_from_io(kind: IoKind) -> Error {
        match kind {
            IoKind::WouldBlock | IoKind::TimedOut => Error::Timeout,
            _ => Error::TransportIO(kind),
        }
    }

    /// Classifies a failed transport operation.
    pub fn from_io(kind: IoKind) -> (e: Error)
        ensures
            e == Self::spec_from_io(kind),
    {
        match kind {
            IoKind::WouldBlock => Error::Timeout,
            IoKind::TimedOut => Error::Timeout,
            IoKind::UnexpectedEof => Error::TransportIO(IoKind::UnexpectedEof),
            IoKind::Other => Error::TransportIO(IoKind::Other),
        }
    }
}

} // verus!
