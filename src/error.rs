use vstd::prelude::*;

verus! {

/// Why a response body could not be decoded.
#[derive(Debug, Clone, Copy, PartialEq, Eq, Structural)]
pub enum DecodeFault {
    /// Fewer than the four bytes of the PID field.
    MissingPid,
    /// The bytes after the PID field are not well-formed UTF-8.
    InvalidMessage,
}

/// Failures of the control transport and of the response codec.
#[derive(Debug, PartialEq, Eq)]
pub enum ProcessErr {
    /// A connection was used before one was established; names the operation.
    NotYetConnected(String),
    /// A second connection was offered while one is still held.
    AlreadyConnected,
    /// The connection queue was used before it was set up; names the operation.
    ChannelUnavailable(String),
    /// Every producer of the connection queue has gone.
    ChannelDisconnected(String),
    /// Establishing the outbound connection failed.
    ConnectFailed(String),
    /// Binding the listening socket failed.
    BindFailed(String),
    /// Writing to the connection failed.
    SendFailed(String),
    /// Half-closing the connection failed; names the operation and the cause.
    HalfCloseFailed(String, String),
    /// A response body was malformed.
    DecodeFailed(DecodeFault),
}

} // verus!
