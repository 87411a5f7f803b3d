use vstd::prelude::*;

verus! {

/// Failures that the library reports to its callers.
#[derive(Debug, PartialEq, Eq, Structural, Clone, Copy)]
pub enum Error {
    /// The event stream was closed; the caller must reconnect or give up.
    ConnectionClosed,
    /// One frame could not be decoded; the connection stays usable.
    InvalidOp,
    /// No session id is stored yet, or the resume handshake failed.
    CouldntReconnect,
    /// A reconnect was asked for while the transport is still open.
    AlreadyConnected,
    /// The track-search request failed, in transport or in decoding.
    HttpRequestFailed,
    /// The first frame of a fresh connection was not a ready frame.
    HandshakeFailed,
    /// The node's address does not form a valid URL.
    InvalidUrl,
    /// A track event named a guild for which no player exists.
    UnknownPlayer,
}

} // verus!
