use vstd::prelude::*;

verus! {

/// The externally observable phase of the connection.
///
/// Exactly one value is current at any time; it is mutated only by the
/// controller, in response to transport events or an explicit close.
#[derive(Clone, Copy, Debug, PartialEq, Eq, Structural)]
pub enum ConnectionReadyState {
    /// A transport handle exists and its handshake has not finished yet.
    Connecting,
    /// The handshake succeeded; the session is usable.
    Open,
    /// An explicit close was requested and the transport is tearing down.
    Closing,
    /// No live transport is held.
    Closed,
}

} // verus!
