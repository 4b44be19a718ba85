use vstd::prelude::*;

verus! {

/// How the current transport attempt ended abnormally.
///
/// Every variant is terminal for that attempt and is surfaced only through
/// the configured notifications, never as a fatal error to the caller.
#[derive(Clone, Copy, Debug, PartialEq, Eq, Structural)]
pub enum WebTransportError {
    /// The ready-signal was rejected while the state was `Connecting`.
    HandshakeFailure,
    /// The closed-signal resolved while the state was `Open`, without a
    /// preceding explicit close. Reported through the close notification
    /// rather than the error notification.
    UnexpectedClose,
    /// The closed-signal was rejected during an explicit close.
    CloseFailure,
}

} // verus!
