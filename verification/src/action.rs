use crate::error::WebTransportError;
use vstd::prelude::*;

verus! {

/// One instruction from the controller to its surrounding runtime.
///
/// The controller never performs I/O itself: each transition returns the
/// exact sequence of actions the runtime must perform, in order. Transport
/// handles and the reconnect timer are owned by the runtime and identified
/// here by the numbers the controller issued for them.
#[derive(Clone, Copy, Debug, PartialEq, Eq, Structural)]
pub enum Action {
    /// Construct a new transport handle bound to the target, under this
    /// identifier, and feed its ready- and closed-signals back as events.
    CreateTransport(u64),
    /// Request the close of the transport handle with this identifier,
    /// fire-and-forget.
    CloseTransport(u64),
    /// Schedule the single reconnect timer to fire after this many
    /// milliseconds.
    ScheduleReconnect(u64),
    /// Cancel the outstanding reconnect timer.
    CancelReconnect,
    /// Invoke the open notification: the session became usable.
    NotifyOpen,
    /// Invoke the close notification: the session finished closing, whether
    /// expected or not.
    NotifyClose,
    /// Invoke the error notification with this failure.
    NotifyError(WebTransportError),
}

} // verus!
