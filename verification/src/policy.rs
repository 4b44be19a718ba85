use crate::ready_state::ConnectionReadyState;
use vstd::prelude::*;

verus! {

/// Whether an automatic reconnect is attempted after a transport closed.
///
/// Reconnection only recovers sessions that were fully established: the
/// state immediately prior to the close must have been `Open`, and the
/// attempt count must still be below the limit. A session that failed
/// during its initial handshake is never retried automatically, and an
/// explicit close disables retries by raising the count to the limit.
pub open spec fn spec_should_reconnect(
    attempts: u64,
    limit: u64,
    prior_state: ConnectionReadyState,
) -> bool {
    attempts < limit && prior_state is Open
}

/// Pure reconnect decision: retry only below the limit and only after a
/// fully established session. See [`spec_should_reconnect`].
pub fn should_reconnect(
    attempts: u64,
    limit: u64,
    prior_state: ConnectionReadyState,
) -> (retry: bool)
    ensures
        retry == spec_should_reconnect(attempts, limit, prior_state),
{
    attempts < limit && prior_state == ConnectionReadyState::Open
}

} // verus!
