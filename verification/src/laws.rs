use crate::action::Action;
use crate::controller::ConnectionController;
use crate::policy::spec_should_reconnect;
use crate::ready_state::ConnectionReadyState;
use vstd::prelude::*;

verus! {

/// An unexpected close from `Open` with the attempt count below the limit
/// schedules exactly one reconnect timer for the configured interval, and
/// when that timer fires the attempt count grows by exactly one and the
/// connect routine is reissued, leaving the controller `Connecting`.
pub proof fn law_unexpected_close_reconnects(s: ConnectionController, t: u64)
    requires
        s.wf(),
        s.ready_state is Open,
        s.current_transport == Some(t),
        s.reconnect_attempts < s.reconnect_limit,
        s.next_transport < u64::MAX,
    ensures
        ConnectionController::transport_closed_actions(s, t, true) == seq![
            Action::NotifyClose,
            Action::ScheduleReconnect(s.reconnect_interval),
        ],
        ConnectionController::after_transport_closed(s, t).ready_state is Closed,
        ConnectionController::after_transport_closed(s, t).reconnect_pending,
        ConnectionController::after_timer_fired(
            ConnectionController::after_transport_closed(s, t),
        ).reconnect_attempts == s.reconnect_attempts + 1,
        ConnectionController::after_timer_fired(
            ConnectionController::after_transport_closed(s, t),
        ).ready_state is Connecting,
        ConnectionController::timer_fired_actions(
            ConnectionController::after_transport_closed(s, t),
        ) == seq![Action::CreateTransport(s.next_transport)],
{
}

/// An unexpected close from `Open` with the attempt count already at the
/// limit fires the close notification alone: no timer is scheduled,
/// whether the signal resolved or rejected, and the controller stays
/// `Closed` with no reconnect outstanding.
pub proof fn law_reconnect_exhausted(s: ConnectionController, t: u64, cleanly: bool)
    requires
        s.wf(),
        s.ready_state is Open,
        s.current_transport == Some(t),
        s.reconnect_attempts == s.reconnect_limit,
    ensures
        ConnectionController::transport_closed_actions(s, t, cleanly) == seq![
            Action::NotifyClose,
        ],
        ConnectionController::after_transport_closed(s, t).ready_state is Closed,
        !ConnectionController::after_transport_closed(s, t).reconnect_pending,
{
    assert(ConnectionController::transport_closed_actions(s, t, cleanly) =~= seq![
        Action::NotifyClose,
    ]);
}

/// An explicit close from `Open` raises the attempt count to the limit —
/// which suppresses any future automatic reconnect — requests the
/// transport's close, passes through `Closing`, and on the closed-signal
/// reaches `Closed` with the close notification fired exactly once.
pub proof fn law_explicit_close(s: ConnectionController, t: u64)
    requires
        s.wf(),
        s.ready_state is Open,
        s.current_transport == Some(t),
    ensures
        ConnectionController::after_close(s).reconnect_attempts == s.reconnect_limit,
        ConnectionController::after_close(s).ready_state is Closing,
        ConnectionController::close_actions(s) == seq![Action::CloseTransport(t)],
        ConnectionController::after_transport_closed(
            ConnectionController::after_close(s),
            t,
        ).ready_state is Closed,
        !ConnectionController::after_transport_closed(
            ConnectionController::after_close(s),
            t,
        ).reconnect_pending,
        ConnectionController::transport_closed_actions(
            ConnectionController::after_close(s),
            t,
            true,
        ) == seq![Action::NotifyClose],
        !spec_should_reconnect(
            ConnectionController::after_close(s).reconnect_attempts,
            ConnectionController::after_close(s).reconnect_limit,
            ConnectionReadyState::Open,
        ),
{
    assert(ConnectionController::close_actions(s) =~= seq![Action::CloseTransport(t)]);
}

/// A superseded transport cannot affect the state: after two opens in
/// succession, the first attempt's ready-signal — resolved or rejected —
/// changes nothing and fires nothing, while the second attempt's
/// successful ready-signal still brings the controller to `Open`.
pub proof fn law_superseded_transport(s: ConnectionController)
    requires
        s.wf(),
        s.next_transport + 1 < u64::MAX,
    ensures
        ConnectionController::after_ready_ok(
            ConnectionController::after_open(ConnectionController::after_open(s)),
            s.next_transport,
        ) == ConnectionController::after_open(ConnectionController::after_open(s)),
        ConnectionController::ready_ok_actions(
            ConnectionController::after_open(ConnectionController::after_open(s)),
            s.next_transport,
        ) == Seq::<Action>::empty(),
        ConnectionController::after_ready_err(
            ConnectionController::after_open(ConnectionController::after_open(s)),
            s.next_transport,
        ) == ConnectionController::after_open(ConnectionController::after_open(s)),
        ConnectionController::ready_err_actions(
            ConnectionController::after_open(ConnectionController::after_open(s)),
            s.next_transport,
        ) == Seq::<Action>::empty(),
        ConnectionController::after_ready_ok(
            ConnectionController::after_open(ConnectionController::after_open(s)),
            ConnectionController::after_open(s).next_transport,
        ).ready_state is Open,
{
}

} // verus!
