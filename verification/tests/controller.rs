use webtransport_controller::action::Action;
use webtransport_controller::controller::ConnectionController;
use webtransport_controller::error::WebTransportError;
use webtransport_controller::options::ConnectionOptions;
use webtransport_controller::ready_state::ConnectionReadyState;

fn quiet_options() -> ConnectionOptions {
    ConnectionOptions::default().with_immediate(false)
}

#[test]
fn construction_without_immediate_stays_closed() {
    let (controller, actions) = ConnectionController::new(&quiet_options());
    assert_eq!(controller.ready_state(), ConnectionReadyState::Closed);
    assert_eq!(controller.current_transport, None);
    assert_eq!(controller.reconnect_attempts, 0);
    assert!(!controller.reconnect_pending);
    assert!(actions.is_empty());
}

#[test]
fn construction_with_immediate_opens_once() {
    let (controller, actions) = ConnectionController::new(&ConnectionOptions::default());
    assert_eq!(controller.ready_state(), ConnectionReadyState::Connecting);
    assert_eq!(controller.current_transport, Some(0));
    assert_eq!(actions, vec![Action::CreateTransport(0)]);
}

#[test]
fn open_resets_reconnect_attempts() {
    let (mut c, _) = ConnectionController::new(&quiet_options());
    c.open();
    c.ready_succeeded(0);
    c.transport_closed(0, true);
    c.timer_fired();
    assert_eq!(c.reconnect_attempts, 1);
    let actions = c.open();
    assert_eq!(c.reconnect_attempts, 0);
    assert_eq!(
        actions,
        vec![Action::CloseTransport(1), Action::CreateTransport(2)]
    );
}

#[test]
fn ready_success_opens_and_notifies_once() {
    let (mut c, _) = ConnectionController::new(&quiet_options());
    c.open();
    let actions = c.ready_succeeded(0);
    assert_eq!(c.ready_state(), ConnectionReadyState::Open);
    assert_eq!(actions, vec![Action::NotifyOpen]);
}

#[test]
fn ready_failure_closes_without_reconnect() {
    let (mut c, _) = ConnectionController::new(&quiet_options());
    c.open();
    let actions = c.ready_failed(0);
    assert_eq!(c.ready_state(), ConnectionReadyState::Closed);
    assert_eq!(c.current_transport, None);
    assert!(!c.reconnect_pending);
    assert_eq!(
        actions,
        vec![Action::NotifyError(WebTransportError::HandshakeFailure)]
    );
}

#[test]
fn unexpected_close_schedules_single_reconnect() {
    let (mut c, _) = ConnectionController::new(&quiet_options());
    c.open();
    c.ready_succeeded(0);
    let actions = c.transport_closed(0, true);
    assert_eq!(c.ready_state(), ConnectionReadyState::Closed);
    assert!(c.reconnect_pending);
    assert_eq!(
        actions,
        vec![Action::NotifyClose, Action::ScheduleReconnect(3000)]
    );
}

#[test]
fn timer_fire_increments_attempts_and_reconnects() {
    let (mut c, _) = ConnectionController::new(&quiet_options());
    c.open();
    c.ready_succeeded(0);
    c.transport_closed(0, true);
    let actions = c.timer_fired();
    assert_eq!(c.reconnect_attempts, 1);
    assert_eq!(c.ready_state(), ConnectionReadyState::Connecting);
    assert!(!c.reconnect_pending);
    assert_eq!(actions, vec![Action::CreateTransport(1)]);
}

#[test]
fn unexpected_close_at_limit_stops() {
    let options = quiet_options().with_reconnect_limit(0);
    let (mut c, _) = ConnectionController::new(&options);
    c.open();
    c.ready_succeeded(0);
    let actions = c.transport_closed(0, true);
    assert_eq!(c.ready_state(), ConnectionReadyState::Closed);
    assert!(!c.reconnect_pending);
    assert_eq!(actions, vec![Action::NotifyClose]);
}

#[test]
fn explicit_close_suppresses_reconnect() {
    let (mut c, _) = ConnectionController::new(&quiet_options());
    c.open();
    c.ready_succeeded(0);
    let close_actions = c.close();
    assert_eq!(c.ready_state(), ConnectionReadyState::Closing);
    assert_eq!(c.reconnect_attempts, 3);
    assert_eq!(close_actions, vec![Action::CloseTransport(0)]);
    let closed_actions = c.transport_closed(0, true);
    assert_eq!(c.ready_state(), ConnectionReadyState::Closed);
    assert!(!c.reconnect_pending);
    assert_eq!(closed_actions, vec![Action::NotifyClose]);
}

#[test]
fn close_when_closed_is_noop() {
    let (mut c, _) = ConnectionController::new(&quiet_options());
    let actions = c.close();
    assert_eq!(c.ready_state(), ConnectionReadyState::Closed);
    assert!(actions.is_empty());
}

#[test]
fn close_failure_reports_error_after_notifying_close() {
    let (mut c, _) = ConnectionController::new(&quiet_options());
    c.open();
    c.ready_succeeded(0);
    c.close();
    let actions = c.transport_closed(0, false);
    assert_eq!(c.ready_state(), ConnectionReadyState::Closed);
    assert_eq!(
        actions,
        vec![
            Action::NotifyClose,
            Action::NotifyError(WebTransportError::CloseFailure)
        ]
    );
}

#[test]
fn close_while_connecting_awaits_closed_signal() {
    let (mut c, _) = ConnectionController::new(&quiet_options());
    c.open();
    let actions = c.close();
    assert_eq!(c.ready_state(), ConnectionReadyState::Closing);
    assert_eq!(actions, vec![Action::CloseTransport(0)]);
    let stale_ready = c.ready_failed(0);
    assert!(stale_ready.is_empty());
    assert_eq!(c.ready_state(), ConnectionReadyState::Closing);
    let closed = c.transport_closed(0, true);
    assert_eq!(closed, vec![Action::NotifyClose]);
    assert_eq!(c.ready_state(), ConnectionReadyState::Closed);
}

#[test]
fn close_cancels_pending_reconnect_timer() {
    let (mut c, _) = ConnectionController::new(&quiet_options());
    c.open();
    c.ready_succeeded(0);
    c.transport_closed(0, true);
    assert!(c.reconnect_pending);
    let actions = c.close();
    assert!(!c.reconnect_pending);
    assert_eq!(c.ready_state(), ConnectionReadyState::Closed);
    assert_eq!(actions, vec![Action::CancelReconnect]);
    let after = c.timer_fired();
    assert!(after.is_empty());
    assert_eq!(c.ready_state(), ConnectionReadyState::Closed);
}

#[test]
fn reconnect_scenario_limit_two() {
    let options = quiet_options()
        .with_reconnect_limit(2)
        .with_reconnect_interval(100);
    let (mut c, _) = ConnectionController::new(&options);
    c.open();
    let ready = c.ready_succeeded(0);
    assert_eq!(ready, vec![Action::NotifyOpen]);
    assert_eq!(c.ready_state(), ConnectionReadyState::Open);
    let closed = c.transport_closed(0, true);
    assert_eq!(
        closed,
        vec![Action::NotifyClose, Action::ScheduleReconnect(100)]
    );
    let fired = c.timer_fired();
    assert_eq!(c.reconnect_attempts, 1);
    assert_eq!(c.ready_state(), ConnectionReadyState::Connecting);
    assert_eq!(fired, vec![Action::CreateTransport(1)]);
    let failed = c.ready_failed(1);
    assert_eq!(
        failed,
        vec![Action::NotifyError(WebTransportError::HandshakeFailure)]
    );
    assert!(!c.reconnect_pending);
    assert_eq!(c.reconnect_attempts, 1);
    assert_eq!(c.ready_state(), ConnectionReadyState::Closed);
}

#[test]
fn superseded_transport_cannot_affect_state() {
    let (mut c, _) = ConnectionController::new(&quiet_options());
    let first = c.open();
    assert_eq!(first, vec![Action::CreateTransport(0)]);
    let second = c.open();
    assert_eq!(
        second,
        vec![Action::CloseTransport(0), Action::CreateTransport(1)]
    );
    let stale_ok = c.ready_succeeded(0);
    assert!(stale_ok.is_empty());
    assert_eq!(c.ready_state(), ConnectionReadyState::Connecting);
    let stale_err = c.ready_failed(0);
    assert!(stale_err.is_empty());
    assert_eq!(c.ready_state(), ConnectionReadyState::Connecting);
    let live = c.ready_succeeded(1);
    assert_eq!(live, vec![Action::NotifyOpen]);
    assert_eq!(c.ready_state(), ConnectionReadyState::Open);
}

#[test]
fn stale_closed_signal_is_ignored() {
    let (mut c, _) = ConnectionController::new(&quiet_options());
    c.open();
    c.open();
    c.ready_succeeded(1);
    let stale = c.transport_closed(0, true);
    assert!(stale.is_empty());
    assert_eq!(c.ready_state(), ConnectionReadyState::Open);
    assert!(!c.reconnect_pending);
}

#[test]
fn timer_event_without_pending_timer_is_ignored() {
    let (mut c, _) = ConnectionController::new(&quiet_options());
    let actions = c.timer_fired();
    assert!(actions.is_empty());
    assert_eq!(c.ready_state(), ConnectionReadyState::Closed);
    assert_eq!(c.reconnect_attempts, 0);
}
