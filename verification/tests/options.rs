use webtransport_controller::options::ConnectionOptions;
use webtransport_controller::policy::should_reconnect;
use webtransport_controller::ready_state::ConnectionReadyState;

#[test]
fn default_options_values() {
    let options = ConnectionOptions::default();
    assert_eq!(options.reconnect_limit, 3);
    assert_eq!(options.reconnect_interval, 3000);
    assert!(options.immediate);
}

#[test]
fn builders_replace_single_fields() {
    let options = ConnectionOptions::default()
        .with_reconnect_limit(7)
        .with_reconnect_interval(250)
        .with_immediate(false);
    assert_eq!(options.reconnect_limit, 7);
    assert_eq!(options.reconnect_interval, 250);
    assert!(!options.immediate);
}

#[test]
fn policy_retries_only_below_limit_and_after_open() {
    assert!(should_reconnect(0, 3, ConnectionReadyState::Open));
    assert!(should_reconnect(2, 3, ConnectionReadyState::Open));
    assert!(!should_reconnect(3, 3, ConnectionReadyState::Open));
    assert!(!should_reconnect(4, 3, ConnectionReadyState::Open));
    assert!(!should_reconnect(0, 0, ConnectionReadyState::Open));
    assert!(!should_reconnect(0, 3, ConnectionReadyState::Connecting));
    assert!(!should_reconnect(0, 3, ConnectionReadyState::Closing));
    assert!(!should_reconnect(0, 3, ConnectionReadyState::Closed));
    assert!(should_reconnect(u64::MAX - 1, u64::MAX, ConnectionReadyState::Open));
}
