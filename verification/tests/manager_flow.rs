//! Connection-manager flows: validation, the pid bookkeeping, and the
//! disconnect paths.

use openaws_vpn_client::cmd::ProcessInfo;
use openaws_vpn_client::config::{GatewayConfig, Ipv4};
use openaws_vpn_client::task::TaskHandle;
use openaws_vpn_client::manager::{
    connect_error_message, ChangeOutcome, ConnectError, ConnectionManager,
};
use openaws_vpn_client::State;

fn full_config() -> GatewayConfig {
    let mut cfg = GatewayConfig::new();
    cfg.config = Some(b"/home/u/gw.ovpn".to_vec());
    cfg.remote = Some((b"gw.example.com".to_vec(), 443));
    cfg.addresses = Some(vec![Ipv4 { a: 198, b: 51, c: 100, d: 7 }]);
    cfg
}

#[test]
fn disconnect_while_disconnected_is_noop() {
    let mut m = ConnectionManager::new();
    assert_eq!(m.get_state(), State::Disconnected);
    let e = m.disconnect();
    assert!(!e.probe_cancelled);
    assert!(!e.connector_cancelled);
    assert_eq!(e.kill_pid, None);
    assert_eq!(m.get_state(), State::Disconnected);
}

#[test]
fn try_disconnect_while_disconnected_does_nothing() {
    let mut m = ConnectionManager::new();
    assert!(m.try_disconnect().is_none());
    assert_eq!(m.get_state(), State::Disconnected);
}

#[test]
fn connect_with_full_config_goes_connecting() {
    let mut m = ConnectionManager::new();
    let p = m.connect(&full_config()).expect("attempt should start");
    assert_eq!(m.get_state(), State::Connecting);
    assert_eq!(p.addr, Ipv4 { a: 198, b: 51, c: 100, d: 7 });
    assert_eq!(p.port, 443);
    assert_eq!(p.config, b"/home/u/gw.ovpn".to_vec());
}

#[test]
fn connect_errors_name_the_missing_item() {
    let mut m = ConnectionManager::new();
    let mut cfg = full_config();
    cfg.addresses = None;
    assert_eq!(m.connect(&cfg).unwrap_err(), ConnectError::AddressResolution);
    assert_eq!(m.get_state(), State::Disconnected);

    let mut cfg = full_config();
    cfg.addresses = Some(Vec::new());
    assert_eq!(m.connect(&cfg).unwrap_err(), ConnectError::AddressResolution);

    let mut cfg = full_config();
    cfg.remote = None;
    assert_eq!(m.connect(&cfg).unwrap_err(), ConnectError::RemoteMissing);

    let mut cfg = full_config();
    cfg.config = None;
    assert_eq!(m.connect(&cfg).unwrap_err(), ConnectError::ConfigMissing);
}

#[test]
fn connect_error_messages_are_distinct() {
    assert_eq!(
        connect_error_message(&ConnectError::AddressResolution),
        b"Error: DNS resolution failed for VPN endpoint".to_vec()
    );
    assert_eq!(
        connect_error_message(&ConnectError::RemoteMissing),
        b"Error: Remote configuration missing".to_vec()
    );
    assert_eq!(
        connect_error_message(&ConnectError::ConfigMissing),
        b"Error: No VPN configuration file selected".to_vec()
    );
}

#[test]
fn spawned_pid_is_persisted_and_cleared_on_disconnect() {
    let mut m = ConnectionManager::new();
    m.connect(&full_config()).expect("attempt should start");
    assert_eq!(m.persisted_pid(), None);
    m.on_connector_spawned(4711);
    assert_eq!(m.persisted_pid(), Some(4711));
    let e = m.disconnect();
    assert!(e.connector_cancelled);
    assert_eq!(e.kill_pid, None);
    assert_eq!(m.persisted_pid(), None);
    assert_eq!(m.get_state(), State::Disconnected);
}

#[test]
fn force_disconnect_kills_recorded_pid_and_clears_it() {
    let mut m = ConnectionManager::new();
    m.connect(&full_config()).expect("attempt should start");
    m.on_connector_spawned(4711);
    let e = m.force_disconnect();
    assert!(e.probe_cancelled);
    assert!(e.connector_cancelled);
    assert_eq!(e.kill_pid, Some(4711));
    assert_eq!(m.persisted_pid(), None);
}

#[test]
fn connector_exit_zero_settles_connected_and_clears_pid() {
    let mut m = ConnectionManager::new();
    m.connect(&full_config()).expect("attempt should start");
    m.on_connector_spawned(4711);
    m.on_connector_exit(0);
    assert_eq!(m.get_state(), State::Connected);
    assert_eq!(m.persisted_pid(), None);
}

#[test]
fn connector_exit_nonzero_settles_disconnected() {
    let mut m = ConnectionManager::new();
    m.connect(&full_config()).expect("attempt should start");
    m.on_connector_spawned(4711);
    m.on_connector_exit(1);
    assert_eq!(m.get_state(), State::Disconnected);
    assert_eq!(m.persisted_pid(), None);
}

#[test]
fn probe_failure_settles_disconnected() {
    let mut m = ConnectionManager::new();
    m.connect(&full_config()).expect("attempt should start");
    let e = m.on_probe_failed();
    assert!(e.probe_cancelled);
    assert_eq!(m.get_state(), State::Disconnected);
}

#[test]
fn fresh_process_info_has_no_pid() {
    let info = ProcessInfo::new();
    assert!(info.pid.is_none());
}

#[test]
fn graceful_abort_never_kills() {
    let mut t = TaskHandle::new_process(4711);
    let e = t.abort(true);
    assert_eq!(e.kill_pid, None);
}

#[test]
fn forced_abort_kills_recorded_pid() {
    let mut t = TaskHandle::new_process(4711);
    let e = t.abort(false);
    assert_eq!(e.kill_pid, Some(4711));
    let mut plain = TaskHandle::new();
    let e = plain.abort(false);
    assert_eq!(e.kill_pid, None);
}

#[test]
fn change_connect_state_follows_current_state() {
    let mut m = ConnectionManager::new();
    // Disconnected: starts an attempt.
    match m.change_connect_state(&full_config()) {
        ChangeOutcome::Connect(r) => assert!(r.is_ok()),
        _ => panic!("expected a connect"),
    }
    assert_eq!(m.get_state(), State::Connecting);
    // Connecting: an in-flight attempt is cancellable.
    match m.change_connect_state(&full_config()) {
        ChangeOutcome::Disconnect(e) => assert!(e.probe_cancelled),
        _ => panic!("expected a disconnect"),
    }
    assert_eq!(m.get_state(), State::Disconnected);
    // Connected: tears down.
    m.connect(&full_config()).expect("attempt should start");
    m.on_connector_spawned(7);
    m.on_connector_exit(0);
    assert_eq!(m.get_state(), State::Connected);
    match m.change_connect_state(&full_config()) {
        ChangeOutcome::Disconnect(_) => {}
        _ => panic!("expected a disconnect"),
    }
    assert_eq!(m.get_state(), State::Disconnected);
}
