//! The state machine, its numeric codes, and the log sink.

use openaws_vpn_client::log::{log_error, log_info, Log};
use openaws_vpn_client::state_manager::{state_code, StateManager};
use openaws_vpn_client::State;

#[test]
fn fresh_manager_is_disconnected() {
    let m = StateManager::new();
    assert_eq!(m.get_state(), State::Disconnected);
}

#[test]
fn transitions_replace_state() {
    let mut m = StateManager::new();
    m.set_connecting();
    assert_eq!(m.get_state(), State::Connecting);
    m.set_connected();
    assert_eq!(m.get_state(), State::Connected);
    m.set_disconnected();
    assert_eq!(m.get_state(), State::Disconnected);
    // Idempotent replacement.
    m.set_disconnected();
    assert_eq!(m.get_state(), State::Disconnected);
}

#[test]
fn state_codes_are_fixed() {
    assert_eq!(state_code(State::Disconnected), 0);
    assert_eq!(state_code(State::Connecting), 1);
    assert_eq!(state_code(State::Connected), 2);
}

#[test]
fn log_appends_in_order() {
    let mut log = Log::new();
    assert_eq!(log.len(), 0);
    assert_eq!(log.get_last_log(), b"".to_vec());
    log.append(&b"first".to_vec());
    log.append(&b"second".to_vec());
    assert_eq!(log.len(), 2);
    assert_eq!(log.get_last_log(), b"second".to_vec());
    let all = log.get_all_logs();
    assert_eq!(all[0], b"first".to_vec());
    assert_eq!(all[1], b"second".to_vec());
}

#[test]
fn log_clear_empties_buffer() {
    let mut log = Log::new();
    log.append(&b"line".to_vec());
    log.clear();
    assert_eq!(log.len(), 0);
    assert_eq!(log.get_last_log(), b"".to_vec());
}

#[test]
fn process_lines_carry_pid_prefix() {
    let mut log = Log::new();
    log.append_process(4711, &b"TLS: handshake".to_vec());
    assert_eq!(log.get_last_log(), b"[4711] TLS: handshake".to_vec());
    log.append_process(0, &b"x".to_vec());
    assert_eq!(log.get_last_log(), b"[0] x".to_vec());
}

#[test]
fn levelled_lines_carry_tags() {
    let mut log = Log::new();
    log_info(&mut log, &b"starting".to_vec());
    assert_eq!(log.get_last_log(), b"INFO: starting".to_vec());
    log_error(&mut log, &b"failed".to_vec());
    assert_eq!(log.get_last_log(), b"ERROR: failed".to_vec());
}
