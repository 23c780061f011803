//! Credential-file content, cleanup command, engine argument lists, and
//! the crash-recovery kill decision.

use openaws_vpn_client::cmd::{
    connect_args, credential_file_content, kill_decision, probe_args, rm_file_command,
};

#[test]
fn credential_file_exact_content() {
    let content = credential_file_content(&b"abc123".to_vec(), &b"PHNhbWw+".to_vec());
    assert_eq!(content, b"SAML\nCRV1::abc123::PHNhbWw+\n".to_vec());
}

#[test]
fn credential_file_empty_assertion() {
    let content = credential_file_content(&b"t".to_vec(), &b"".to_vec());
    assert_eq!(content, b"SAML\nCRV1::t::\n".to_vec());
}

#[test]
fn rm_file_command_prefixes_path() {
    let cmd = rm_file_command(&b"/tmp/x/pwd.txt".to_vec());
    assert_eq!(cmd, b"/usr/bin/env rm /tmp/x/pwd.txt".to_vec());
}

#[test]
fn probe_args_exact_list() {
    let args = probe_args(
        &b"/home/u/gw.ovpn".to_vec(),
        &b"198.51.100.7".to_vec(),
        443,
        &b"/var/lib/app/pwd.txt".to_vec(),
    );
    let want: Vec<Vec<u8>> = vec![
        b"--config".to_vec(),
        b"/home/u/gw.ovpn".to_vec(),
        b"--verb".to_vec(),
        b"3".to_vec(),
        b"--proto".to_vec(),
        b"udp".to_vec(),
        b"--remote".to_vec(),
        b"198.51.100.7".to_vec(),
        b"443".to_vec(),
        b"--auth-user-pass".to_vec(),
        b"/var/lib/app/pwd.txt".to_vec(),
    ];
    assert_eq!(args, want);
}

#[test]
fn connect_args_exact_list() {
    let args = connect_args(
        &b"/home/u/gw.ovpn".to_vec(),
        &b"203.0.113.9".to_vec(),
        1194,
        &b"/tmp/t/pwd.txt".to_vec(),
    );
    let want: Vec<Vec<u8>> = vec![
        b"--config".to_vec(),
        b"/home/u/gw.ovpn".to_vec(),
        b"--verb".to_vec(),
        b"3".to_vec(),
        b"--auth-nocache".to_vec(),
        b"--inactive".to_vec(),
        b"3600".to_vec(),
        b"--proto".to_vec(),
        b"udp".to_vec(),
        b"--remote".to_vec(),
        b"203.0.113.9".to_vec(),
        b"1194".to_vec(),
        b"--script-security".to_vec(),
        b"2".to_vec(),
        b"--route-up".to_vec(),
        b"/usr/bin/env rm /tmp/t/pwd.txt".to_vec(),
        b"--auth-user-pass".to_vec(),
        b"/tmp/t/pwd.txt".to_vec(),
    ];
    assert_eq!(args, want);
}

#[test]
fn kill_requires_engine_command_line() {
    let line = b"/usr/sbin/openvpn --config /home/u/gw.ovpn --auth-user-pass /tmp/t/pwd.txt".to_vec();
    assert!(kill_decision(4711, Some(&line)));
}

#[test]
fn kill_refused_for_reserved_pids() {
    let line = b"/usr/sbin/openvpn --config /a --auth-user-pass /b/pwd.txt".to_vec();
    assert!(!kill_decision(0, Some(&line)));
    assert!(!kill_decision(1, Some(&line)));
}

#[test]
fn kill_refused_without_listing() {
    assert!(!kill_decision(4711, None));
}

#[test]
fn kill_refused_for_relative_command() {
    let line = b"openvpn --config /a --auth-user-pass /b/pwd.txt".to_vec();
    assert!(!kill_decision(4711, Some(&line)));
}

#[test]
fn kill_refused_for_unrelated_process() {
    let line = b"/usr/bin/some-daemon --quiet".to_vec();
    assert!(!kill_decision(4711, Some(&line)));
}

#[test]
fn kill_refused_when_credential_file_differs() {
    let line = b"/usr/sbin/openvpn --config /a --auth-user-pass /b/other.cfg".to_vec();
    assert!(!kill_decision(4711, Some(&line)));
}
