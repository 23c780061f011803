//! Probe-output parsing: the line classifier and the stream scan.

use openaws_vpn_client::cmd::{classify_line, probe_scan, LineClass};

#[test]
fn classify_saml_redirect_line() {
    let line = b"AUTH_FAILED,CRV1:R:abc123:N:extra,https://idp.example.com/login".to_vec();
    match classify_line(&line) {
        LineClass::Matched { challenge, url } => {
            assert_eq!(challenge, b"abc123".to_vec());
            assert_eq!(url, b"https://idp.example.com/login".to_vec());
        }
        _ => panic!("expected a match"),
    }
}

#[test]
fn classify_plain_line_no_match() {
    let line = b"2024-01-01 12:00:00 TLS: Initial packet from gateway".to_vec();
    assert!(matches!(classify_line(&line), LineClass::NoMatch));
}

#[test]
fn classify_marker_without_url_is_malformed() {
    let line = b"AUTH_FAILED,CRV1:R:abc123:N:extra, but nothing else".to_vec();
    assert!(matches!(classify_line(&line), LineClass::Malformed));
}

#[test]
fn classify_marker_without_challenge_field_is_malformed() {
    // No colon between the marker and the URL: the challenge cannot be cut out.
    let line = b"AUTH_FAILED,CRV1 oddness,https://idp.example.com/".to_vec();
    assert!(matches!(classify_line(&line), LineClass::Malformed));
}

#[test]
fn classify_challenge_running_to_url_without_second_colon() {
    // No second colon after the challenge: the challenge runs to the end
    // of the middle part.
    let line = b"AUTH_FAILED,CRV1:R:tok9,https://x.example/".to_vec();
    match classify_line(&line) {
        LineClass::Matched { challenge, url } => {
            assert_eq!(challenge, b"tok9".to_vec());
            assert_eq!(url, b"https://x.example/".to_vec());
        }
        _ => panic!("expected a match"),
    }
}

#[test]
fn scan_returns_first_marker_line() {
    let lines = vec![
        b"TLS: handshake".to_vec(),
        b"AUTH_FAILED,CRV1:R:tok42:N:x,https://idp.example.com/a".to_vec(),
        b"AUTH_FAILED,CRV1:R:other:N:x,https://idp.example.com/b".to_vec(),
    ];
    let got = probe_scan(&lines).expect("expected auth info");
    assert_eq!(got.pwd, b"tok42".to_vec());
    assert_eq!(got.url, b"https://idp.example.com/a".to_vec());
}

#[test]
fn scan_without_marker_fails() {
    let lines = vec![b"line one".to_vec(), b"line two".to_vec()];
    assert!(probe_scan(&lines).is_none());
}

#[test]
fn scan_empty_stream_fails() {
    let lines: Vec<Vec<u8>> = Vec::new();
    assert!(probe_scan(&lines).is_none());
}

#[test]
fn scan_stops_at_malformed_marker_line() {
    let lines = vec![
        b"TLS: handshake".to_vec(),
        b"AUTH_FAILED,CRV1 no url here".to_vec(),
        b"AUTH_FAILED,CRV1:R:tok:N:x,https://idp.example.com/".to_vec(),
    ];
    assert!(probe_scan(&lines).is_none());
}
