//! Callback-listener behaviour: the credential slot, POST outcomes, the
//! launch check, and the settled state after the engine exits.

use openaws_vpn_client::cmd::credential_file_content;
use openaws_vpn_client::config::{GatewayConfig, Ipv4};
use openaws_vpn_client::saml_server::{
    launch_decision, launch_refusal_message, response_body, response_status, state_after_exit,
    LaunchCheck, PostOutcome, SamlServer,
};
use openaws_vpn_client::State;

#[test]
fn post_without_field_is_rejected_with_400() {
    let mut server = SamlServer::new();
    server.store_password(b"abc123".to_vec());
    let outcome = server.handle_post(None);
    assert!(matches!(outcome, PostOutcome::MissingField));
    assert_eq!(response_status(&outcome), 400);
    assert_eq!(
        response_body(&outcome),
        b"Error: Missing SAMLResponse field".to_vec()
    );
    // Nothing was enqueued and the credential was not consumed.
    assert!(server.has_password());
}

#[test]
fn post_with_empty_field_is_rejected_with_400() {
    let mut server = SamlServer::new();
    let outcome = server.handle_post(Some(b"".to_vec()));
    assert!(matches!(outcome, PostOutcome::MissingField));
    assert_eq!(response_status(&outcome), 400);
}

#[test]
fn assertion_before_any_credential_is_dropped() {
    let mut server = SamlServer::new();
    let outcome = server.handle_post(Some(b"PHNhbWw+".to_vec()));
    assert!(matches!(outcome, PostOutcome::Dropped));
    assert_eq!(response_status(&outcome), 200);
}

#[test]
fn assertion_with_empty_credential_is_dropped() {
    let mut server = SamlServer::new();
    server.store_password(b"".to_vec());
    let outcome = server.handle_post(Some(b"PHNhbWw+".to_vec()));
    assert!(matches!(outcome, PostOutcome::Dropped));
}

#[test]
fn assertion_pairs_with_stored_credential() {
    let mut server = SamlServer::new();
    server.store_password(b"abc123".to_vec());
    let outcome = server.handle_post(Some(b"PHNhbWw+".to_vec()));
    match outcome {
        PostOutcome::Forward(saml) => {
            assert_eq!(saml.pwd, b"abc123".to_vec());
            assert_eq!(saml.data, b"PHNhbWw+".to_vec());
            // The connector writes exactly this one-time secret.
            let content = credential_file_content(&saml.pwd, &saml.data);
            assert_eq!(content, b"SAML\nCRV1::abc123::PHNhbWw+\n".to_vec());
        }
        _ => panic!("expected the assertion to be forwarded"),
    }
}

#[test]
fn credential_is_consumed_at_most_once() {
    let mut server = SamlServer::new();
    server.store_password(b"abc123".to_vec());
    let first = server.handle_post(Some(b"one".to_vec()));
    assert!(matches!(first, PostOutcome::Forward(_)));
    assert!(!server.has_password());
    // A second assertion finds the slot empty: dropped, never replayed.
    let second = server.handle_post(Some(b"two".to_vec()));
    assert!(matches!(second, PostOutcome::Dropped));
}

#[test]
fn launch_refused_without_address() {
    let mut cfg = GatewayConfig::new();
    cfg.config = Some(b"/home/u/gw.ovpn".to_vec());
    cfg.remote = Some((b"gw.example.com".to_vec(), 443));
    let r = launch_decision(&cfg);
    assert!(matches!(r, LaunchCheck::NoAddress));
    assert_eq!(
        launch_refusal_message(&r),
        b"Error: No IP address available for connection".to_vec()
    );

    cfg.addresses = Some(Vec::new());
    assert!(matches!(launch_decision(&cfg), LaunchCheck::NoAddress));
}

#[test]
fn launch_refused_without_config() {
    let mut cfg = GatewayConfig::new();
    cfg.addresses = Some(vec![Ipv4 { a: 198, b: 51, c: 100, d: 7 }]);
    cfg.remote = Some((b"gw.example.com".to_vec(), 443));
    let r = launch_decision(&cfg);
    assert!(matches!(r, LaunchCheck::NoConfig));
    assert_eq!(
        launch_refusal_message(&r),
        b"Error: No config file available".to_vec()
    );
}

#[test]
fn launch_refused_without_port() {
    let mut cfg = GatewayConfig::new();
    cfg.addresses = Some(vec![Ipv4 { a: 198, b: 51, c: 100, d: 7 }]);
    cfg.config = Some(b"/home/u/gw.ovpn".to_vec());
    let r = launch_decision(&cfg);
    assert!(matches!(r, LaunchCheck::NoPort));
    assert_eq!(launch_refusal_message(&r), b"Error: No port available".to_vec());
}

#[test]
fn launch_takes_first_address_and_port() {
    let mut cfg = GatewayConfig::new();
    cfg.addresses = Some(vec![
        Ipv4 { a: 198, b: 51, c: 100, d: 7 },
        Ipv4 { a: 203, b: 0, c: 113, d: 9 },
    ]);
    cfg.config = Some(b"/home/u/gw.ovpn".to_vec());
    cfg.remote = Some((b"gw.example.com".to_vec(), 1194));
    match launch_decision(&cfg) {
        LaunchCheck::Launch { addr, port, config } => {
            assert_eq!(addr, Ipv4 { a: 198, b: 51, c: 100, d: 7 });
            assert_eq!(port, 1194);
            assert_eq!(config, b"/home/u/gw.ovpn".to_vec());
        }
        _ => panic!("expected a launch"),
    }
}

#[test]
fn exit_code_zero_settles_connected() {
    assert_eq!(state_after_exit(0), State::Connected);
}

#[test]
fn exit_code_one_settles_disconnected() {
    assert_eq!(state_after_exit(1), State::Disconnected);
    assert_eq!(state_after_exit(-1), State::Disconnected);
    assert_eq!(state_after_exit(127), State::Disconnected);
}
