//! Form-urlencoded bodies: percent-decoding, field lookup, and POSTs
//! handled from the raw body.

use openaws_vpn_client::form::{extract_saml_response, form_value, pct_decode};
use openaws_vpn_client::saml_server::{response_status, PostOutcome, SamlServer};

#[test]
fn decode_passes_plain_text_through() {
    assert_eq!(pct_decode(&b"abc123".to_vec()), b"abc123".to_vec());
    assert_eq!(pct_decode(&b"".to_vec()), b"".to_vec());
}

#[test]
fn decode_plus_as_space() {
    assert_eq!(pct_decode(&b"a+b+c".to_vec()), b"a b c".to_vec());
}

#[test]
fn decode_percent_sequences() {
    assert_eq!(pct_decode(&b"%41%62%63".to_vec()), b"Abc".to_vec());
    // Base64 padding and symbols as an encoder sends them.
    assert_eq!(pct_decode(&b"PHNh%2Bb%2Fw%3D%3D".to_vec()), b"PHNh+b/w==".to_vec());
    // Both hex-digit cases.
    assert_eq!(pct_decode(&b"%2b%2B".to_vec()), b"++".to_vec());
}

#[test]
fn decode_keeps_malformed_percent_literally() {
    assert_eq!(pct_decode(&b"100%".to_vec()), b"100%".to_vec());
    assert_eq!(pct_decode(&b"%zz".to_vec()), b"%zz".to_vec());
    assert_eq!(pct_decode(&b"%4".to_vec()), b"%4".to_vec());
}

#[test]
fn form_lookup_finds_field_among_pairs() {
    let body = b"RelayState=x&SAMLResponse=PHNhbWw%2B&other=1".to_vec();
    assert_eq!(form_value(&body, &b"SAMLResponse".to_vec()), Some(b"PHNhbWw+".to_vec()));
    assert_eq!(form_value(&body, &b"RelayState".to_vec()), Some(b"x".to_vec()));
    assert_eq!(form_value(&body, &b"missing".to_vec()), None);
}

#[test]
fn form_lookup_first_pair_wins() {
    let body = b"k=1&k=2".to_vec();
    assert_eq!(form_value(&body, &b"k".to_vec()), Some(b"1".to_vec()));
}

#[test]
fn form_pair_without_equals_has_empty_value() {
    let body = b"flag&k=v".to_vec();
    assert_eq!(form_value(&body, &b"flag".to_vec()), Some(b"".to_vec()));
}

#[test]
fn extract_saml_response_from_body() {
    assert_eq!(
        extract_saml_response(&b"SAMLResponse=PHNhbWw%2B&RelayState=x".to_vec()),
        Some(b"PHNhbWw+".to_vec())
    );
    assert_eq!(extract_saml_response(&b"RelayState=x".to_vec()), None);
}

#[test]
fn raw_post_without_field_is_rejected() {
    let mut server = SamlServer::new();
    server.store_password(b"abc123".to_vec());
    let outcome = server.handle_post_body(&b"RelayState=x".to_vec());
    assert!(matches!(outcome, PostOutcome::MissingField));
    assert_eq!(response_status(&outcome), 400);
    assert!(server.has_password());
}

#[test]
fn raw_post_with_field_pairs_decoded_assertion() {
    let mut server = SamlServer::new();
    server.store_password(b"abc123".to_vec());
    let outcome = server.handle_post_body(&b"SAMLResponse=PHNhbWw%2B".to_vec());
    match outcome {
        PostOutcome::Forward(saml) => {
            assert_eq!(saml.data, b"PHNhbWw+".to_vec());
            assert_eq!(saml.pwd, b"abc123".to_vec());
        }
        _ => panic!("expected the assertion to be forwarded"),
    }
}
