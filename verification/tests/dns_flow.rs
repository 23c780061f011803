//! Address resolution with cache-busting: query names, the single
//! fallback, and the settled outcome.

use openaws_vpn_client::config::{ipv4_string, Ipv4};
use openaws_vpn_client::dns::DnsResolver;

fn is_hex_lower_byte(b: u8) -> bool {
    (b'0'..=b'9').contains(&b) || (b'a'..=b'f').contains(&b)
}

#[test]
fn first_query_is_cache_busted() {
    let r = DnsResolver::new(b"gw.example.com".to_vec());
    let q = r.next_query().expect("a query is pending");
    assert_eq!(q.len(), 24 + 1 + b"gw.example.com".len());
    assert_eq!(q[24], b'.');
    assert_eq!(&q[25..], b"gw.example.com");
    assert!(q[..24].iter().all(|&b| is_hex_lower_byte(b)));
}

#[test]
fn busted_labels_differ_between_queries() {
    // 96 random bits: two draws coinciding would mean a broken generator.
    let r = DnsResolver::new(b"gw.example.com".to_vec());
    let q1 = r.next_query().expect("a query is pending");
    let q2 = r.next_query().expect("a query is pending");
    assert_ne!(q1[..24], q2[..24]);
}

#[test]
fn empty_answer_triggers_exactly_one_bare_fallback() {
    let mut r = DnsResolver::new(b"gw.example.com".to_vec());
    r.on_answer(Vec::new());
    // The one fallback: the bare hostname.
    let q = r.next_query().expect("the fallback is pending");
    assert_eq!(q, b"gw.example.com".to_vec());
    // Whatever the fallback answers, the attempt settles: no retry loop.
    r.on_answer(Vec::new());
    assert!(r.next_query().is_none());
    assert!(r.settled_result().is_none());
}

#[test]
fn non_empty_first_answer_settles_without_fallback() {
    let mut r = DnsResolver::new(b"gw.example.com".to_vec());
    let addr = Ipv4 { a: 198, b: 51, c: 100, d: 7 };
    r.on_answer(vec![addr]);
    assert!(r.next_query().is_none());
    assert_eq!(r.settled_result(), Some(vec![addr]));
}

#[test]
fn fallback_answer_settles_with_records() {
    let mut r = DnsResolver::new(b"gw.example.com".to_vec());
    r.on_answer(Vec::new());
    let addr = Ipv4 { a: 203, b: 0, c: 113, d: 9 };
    r.on_answer(vec![addr]);
    assert!(r.next_query().is_none());
    assert_eq!(r.settled_result(), Some(vec![addr]));
}

#[test]
fn dotted_quad_rendering() {
    assert_eq!(
        ipv4_string(Ipv4 { a: 198, b: 51, c: 100, d: 7 }),
        b"198.51.100.7".to_vec()
    );
    assert_eq!(ipv4_string(Ipv4 { a: 0, b: 0, c: 0, d: 0 }), b"0.0.0.0".to_vec());
    assert_eq!(
        ipv4_string(Ipv4 { a: 255, b: 255, c: 255, d: 255 }),
        b"255.255.255.255".to_vec()
    );
}
