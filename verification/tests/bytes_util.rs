//! The byte-string primitives under everything else.

use openaws_vpn_client::bytes::{
    contains_in, ends_with_in, find_in, find_sub_from, sub_vec, u32_dec,
};

#[test]
fn find_reports_first_occurrence() {
    let hay = b"abcabc".to_vec();
    assert_eq!(find_in(&hay, &b"abc".to_vec()), Some(0));
    assert_eq!(find_in(&hay, &b"bc".to_vec()), Some(1));
    assert_eq!(find_in(&hay, &b"ca".to_vec()), Some(2));
    assert_eq!(find_in(&hay, &b"x".to_vec()), None);
    assert_eq!(find_in(&hay, &b"".to_vec()), Some(0));
    assert_eq!(find_in(&hay, &b"abcabca".to_vec()), None);
}

#[test]
fn find_from_respects_start() {
    let hay = b"abcabc".to_vec();
    assert_eq!(find_sub_from(&hay, &b"abc".to_vec(), 1), Some(3));
    assert_eq!(find_sub_from(&hay, &b"abc".to_vec(), 4), None);
}

#[test]
fn contains_and_suffix() {
    let hay = b"path/pwd.txt".to_vec();
    assert!(contains_in(&hay, &b"pwd".to_vec()));
    assert!(!contains_in(&hay, &b"PWD".to_vec()));
    assert!(ends_with_in(&hay, &b"pwd.txt".to_vec()));
    assert!(!ends_with_in(&hay, &b"pwd".to_vec()));
    assert!(ends_with_in(&hay, &b"".to_vec()));
}

#[test]
fn subrange_copies() {
    let v = b"hello".to_vec();
    assert_eq!(sub_vec(&v, 1, 4), b"ell".to_vec());
    assert_eq!(sub_vec(&v, 2, 2), b"".to_vec());
}

#[test]
fn decimal_rendering() {
    assert_eq!(u32_dec(0), b"0".to_vec());
    assert_eq!(u32_dec(7), b"7".to_vec());
    assert_eq!(u32_dec(40351), b"40351".to_vec());
    assert_eq!(u32_dec(u32::MAX), b"4294967295".to_vec());
}
