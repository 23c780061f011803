//! The POSTed form body: percent-decoding and field lookup.
//!
//! The listener receives `application/x-www-form-urlencoded` bodies. Pairs
//! are separated by `&`; in each pair the key runs to the first `=` (a
//! pair without `=` has an empty value); `+` stands for a space and `%XX`
//! with two hex digits for the byte `XX`, while a malformed `%` sequence
//! stands for itself.

use crate::bytes::{find_from, find_in, find_sub_from, occurs_at, sub_vec};
use crate::text;
use vstd::prelude::*;

verus! {

/// The byte is a hex digit, either case.
pub open spec fn is_hex_digit(b: u8) -> bool {
    (48 <= b <= 57) || (97 <= b <= 102) || (65 <= b <= 70)
}

/// Value of a hex digit.
pub open spec fn hex_val(b: u8) -> u8 {
    if 48 <= b <= 57 {
        (b - 48) as u8
    } else if 97 <= b <= 102 {
        (b - 87) as u8
    } else if 65 <= b <= 70 {
        (b - 55) as u8
    } else {
        0
    }
}

/// Percent-decoding of one form token.
pub open spec fn spec_pct_decode(s: Seq<u8>) -> Seq<u8>
    decreases s.len(),
{
    if s.len() == 0 {
        Seq::empty()
    } else if s[0] == 37 && s.len() >= 3 && is_hex_digit(s[1]) && is_hex_digit(s[2]) {
        seq![(hex_val(s[1]) * 16 + hex_val(s[2])) as u8] + spec_pct_decode(s.skip(3))
    } else if s[0] == 43 {
        seq![32u8] + spec_pct_decode(s.skip(1))
    } else {
        seq![s[0]] + spec_pct_decode(s.skip(1))
    }
}

/// Whether the byte is a hex digit.
fn is_hex_digit_x(b: u8) -> (r: bool)
    ensures
        r == is_hex_digit(b),
{
    (48 <= b && b <= 57) || (97 <= b && b <= 102) || (65 <= b && b <= 70)
}

/// Value of a hex digit.
fn hex_val_x(b: u8) -> (r: u8)
    requires
        is_hex_digit(b),
    ensures
        r == hex_val(b),
        r <= 15,
{
    if 48 <= b && b <= 57 {
        b - 48
    } else if 97 <= b && b <= 102 {
        b - 87
    } else {
        b - 55
    }
}

/// Percent-decode one form token.
pub fn pct_decode(s: &Vec<u8>) -> (r: Vec<u8>)
    ensures
        r@ == spec_pct_decode(s@),
{
    let n = s.len();
    let mut r: Vec<u8> = Vec::new();
    let mut i: usize = 0;
    proof {
        assert(s@.subrange(0, n as int) =~= s@);
        assert(r@ + spec_pct_decode(s@) =~= spec_pct_decode(s@));
    }
    while i < n
        invariant
            i <= n,
            n == s@.len(),
            spec_pct_decode(s@) == r@ + spec_pct_decode(s@.subrange(i as int, n as int)),
        decreases n - i,
    {
        let ghost suf = s@.subrange(i as int, n as int);
        let b = s[i];
        if b == 37 && n - i >= 3 && is_hex_digit_x(s[i + 1]) && is_hex_digit_x(s[i + 2]) {
            let v = hex_val_x(s[i + 1]) * 16 + hex_val_x(s[i + 2]);
            r.push(v);
            proof {
                assert(suf.skip(3) =~= s@.subrange(i + 3, n as int));
                assert(spec_pct_decode(suf) == seq![v] + spec_pct_decode(suf.skip(3)));
                assert(r@ + spec_pct_decode(s@.subrange(i + 3, n as int)) =~= spec_pct_decode(
                    s@,
                ));
            }
            i += 3;
        } else if b == 43 {
            r.push(32);
            proof {
                assert(suf.skip(1) =~= s@.subrange(i + 1, n as int));
                assert(spec_pct_decode(suf) == seq![32u8] + spec_pct_decode(suf.skip(1)));
                assert(r@ + spec_pct_decode(s@.subrange(i + 1, n as int)) =~= spec_pct_decode(
                    s@,
                ));
            }
            i += 1;
        } else {
            r.push(b);
            proof {
                assert(suf.skip(1) =~= s@.subrange(i + 1, n as int));
                assert(spec_pct_decode(suf) == seq![b] + spec_pct_decode(suf.skip(1)));
                assert(r@ + spec_pct_decode(s@.subrange(i + 1, n as int)) =~= spec_pct_decode(
                    s@,
                ));
            }
            i += 1;
        }
    }
    assert(s@.subrange(n as int, n as int) =~= Seq::<u8>::empty());
    assert(r@ =~= spec_pct_decode(s@));
    r
}

/// The value of the first pair whose decoded key is `key`.
pub open spec fn spec_form_value(body: Seq<u8>, key: Seq<u8>) -> Option<Seq<u8>>
    decreases body.len(),
    via spec_form_value_decreases
{
    let end = match find_from(body, seq![38u8], 0) {
        Some(e) => e,
        None => body.len() as int,
    };
    let pair = body.subrange(0, end);
    let kv = match find_from(pair, seq![61u8], 0) {
        Some(eq) => (pair.subrange(0, eq), pair.subrange(eq + 1, pair.len() as int)),
        None => (pair, Seq::<u8>::empty()),
    };
    if spec_pct_decode(kv.0) == key {
        Some(spec_pct_decode(kv.1))
    } else if end == body.len() {
        None
    } else {
        spec_form_value(body.subrange(end + 1, body.len() as int), key)
    }
}

#[via_fn]
proof fn spec_form_value_decreases(body: Seq<u8>, key: Seq<u8>) {
    match find_from(body, seq![38u8], 0) {
        Some(e) => {
            crate::bytes::lemma_find_from_bounds(body, seq![38u8], 0, e);
        },
        None => {},
    }
}

/// Searching in a suffix finds the same occurrences, shifted.
proof fn lemma_find_in_suffix(s: Seq<u8>, pat: Seq<u8>, start: int, i: int)
    requires
        0 <= start <= s.len(),
        start <= i,
    ensures
        find_from(s, pat, i) == match find_from(
            s.subrange(start, s.len() as int),
            pat,
            i - start,
        ) {
            Some(j) => Some(j + start),
            None => None::<int>,
        },
    decreases s.len() - i,
{
    let sub = s.subrange(start, s.len() as int);
    if i + pat.len() > s.len() {
    } else {
        assert(occurs_at(s, pat, i) == occurs_at(sub, pat, i - start)) by {
            if occurs_at(s, pat, i) {
                assert forall|j: int| 0 <= j < pat.len() implies sub[i - start + j] == pat[j] by {
                    assert(sub[i - start + j] == s[i + j]);
                }
            }
            if occurs_at(sub, pat, i - start) {
                assert forall|j: int| 0 <= j < pat.len() implies s[i + j] == pat[j] by {
                    assert(sub[i - start + j] == s[i + j]);
                }
            }
        }
        if occurs_at(s, pat, i) {
        } else {
            lemma_find_in_suffix(s, pat, start, i + 1);
        }
    }
}

/// Whether two byte strings are equal.
pub fn bytes_eq(a: &Vec<u8>, b: &Vec<u8>) -> (r: bool)
    ensures
        r == (a@ == b@),
{
    if a.len() != b.len() {
        return false;
    }
    let mut i: usize = 0;
    while i < a.len()
        invariant
            i <= a@.len(),
            a@.len() == b@.len(),
            forall|j: int| 0 <= j < i ==> a@[j] == b@[j],
        decreases a@.len() - i,
    {
        if a[i] != b[i] {
            return false;
        }
        i += 1;
    }
    assert(a@ =~= b@);
    true
}

/// Look a field up in a form body.
pub fn form_value(body: &Vec<u8>, key: &Vec<u8>) -> (r: Option<Vec<u8>>)
    ensures
        match r {
            Some(v) => spec_form_value(body@, key@) == Some(v@),
            None => spec_form_value(body@, key@) is None,
        },
{
    let n = body.len();
    let amp = text::amp_v();
    let eq_pat = text::equals_v();
    let mut start: usize = 0;
    proof {
        assert(body@.subrange(0, n as int) =~= body@);
    }
    loop
        invariant
            start <= n,
            n == body@.len(),
            amp@ == seq![38u8],
            eq_pat@ == seq![61u8],
            spec_form_value(body@, key@) == spec_form_value(
                body@.subrange(start as int, n as int),
                key@,
            ),
        decreases n - start,
    {
        let ghost suffix = body@.subrange(start as int, n as int);
        let end: usize = match find_sub_from(body, &amp, start) {
            Some(e) => {
                proof {
                    crate::bytes::lemma_find_from_bounds(body@, amp@, start as int, e as int);
                    lemma_find_in_suffix(body@, amp@, start as int, start as int);
                }
                e
            },
            None => {
                proof {
                    lemma_find_in_suffix(body@, amp@, start as int, start as int);
                }
                n
            },
        };
        let ghost end_rel = end - start;
        assert(match find_from(suffix, seq![38u8], 0) {
            Some(e) => e == end_rel,
            None => end_rel == suffix.len(),
        });
        let pair = sub_vec(body, start, end);
        assert(pair@ =~= suffix.subrange(0, end_rel));
        let kv = match find_in(&pair, &eq_pat) {
            Some(eq) => {
                proof {
                    crate::bytes::lemma_find_in_bounds(pair@, eq_pat@, eq as int);
                }
                let k = sub_vec(&pair, 0, eq);
                let v = sub_vec(&pair, eq + 1, pair.len());
                (k, v)
            },
            None => {
                let k = crate::log::copy_bytes(&pair);
                let v: Vec<u8> = Vec::new();
                (k, v)
            },
        };
        let decoded_key = pct_decode(&kv.0);
        if bytes_eq(&decoded_key, key) {
            return Some(pct_decode(&kv.1));
        }
        if end == n {
            return None;
        }
        proof {
            assert(suffix.subrange(end_rel + 1, suffix.len() as int) =~= body@.subrange(
                end + 1,
                n as int,
            ));
        }
        start = end + 1;
    }
}

/// Extract the assertion field of a POSTed form body.
pub fn extract_saml_response(body: &Vec<u8>) -> (r: Option<Vec<u8>>)
    ensures
        match r {
            Some(v) => spec_form_value(body@, text::saml_field_key()) == Some(v@),
            None => spec_form_value(body@, text::saml_field_key()) is None,
        },
{
    let key = text::saml_field_key_v();
    form_value(body, &key)
}

} // verus!
