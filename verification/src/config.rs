//! Gateway configuration snapshot: profile path, remote host and port, and
//! the resolved address list. An absent address list means resolution was
//! not attempted or found nothing, which callers treat as distinct from a
//! resolved, non-empty list.

use crate::bytes::{dec_digits, push_all, u32_dec};
use vstd::prelude::*;

verus! {

/// An IPv4 address as four plain octets.
#[derive(Clone, Copy, Debug, PartialEq, Eq, Structural)]
pub struct Ipv4 {
    pub a: u8,
    pub b: u8,
    pub c: u8,
    pub d: u8,
}

/// Dotted-quad rendering of an address.
pub open spec fn spec_ipv4(ip: Ipv4) -> Seq<u8> {
    dec_digits(ip.a as nat) + seq![46u8] + dec_digits(ip.b as nat) + seq![46u8] + dec_digits(
        ip.c as nat,
    ) + seq![46u8] + dec_digits(ip.d as nat)
}

/// Render an address as a dotted quad.
pub fn ipv4_string(ip: Ipv4) -> (r: Vec<u8>)
    ensures
        r@ == spec_ipv4(ip),
{
    let mut r = u32_dec(ip.a as u32);
    r.push(46);
    let b = u32_dec(ip.b as u32);
    push_all(&mut r, &b);
    r.push(46);
    let c = u32_dec(ip.c as u32);
    push_all(&mut r, &c);
    r.push(46);
    let d = u32_dec(ip.d as u32);
    push_all(&mut r, &d);
    assert(r@ =~= spec_ipv4(ip));
    r
}

/// What the connection attempt needs to know of the gateway.
pub struct GatewayConfig {
    /// Path of the tunnel-engine profile file.
    pub config: Option<Vec<u8>>,
    /// Remote hostname and port.
    pub remote: Option<(Vec<u8>, u16)>,
    /// Addresses the hostname resolved to; `None` while unresolved or when
    /// resolution found nothing.
    pub addresses: Option<Vec<Ipv4>>,
}

impl GatewayConfig {
    /// A fresh snapshot with nothing configured.
    pub fn new() -> (r: GatewayConfig)
        ensures
            r.config is None,
            r.remote is None,
            r.addresses is None,
    {
        GatewayConfig { config: None, remote: None, addresses: None }
    }
}

/// The byte separates words of a profile line.
pub open spec fn is_ws(b: u8) -> bool {
    b == 32 || b == 9 || b == 13
}

/// First position at or after `i` holding a non-separator, or the end.
pub open spec fn spec_skip_ws(s: Seq<u8>, i: int) -> int
    decreases s.len() - i,
{
    if i < 0 || i >= s.len() {
        s.len() as int
    } else if is_ws(s[i]) {
        spec_skip_ws(s, i + 1)
    } else {
        i
    }
}

/// First position at or after `i` holding a separator, or the end.
pub open spec fn spec_token_end(s: Seq<u8>, i: int) -> int
    decreases s.len() - i,
{
    if i < 0 || i >= s.len() {
        s.len() as int
    } else if is_ws(s[i]) {
        i
    } else {
        spec_token_end(s, i + 1)
    }
}

/// The byte is a decimal digit.
pub open spec fn is_digit(b: u8) -> bool {
    48 <= b <= 57
}

/// Every byte of `s` is a decimal digit.
pub open spec fn all_digits(s: Seq<u8>) -> bool {
    forall|i: int| 0 <= i < s.len() ==> is_digit(#[trigger] s[i])
}

/// Value of a decimal digit string.
pub open spec fn spec_dec_val(s: Seq<u8>) -> int
    decreases s.len(),
{
    if s.len() == 0 {
        0
    } else {
        spec_dec_val(s.drop_last()) * 10 + (s.last() - 48)
    }
}

/// The port a token names: a non-empty all-digit token whose value fits.
pub open spec fn spec_parse_u16(s: Seq<u8>) -> Option<u16> {
    if s.len() > 0 && all_digits(s) && spec_dec_val(s) <= 65535 {
        Some(spec_dec_val(s) as u16)
    } else {
        None
    }
}

/// What a profile line configures: on a line whose first word is `remote`,
/// the second word is the gateway host and the third, when it is a number
/// in range, the port — else the port defaults to 443.
pub open spec fn spec_parse_remote_line(line: Seq<u8>) -> Option<(Seq<u8>, u16)> {
    let i0 = spec_skip_ws(line, 0);
    let e0 = spec_token_end(line, i0);
    if line.subrange(i0, e0) == crate::text::word_remote() {
        let i1 = spec_skip_ws(line, e0);
        let e1 = spec_token_end(line, i1);
        let host = line.subrange(i1, e1);
        let i2 = spec_skip_ws(line, e1);
        let e2 = spec_token_end(line, i2);
        let port = match spec_parse_u16(line.subrange(i2, e2)) {
            Some(p) => p,
            None => 443,
        };
        Some((host, port))
    } else {
        None
    }
}

/// The gateway named by a profile: what the first `remote` line says.
pub open spec fn spec_profile_remote(lines: Seq<Seq<u8>>, i: int) -> Option<(Seq<u8>, u16)>
    decreases lines.len() - i,
{
    if i < 0 || i >= lines.len() {
        None
    } else {
        match spec_parse_remote_line(lines[i]) {
            Some(r) => Some(r),
            None => spec_profile_remote(lines, i + 1),
        }
    }
}

/// First position at or after `i` holding a non-separator, or the end.
fn skip_ws(s: &Vec<u8>, i: usize) -> (r: usize)
    requires
        i <= s@.len(),
    ensures
        r == spec_skip_ws(s@, i as int),
        i <= r <= s@.len(),
        r < s@.len() ==> !is_ws(s@[r as int]),
{
    let n = s.len();
    let mut j = i;
    while j < n
        invariant
            i <= j <= n,
            n == s@.len(),
            spec_skip_ws(s@, i as int) == spec_skip_ws(s@, j as int),
        decreases n - j,
    {
        if !(s[j] == 32 || s[j] == 9 || s[j] == 13) {
            return j;
        }
        j += 1;
    }
    j
}

/// First position at or after `i` holding a separator, or the end.
fn token_end(s: &Vec<u8>, i: usize) -> (r: usize)
    requires
        i <= s@.len(),
    ensures
        r == spec_token_end(s@, i as int),
        i <= r <= s@.len(),
    {
    let n = s.len();
    let mut j = i;
    while j < n
        invariant
            i <= j <= n,
            n == s@.len(),
            spec_token_end(s@, i as int) == spec_token_end(s@, j as int),
        decreases n - j,
    {
        if s[j] == 32 || s[j] == 9 || s[j] == 13 {
            return j;
        }
        j += 1;
    }
    j
}

/// A longer digit prefix never names a smaller number.
proof fn lemma_dec_val_monotone(s: Seq<u8>, i: int, j: int)
    requires
        all_digits(s),
        0 <= i <= j <= s.len(),
    ensures
        spec_dec_val(s.subrange(0, i)) <= spec_dec_val(s.subrange(0, j)),
        spec_dec_val(s.subrange(0, i)) >= 0,
    decreases j - i,
{
    if i == 0 {
        assert(s.subrange(0, 0) =~= Seq::<u8>::empty());
    }
    lemma_dec_val_nonneg(s.subrange(0, i));
    if i < j {
        lemma_dec_val_nonneg(s.subrange(0, j - 1));
        assert(s.subrange(0, j).drop_last() =~= s.subrange(0, j - 1));
        assert(spec_dec_val(s.subrange(0, j)) == spec_dec_val(s.subrange(0, j - 1)) * 10 + (
        s.subrange(0, j).last() - 48));
        lemma_dec_val_monotone(s, i, j - 1);
    }
}

/// A digit string's value is not negative.
proof fn lemma_dec_val_nonneg(s: Seq<u8>)
    requires
        all_digits(s),
    ensures
        spec_dec_val(s) >= 0,
    decreases s.len(),
{
    if s.len() > 0 {
        assert(all_digits(s.drop_last()));
        lemma_dec_val_nonneg(s.drop_last());
    }
}

/// Parse a port number token.
pub fn parse_u16(s: &Vec<u8>) -> (r: Option<u16>)
    ensures
        r == spec_parse_u16(s@),
{
    let n = s.len();
    if n == 0 {
        return None;
    }
    let mut v: u32 = 0;
    let mut i: usize = 0;
    while i < n
        invariant
            i <= n,
            n == s@.len(),
            n > 0,
            forall|j: int| 0 <= j < i ==> is_digit(#[trigger] s@[j]),
            v == spec_dec_val(s@.subrange(0, i as int)),
            v <= 65535,
        decreases n - i,
    {
        let b = s[i];
        if !(48 <= b && b <= 57) {
            return None;
        }
        let d: u32 = (b - 48) as u32;
        let next: u32 = v * 10 + d;
        proof {
            assert(s@.subrange(0, i + 1).drop_last() =~= s@.subrange(0, i as int));
            assert(spec_dec_val(s@.subrange(0, i + 1)) == v * 10 + d);
        }
        if next > 65535 {
            proof {
                let ghost full = s@;
                if all_digits(full) {
                    lemma_dec_val_monotone(full, i + 1, n as int);
                    assert(full.subrange(0, n as int) =~= full);
                }
            }
            return None;
        }
        v = next;
        i += 1;
    }
    proof {
        assert(s@.subrange(0, n as int) =~= s@);
    }
    Some(v as u16)
}

/// Parse one profile line as a `remote` directive.
pub fn parse_remote_line(line: &Vec<u8>) -> (r: Option<(Vec<u8>, u16)>)
    ensures
        match r {
            Some(hp) => spec_parse_remote_line(line@) == Some((hp.0@, hp.1)),
            None => spec_parse_remote_line(line@) is None,
        },
{
    let i0 = skip_ws(line, 0);
    let e0 = token_end(line, i0);
    let word = crate::bytes::sub_vec(line, i0, e0);
    let remote_word = crate::text::word_remote_v();
    if !crate::form::bytes_eq(&word, &remote_word) {
        return None;
    }
    let i1 = skip_ws(line, e0);
    let e1 = token_end(line, i1);
    let host = crate::bytes::sub_vec(line, i1, e1);
    let i2 = skip_ws(line, e1);
    let e2 = token_end(line, i2);
    let port_tok = crate::bytes::sub_vec(line, i2, e2);
    let port = match parse_u16(&port_tok) {
        Some(p) => p,
        None => 443,
    };
    Some((host, port))
}

/// Find the gateway host and port in a profile: what the first `remote`
/// line says, the port defaulting to 443 where the line gives none.
pub fn profile_remote(lines: &Vec<Vec<u8>>) -> (r: Option<(Vec<u8>, u16)>)
    ensures
        match r {
            Some(hp) => spec_profile_remote(lines.deep_view(), 0) == Some((hp.0@, hp.1)),
            None => spec_profile_remote(lines.deep_view(), 0) is None,
        },
{
    let n = lines.len();
    let mut i: usize = 0;
    while i < n
        invariant
            i <= n,
            n == lines@.len(),
            lines.deep_view().len() == lines@.len(),
            spec_profile_remote(lines.deep_view(), 0) == spec_profile_remote(
                lines.deep_view(),
                i as int,
            ),
        decreases n - i,
    {
        assert(lines.deep_view()[i as int] == lines@[i as int]@);
        if let Some(hp) = parse_remote_line(&lines[i]) {
            return Some(hp);
        }
        i += 1;
    }
    None
}

} // verus!
