//! Gateway address resolution with cache-busting.
//!
//! To defeat resolver caching across repeated attempts, the first query is
//! for a random hex label prepended to the hostname; if that returns zero
//! records, the bare hostname is queried exactly once as a fallback. The
//! queries themselves are performed by the caller; [`DnsResolver`] decides
//! which name to query next and settles on the outcome.

use crate::bytes::push_all;
use crate::config::Ipv4;
use crate::text;
use vstd::prelude::*;

verus! {

/// Lowercase hex digit of a nibble.
pub open spec fn hex_digit(n: u8) -> u8 {
    if n < 10 {
        (48 + n) as u8
    } else {
        (87 + n) as u8
    }
}

/// Lowercase hex rendering: two digits per byte, high nibble first.
pub open spec fn spec_hex(s: Seq<u8>) -> Seq<u8> {
    Seq::new(
        2 * s.len(),
        |i: int|
            if i % 2 == 0 {
                hex_digit(s[i / 2] / 16)
            } else {
                hex_digit(s[i / 2] % 16)
            },
    )
}

/// The byte is a lowercase hex digit.
pub open spec fn is_hex_lower(b: u8) -> bool {
    (48 <= b <= 57) || (97 <= b <= 102)
}

/// Every byte of a hex rendering is a lowercase hex digit.
pub proof fn lemma_hex_chars(s: Seq<u8>)
    ensures
        forall|i: int| 0 <= i < spec_hex(s).len() ==> is_hex_lower(#[trigger] spec_hex(s)[i]),
{
    assert forall|i: int| 0 <= i < spec_hex(s).len() implies is_hex_lower(
        #[trigger] spec_hex(s)[i],
    ) by {
        let b = s[i / 2];
        assert(b / 16 < 16);
        assert(b % 16 < 16);
    }
}

/// Relies on `hex::encode`: it renders each byte as two lowercase hex
/// digits, high nibble first, in input order.
#[verifier::external_body]
fn hex_encode_bytes(b: &Vec<u8>) -> (r: Vec<u8>)
    ensures
        r@ == spec_hex(b@),
{
    hex::encode(b.as_slice()).into_bytes()
}

/// Relies on `rand::fill` (thread-local RNG) to fill the buffer with random
/// bytes; nothing is assumed of their values.
#[verifier::external_body]
fn random_bytes(n: usize) -> (r: Vec<u8>)
    ensures
        r@.len() == n,
{
    let mut v = vec![0u8; n];
    rand::fill(&mut v[..]);
    v
}

/// Length in bytes of the random material behind the cache-busting label.
pub const RANDOM_PREFIX_BYTES: usize = 12;

/// A fresh cache-busting label: the hex rendering of twelve random bytes.
pub fn cache_busting_label() -> (r: Vec<u8>)
    ensures
        r@.len() == 24,
        forall|i: int| 0 <= i < 24 ==> is_hex_lower(#[trigger] r@[i]),
{
    let bts = random_bytes(RANDOM_PREFIX_BYTES);
    let enc = hex_encode_bytes(&bts);
    proof {
        lemma_hex_chars(bts@);
    }
    enc
}

/// A cache-busting query name: a fresh random hex label, a dot, then the
/// hostname.
pub fn cache_busting_name(host: &Vec<u8>) -> (r: Vec<u8>)
    ensures
        r@.len() == host@.len() + 25,
        r@.subrange(25, r@.len() as int) == host@,
        r@[24] == 46u8,
        forall|i: int| 0 <= i < 24 ==> is_hex_lower(#[trigger] r@[i]),
{
    let mut r = cache_busting_label();
    let dotv = text::dot_v();
    push_all(&mut r, &dotv);
    push_all(&mut r, host);
    assert(r@.subrange(25, r@.len() as int) =~= host@);
    r
}

/// Where a resolution attempt stands.
#[derive(Clone, Copy, Debug, PartialEq, Eq, Structural)]
pub enum DnsPhase {
    /// The cache-busting query is to be made next.
    QueryBusted,
    /// The cache-busting query returned nothing; the bare hostname is to be
    /// queried, once.
    QueryBare,
    /// The attempt is over.
    Settled,
}

/// Ghost model of a resolution attempt.
pub struct DnsModel {
    pub phase: DnsPhase,
    /// How many bare-hostname fallback queries were begun.
    pub fallbacks: nat,
    /// The settled outcome: `Some` of a non-empty list, or `None` while
    /// unsettled or when resolution found nothing.
    pub addresses: Option<Seq<Ipv4>>,
}

/// How an answer moves a resolution attempt forward: an empty answer to the
/// cache-busting query triggers the one bare-hostname fallback; any answer
/// to the fallback settles the attempt; an empty settled outcome is `None`.
pub open spec fn spec_on_answer(m: DnsModel, addrs: Seq<Ipv4>) -> DnsModel {
    match m.phase {
        DnsPhase::QueryBusted => {
            if addrs.len() == 0 {
                DnsModel { phase: DnsPhase::QueryBare, fallbacks: m.fallbacks + 1, addresses: None }
            } else {
                DnsModel { phase: DnsPhase::Settled, fallbacks: m.fallbacks, addresses: Some(addrs) }
            }
        },
        DnsPhase::QueryBare => DnsModel {
            phase: DnsPhase::Settled,
            fallbacks: m.fallbacks,
            addresses: if addrs.len() == 0 {
                None
            } else {
                Some(addrs)
            },
        },
        DnsPhase::Settled => m,
    }
}

/// One resolution attempt for one hostname.
pub struct DnsResolver {
    hostname: Vec<u8>,
    phase: DnsPhase,
    fallbacks: u32,
    addresses: Option<Vec<Ipv4>>,
}

impl DnsResolver {
    pub closed spec fn hostname(&self) -> Seq<u8> {
        self.hostname@
    }

    pub closed spec fn model(&self) -> DnsModel {
        DnsModel {
            phase: self.phase,
            fallbacks: self.fallbacks as nat,
            addresses: match self.addresses {
                Some(v) => Some(v@),
                None => None,
            },
        }
    }

    /// The attempt's bookkeeping is consistent: at most one fallback ever,
    /// none before the cache-busting answer, and no outcome before settling.
    pub open spec fn wf(&self) -> bool {
        &&& self.model().fallbacks <= 1
        &&& (self.model().phase == DnsPhase::QueryBusted ==> self.model().fallbacks == 0
            && self.model().addresses is None)
        &&& (self.model().phase == DnsPhase::QueryBare ==> self.model().fallbacks == 1
            && self.model().addresses is None)
    }

    /// A fresh attempt for `hostname`: the cache-busting query comes first.
    pub fn new(hostname: Vec<u8>) -> (r: DnsResolver)
        ensures
            r.wf(),
            r.hostname() == hostname@,
            r.model().phase == DnsPhase::QueryBusted,
            r.model().fallbacks == 0,
            r.model().addresses is None,
    {
        DnsResolver { hostname, phase: DnsPhase::QueryBusted, fallbacks: 0, addresses: None }
    }

    /// The name to query next: a fresh cache-busted name, the bare
    /// hostname, or nothing once settled.
    pub fn next_query(&self) -> (r: Option<Vec<u8>>)
        ensures
            self.model().phase == DnsPhase::Settled <==> r is None,
            self.model().phase == DnsPhase::QueryBare ==> (r matches Some(q) && q@
                == self.hostname()),
            self.model().phase == DnsPhase::QueryBusted ==> (r matches Some(q) && q@.len()
                == self.hostname().len() + 25 && q@.subrange(25, q@.len() as int)
                == self.hostname() && q@[24] == 46u8 && (forall|i: int|
                0 <= i < 24 ==> is_hex_lower(#[trigger] q@[i]))),
    {
        match self.phase {
            DnsPhase::QueryBusted => Some(cache_busting_name(&self.hostname)),
            DnsPhase::QueryBare => Some(crate::log::copy_bytes(&self.hostname)),
            DnsPhase::Settled => None,
        }
    }

    /// Take the records an answer brought and move the attempt forward.
    pub fn on_answer(&mut self, addrs: Vec<Ipv4>)
        requires
            old(self).wf(),
            old(self).model().phase != DnsPhase::Settled,
        ensures
            final(self).wf(),
            final(self).hostname() == old(self).hostname(),
            final(self).model() == spec_on_answer(old(self).model(), addrs@),
    {
        match self.phase {
            DnsPhase::QueryBusted => {
                if addrs.len() == 0 {
                    self.phase = DnsPhase::QueryBare;
                    self.fallbacks = self.fallbacks + 1;
                    self.addresses = None;
                } else {
                    self.phase = DnsPhase::Settled;
                    self.addresses = Some(addrs);
                }
            },
            DnsPhase::QueryBare => {
                self.phase = DnsPhase::Settled;
                if addrs.len() == 0 {
                    self.addresses = None;
                } else {
                    self.addresses = Some(addrs);
                }
            },
            DnsPhase::Settled => {},
        }
    }

    /// The settled outcome; `None` while unsettled or when resolution
    /// found nothing.
    pub fn settled_result(&self) -> (r: Option<Vec<Ipv4>>)
        ensures
            match r {
                Some(v) => self.model().addresses == Some(v@),
                None => self.model().addresses is None,
            },
    {
        match &self.addresses {
            Some(v) => Some(copy_addrs(v)),
            None => None,
        }
    }
}

/// Plain copy of an address list.
fn copy_addrs(src: &Vec<Ipv4>) -> (r: Vec<Ipv4>)
    ensures
        r@ == src@,
{
    let mut r: Vec<Ipv4> = Vec::new();
    let mut i: usize = 0;
    while i < src.len()
        invariant
            i <= src@.len(),
            r@ =~= src@.subrange(0, i as int),
        decreases src@.len() - i,
    {
        r.push(src[i]);
        i += 1;
    }
    assert(r@ =~= src@);
    r
}

/// An empty answer to the cache-busting query triggers exactly one
/// bare-hostname fallback: from a fresh attempt, a non-empty first answer
/// settles at once with no fallback, and an empty first answer leads to one
/// fallback query whose answer settles the attempt — never to a retry loop.
pub proof fn lemma_fallback_once(m0: DnsModel, a1: Seq<Ipv4>, a2: Seq<Ipv4>)
    requires
        m0.phase == DnsPhase::QueryBusted,
        m0.fallbacks == 0,
    ensures
        a1.len() > 0 ==> spec_on_answer(m0, a1).phase == DnsPhase::Settled && spec_on_answer(
            m0,
            a1,
        ).fallbacks == 0,
        a1.len() == 0 ==> spec_on_answer(m0, a1).phase == DnsPhase::QueryBare && spec_on_answer(
            spec_on_answer(m0, a1),
            a2,
        ).phase == DnsPhase::Settled && spec_on_answer(spec_on_answer(m0, a1), a2).fallbacks == 1,
{
}

} // verus!
