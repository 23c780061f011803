//! Byte-string primitives shared by the parsing and formatting code:
//! substring search, subrange extraction, concatenation, and decimal
//! rendering of unsigned numbers.

use vstd::prelude::*;

verus! {

/// The pattern `pat` occurs in `s` starting at position `i`.
pub open spec fn occurs_at(s: Seq<u8>, pat: Seq<u8>, i: int) -> bool {
    &&& 0 <= i
    &&& i + pat.len() <= s.len()
    &&& forall|j: int| 0 <= j < pat.len() ==> s[i + j] == pat[j]
}

/// Position of the first occurrence of `pat` in `s` at or after `from`.
pub open spec fn find_from(s: Seq<u8>, pat: Seq<u8>, from: int) -> Option<int>
    decreases s.len() - from,
{
    if from < 0 || from + pat.len() > s.len() {
        None
    } else if occurs_at(s, pat, from) {
        Some(from)
    } else {
        find_from(s, pat, from + 1)
    }
}

/// Position of the first occurrence of `pat` in `s`.
pub open spec fn find_sub(s: Seq<u8>, pat: Seq<u8>) -> Option<int> {
    find_from(s, pat, 0)
}

/// `pat` occurs somewhere in `s`.
pub open spec fn contains_sub(s: Seq<u8>, pat: Seq<u8>) -> bool {
    find_sub(s, pat) is Some
}

/// `s` ends with `pat`.
pub open spec fn ends_with(s: Seq<u8>, pat: Seq<u8>) -> bool {
    pat.len() <= s.len() && occurs_at(s, pat, s.len() - pat.len())
}

/// Decimal digits of `n`, most significant first, as ASCII bytes.
pub open spec fn dec_digits(n: nat) -> Seq<u8>
    decreases n,
{
    if n < 10 {
        seq![(48 + n) as u8]
    } else {
        dec_digits(n / 10).push((48 + n % 10) as u8)
    }
}

/// A successful search finds an occurrence at or after the start position.
pub proof fn lemma_find_from_bounds(s: Seq<u8>, pat: Seq<u8>, from: int, i: int)
    requires
        find_from(s, pat, from) == Some(i),
    ensures
        from <= i,
        0 <= i,
        i + pat.len() <= s.len(),
        occurs_at(s, pat, i),
    decreases s.len() - from,
{
    if from < 0 || from + pat.len() > s.len() {
    } else if occurs_at(s, pat, from) {
    } else {
        lemma_find_from_bounds(s, pat, from + 1, i);
    }
}

/// A successful search from the start finds an occurrence in bounds.
pub proof fn lemma_find_in_bounds(s: Seq<u8>, pat: Seq<u8>, i: int)
    requires
        find_sub(s, pat) == Some(i),
    ensures
        0 <= i,
        i + pat.len() <= s.len(),
        occurs_at(s, pat, i),
{
    lemma_find_from_bounds(s, pat, 0, i);
}

/// Whether `pat` matches `s` exactly at position `i`.
pub fn match_at(s: &Vec<u8>, pat: &Vec<u8>, i: usize) -> (r: bool)
    requires
        i + pat@.len() <= s@.len(),
    ensures
        r == occurs_at(s@, pat@, i as int),
{
    let slen = s.len();
    let mut j: usize = 0;
    while j < pat.len()
        invariant
            i + pat@.len() <= s@.len(),
            s@.len() == slen,
            j <= pat@.len(),
            forall|k: int| 0 <= k < j ==> s@[i + k] == pat@[k],
        decreases pat@.len() - j,
    {
        if s[i + j] != pat[j] {
            return false;
        }
        j += 1;
    }
    true
}

/// First occurrence of `pat` in `s` at or after `from`, if any.
pub fn find_sub_from(s: &Vec<u8>, pat: &Vec<u8>, from: usize) -> (r: Option<usize>)
    ensures
        match r {
            Some(i) => find_from(s@, pat@, from as int) == Some(i as int),
            None => find_from(s@, pat@, from as int) is None,
        },
{
    if pat.len() > s.len() || from > s.len() - pat.len() {
        assert(find_from(s@, pat@, from as int) is None);
        return None;
    }
    if pat.len() == 0 {
        assert(occurs_at(s@, pat@, from as int));
        return Some(from);
    }
    let mut i: usize = from;
    let slen = s.len();
    let bound: usize = slen - pat.len();
    while i <= bound
        invariant
            from <= i,
            1 <= pat@.len(),
            s@.len() == slen,
            pat@.len() + bound == s@.len(),
            i <= bound + 1,
            find_from(s@, pat@, from as int) == find_from(s@, pat@, i as int),
        decreases bound + 1 - i,
    {
        if match_at(s, pat, i) {
            assert(find_from(s@, pat@, i as int) == Some(i as int));
            return Some(i);
        }
        assert(find_from(s@, pat@, i as int) == find_from(s@, pat@, i + 1));
        i += 1;
    }
    assert(find_from(s@, pat@, i as int) is None);
    None
}

/// First occurrence of `pat` in `s`, if any.
pub fn find_in(s: &Vec<u8>, pat: &Vec<u8>) -> (r: Option<usize>)
    ensures
        match r {
            Some(i) => find_sub(s@, pat@) == Some(i as int),
            None => find_sub(s@, pat@) is None,
        },
{
    find_sub_from(s, pat, 0)
}

/// Whether `pat` occurs somewhere in `s`.
pub fn contains_in(s: &Vec<u8>, pat: &Vec<u8>) -> (r: bool)
    ensures
        r == contains_sub(s@, pat@),
{
    find_sub_from(s, pat, 0).is_some()
}

/// Whether `s` ends with `pat`.
pub fn ends_with_in(s: &Vec<u8>, pat: &Vec<u8>) -> (r: bool)
    ensures
        r == ends_with(s@, pat@),
{
    if pat.len() > s.len() {
        return false;
    }
    match_at(s, pat, s.len() - pat.len())
}

/// Copy of `s[i..j]`.
pub fn sub_vec(s: &Vec<u8>, i: usize, j: usize) -> (r: Vec<u8>)
    requires
        i <= j <= s@.len(),
    ensures
        r@ == s@.subrange(i as int, j as int),
{
    let mut r: Vec<u8> = Vec::new();
    let mut k: usize = i;
    while k < j
        invariant
            i <= k <= j <= s@.len(),
            r@ =~= s@.subrange(i as int, k as int),
        decreases j - k,
    {
        r.push(s[k]);
        k += 1;
    }
    assert(r@ =~= s@.subrange(i as int, j as int));
    r
}

/// Append all of `src` to `dst`.
pub fn push_all(dst: &mut Vec<u8>, src: &Vec<u8>)
    ensures
        final(dst)@ == old(dst)@ + src@,
{
    dst.extend_from_slice(src.as_slice());
    assert(dst@ =~= old(dst)@ + src@);
}

/// Decimal rendering of a 32-bit number, most significant digit first.
pub fn u32_dec(n: u32) -> (r: Vec<u8>)
    ensures
        r@ == dec_digits(n as nat),
    decreases n,
{
    if n < 10 {
        let mut v: Vec<u8> = Vec::new();
        v.push(48 + n as u8);
        assert(v@ =~= dec_digits(n as nat));
        v
    } else {
        let mut v = u32_dec(n / 10);
        v.push(48 + (n % 10) as u8);
        assert(v@ =~= dec_digits(n as nat));
        v
    }
}

} // verus!
