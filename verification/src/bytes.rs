//! Fixed-width integers and byte patterns inside a byte buffer.

use vstd::prelude::*;

verus! {

/// The unsigned 16-bit little-endian value stored at `at`.
pub open spec fn le_u16(s: Seq<u8>, at: int) -> int {
    s[at] as int + 0x100 * (s[at + 1] as int)
}

/// The unsigned 32-bit little-endian value stored at `at`.
pub open spec fn le_u32(s: Seq<u8>, at: int) -> int {
    le_u16(s, at) + 0x1_0000 * le_u16(s, at + 2)
}

/// The low 48 bits of the little-endian value stored at `at`: the record
/// number of a file reference.
pub open spec fn le_u48(s: Seq<u8>, at: int) -> int {
    le_u32(s, at) + 0x1_0000_0000 * le_u16(s, at + 4)
}

/// The unsigned 64-bit little-endian value stored at `at`.
pub open spec fn le_u64(s: Seq<u8>, at: int) -> int {
    le_u32(s, at) + 0x1_0000_0000 * le_u32(s, at + 4)
}

/// The signed 64-bit little-endian (two's complement) value stored at `at`.
pub open spec fn le_i64(s: Seq<u8>, at: int) -> int {
    if le_u64(s, at) >= 0x8000_0000_0000_0000 {
        le_u64(s, at) - 0x1_0000_0000_0000_0000
    } else {
        le_u64(s, at)
    }
}

/// The unsigned 32-bit big-endian value stored at `at`.
pub open spec fn be_u32(s: Seq<u8>, at: int) -> int {
    0x100_0000 * (s[at] as int) + 0x1_0000 * (s[at + 1] as int) + 0x100 * (s[at + 2] as int)
        + (s[at + 3] as int)
}

/// The unsigned 64-bit big-endian value stored at `at`.
pub open spec fn be_u64(s: Seq<u8>, at: int) -> int {
    0x1_0000_0000 * be_u32(s, at) + be_u32(s, at + 4)
}

/// `pat` occurs in `s` at offset `at`.
pub open spec fn matches_at(s: Seq<u8>, at: int, pat: Seq<u8>) -> bool {
    &&& 0 <= at
    &&& at + pat.len() <= s.len()
    &&& forall|k: int| 0 <= k < pat.len() ==> s[at + k] == pat[k]
}

/// `pat` occurs in `s` at some offset in `lo..hi`.
pub open spec fn occurs_in(s: Seq<u8>, pat: Seq<u8>, lo: int, hi: int) -> bool {
    exists|i: int| lo <= i < hi && #[trigger] matches_at(s, i, pat)
}

pub fn read_le_u16(data: &[u8], at: usize) -> (r: u16)
    requires
        at + 2 <= data.len(),
    ensures
        r as int == le_u16(data@, at as int),
{
    let lo: u16 = data[at] as u16;
    let hi: u16 = data[at + 1] as u16;
    lo + hi * 0x100
}

pub fn read_le_u32(data: &[u8], at: usize) -> (r: u32)
    requires
        at + 4 <= data.len(),
    ensures
        r as int == le_u32(data@, at as int),
{
    let lo: u32 = read_le_u16(data, at) as u32;
    let hi: u32 = read_le_u16(data, at + 2) as u32;
    lo + hi * 0x1_0000
}

pub fn read_le_u48(data: &[u8], at: usize) -> (r: u64)
    requires
        at + 6 <= data.len(),
    ensures
        r as int == le_u48(data@, at as int),
{
    let lo: u64 = read_le_u32(data, at) as u64;
    let hi: u64 = read_le_u16(data, at + 4) as u64;
    lo + hi * 0x1_0000_0000
}

pub fn read_le_u64(data: &[u8], at: usize) -> (r: u64)
    requires
        at + 8 <= data.len(),
    ensures
        r as int == le_u64(data@, at as int),
{
    let lo: u64 = read_le_u32(data, at) as u64;
    let hi: u64 = read_le_u32(data, at + 4) as u64;
    lo + hi * 0x1_0000_0000
}

pub fn read_le_i64(data: &[u8], at: usize) -> (r: i64)
    requires
        at + 8 <= data.len(),
    ensures
        r as int == le_i64(data@, at as int),
{
    let u: u64 = read_le_u64(data, at);
    if u >= 0x8000_0000_0000_0000 {
        let low: u64 = u - 0x8000_0000_0000_0000;
        (low as i64) + i64::MIN
    } else {
        u as i64
    }
}

pub fn read_be_u32(data: &[u8], at: usize) -> (r: u32)
    requires
        at + 4 <= data.len(),
    ensures
        r as int == be_u32(data@, at as int),
{
    let b0: u32 = data[at] as u32;
    let b1: u32 = data[at + 1] as u32;
    let b2: u32 = data[at + 2] as u32;
    let b3: u32 = data[at + 3] as u32;
    b0 * 0x100_0000 + b1 * 0x1_0000 + b2 * 0x100 + b3
}

pub fn read_be_u64(data: &[u8], at: usize) -> (r: u64)
    requires
        at + 8 <= data.len(),
    ensures
        r as int == be_u64(data@, at as int),
{
    let hi: u64 = read_be_u32(data, at) as u64;
    let lo: u64 = read_be_u32(data, at + 4) as u64;
    hi * 0x1_0000_0000 + lo
}

/// Tells whether `pat` occurs in `data` at offset `at`.
pub fn match_at(data: &[u8], at: usize, pat: &[u8]) -> (r: bool)
    ensures
        r == matches_at(data@, at as int, pat@),
{
    if pat.len() > data.len() || at > data.len() - pat.len() {
        return false;
    }
    let mut k: usize = 0;
    while k < pat.len()
        invariant
            k <= pat.len(),
            at + pat.len() <= data.len(),
            forall|j: int| 0 <= j < k ==> data@[at + j] == pat@[j],
        decreases pat.len() - k,
    {
        if data[at + k] != pat[k] {
            return false;
        }
        k += 1;
    }
    true
}

/// Tells whether `pat` occurs in `data` at an offset in `lo..hi`.
pub fn find_in(data: &[u8], pat: &[u8], lo: usize, hi: usize) -> (r: bool)
    ensures
        r == occurs_in(data@, pat@, lo as int, hi as int),
{
    let mut i: usize = lo;
    while i < hi
        invariant
            lo <= i,
            forall|j: int| lo <= j < i ==> !#[trigger] matches_at(data@, j, pat@),
        decreases hi - i,
    {
        if match_at(data, i, pat) {
            return true;
        }
        i += 1;
    }
    false
}

/// The lowest offset in `lo..hi` at which `pat` occurs in `s`.
pub open spec fn first_occurrence(s: Seq<u8>, pat: Seq<u8>, lo: int, hi: int) -> Option<int>
    decreases hi - lo,
{
    if lo >= hi {
        None
    } else if matches_at(s, lo, pat) {
        Some(lo)
    } else {
        first_occurrence(s, pat, lo + 1, hi)
    }
}

/// The highest offset in `lo..hi` at which `pat` occurs in `s`.
pub open spec fn last_occurrence(s: Seq<u8>, pat: Seq<u8>, lo: int, hi: int) -> Option<int>
    decreases hi - lo,
{
    if lo >= hi {
        None
    } else if matches_at(s, hi - 1, pat) {
        Some(hi - 1)
    } else {
        last_occurrence(s, pat, lo, hi - 1)
    }
}

/// The number of offsets in `lo..hi` at which `pat` occurs in `s`.
pub open spec fn count_occurrences(s: Seq<u8>, pat: Seq<u8>, lo: int, hi: int) -> nat
    decreases hi - lo,
{
    if lo >= hi {
        0
    } else if matches_at(s, hi - 1, pat) {
        1 + count_occurrences(s, pat, lo, hi - 1)
    } else {
        count_occurrences(s, pat, lo, hi - 1)
    }
}

pub proof fn lemma_first_occurrence(s: Seq<u8>, pat: Seq<u8>, lo: int, hi: int)
    ensures
        first_occurrence(s, pat, lo, hi) matches Some(i) ==> lo <= i < hi && matches_at(s, i, pat),
        first_occurrence(s, pat, lo, hi).is_some() <==> occurs_in(s, pat, lo, hi),
    decreases hi - lo,
{
    if lo < hi {
        lemma_first_occurrence(s, pat, lo + 1, hi);
        if !matches_at(s, lo, pat) {
            if occurs_in(s, pat, lo, hi) {
                let i = choose|i: int| lo <= i < hi && #[trigger] matches_at(s, i, pat);
                assert(lo + 1 <= i < hi && matches_at(s, i, pat));
            }
        }
    }
}

pub proof fn lemma_last_occurrence(s: Seq<u8>, pat: Seq<u8>, lo: int, hi: int)
    ensures
        last_occurrence(s, pat, lo, hi) matches Some(i) ==> lo <= i < hi && matches_at(s, i, pat),
        last_occurrence(s, pat, lo, hi).is_some() <==> occurs_in(s, pat, lo, hi),
    decreases hi - lo,
{
    if lo < hi {
        lemma_last_occurrence(s, pat, lo, hi - 1);
        if !matches_at(s, hi - 1, pat) {
            if occurs_in(s, pat, lo, hi) {
                let i = choose|i: int| lo <= i < hi && #[trigger] matches_at(s, i, pat);
                assert(lo <= i < hi - 1 && matches_at(s, i, pat));
            }
        }
    }
}

/// Finds the lowest offset in `lo..hi` at which `pat` occurs in `data`.
pub fn find_first(data: &[u8], pat: &[u8], lo: usize, hi: usize) -> (r: Option<usize>)
    ensures
        match r {
            Some(i) => first_occurrence(data@, pat@, lo as int, hi as int) == Some(i as int),
            None => first_occurrence(data@, pat@, lo as int, hi as int).is_none(),
        },
{
    let mut i: usize = lo;
    while i < hi
        invariant
            lo <= i,
            first_occurrence(data@, pat@, i as int, hi as int) == first_occurrence(
                data@,
                pat@,
                lo as int,
                hi as int,
            ),
        decreases hi - i,
    {
        if match_at(data, i, pat) {
            return Some(i);
        }
        i += 1;
    }
    None
}

/// Finds the highest offset in `lo..hi` at which `pat` occurs in `data`.
pub fn find_last(data: &[u8], pat: &[u8], lo: usize, hi: usize) -> (r: Option<usize>)
    ensures
        match r {
            Some(i) => last_occurrence(data@, pat@, lo as int, hi as int) == Some(i as int),
            None => last_occurrence(data@, pat@, lo as int, hi as int).is_none(),
        },
{
    let mut i: usize = hi;
    while i > lo
        invariant
            i <= hi,
            last_occurrence(data@, pat@, lo as int, i as int) == last_occurrence(
                data@,
                pat@,
                lo as int,
                hi as int,
            ),
        decreases i,
    {
        if match_at(data, i - 1, pat) {
            return Some(i - 1);
        }
        i -= 1;
    }
    None
}

/// Counts the offsets in `lo..hi` at which `pat` occurs in `data`.
pub fn count_matches(data: &[u8], pat: &[u8], lo: usize, hi: usize) -> (r: usize)
    ensures
        r == count_occurrences(data@, pat@, lo as int, hi as int),
{
    let mut n: usize = 0;
    let mut i: usize = lo;
    while i < hi
        invariant
            lo <= i <= hi || (i == lo && lo > hi),
            n <= i - lo,
            n == count_occurrences(data@, pat@, lo as int, i as int),
        decreases hi - i,
    {
        if match_at(data, i, pat) {
            n += 1;
        }
        i += 1;
    }
    n
}

/// `a` comes before `b` in the lexicographic order of bytes.
pub open spec fn bytes_less(a: Seq<u8>, b: Seq<u8>) -> bool
    decreases a.len(),
{
    if b.len() == 0 {
        false
    } else if a.len() == 0 {
        true
    } else if a[0] != b[0] {
        a[0] < b[0]
    } else {
        bytes_less(a.drop_first(), b.drop_first())
    }
}

/// Of two byte strings at most one comes before the other.
pub proof fn lemma_bytes_less_asymmetric(a: Seq<u8>, b: Seq<u8>)
    ensures
        !(bytes_less(a, b) && bytes_less(b, a)),
    decreases a.len(),
{
    if a.len() > 0 && b.len() > 0 && a[0] == b[0] {
        lemma_bytes_less_asymmetric(a.drop_first(), b.drop_first());
    }
}

/// Tells whether `a` comes before `b` in the lexicographic order of bytes.
pub fn is_bytes_less(a: &[u8], b: &[u8]) -> (r: bool)
    ensures
        r == bytes_less(a@, b@),
{
    let mut i: usize = 0;
    assert(a@.skip(0) =~= a@);
    assert(b@.skip(0) =~= b@);
    while i < a.len() && i < b.len()
        invariant
            i <= a.len(),
            i <= b.len(),
            bytes_less(a@.skip(i as int), b@.skip(i as int)) == bytes_less(a@, b@),
        decreases a.len() - i,
    {
        assert(a@.skip(i as int).drop_first() =~= a@.skip(i + 1));
        assert(b@.skip(i as int).drop_first() =~= b@.skip(i + 1));
        if a[i] != b[i] {
            return a[i] < b[i];
        }
        i += 1;
    }
    i < b.len()
}

/// The `n` low bytes of `v`, least significant first.
pub open spec fn le_bytes_of(v: nat, n: nat) -> Seq<u8>
    decreases n,
{
    if n == 0 {
        Seq::empty()
    } else {
        seq![(v % 256) as u8] + le_bytes_of(v / 256, (n - 1) as nat)
    }
}

/// The eight bytes of a signed number in two's complement, least
/// significant first.
pub open spec fn le_bytes_of_i64(v: i64) -> Seq<u8> {
    if v < 0 {
        le_bytes_of((v + 0x1_0000_0000_0000_0000) as nat, 8)
    } else {
        le_bytes_of(v as nat, 8)
    }
}

/// Appends the `n` low bytes of `v`, least significant first.
pub fn push_le(out: &mut Vec<u8>, v: u64, n: usize)
    ensures
        final(out)@ == old(out)@ + le_bytes_of(v as nat, n as nat),
{
    let mut rest: u64 = v;
    let mut k: usize = 0;
    let ghost start = out@;
    assert(out@ =~= start + Seq::<u8>::empty());
    while k < n
        invariant
            k <= n,
            out@ + le_bytes_of(rest as nat, (n - k) as nat) == start + le_bytes_of(
                v as nat,
                n as nat,
            ),
        decreases n - k,
    {
        let ghost before = out@;
        let ghost tail = le_bytes_of((rest / 256) as nat, (n - k - 1) as nat);
        out.push((rest % 256) as u8);
        assert((before + seq![(rest % 256) as u8]) + tail =~= before + (seq![(rest % 256) as u8]
            + tail));
        rest = rest / 256;
        k += 1;
    }
    assert(out@ + Seq::<u8>::empty() =~= out@);
}

/// Appends the eight bytes of a signed number, least significant first.
pub fn push_le_i64(out: &mut Vec<u8>, v: i64)
    ensures
        final(out)@ == old(out)@ + le_bytes_of_i64(v),
{
    let bits: u64 = if v < 0 {
        let below: u64 = (0 - (v + 1)) as u64;
        u64::MAX - below
    } else {
        v as u64
    };
    push_le(out, bits, 8);
}

/// A product, or the largest 64-bit number where it is larger.
pub open spec fn capped_mul(a: u64, b: u64) -> u64 {
    if a * b <= u64::MAX {
        (a * b) as u64
    } else {
        u64::MAX
    }
}

/// Multiplies two numbers; gives the largest 64-bit number where the
/// product is larger.
pub fn multiply_capped(a: u64, b: u64) -> (r: u64)
    ensures
        r == capped_mul(a, b),
{
    assert(a * b >= 0) by (nonlinear_arith)
        requires
            a >= 0,
            b >= 0,
    ;
    match a.checked_mul(b) {
        Some(p) => p,
        None => u64::MAX,
    }
}

} // verus!
