//! NTFS data runs: the packed list that maps a file's clusters onto the
//! volume.
//!
//! Each entry starts with a header byte. Its low nibble gives the width in
//! bytes of the cluster count, its high nibble the width of the signed
//! cluster delta; both follow little-endian. A header byte of zero ends the
//! list.

use vstd::prelude::*;
use crate::bytes::le_bytes_of;

verus! {

/// One extent of a file: `cluster_count` clusters starting at the absolute
/// cluster `cluster_offset`. An offset of zero or below marks a sparse run.
#[derive(Clone, Copy, Debug, PartialEq, Eq, Structural)]
pub struct DataRun {
    pub cluster_offset: i64,
    pub cluster_count: u64,
}

/// A run as it is stored: the count and the delta to the previous run.
pub ghost struct RawRun {
    pub count: int,
    pub delta: int,
}

/// A run together with the field widths chosen to store it.
pub ghost struct RunEncoding {
    pub count: int,
    pub delta: int,
    pub count_width: int,
    pub delta_width: int,
}

pub open spec fn pow256(n: nat) -> nat
    decreases n,
{
    if n == 0 {
        1
    } else {
        256 * pow256((n - 1) as nat)
    }
}

/// The unsigned little-endian value of all of `s`.
pub open spec fn le_uint(s: Seq<u8>) -> nat
    decreases s.len(),
{
    if s.len() == 0 {
        0
    } else {
        s[0] as nat + 256 * le_uint(s.drop_first())
    }
}

/// The two's complement little-endian value of all of `s`; zero when `s` is
/// empty.
pub open spec fn le_sint(s: Seq<u8>) -> int {
    if s.len() > 0 && s.last() >= 0x80 {
        le_uint(s) - pow256(s.len())
    } else {
        le_uint(s) as int
    }
}

pub proof fn lemma_pow256_values()
    ensures
        pow256(0) == 1,
        pow256(1) == 0x100,
        pow256(2) == 0x1_0000,
        pow256(3) == 0x100_0000,
        pow256(4) == 0x1_0000_0000,
        pow256(5) == 0x100_0000_0000,
        pow256(6) == 0x1_0000_0000_0000,
        pow256(7) == 0x100_0000_0000_0000,
        pow256(8) == 0x1_0000_0000_0000_0000,
{
    reveal_with_fuel(pow256, 10);
}

pub proof fn lemma_pow256_monotonic(a: nat, b: nat)
    requires
        a <= b,
    ensures
        0 < pow256(a) <= pow256(b),
    decreases b,
{
    if b == 0 {
    } else if a == b {
        lemma_pow256_monotonic((a - 1) as nat, (b - 1) as nat);
    } else {
        lemma_pow256_monotonic(a, (b - 1) as nat);
    }
}

pub proof fn lemma_le_uint_bound(s: Seq<u8>)
    ensures
        le_uint(s) < pow256(s.len()),
    decreases s.len(),
{
    if s.len() > 0 {
        lemma_le_uint_bound(s.drop_first());
    }
}

/// The last byte carries the highest weight.
pub proof fn lemma_le_uint_split_last(s: Seq<u8>)
    requires
        s.len() > 0,
    ensures
        le_uint(s) == le_uint(s.drop_last()) + (s.last() as nat) * pow256((s.len() - 1) as nat),
    decreases s.len(),
{
    if s.len() > 1 {
        let t = s.drop_first();
        lemma_le_uint_split_last(t);
        assert(t.drop_last() =~= s.drop_last().drop_first());
        assert(t.last() == s.last());
        assert(s.drop_last()[0] == s[0]);
        let p = pow256((t.len() - 1) as nat);
        let top = s.last() as nat;
        let d = s.drop_last();
        assert(pow256((s.len() - 1) as nat) == 256 * p);
        assert(le_uint(t) == le_uint(t.drop_last()) + top * p);
        assert(le_uint(s) == s[0] as nat + 256 * le_uint(t));
        assert(le_uint(d) == d[0] as nat + 256 * le_uint(d.drop_first()));
        assert(256 * (le_uint(t.drop_last()) + top * p) == 256 * le_uint(t.drop_last()) + top * (256 * p))
            by (nonlinear_arith);
        assert(d.drop_first() =~= t.drop_last());
        assert(d[0] == s[0]);
        assert(le_uint(s) == le_uint(d) + top * (256 * p));
    } else {
        let d = s.drop_last();
        assert(s.drop_first().len() == 0);
        assert(d.len() == 0);
        assert(le_uint(s) == s[0] as nat + 256 * le_uint(s.drop_first()));
        assert(pow256(0) == 1);
        assert(le_uint(s.drop_first()) == 0);
        assert(le_uint(d) == 0);
        assert(s.last() == s[0]);
        assert((s.last() as nat) * 1 == s.last() as nat);
    }
}

fn pow256_of(n: usize) -> (p: u64)
    requires
        n <= 7,
    ensures
        p == pow256(n as nat),
{
    proof {
        lemma_pow256_values();
    }
    if n == 0 {
        1
    } else if n == 1 {
        0x100
    } else if n == 2 {
        0x1_0000
    } else if n == 3 {
        0x100_0000
    } else if n == 4 {
        0x1_0000_0000
    } else if n == 5 {
        0x100_0000_0000
    } else if n == 6 {
        0x1_0000_0000_0000
    } else {
        0x100_0000_0000_0000
    }
}

/// Reads the `n` bytes at `at` as an unsigned little-endian number.
pub fn read_uint(data: &[u8], at: usize, n: usize) -> (v: u64)
    requires
        n <= 8,
        at + n <= data.len(),
    ensures
        v == le_uint(data@.subrange(at as int, at + n)),
{
    let mut v: u64 = 0;
    let mut k: usize = n;
    while k > 0
        invariant
            k <= n <= 8,
            at + n <= data.len(),
            v == le_uint(data@.subrange(at + k, at + n)),
        decreases k,
    {
        proof {
            let cur = data@.subrange(at + k, at + n);
            let next = data@.subrange(at + k - 1, at + n);
            assert(next.drop_first() =~= cur);
            lemma_le_uint_bound(cur);
            lemma_pow256_monotonic(cur.len(), 7);
            lemma_pow256_values();
        }
        k -= 1;
        v = v * 256 + data[at + k] as u64;
    }
    v
}

/// Reads the `n` bytes at `at` as a two's complement little-endian number.
pub fn read_sint(data: &[u8], at: usize, n: usize) -> (v: i64)
    requires
        n <= 8,
        at + n <= data.len(),
    ensures
        v == le_sint(data@.subrange(at as int, at + n)),
{
    let u: u64 = read_uint(data, at, n);
    let ghost s = data@.subrange(at as int, at + n);
    proof {
        lemma_pow256_values();
        lemma_le_uint_bound(s);
        if n > 0 {
            lemma_le_uint_split_last(s);
            lemma_le_uint_bound(s.drop_last());
            let p = pow256((n - 1) as nat);
            let top = s.last() as nat;
            assert(pow256(n as nat) == 256 * p);
            if top >= 0x80 {
                assert(top * p >= 0x80 * p) by (nonlinear_arith)
                    requires
                        top >= 0x80,
                        p >= 0,
                ;
            } else {
                assert(top * p <= 0x7f * p) by (nonlinear_arith)
                    requires
                        top <= 0x7f,
                        p >= 0,
                ;
            }
            lemma_pow256_monotonic((n - 1) as nat, 7);
        }
    }
    if n == 0 || data[at + n - 1] < 0x80 {
        u as i64
    } else if n == 8 {
        let low: u64 = u - 0x8000_0000_0000_0000;
        (low as i64) + i64::MIN
    } else {
        let p: u64 = pow256_of(n);
        (u as i64) - (p as i64)
    }
}

/// The count width that a header byte announces.
pub open spec fn count_width(header: u8) -> int {
    header as int % 16
}

/// The delta width that a header byte announces.
pub open spec fn delta_width(header: u8) -> int {
    header as int / 16
}

/// A list entry starts at the front of `data`: its header is not the
/// terminator, neither width is above eight bytes, and both fields lie
/// inside `data`.
pub open spec fn entry_present(data: Seq<u8>) -> bool {
    &&& data.len() > 0
    &&& data[0] != 0
    &&& count_width(data[0]) <= 8
    &&& delta_width(data[0]) <= 8
    &&& 1 + count_width(data[0]) + delta_width(data[0]) <= data.len()
}

/// The number of bytes that the entry at the front of `data` takes.
pub open spec fn entry_len(data: Seq<u8>) -> int {
    1 + count_width(data[0]) + delta_width(data[0])
}

/// The entry at the front of `data`.
pub open spec fn first_entry(data: Seq<u8>) -> RawRun {
    let l = count_width(data[0]);
    let o = delta_width(data[0]);
    RawRun { count: le_uint(data.subrange(1, 1 + l)) as int, delta: le_sint(data.subrange(1 + l, 1 + l + o)) }
}

/// The entries stored in `data`, up to the terminator, the end of the buffer
/// or the first entry that `entry_present` refuses.
pub open spec fn decode_runs(data: Seq<u8>) -> Seq<RawRun>
    decreases data.len(),
{
    if entry_present(data) {
        seq![first_entry(data)] + decode_runs(data.skip(entry_len(data)))
    } else {
        Seq::empty()
    }
}

/// Turns deltas into absolute clusters, starting from `prev`. A delta of
/// zero gives a sparse run, reported at cluster zero, and leaves the running
/// position alone. The list ends before a run whose absolute cluster would
/// not fit in 64 bits.
pub open spec fn place_runs(raw: Seq<RawRun>, prev: int) -> Seq<DataRun>
    decreases raw.len(),
{
    if raw.len() == 0 {
        Seq::empty()
    } else if raw[0].delta == 0 {
        seq![DataRun { cluster_offset: 0, cluster_count: raw[0].count as u64 }] + place_runs(
            raw.drop_first(),
            prev,
        )
    } else if i64::MIN <= prev + raw[0].delta <= i64::MAX {
        seq![
            DataRun {
                cluster_offset: (prev + raw[0].delta) as i64,
                cluster_count: raw[0].count as u64,
            },
        ] + place_runs(raw.drop_first(), prev + raw[0].delta)
    } else {
        Seq::empty()
    }
}

/// The runs that a data-run list describes.
pub open spec fn runs_of(data: Seq<u8>) -> Seq<DataRun> {
    place_runs(decode_runs(data), 0)
}

/// Decodes a data-run list.
pub fn parse_data_runs(data: &[u8]) -> (runs: Vec<DataRun>)
    ensures
        runs@ == runs_of(data@),
{
    let mut runs: Vec<DataRun> = Vec::new();
    let mut offset: usize = 0;
    let mut prev: i64 = 0;
    assert(data@.skip(0) =~= data@);
    while offset < data.len()
        invariant
            offset <= data.len(),
            runs@ + place_runs(decode_runs(data@.skip(offset as int)), prev as int) == runs_of(data@),
        decreases data.len() - offset,
    {
        let ghost rest = data@.skip(offset as int);
        let header: u8 = data[offset];
        let length_size: usize = (header % 16) as usize;
        let offset_size: usize = (header / 16) as usize;
        if header == 0 || length_size > 8 || offset_size > 8 || 1 + length_size + offset_size
            > data.len() - offset {
            assert(!entry_present(rest));
            assert(runs@ + Seq::<DataRun>::empty() =~= runs@);
            return runs;
        }
        assert(entry_present(rest));
        let cluster_count: u64 = read_uint(data, offset + 1, length_size);
        let delta: i64 = read_sint(data, offset + 1 + length_size, offset_size);
        let next: usize = offset + 1 + length_size + offset_size;
        proof {
            assert(rest.subrange(1, 1 + length_size) =~= data@.subrange(
                offset + 1,
                offset + 1 + length_size,
            ));
            assert(rest.subrange(1 + length_size, 1 + length_size + offset_size) =~= data@.subrange(
                offset + 1 + length_size,
                offset + 1 + length_size + offset_size,
            ));
            assert(rest.skip(entry_len(rest)) =~= data@.skip(next as int));
            let raw = decode_runs(rest);
            assert(raw[0] == first_entry(rest));
            assert(raw.drop_first() =~= decode_runs(data@.skip(next as int)));
            assert(raw[0].count == cluster_count);
            assert(raw[0].delta == delta);
        }
        let ghost before = runs@;
        if delta == 0 {
            runs.push(DataRun { cluster_offset: 0, cluster_count });
        } else {
            match prev.checked_add(delta) {
                Some(absolute) => {
                    runs.push(DataRun { cluster_offset: absolute, cluster_count });
                    prev = absolute;
                },
                None => {
                    assert(runs@ + Seq::<DataRun>::empty() =~= runs@);
                    return runs;
                },
            }
        }
        proof {
            assert(before + (seq![runs@.last()] + place_runs(
                decode_runs(data@.skip(next as int)),
                prev as int,
            )) =~= runs@ + place_runs(decode_runs(data@.skip(next as int)), prev as int));
        }
        offset = next;
    }
    assert(!entry_present(data@.skip(offset as int)));
    assert(runs@ + Seq::<DataRun>::empty() =~= runs@);
    runs
}

/// The widths fit the values: neither is above eight bytes, the header byte
/// they give is not the terminator, the count fits its width unsigned and
/// the delta fits its width in two's complement.
pub open spec fn valid_encoding(r: RunEncoding) -> bool {
    &&& 0 <= r.count_width <= 8
    &&& 0 <= r.delta_width <= 8
    &&& r.count_width + r.delta_width > 0
    &&& 0 <= r.count < pow256(r.count_width as nat)
    &&& -(pow256(r.delta_width as nat) as int) <= 2 * r.delta < pow256(r.delta_width as nat)
}

/// The stored form of one run: header, count, delta.
pub open spec fn encode_run(r: RunEncoding) -> Seq<u8> {
    let stored_delta = if r.delta < 0 {
        r.delta + pow256(r.delta_width as nat)
    } else {
        r.delta
    };
    seq![(16 * r.delta_width + r.count_width) as u8] + le_bytes_of(
        r.count as nat,
        r.count_width as nat,
    ) + le_bytes_of(stored_delta as nat, r.delta_width as nat)
}

/// The stored form of a list of runs, without the terminator.
pub open spec fn encode_runs(rs: Seq<RunEncoding>) -> Seq<u8>
    decreases rs.len(),
{
    if rs.len() == 0 {
        Seq::empty()
    } else {
        encode_run(rs[0]) + encode_runs(rs.drop_first())
    }
}

/// The runs of `rs` without their widths.
pub open spec fn raw_runs(rs: Seq<RunEncoding>) -> Seq<RawRun> {
    Seq::new(rs.len(), |i: int| RawRun { count: rs[i].count, delta: rs[i].delta })
}

pub proof fn lemma_le_bytes_len(v: nat, n: nat)
    ensures
        le_bytes_of(v, n).len() == n,
    decreases n,
{
    if n > 0 {
        lemma_le_bytes_len(v / 256, (n - 1) as nat);
    }
}

/// Writing a number that fits and reading it back gives the number.
pub proof fn lemma_le_uint_of_le_bytes(v: nat, n: nat)
    requires
        v < pow256(n),
    ensures
        le_uint(le_bytes_of(v, n)) == v,
    decreases n,
{
    lemma_le_bytes_len(v, n);
    if n > 0 {
        let rest = le_bytes_of(v / 256, (n - 1) as nat);
        lemma_le_uint_of_le_bytes(v / 256, (n - 1) as nat);
        assert(le_bytes_of(v, n).drop_first() =~= rest);
        assert(le_bytes_of(v, n)[0] == (v % 256) as u8);
    }
}

/// The last of the `n` bytes of `v` is `v` divided by the weight of that
/// byte.
pub proof fn lemma_le_bytes_last(v: nat, n: nat)
    requires
        n > 0,
        v < pow256(n),
    ensures
        le_bytes_of(v, n).len() == n,
        le_bytes_of(v, n).last() as nat * pow256((n - 1) as nat) <= v,
        v < (le_bytes_of(v, n).last() as nat + 1) * pow256((n - 1) as nat),
{
    let s = le_bytes_of(v, n);
    lemma_le_bytes_len(v, n);
    lemma_le_uint_of_le_bytes(v, n);
    lemma_le_uint_split_last(s);
    lemma_le_uint_bound(s.drop_last());
    let top = s.last() as nat;
    let p = pow256((n - 1) as nat);
    assert((top + 1) * p == top * p + p) by (nonlinear_arith);
}

/// Decoding the stored form of one run, whatever follows it, gives the run
/// and then what the rest decodes to.
pub proof fn lemma_decode_encoded_run(r: RunEncoding, rest: Seq<u8>)
    requires
        valid_encoding(r),
    ensures
        decode_runs(encode_run(r) + rest) == seq![RawRun { count: r.count, delta: r.delta }]
            + decode_runs(rest),
{
    let l = r.count_width;
    let o = r.delta_width;
    let pl = pow256(l as nat);
    let po = pow256(o as nat);
    let stored = (if r.delta < 0 {
        r.delta + po
    } else {
        r.delta
    }) as nat;
    let cb = le_bytes_of(r.count as nat, l as nat);
    let db = le_bytes_of(stored, o as nat);
    let e = encode_run(r);
    let data = e + rest;
    lemma_le_bytes_len(r.count as nat, l as nat);
    lemma_le_bytes_len(stored, o as nat);
    lemma_pow256_monotonic(0, o as nat);
    assert(e.len() == 1 + l + o);
    assert(data[0] == (16 * o + l) as u8);
    assert(count_width(data[0]) == l);
    assert(delta_width(data[0]) == o);
    assert(entry_present(data));
    assert(data.subrange(1, 1 + l) =~= cb);
    assert(data.subrange(1 + l, 1 + l + o) =~= db);
    assert(data.skip(entry_len(data)) =~= rest);
    lemma_le_uint_of_le_bytes(r.count as nat, l as nat);
    lemma_le_uint_of_le_bytes(stored, o as nat);
    if o > 0 {
        lemma_le_bytes_last(stored, o as nat);
        let top = db.last() as nat;
        let p = pow256((o - 1) as nat);
        assert(po == 256 * p);
        if r.delta < 0 {
            assert(top >= 0x80) by (nonlinear_arith)
                requires
                    stored < (top + 1) * p,
                    2 * stored >= 256 * p,
                    p > 0,
            ;
        } else {
            assert(top < 0x80) by (nonlinear_arith)
                requires
                    top * p <= stored,
                    2 * stored < 256 * p,
                    p > 0,
            ;
        }
    } else {
        reveal_with_fuel(pow256, 2);
    }
    assert(first_entry(data) == RawRun { count: r.count, delta: r.delta });
}

/// Encoding a list of runs with valid widths and decoding the bytes gives
/// the list back, when the bytes end there or a terminator follows.
pub proof fn lemma_data_run_round_trip(rs: Seq<RunEncoding>, rest: Seq<u8>)
    requires
        forall|i: int| 0 <= i < rs.len() ==> valid_encoding(#[trigger] rs[i]),
        rest.len() == 0 || rest[0] == 0,
    ensures
        decode_runs(encode_runs(rs) + rest) == raw_runs(rs),
    decreases rs.len(),
{
    if rs.len() == 0 {
        assert(encode_runs(rs) + rest =~= rest);
        assert(!entry_present(rest));
        assert(raw_runs(rs) =~= Seq::<RawRun>::empty());
    } else {
        let tail = rs.drop_first();
        lemma_data_run_round_trip(tail, rest);
        lemma_decode_encoded_run(rs[0], encode_runs(tail) + rest);
        assert(encode_runs(rs) + rest =~= encode_run(rs[0]) + (encode_runs(tail) + rest));
        assert(raw_runs(rs) =~= seq![RawRun { count: rs[0].count, delta: rs[0].delta }] + raw_runs(
            tail,
        ));
    }
}

/// The runs that the bytes of an encoded list describe are the runs that
/// were encoded, placed from cluster zero on.
pub proof fn lemma_runs_of_encoded(rs: Seq<RunEncoding>, rest: Seq<u8>)
    requires
        forall|i: int| 0 <= i < rs.len() ==> valid_encoding(#[trigger] rs[i]),
        rest.len() == 0 || rest[0] == 0,
    ensures
        runs_of(encode_runs(rs) + rest) == place_runs(raw_runs(rs), 0),
{
    lemma_data_run_round_trip(rs, rest);
}

} // verus!
