//! The update sequence array of a multi-sector record.
//!
//! NTFS overwrites the last two bytes of every 512-byte sector of a record
//! with a marker and saves the bytes that stood there in an array inside the
//! record. The first array slot holds the marker; slot `i` holds what
//! belongs at the end of sector `i`. Applying the array puts the saved bytes
//! back wherever the marker is found.

use vstd::prelude::*;

verus! {

/// The offset of the last two bytes of sector `i`, sectors counted from one.
pub open spec fn sector_tail(i: int) -> int {
    512 * i - 2
}

/// Slot `i` applied to `s`: where the tail of sector `i` lies inside `s` and
/// holds the marker, it receives the two bytes of the slot.
pub open spec fn fixup_slot(s: Seq<u8>, offset: int, marker: (u8, u8), i: int) -> Seq<u8> {
    let tail = sector_tail(i);
    if tail + 1 < s.len() && s[tail] == marker.0 && s[tail + 1] == marker.1 {
        s.update(tail, s[offset + 2 * i]).update(tail + 1, s[offset + 2 * i + 1])
    } else {
        s
    }
}

/// Slots `1..n` applied to `s` in order.
pub open spec fn fixup_slots(s: Seq<u8>, offset: int, marker: (u8, u8), n: int) -> Seq<u8>
    decreases n,
{
    if n <= 1 {
        s
    } else {
        fixup_slot(fixup_slots(s, offset, marker, n - 1), offset, marker, n - 1)
    }
}

/// The record after its update sequence array of `count` slots at `offset`
/// was applied. A record too short to hold the array is left as it is.
pub open spec fn fixed_up(s: Seq<u8>, offset: int, count: int) -> Seq<u8> {
    if offset + 2 + 2 * count > s.len() {
        s
    } else {
        fixup_slots(s, offset, (s[offset], s[offset + 1]), count)
    }
}

pub proof fn lemma_fixup_slots_len(s: Seq<u8>, offset: int, marker: (u8, u8), n: int)
    ensures
        fixup_slots(s, offset, marker, n).len() == s.len(),
    decreases n,
{
    if n > 1 {
        lemma_fixup_slots_len(s, offset, marker, n - 1);
    }
}

/// Applying the array keeps the length of the record.
pub proof fn lemma_fixed_up_len(s: Seq<u8>, offset: int, count: int)
    ensures
        fixed_up(s, offset, count).len() == s.len(),
{
    if offset + 2 + 2 * count <= s.len() {
        lemma_fixup_slots_len(s, offset, (s[offset], s[offset + 1]), count);
    }
}

/// Slots whose sector ends beyond the record change nothing.
pub proof fn lemma_fixup_slots_beyond(s: Seq<u8>, offset: int, marker: (u8, u8), m: int, n: int)
    requires
        1 <= m <= n,
        sector_tail(m) + 1 >= s.len(),
    ensures
        fixup_slots(s, offset, marker, n) == fixup_slots(s, offset, marker, m),
    decreases n,
{
    if n > m {
        lemma_fixup_slots_beyond(s, offset, marker, m, n - 1);
        lemma_fixup_slots_len(s, offset, marker, m);
    }
}

/// Applies the update sequence array of `count` slots at `offset`.
pub fn apply_fixup(data: &mut Vec<u8>, offset: usize, count: usize)
    ensures
        final(data)@ == fixed_up(old(data)@, offset as int, count as int),
{
    let len: usize = data.len();
    if len < 2 || count > (len - 2) / 2 || offset > len - 2 - 2 * count {
        return ;
    }
    let marker: (u8, u8) = (data[offset], data[offset + 1]);
    let mut i: usize = 1;
    while i < count && i <= len / 512
        invariant
            1 <= i,
            i <= count || i == 1,
            len == data@.len(),
            len == old(data)@.len(),
            offset + 2 + 2 * count <= len,
            data@ == fixup_slots(old(data)@, offset as int, marker, i as int),
        decreases count - i,
    {
        let tail: usize = i * 512 - 2;
        if tail + 1 < len && data[tail] == marker.0 && data[tail + 1] == marker.1 {
            let lo: u8 = data[offset + i * 2];
            let hi: u8 = data[offset + i * 2 + 1];
            data.set(tail, lo);
            data.set(tail + 1, hi);
        }
        i += 1;
    }
    proof {
        if i < count {
            lemma_fixup_slots_beyond(old(data)@, offset as int, marker, i as int, count as int);
        } else if count < 1 {
            assert(fixup_slots(old(data)@, offset as int, marker, count as int) == old(data)@);
        }
    }
}

/// The array lies inside one sector, in front of that sector's tail, so
/// that no slot and no marker is overwritten while the array is applied.
pub open spec fn array_clear_of_tails(s: Seq<u8>, offset: int, count: int) -> bool {
    &&& 0 <= offset
    &&& 0 <= count
    &&& offset % 512 + 2 + 2 * count <= 510
    &&& offset + 2 + 2 * count <= s.len()
}

/// Sector `i` is one whose tail the array repairs: it has a slot, its tail
/// lies inside the record and held the marker.
pub open spec fn repaired(s: Seq<u8>, offset: int, count: int, i: int) -> bool {
    &&& 1 <= i < count
    &&& sector_tail(i) + 1 < s.len()
    &&& s[sector_tail(i)] == s[offset]
    &&& s[sector_tail(i) + 1] == s[offset + 1]
}

/// What stands at position `p` once slots `1..n` were applied.
pub open spec fn byte_after_fixup(s: Seq<u8>, offset: int, n: int, p: int) -> u8 {
    let i = (p + 2) / 512;
    if p % 512 >= 510 && repaired(s, offset, n, i) {
        s[offset + 2 * i + (p - sector_tail(i))]
    } else {
        s[p]
    }
}

#[verifier::rlimit(40)]
proof fn lemma_fixup_slots_bytes(s: Seq<u8>, offset: int, count: int, n: int)
    requires
        array_clear_of_tails(s, offset, count),
        n <= count,
    ensures
        fixup_slots(s, offset, (s[offset], s[offset + 1]), n).len() == s.len(),
        forall|p: int|
            0 <= p < s.len() ==> #[trigger] fixup_slots(s, offset, (s[offset], s[offset + 1]), n)[p]
                == byte_after_fixup(s, offset, n, p),
    decreases n,
{
    let marker = (s[offset], s[offset + 1]);
    lemma_fixup_slots_len(s, offset, marker, n);
    if n > 1 {
        lemma_fixup_slots_bytes(s, offset, count, n - 1);
        lemma_array_byte_is_no_tail(offset, 2 * (n - 1));
        lemma_array_byte_is_no_tail(offset, 2 * (n - 1) + 1);
        let before = fixup_slots(s, offset, marker, n - 1);
        let after = fixup_slots(s, offset, marker, n);
        let tail = sector_tail(n - 1);
        assert(before[offset + 2 * (n - 1)] == s[offset + 2 * (n - 1)]);
        assert(before[offset + 2 * (n - 1) + 1] == s[offset + 2 * (n - 1) + 1]);
        if tail + 1 < s.len() {
            assert(before[tail] == s[tail]);
            assert(before[tail + 1] == s[tail + 1]);
        }
        assert forall|p: int| 0 <= p < s.len() implies #[trigger] after[p] == byte_after_fixup(
            s,
            offset,
            n,
            p,
        ) by {
            assert(before[p] == byte_after_fixup(s, offset, n - 1, p));
        }
    }
}

/// The byte at `p` after the array was applied.
pub proof fn lemma_fixed_up_byte(s: Seq<u8>, offset: int, count: int, p: int)
    requires
        array_clear_of_tails(s, offset, count),
        0 <= p < s.len(),
    ensures
        fixed_up(s, offset, count).len() == s.len(),
        fixed_up(s, offset, count)[p] == byte_after_fixup(s, offset, count, p),
{
    lemma_fixup_slots_bytes(s, offset, count, count);
}

/// After the array was applied, the tail of every repaired sector holds the
/// two bytes of its slot, and every other byte of the record is as before.
/// So the marker is gone from the tail of every repaired sector whose slot
/// does not itself hold the marker.
pub proof fn lemma_fixup_restores_tails(s: Seq<u8>, offset: int, count: int)
    requires
        array_clear_of_tails(s, offset, count),
    ensures
        fixed_up(s, offset, count).len() == s.len(),
        forall|i: int| #[trigger]
            repaired(s, offset, count, i) ==> fixed_up(s, offset, count)[sector_tail(i)] == s[offset
                + 2 * i] && fixed_up(s, offset, count)[sector_tail(i) + 1] == s[offset + 2 * i + 1],
        forall|p: int|
            0 <= p < s.len() && !(p % 512 >= 510 && repaired(s, offset, count, (p + 2) / 512))
                ==> #[trigger] fixed_up(s, offset, count)[p] == s[p],
        forall|i: int| #[trigger]
            repaired(s, offset, count, i) && !(s[offset + 2 * i] == s[offset] && s[offset + 2 * i
                + 1] == s[offset + 1]) ==> !(fixed_up(s, offset, count)[sector_tail(i)]
                == s[offset] && fixed_up(s, offset, count)[sector_tail(i) + 1] == s[offset + 1]),
{
    let r = fixed_up(s, offset, count);
    lemma_fixup_slots_len(s, offset, (s[offset], s[offset + 1]), count);
    assert forall|i: int| #[trigger] repaired(s, offset, count, i) implies r[sector_tail(i)]
        == s[offset + 2 * i] && r[sector_tail(i) + 1] == s[offset + 2 * i + 1] by {
        let p = sector_tail(i);
        lemma_fixed_up_byte(s, offset, count, p);
        lemma_fixed_up_byte(s, offset, count, p + 1);
    }
    assert forall|p: int|
        0 <= p < s.len() && !(p % 512 >= 510 && repaired(s, offset, count, (p + 2) / 512))
        implies #[trigger] r[p] == s[p] by {
        lemma_fixed_up_byte(s, offset, count, p);
    }
}

proof fn lemma_array_byte_is_no_tail(offset: int, j: int)
    requires
        0 <= offset,
        0 <= j,
        offset % 512 + j < 510,
    ensures
        (offset + j) % 512 == offset % 512 + j,
        (offset + j) % 512 < 510,
{
    vstd::arithmetic::div_mod::lemma_fundamental_div_mod(offset, 512);
    vstd::arithmetic::div_mod::lemma_fundamental_div_mod_converse(
        offset + j,
        512,
        offset / 512,
        offset % 512 + j,
    );
}

#[verifier::rlimit(40)]
proof fn lemma_fixup_twice_byte(s: Seq<u8>, offset: int, count: int, p: int)
    requires
        array_clear_of_tails(s, offset, count),
        0 <= p < s.len(),
    ensures
        array_clear_of_tails(fixed_up(s, offset, count), offset, count),
        fixed_up(fixed_up(s, offset, count), offset, count).len() == s.len(),
        fixed_up(fixed_up(s, offset, count), offset, count)[p] == fixed_up(s, offset, count)[p],
{
    let r = fixed_up(s, offset, count);
    lemma_array_byte_is_no_tail(offset, 0);
    lemma_array_byte_is_no_tail(offset, 1);
    lemma_fixed_up_byte(s, offset, count, p);
    lemma_fixed_up_byte(s, offset, count, offset);
    lemma_fixed_up_byte(s, offset, count, offset + 1);
    assert(r[offset] == s[offset] && r[offset + 1] == s[offset + 1]);
    lemma_fixed_up_byte(r, offset, count, p);
    let i = (p + 2) / 512;
    if p % 512 >= 510 && 1 <= i < count {
        let t = sector_tail(i);
        assert((t + 2) / 512 == i && t % 512 == 510 && (t + 3) / 512 == i && (t + 1) % 512 == 511);
        assert(p == t || p == t + 1);
        lemma_array_byte_is_no_tail(offset, 2 * i);
        lemma_array_byte_is_no_tail(offset, 2 * i + 1);
        lemma_fixed_up_byte(s, offset, count, offset + 2 * i);
        lemma_fixed_up_byte(s, offset, count, offset + 2 * i + 1);
        if t + 1 < s.len() {
            lemma_fixed_up_byte(s, offset, count, t);
            lemma_fixed_up_byte(s, offset, count, t + 1);
        }
    }
}

/// Applying the array a second time changes nothing.
pub proof fn lemma_fixup_idempotent(s: Seq<u8>, offset: int, count: int)
    requires
        array_clear_of_tails(s, offset, count),
    ensures
        fixed_up(fixed_up(s, offset, count), offset, count) == fixed_up(s, offset, count),
{
    let r = fixed_up(s, offset, count);
    let rr = fixed_up(r, offset, count);
    lemma_fixup_slots_len(s, offset, (s[offset], s[offset + 1]), count);
    lemma_fixup_slots_len(r, offset, (r[offset], r[offset + 1]), count);
    assert forall|p: int| 0 <= p < s.len() implies rr[p] == r[p] by {
        lemma_fixup_twice_byte(s, offset, count, p);
    }
    assert(rr =~= r);
}

} // verus!
