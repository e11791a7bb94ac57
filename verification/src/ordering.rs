//! The order in which offers are shown, and the cap on their number.

use std::cmp::Ordering;
use vstd::prelude::*;
use vstd::string::*;
use crate::bytes::{bytes_less, is_bytes_less, lemma_bytes_less_asymmetric};
use crate::filesystem_recovery_engine::{
    extract_mft_record, get_path_priority, path_priority, record_of_id, RecoverableFileFS,
    RecoverableFileFSView,
};
use crate::recovery_engine::RecoverableFile;
use crate::text::{lowercase, text_eq};

verus! {

/// The orders in which offers are put.
#[derive(Clone, Copy, Debug, PartialEq, Eq, Structural)]
pub enum SortOrder {
    /// By rank of the path, the folders of a user first; among equals the
    /// higher record number first.
    QuickScan,
    /// By time of modification, the latest first.
    DeepScan,
    /// By chance of recovery, the best first.
    Chance,
}

/// The most deleted files that a scan offers.
pub const MAX_DELETED: usize = 100_000;

/// The most files that a scan offers.
pub const MAX_TOTAL: usize = 200_000;

/// The record number by which offers of equal rank are ordered.
pub open spec fn order_record(f: RecoverableFileFSView) -> u64 {
    match record_of_id(f.id) {
        Some(n) => n,
        None => 0,
    }
}

/// The text of a time names one: it is not the word for a time that is not
/// known.
pub open spec fn has_time(modified: Seq<char>) -> bool {
    modified != "Unknown"@
}

/// `a` comes strictly before `b` in `order`: in a quick scan by the folder
/// and then the later record, in a deep scan by the later time of
/// modification, an offer whose time is not known behind every other, and
/// by chance the better one.
pub open spec fn precedes(order: SortOrder, a: RecoverableFileFSView, b: RecoverableFileFSView) -> bool {
    match order {
        SortOrder::QuickScan => {
            let rank_a = path_priority(lowercase(a.path));
            let rank_b = path_priority(lowercase(b.path));
            rank_a < rank_b || (rank_a == rank_b && order_record(a) > order_record(b))
        },
        SortOrder::DeepScan => has_time(a.modified) && (!has_time(b.modified) || bytes_less(
            vstd::utf8::encode_utf8(b.modified),
            vstd::utf8::encode_utf8(a.modified),
        )),
        SortOrder::Chance => a.recovery_chance > b.recovery_chance,
    }
}

/// `x` put into a list that is in order, behind every entry that it does
/// not come strictly before.
pub open spec fn placed<T>(before: spec_fn(T, T) -> bool, list: Seq<T>, x: T) -> Seq<T>
    decreases list.len(),
{
    if list.len() > 0 && before(x, list.last()) {
        placed(before, list.drop_last(), x).push(list.last())
    } else {
        list.push(x)
    }
}

/// The list put in order, entries that are equal in the order staying as
/// they stood.
pub open spec fn stably_sorted<T>(before: spec_fn(T, T) -> bool, list: Seq<T>) -> Seq<T>
    decreases list.len(),
{
    if list.len() == 0 {
        list
    } else {
        placed(before, stably_sorted(before, list.drop_last()), list.last())
    }
}

/// The order `order` on offers.
pub open spec fn file_order(order: SortOrder) -> spec_fn(RecoverableFileFS, RecoverableFileFS) -> bool {
    |a: RecoverableFileFS, b: RecoverableFileFS| precedes(order, a@, b@)
}

/// The order of chances on the offers of a raw scan: the better chance
/// first.
pub open spec fn better_chance() -> spec_fn(RecoverableFile, RecoverableFile) -> bool {
    |a: RecoverableFile, b: RecoverableFile| a.recovery_chance > b.recovery_chance
}

pub proof fn lemma_placed_len<T>(before: spec_fn(T, T) -> bool, list: Seq<T>, x: T)
    ensures
        placed(before, list, x).len() == list.len() + 1,
    decreases list.len(),
{
    if list.len() > 0 && before(x, list.last()) {
        lemma_placed_len(before, list.drop_last(), x);
    }
}

/// Putting a list in order keeps its length.
pub proof fn lemma_sorted_len<T>(before: spec_fn(T, T) -> bool, list: Seq<T>)
    ensures
        stably_sorted(before, list).len() == list.len(),
    decreases list.len(),
{
    if list.len() > 0 {
        lemma_sorted_len(before, list.drop_last());
        lemma_placed_len(before, stably_sorted(before, list.drop_last()), list.last());
    }
}

/// How two offers stand to each other in the order of a quick scan.
pub fn quick_scan_order(a: &RecoverableFileFS, b: &RecoverableFileFS) -> (r: Ordering)
    ensures
        (r == Ordering::Less) == precedes(SortOrder::QuickScan, a@, b@),
        (r == Ordering::Greater) == precedes(SortOrder::QuickScan, b@, a@),
{
    let rank_a: u32 = get_path_priority(a.path.as_str());
    let rank_b: u32 = get_path_priority(b.path.as_str());
    if rank_a < rank_b {
        Ordering::Less
    } else if rank_a > rank_b {
        Ordering::Greater
    } else {
        let record_a: u64 = extract_mft_record(a.id.as_str());
        let record_b: u64 = extract_mft_record(b.id.as_str());
        if record_a > record_b {
            Ordering::Less
        } else if record_a < record_b {
            Ordering::Greater
        } else {
            Ordering::Equal
        }
    }
}

/// How two offers stand to each other in the order of a deep scan.
pub fn deep_scan_order(a: &RecoverableFileFS, b: &RecoverableFileFS) -> (r: Ordering)
    ensures
        (r == Ordering::Less) == precedes(SortOrder::DeepScan, a@, b@),
        (r == Ordering::Greater) == precedes(SortOrder::DeepScan, b@, a@),
{
    let known_a: bool = !text_eq(a.modified.as_str(), "Unknown");
    let known_b: bool = !text_eq(b.modified.as_str(), "Unknown");
    if !known_a || !known_b {
        return if known_a {
            Ordering::Less
        } else if known_b {
            Ordering::Greater
        } else {
            Ordering::Equal
        };
    }
    let time_a = a.modified.as_str().as_bytes();
    let time_b = b.modified.as_str().as_bytes();
    proof {
        lemma_bytes_less_asymmetric(time_a@, time_b@);
    }
    if is_bytes_less(time_b, time_a) {
        Ordering::Less
    } else if is_bytes_less(time_a, time_b) {
        Ordering::Greater
    } else {
        Ordering::Equal
    }
}

/// How two offers stand to each other in the order of chances.
pub fn chance_order(a: &RecoverableFileFS, b: &RecoverableFileFS) -> (r: Ordering)
    ensures
        (r == Ordering::Less) == precedes(SortOrder::Chance, a@, b@),
        (r == Ordering::Greater) == precedes(SortOrder::Chance, b@, a@),
{
    if a.recovery_chance > b.recovery_chance {
        Ordering::Less
    } else if a.recovery_chance < b.recovery_chance {
        Ordering::Greater
    } else {
        Ordering::Equal
    }
}

/// How two offers stand to each other in `order`.
pub fn order_of(order: SortOrder, a: &RecoverableFileFS, b: &RecoverableFileFS) -> (r: Ordering)
    ensures
        (r == Ordering::Less) == precedes(order, a@, b@),
        (r == Ordering::Greater) == precedes(order, b@, a@),
{
    match order {
        SortOrder::QuickScan => quick_scan_order(a, b),
        SortOrder::DeepScan => deep_scan_order(a, b),
        SortOrder::Chance => chance_order(a, b),
    }
}

/// `slice::sort_by` of the standard library, with `order_of` to compare.
/// Nothing is proved of it: the result is taken to be the list in order,
/// entries that are equal in the order staying as they stood.
#[verifier::external_body]
pub(crate) fn sort_files(files: &mut Vec<RecoverableFileFS>, order: SortOrder)
    ensures
        final(files)@ == stably_sorted(file_order(order), old(files)@),
{
    files.sort_by(|a, b| order_of(order, a, b));
}

/// How two offers of a raw scan stand to each other in the order of
/// chances.
pub fn raw_chance_order(a: &RecoverableFile, b: &RecoverableFile) -> (r: Ordering)
    ensures
        (r == Ordering::Less) == better_chance()(*a, *b),
        (r == Ordering::Greater) == better_chance()(*b, *a),
{
    if a.recovery_chance > b.recovery_chance {
        Ordering::Less
    } else if a.recovery_chance < b.recovery_chance {
        Ordering::Greater
    } else {
        Ordering::Equal
    }
}

/// `slice::sort_by` of the standard library, with `raw_chance_order` to
/// compare. Nothing is proved of it: the result is taken to be the list with
/// the better chances first, entries of equal chance staying as they stood.
#[verifier::external_body]
pub(crate) fn sort_by_chance(files: &mut Vec<RecoverableFile>)
    ensures
        final(files)@ == stably_sorted(better_chance(), old(files)@),
{
    files.sort_by(|a, b| raw_chance_order(a, b));
}

/// Puts the offers of a scan in the order of its mode: that of a quick
/// scan where `quick` holds, else that of a deep scan.
pub fn sort_for_mode(files: &mut Vec<RecoverableFileFS>, quick: bool)
    ensures
        final(files)@ == stably_sorted(
            file_order(
                if quick {
                    SortOrder::QuickScan
                } else {
                    SortOrder::DeepScan
                },
            ),
            old(files)@,
        ),
{
    if quick {
        sort_files(files, SortOrder::QuickScan);
    } else {
        sort_files(files, SortOrder::DeepScan);
    }
}

/// The entries of a list that are deleted, or those that are not, in the
/// order of the list.
pub open spec fn with_deleted(list: Seq<RecoverableFileFS>, deleted: bool) -> Seq<RecoverableFileFS>
    decreases list.len(),
{
    if list.len() == 0 {
        list
    } else if list.last().is_deleted == deleted {
        with_deleted(list.drop_last(), deleted).push(list.last())
    } else {
        with_deleted(list.drop_last(), deleted)
    }
}

/// The first `n` entries of a list, or all of it where it has fewer.
pub open spec fn first_n(list: Seq<RecoverableFileFS>, n: int) -> Seq<RecoverableFileFS> {
    if list.len() <= n {
        list
    } else if n <= 0 {
        Seq::empty()
    } else {
        list.take(n)
    }
}

/// The deleted entries that the cap keeps: all of them in their order, or,
/// where there are more than `max_deleted`, those with the best chances.
pub open spec fn kept_deleted(list: Seq<RecoverableFileFS>, max_deleted: int) -> Seq<
    RecoverableFileFS,
> {
    let deleted = with_deleted(list, true);
    if deleted.len() > max_deleted {
        first_n(stably_sorted(file_order(SortOrder::Chance), deleted), max_deleted)
    } else {
        deleted
    }
}

/// The entries that are not deleted and that the cap keeps: the first ones
/// in their order, as many as fit beside the deleted ones.
pub open spec fn kept_active(list: Seq<RecoverableFileFS>, max_deleted: int, max_total: int) -> Seq<
    RecoverableFileFS,
> {
    first_n(with_deleted(list, false), max_total - kept_deleted(list, max_deleted).len())
}

/// The list under the cap: as it is where it has no more than `max_total`
/// entries and no more than `max_deleted` deleted ones, else the deleted
/// entries that are kept and then the others that are kept.
pub open spec fn capped(list: Seq<RecoverableFileFS>, max_deleted: int, max_total: int) -> Seq<
    RecoverableFileFS,
> {
    if list.len() <= max_total && with_deleted(list, true).len() <= max_deleted {
        list
    } else {
        kept_deleted(list, max_deleted) + kept_active(list, max_deleted, max_total)
    }
}

/// The cap holds: no more than `max_total` entries are kept; of the deleted
/// entries as many as there are, up to `max_deleted`; and the entries that
/// are kept stand as they stood, unless the deleted ones had to be chosen
/// by chance.
pub proof fn lemma_cap_obeys_budget(list: Seq<RecoverableFileFS>, max_deleted: int, max_total: int)
    requires
        0 <= max_deleted <= max_total,
    ensures
        capped(list, max_deleted, max_total).len() <= max_total,
        capped(list, max_deleted, max_total).len() <= list.len(),
        kept_deleted(list, max_deleted).len() == if with_deleted(list, true).len() <= max_deleted {
            with_deleted(list, true).len() as int
        } else {
            max_deleted
        },
        with_deleted(list, true).len() <= max_deleted ==> kept_deleted(list, max_deleted)
            == with_deleted(list, true),
        kept_active(list, max_deleted, max_total) == with_deleted(list, false).take(
            kept_active(list, max_deleted, max_total).len() as int,
        ),
{
    let deleted = with_deleted(list, true);
    let active = with_deleted(list, false);
    lemma_sorted_len(file_order(SortOrder::Chance), deleted);
    lemma_partition_len(list);
    let kept = kept_active(list, max_deleted, max_total);
    assert(kept =~= active.take(kept.len() as int));
}

/// The entries of a list with the chance `chance`, in the order of the
/// list.
pub open spec fn with_chance(list: Seq<RecoverableFileFS>, chance: u8) -> Seq<RecoverableFileFS>
    decreases list.len(),
{
    if list.len() == 0 {
        list
    } else if list.last().recovery_chance == chance {
        with_chance(list.drop_last(), chance).push(list.last())
    } else {
        with_chance(list.drop_last(), chance)
    }
}

/// The chances of a list fall: no entry has a better chance than one in
/// front of it.
pub open spec fn chances_fall(list: Seq<RecoverableFileFS>) -> bool {
    forall|i: int, j: int|
        0 <= i < j < list.len() ==> (#[trigger] list[i]).recovery_chance >= (
        #[trigger] list[j]).recovery_chance
}

proof fn lemma_placed_by_chance(list: Seq<RecoverableFileFS>, x: RecoverableFileFS, chance: u8)
    requires
        chances_fall(list),
    ensures
        chances_fall(placed(file_order(SortOrder::Chance), list, x)),
        placed(file_order(SortOrder::Chance), list, x).len() == list.len() + 1,
        placed(file_order(SortOrder::Chance), list, x).to_multiset() == list.to_multiset().insert(
            x,
        ),
        with_chance(placed(file_order(SortOrder::Chance), list, x), chance) == if x.recovery_chance
            == chance {
            with_chance(list, chance).push(x)
        } else {
            with_chance(list, chance)
        },
        forall|k: int|
            0 <= k < list.len() + 1 ==> #[trigger] placed(file_order(SortOrder::Chance), list, x)[k]
                == x || list.contains(placed(file_order(SortOrder::Chance), list, x)[k]),
    decreases list.len(),
{
    let before = file_order(SortOrder::Chance);
    let out = placed(before, list, x);
    if list.len() > 0 && before(x, list.last()) {
        let front = list.drop_last();
        let last = list.last();
        assert(x.recovery_chance > last.recovery_chance);
        assert(chances_fall(front)) by {
            assert forall|i: int, j: int| 0 <= i < j < front.len() implies (#[trigger] front[i]).recovery_chance
                >= (#[trigger] front[j]).recovery_chance by {
                assert(front[i] == list[i] && front[j] == list[j]);
            }
        }
        lemma_placed_by_chance(front, x, chance);
        let inner = placed(before, front, x);
        assert(out == inner.push(last));
        assert(list =~= front.push(last));
        vstd::seq_lib::to_multiset_build(inner, last);
        vstd::seq_lib::to_multiset_build(front, last);
        assert(out.to_multiset() =~= list.to_multiset().insert(x));
        assert(out.drop_last() =~= inner);
        assert forall|i: int, j: int| 0 <= i < j < out.len() implies (#[trigger] out[i]).recovery_chance
            >= (#[trigger] out[j]).recovery_chance by {
            if j < inner.len() {
                assert(out[i] == inner[i] && out[j] == inner[j]);
            } else {
                assert(out[j] == last);
                assert(out[i] == inner[i]);
                if inner[i] != x {
                    assert(front.contains(inner[i]));
                    let m = choose|m: int| 0 <= m < front.len() && front[m] == inner[i];
                    assert(list[m] == front[m]);
                    assert(list[m].recovery_chance >= list[list.len() - 1].recovery_chance);
                }
            }
        }
        assert forall|k: int| 0 <= k < list.len() + 1 implies #[trigger] out[k] == x
            || list.contains(out[k]) by {
            if k < inner.len() {
                assert(out[k] == inner[k]);
                if inner[k] != x {
                    let m = choose|m: int| 0 <= m < front.len() && front[m] == inner[k];
                    assert(list[m] == front[m]);
                }
            } else {
                assert(out[k] == last);
                assert(list[list.len() - 1] == last);
            }
        }
    } else {
        assert(out == list.push(x));
        assert(out.drop_last() =~= list);
        vstd::seq_lib::to_multiset_build(list, x);
        assert forall|i: int, j: int| 0 <= i < j < out.len() implies (#[trigger] out[i]).recovery_chance
            >= (#[trigger] out[j]).recovery_chance by {
            if j < list.len() {
                assert(out[i] == list[i] && out[j] == list[j]);
            } else {
                assert(out[j] == x);
                assert(out[i] == list[i]);
                if i < list.len() - 1 {
                    assert(list[i].recovery_chance >= list[list.len() - 1].recovery_chance);
                }
            }
        }
        assert forall|k: int| 0 <= k < list.len() + 1 implies #[trigger] out[k] == x
            || list.contains(out[k]) by {
            if k < list.len() {
                assert(out[k] == list[k]);
            }
        }
    }
}

proof fn lemma_sorted_by_chance(list: Seq<RecoverableFileFS>, chance: u8)
    ensures
        chances_fall(stably_sorted(file_order(SortOrder::Chance), list)),
        stably_sorted(file_order(SortOrder::Chance), list).len() == list.len(),
        stably_sorted(file_order(SortOrder::Chance), list).to_multiset() == list.to_multiset(),
        with_chance(stably_sorted(file_order(SortOrder::Chance), list), chance) == with_chance(
            list,
            chance,
        ),
    decreases list.len(),
{
    if list.len() > 0 {
        vstd::seq_lib::to_multiset_build(list.drop_last(), list.last());
        lemma_sorted_by_chance(list.drop_last(), chance);
        lemma_placed_by_chance(
            stably_sorted(file_order(SortOrder::Chance), list.drop_last()),
            list.last(),
            chance,
        );
        assert(list =~= list.drop_last().push(list.last()));
    }
}

/// Where more deleted entries are found than the cap allows, those with
/// the best chances are chosen: the chosen ones stand with the better
/// chance first, no entry that is dropped has a better chance than one
/// that is chosen, every deleted entry is either chosen or dropped, and
/// entries of the same chance keep the order in which they stood.
pub proof fn lemma_deleted_are_chosen_by_chance(
    list: Seq<RecoverableFileFS>,
    max_deleted: int,
    chance: u8,
)
    requires
        0 <= max_deleted < with_deleted(list, true).len(),
    ensures
        ({
            let deleted = with_deleted(list, true);
            let ranked = stably_sorted(file_order(SortOrder::Chance), deleted);
            let chosen = kept_deleted(list, max_deleted);
            let dropped = ranked.skip(max_deleted);
            &&& chosen == ranked.take(max_deleted)
            &&& chosen + dropped == ranked
            &&& ranked.to_multiset() == deleted.to_multiset()
            &&& chances_fall(chosen)
            &&& forall|i: int, j: int|
                0 <= i < chosen.len() && 0 <= j < dropped.len() ==> (#[trigger] chosen[i]).recovery_chance
                    >= (#[trigger] dropped[j]).recovery_chance
            &&& with_chance(ranked, chance) == with_chance(deleted, chance)
        }),
{
    let deleted = with_deleted(list, true);
    let ranked = stably_sorted(file_order(SortOrder::Chance), deleted);
    lemma_sorted_by_chance(deleted, chance);
    let chosen = kept_deleted(list, max_deleted);
    let dropped = ranked.skip(max_deleted);
    if max_deleted == 0 {
        assert(chosen =~= ranked.take(0));
    }
    assert(chosen == ranked.take(max_deleted));
    assert(chosen + dropped =~= ranked);
    assert forall|i: int, j: int| 0 <= i < j < chosen.len() implies (#[trigger] chosen[i]).recovery_chance
        >= (#[trigger] chosen[j]).recovery_chance by {
        assert(chosen[i] == ranked[i] && chosen[j] == ranked[j]);
    }
    assert forall|i: int, j: int| 0 <= i < chosen.len() && 0 <= j < dropped.len() implies (
    #[trigger] chosen[i]).recovery_chance >= (#[trigger] dropped[j]).recovery_chance by {
        assert(chosen[i] == ranked[i]);
        assert(dropped[j] == ranked[max_deleted + j]);
    }
}

proof fn lemma_with_deleted_sound(list: Seq<RecoverableFileFS>, deleted: bool)
    ensures
        forall|k: int|
            0 <= k < with_deleted(list, deleted).len() ==> (#[trigger] with_deleted(
                list,
                deleted,
            )[k]).is_deleted == deleted,
        with_deleted(list, deleted).len() <= list.len(),
    decreases list.len(),
{
    if list.len() > 0 {
        lemma_with_deleted_sound(list.drop_last(), deleted);
    }
}

proof fn lemma_with_deleted_of_alike(list: Seq<RecoverableFileFS>, deleted: bool)
    requires
        forall|k: int| 0 <= k < list.len() ==> (#[trigger] list[k]).is_deleted == deleted,
    ensures
        with_deleted(list, deleted) == list,
        with_deleted(list, !deleted).len() == 0,
    decreases list.len(),
{
    if list.len() > 0 {
        let front = list.drop_last();
        assert forall|k: int| 0 <= k < front.len() implies (#[trigger] front[k]).is_deleted
            == deleted by {
            assert(front[k] == list[k]);
        }
        lemma_with_deleted_of_alike(front, deleted);
        assert(list.last() == list[list.len() - 1]);
        assert(list =~= front.push(list.last()));
    }
}

proof fn lemma_with_deleted_joined(a: Seq<RecoverableFileFS>, b: Seq<RecoverableFileFS>, deleted: bool)
    ensures
        with_deleted(a + b, deleted) == with_deleted(a, deleted) + with_deleted(b, deleted),
    decreases b.len(),
{
    if b.len() == 0 {
        assert(a + b =~= a);
        assert(with_deleted(a, deleted) + with_deleted(b, deleted) =~= with_deleted(a, deleted));
    } else {
        lemma_with_deleted_joined(a, b.drop_last(), deleted);
        assert((a + b).drop_last() =~= a + b.drop_last());
        assert((a + b).last() == b.last());
        if b.last().is_deleted == deleted {
            assert(with_deleted(a, deleted) + with_deleted(b.drop_last(), deleted).push(b.last())
                =~= (with_deleted(a, deleted) + with_deleted(b.drop_last(), deleted)).push(
                b.last(),
            ));
        }
    }
}

/// Under the cap no more than `max_deleted` deleted entries are left,
/// however many entries there were.
pub proof fn lemma_cap_limits_deleted(list: Seq<RecoverableFileFS>, max_deleted: int, max_total: int)
    requires
        0 <= max_deleted,
    ensures
        with_deleted(capped(list, max_deleted, max_total), true).len() <= max_deleted,
{
    let deleted = with_deleted(list, true);
    let active = with_deleted(list, false);
    if !(list.len() <= max_total && deleted.len() <= max_deleted) {
        let chosen = kept_deleted(list, max_deleted);
        let others = kept_active(list, max_deleted, max_total);
        lemma_with_deleted_sound(list, true);
        lemma_with_deleted_sound(list, false);
        lemma_sorted_len(file_order(SortOrder::Chance), deleted);
        assert forall|k: int| 0 <= k < chosen.len() implies (#[trigger] chosen[k]).is_deleted by {
            if deleted.len() > max_deleted {
                let ranked = stably_sorted(file_order(SortOrder::Chance), deleted);
                lemma_sorted_by_chance(deleted, 0);
                assert(chosen[k] == ranked[k]);
                ranked.to_multiset_ensures();
                deleted.to_multiset_ensures();
                assert(ranked.contains(ranked[k]));
                assert(ranked.to_multiset().count(ranked[k]) > 0);
                assert(deleted.to_multiset().count(ranked[k]) > 0);
                assert(deleted.contains(ranked[k]));
            }
        }
        assert forall|k: int| 0 <= k < others.len() implies !(#[trigger] others[k]).is_deleted by {
            assert(others[k] == active[k]);
        }
        lemma_with_deleted_of_alike(chosen, true);
        lemma_with_deleted_of_alike(others, false);
        lemma_with_deleted_joined(chosen, others, true);
        assert(with_deleted(chosen + others, true) =~= chosen);
    }
}

/// Every entry is deleted or not.
pub proof fn lemma_partition_len(list: Seq<RecoverableFileFS>)
    ensures
        with_deleted(list, true).len() + with_deleted(list, false).len() == list.len(),
    decreases list.len(),
{
    if list.len() > 0 {
        lemma_partition_len(list.drop_last());
    }
}

/// Counts the deleted entries of a list.
pub fn count_deleted(entries: &Vec<RecoverableFileFS>) -> (r: usize)
    ensures
        r == with_deleted(entries@, true).len(),
{
    let mut count: usize = 0;
    let mut i: usize = 0;
    assert(entries@.take(0) =~= Seq::<RecoverableFileFS>::empty());
    while i < entries.len()
        invariant
            i <= entries.len(),
            count <= i,
            count == with_deleted(entries@.take(i as int), true).len(),
        decreases entries.len() - i,
    {
        assert(entries@.take(i + 1).drop_last() =~= entries@.take(i as int));
        assert(entries@.take(i + 1).last() == entries@[i as int]);
        if entries[i].is_deleted {
            count += 1;
        }
        i += 1;
    }
    assert(entries@.take(entries@.len() as int) =~= entries@);
    count
}

/// Puts a list of offers under a cap of `max_total` entries, of which no
/// more than `max_deleted` are deleted ones; these are preferred.
pub fn cap_entries(entries: Vec<RecoverableFileFS>, max_deleted: usize, max_total: usize) -> (r: Vec<
    RecoverableFileFS,
>)
    ensures
        r@ == capped(entries@, max_deleted as int, max_total as int),
{
    if entries.len() <= max_total && count_deleted(&entries) <= max_deleted {
        return entries;
    }
    let ghost all = entries@;
    let mut deleted: Vec<RecoverableFileFS> = Vec::new();
    let mut active: Vec<RecoverableFileFS> = Vec::new();
    assert(all.take(0) =~= Seq::<RecoverableFileFS>::empty());
    for file in it: entries
        invariant
            it.seq() == all,
            deleted@ == with_deleted(all.take(it.index() as int), true),
            active@ == with_deleted(all.take(it.index() as int), false),
    {
        assert(all.take(it.index() + 1).drop_last() =~= all.take(it.index() as int));
        assert(all.take(it.index() + 1).last() == file);
        if file.is_deleted {
            deleted.push(file);
        } else {
            active.push(file);
        }
    }
    assert(all.take(all.len() as int) =~= all);
    if deleted.len() > max_deleted {
        sort_files(&mut deleted, SortOrder::Chance);
        proof {
            lemma_sorted_len(file_order(SortOrder::Chance), with_deleted(all, true));
        }
        deleted.truncate(max_deleted);
    }
    let budget: usize = if max_total >= deleted.len() {
        max_total - deleted.len()
    } else {
        0
    };
    if active.len() > budget {
        active.truncate(budget);
    }
    deleted.append(&mut active);
    assert(deleted@ =~= capped(all, max_deleted as int, max_total as int));
    deleted
}

/// Puts the offers of a scan under the cap: `MAX_TOTAL` entries, of which
/// the deleted ones are preferred up to `MAX_DELETED`.
pub fn cap_output(entries: Vec<RecoverableFileFS>) -> (r: Vec<RecoverableFileFS>)
    ensures
        r@ == capped(entries@, MAX_DELETED as int, MAX_TOTAL as int),
        r@.len() <= MAX_TOTAL,
        with_deleted(r@, true).len() <= MAX_DELETED,
{
    proof {
        lemma_cap_obeys_budget(entries@, MAX_DELETED as int, MAX_TOTAL as int);
        lemma_cap_limits_deleted(entries@, MAX_DELETED as int, MAX_TOTAL as int);
    }
    cap_entries(entries, MAX_DELETED, MAX_TOTAL)
}

} // verus!
