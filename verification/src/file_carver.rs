//! The signature carver: finds files in raw volume bytes by their headers,
//! rates each find and estimates its size.

use std::collections::HashMap;
use vstd::prelude::*;
use vstd::string::*;
use crate::bytes::{
    be_u32, be_u64, find_first, find_last, first_occurrence, last_occurrence, le_u16, le_u32,
    match_at, matches_at, read_be_u32, read_be_u64, read_le_u16, read_le_u32,
};
use crate::signature_catalogue::{catalogue, get_signatures, GIB, KIB, MIB};
use crate::text::{
    chars_contain, chars_of, chars_start_with, contains_text, from_utf8_lossy, has_prefix, text_eq,
    utf8_lossy,
};

verus! {

broadcast use vstd::std_specs::hash::group_hash_axioms;

/// A known file format: how its files begin and, for some, end.
#[derive(Clone, Copy, Debug)]
pub struct FileSignature {
    pub name: &'static str,
    pub extension: &'static str,
    pub header: &'static [u8],
    pub footer: Option<&'static [u8]>,
    /// The largest size that is plausible for a file of this format.
    pub max_size: u64,
    pub category: &'static str,
}

/// A place in a buffer where a file seems to begin.
#[derive(Clone, Debug)]
pub struct CarvedFile {
    /// The sector of the volume at which the buffer starts.
    pub sector_offset: u64,
    /// The offset of the file inside the buffer.
    pub byte_offset: u64,
    pub estimated_size: u64,
    pub file_type: String,
    pub extension: String,
    pub category: String,
    /// How sure the find is, from 0 to 100.
    pub confidence: u8,
    /// The first bytes of the file, up to sixteen, in hexadecimal.
    pub header_match: String,
}

pub ghost struct CarvedFileView {
    pub sector_offset: u64,
    pub byte_offset: u64,
    pub estimated_size: u64,
    pub file_type: Seq<char>,
    pub extension: Seq<char>,
    pub category: Seq<char>,
    pub confidence: u8,
    pub header_match: Seq<char>,
}

impl View for CarvedFile {
    type V = CarvedFileView;

    open spec fn view(&self) -> CarvedFileView {
        CarvedFileView {
            sector_offset: self.sector_offset,
            byte_offset: self.byte_offset,
            estimated_size: self.estimated_size,
            file_type: self.file_type@,
            extension: self.extension@,
            category: self.category@,
            confidence: self.confidence,
            header_match: self.header_match@,
        }
    }
}

/// The byte of the volume at which a find begins.
pub open spec fn absolute_offset(file: CarvedFileView) -> int {
    file.sector_offset * 512 + file.byte_offset
}

/// The confidence of a bare header match.
pub const BASE_CONFIDENCE: u8 = 70;

/// The confidence below which a match is dropped.
pub const MIN_CONFIDENCE: u8 = 75;

/// The size below which a find is dropped.
pub const MIN_PLAUSIBLE_SIZE: u64 = 1024;

/// The largest atom that is taken for real.
pub const MAX_ATOM_SIZE: u64 = 50 * GIB;

// ---------------------------------------------------------------------
// The lookup index
// ---------------------------------------------------------------------

/// The key under which a header is indexed: its first two bytes, read
/// little-endian.
pub open spec fn prefix_key(header: Seq<u8>) -> u16 {
    le_u16(header, 0) as u16
}

/// The key under which the two bytes at `at` are looked up.
pub open spec fn lookup_key(data: Seq<u8>, at: int) -> u16 {
    le_u16(data, at) as u16
}

/// The records of `sigs` that are indexed under `key`, in catalogue order:
/// those whose header has at least two bytes and begins with the key.
pub open spec fn sharing_prefix(sigs: Seq<FileSignature>, key: u16) -> Seq<FileSignature>
    decreases sigs.len(),
{
    if sigs.len() == 0 {
        Seq::empty()
    } else {
        let before = sharing_prefix(sigs.drop_last(), key);
        if sigs.last().header@.len() >= 2 && prefix_key(sigs.last().header@) == key {
            before.push(sigs.last())
        } else {
            before
        }
    }
}

/// A map is the lookup index of `sigs`: it holds a key exactly when a
/// record is indexed under it, and then all such records in catalogue
/// order.
pub open spec fn is_index_of(index: Map<u16, Vec<FileSignature>>, sigs: Seq<FileSignature>) -> bool {
    forall|key: u16|
        {
            &&& index.contains_key(key) <==> (#[trigger] sharing_prefix(sigs, key)).len() > 0
            &&& index.contains_key(key) ==> index[key]@ == sharing_prefix(sigs, key)
        }
}

/// Every record with a header of two bytes or more is among the records
/// indexed under its own key.
pub proof fn lemma_indexed_under_own_key(sigs: Seq<FileSignature>, i: int)
    requires
        0 <= i < sigs.len(),
        sigs[i].header@.len() >= 2,
    ensures
        sharing_prefix(sigs, prefix_key(sigs[i].header@)).contains(sigs[i]),
    decreases sigs.len(),
{
    let key = prefix_key(sigs[i].header@);
    let before = sharing_prefix(sigs.drop_last(), key);
    if i == sigs.len() - 1 {
        assert(before.push(sigs.last()).last() == sigs[i]);
    } else {
        lemma_indexed_under_own_key(sigs.drop_last(), i);
        let k = choose|k: int| 0 <= k < before.len() && before[k] == sigs[i];
        if sigs.last().header@.len() >= 2 && prefix_key(sigs.last().header@) == key {
            assert(before.push(sigs.last())[k] == sigs[i]);
        }
    }
}

/// Looking up the key of any record with a header of two bytes or more, in
/// the index of its catalogue, gives a list that holds the record.
pub proof fn lemma_index_consistent(
    index: Map<u16, Vec<FileSignature>>,
    sigs: Seq<FileSignature>,
    i: int,
)
    requires
        is_index_of(index, sigs),
        0 <= i < sigs.len(),
        sigs[i].header@.len() >= 2,
    ensures
        index.contains_key(prefix_key(sigs[i].header@)),
        index[prefix_key(sigs[i].header@)]@.contains(sigs[i]),
{
    lemma_indexed_under_own_key(sigs, i);
    let key = prefix_key(sigs[i].header@);
    assert(sharing_prefix(sigs, key).len() > 0);
}

/// The number of records with a header of two bytes or more.
pub open spec fn indexable(sigs: Seq<FileSignature>) -> int
    decreases sigs.len(),
{
    if sigs.len() == 0 {
        0
    } else if sigs.last().header@.len() >= 2 {
        indexable(sigs.drop_last()) + 1
    } else {
        indexable(sigs.drop_last())
    }
}

/// The number of records in the lists of an index under the keys below
/// `bound`.
pub open spec fn entries_below(index: Map<u16, Vec<FileSignature>>, bound: int) -> int
    decreases bound,
{
    if bound <= 0 {
        0
    } else {
        entries_below(index, bound - 1) + if index.contains_key((bound - 1) as u16) {
            index[(bound - 1) as u16]@.len() as int
        } else {
            0
        }
    }
}

/// The number of records of `sigs` that are indexed under the keys below
/// `bound`.
pub open spec fn indexed_below(sigs: Seq<FileSignature>, bound: int) -> int
    decreases bound,
{
    if bound <= 0 {
        0
    } else {
        indexed_below(sigs, bound - 1) + sharing_prefix(sigs, (bound - 1) as u16).len()
    }
}

proof fn lemma_indexed_below_step(sigs: Seq<FileSignature>, bound: int)
    requires
        sigs.len() > 0,
        0 <= bound <= 0x1_0000,
    ensures
        indexed_below(sigs, bound) == indexed_below(sigs.drop_last(), bound) + if sigs.last().header@.len()
            >= 2 && prefix_key(sigs.last().header@) < bound {
            1int
        } else {
            0int
        },
    decreases bound,
{
    if bound > 0 {
        lemma_indexed_below_step(sigs, bound - 1);
    }
}

proof fn lemma_indexed_below_all(sigs: Seq<FileSignature>)
    ensures
        indexed_below(sigs, 0x1_0000) == indexable(sigs),
    decreases sigs.len(),
{
    if sigs.len() == 0 {
        lemma_indexed_below_none(sigs, 0x1_0000);
    } else {
        lemma_indexed_below_all(sigs.drop_last());
        lemma_indexed_below_step(sigs, 0x1_0000);
    }
}

proof fn lemma_indexed_below_none(sigs: Seq<FileSignature>, bound: int)
    requires
        sigs.len() == 0,
    ensures
        indexed_below(sigs, bound) == 0,
    decreases bound,
{
    if bound > 0 {
        lemma_indexed_below_none(sigs, bound - 1);
    }
}

proof fn lemma_entries_below(index: Map<u16, Vec<FileSignature>>, sigs: Seq<FileSignature>, bound: int)
    requires
        is_index_of(index, sigs),
        0 <= bound <= 0x1_0000,
    ensures
        entries_below(index, bound) == indexed_below(sigs, bound),
    decreases bound,
{
    if bound > 0 {
        lemma_entries_below(index, sigs, bound - 1);
        let key = (bound - 1) as u16;
        assert(index.contains_key(key) <==> sharing_prefix(sigs, key).len() > 0);
    }
}

proof fn lemma_sharing_prefix_sound(sigs: Seq<FileSignature>, key: u16)
    ensures
        forall|k: int|
            0 <= k < sharing_prefix(sigs, key).len() ==> {
                let e = #[trigger] sharing_prefix(sigs, key)[k];
                &&& e.header@.len() >= 2
                &&& prefix_key(e.header@) == key
                &&& sigs.contains(e)
            },
    decreases sigs.len(),
{
    if sigs.len() > 0 {
        let front = sigs.drop_last();
        lemma_sharing_prefix_sound(front, key);
        let before = sharing_prefix(front, key);
        let all = sharing_prefix(sigs, key);
        assert forall|k: int| 0 <= k < all.len() implies {
            let e = #[trigger] all[k];
            &&& e.header@.len() >= 2
            &&& prefix_key(e.header@) == key
            &&& sigs.contains(e)
        } by {
            if k < before.len() {
                assert(all[k] == before[k]);
                let m = choose|m: int| 0 <= m < front.len() && front[m] == before[k];
                assert(sigs[m] == front[m]);
            } else {
                assert(all[k] == sigs.last());
                assert(sigs[sigs.len() - 1] == sigs.last());
            }
        }
    }
}

/// The index holds each record with a header of two bytes or more once,
/// and nothing else: every record of a list is one of the catalogue, has
/// such a header and begins with the key of the list; no list is empty;
/// and the lists hold as many records in all as the catalogue has with
/// such a header.
pub proof fn lemma_index_holds_each_record_once(
    index: Map<u16, Vec<FileSignature>>,
    sigs: Seq<FileSignature>,
)
    requires
        is_index_of(index, sigs),
    ensures
        forall|key: u16, k: int|
            index.contains_key(key) && 0 <= k < index[key]@.len() ==> {
                let e = #[trigger] index[key]@[k];
                &&& e.header@.len() >= 2
                &&& prefix_key(e.header@) == key
                &&& sigs.contains(e)
            },
        forall|key: u16| index.contains_key(key) ==> (#[trigger] index[key])@.len() > 0,
        entries_below(index, 0x1_0000) == indexable(sigs),
{
    assert forall|key: u16, k: int|
        index.contains_key(key) && 0 <= k < index[key]@.len() implies {
        let e = #[trigger] index[key]@[k];
        &&& e.header@.len() >= 2
        &&& prefix_key(e.header@) == key
        &&& sigs.contains(e)
    } by {
        lemma_sharing_prefix_sound(sigs, key);
        assert(index[key]@ == sharing_prefix(sigs, key));
    }
    assert forall|key: u16| index.contains_key(key) implies (#[trigger] index[key])@.len() > 0 by {
        assert(sharing_prefix(sigs, key).len() > 0);
    }
    lemma_entries_below(index, sigs, 0x1_0000);
    lemma_indexed_below_all(sigs);
}

/// Builds the lookup index of a catalogue.
pub fn index_signatures(sigs: &Vec<FileSignature>) -> (lookup: HashMap<u16, Vec<FileSignature>>)
    ensures
        is_index_of(lookup@, sigs@),
{
    let mut lookup: HashMap<u16, Vec<FileSignature>> = HashMap::new();
    let mut i: usize = 0;
    assert(sigs@.take(0) =~= Seq::<FileSignature>::empty());
    while i < sigs.len()
        invariant
            i <= sigs.len(),
            is_index_of(lookup@, sigs@.take(i as int)),
        decreases sigs.len() - i,
    {
        let sig = sigs[i];
        let ghost old_map = lookup@;
        let ghost done = sigs@.take(i as int);
        let ghost now = sigs@.take(i + 1);
        assert(now.drop_last() =~= done);
        assert(now.last() == sig);
        if sig.header.len() >= 2 {
            let key: u16 = read_le_u16(sig.header, 0);
            let mut list: Vec<FileSignature> = match lookup.remove(&key) {
                Some(list) => list,
                None => Vec::new(),
            };
            assert(list@ == sharing_prefix(done, key)) by {
                if !old_map.contains_key(key) {
                    assert(sharing_prefix(done, key).len() == 0);
                    assert(list@ =~= sharing_prefix(done, key));
                }
            }
            list.push(sig);
            lookup.insert(key, list);
            assert forall|k: u16|
                {
                    &&& lookup@.contains_key(k) <==> (#[trigger] sharing_prefix(now, k)).len() > 0
                    &&& lookup@.contains_key(k) ==> lookup@[k]@ == sharing_prefix(now, k)
                } by {
                assert(old_map.contains_key(k) <==> sharing_prefix(done, k).len() > 0);
                if k != key {
                    assert(sharing_prefix(now, k) == sharing_prefix(done, k));
                }
            }
        } else {
            assert forall|k: u16|
                {
                    &&& lookup@.contains_key(k) <==> (#[trigger] sharing_prefix(now, k)).len() > 0
                    &&& lookup@.contains_key(k) ==> lookup@[k]@ == sharing_prefix(now, k)
                } by {
                assert(old_map.contains_key(k) <==> sharing_prefix(done, k).len() > 0);
                assert(sharing_prefix(now, k) == sharing_prefix(done, k));
            }
        }
        i += 1;
    }
    assert(sigs@.take(sigs@.len() as int) =~= sigs@);
    lookup
}

/// The lookup index of the built-in catalogue.
pub fn build_signature_lookup() -> (lookup: HashMap<u16, Vec<FileSignature>>)
    ensures
        is_index_of(lookup@, catalogue()),
{
    let sigs = get_signatures();
    index_signatures(&sigs)
}

// ---------------------------------------------------------------------
// Atoms of the MP4 family
// ---------------------------------------------------------------------

/// How far a walk over top-level atoms came.
pub ghost struct AtomWalk {
    /// The end of the last atom that was taken; zero where none was.
    pub end: int,
    /// The walk met an atom of size zero, which runs to the end of its file.
    pub open_ended: bool,
}

/// The walk over the atoms from `at` on, where the atoms before end at
/// `end`. An atom is its size, 32 bits big-endian, and four bytes of type;
/// a size of one stands for a 64-bit size in the eight bytes that follow.
/// The walk ends before an atom that is smaller than its own header or
/// larger than `MAX_ATOM_SIZE`, at an atom of size zero, where fewer than
/// the eight bytes of a header are left, and after an atom that ends beyond
/// `limit`.
pub open spec fn atom_walk(data: Seq<u8>, at: int, end: int, limit: int) -> AtomWalk
    decreases data.len() - at,
{
    if at < 0 || at + 8 > data.len() {
        AtomWalk { end, open_ended: false }
    } else if be_u32(data, at) == 0 {
        AtomWalk { end, open_ended: true }
    } else {
        let size = if be_u32(data, at) == 1 && at + 16 <= data.len() {
            be_u64(data, at + 8)
        } else {
            be_u32(data, at)
        };
        if size < 8 || size > MAX_ATOM_SIZE {
            AtomWalk { end, open_ended: false }
        } else if at + size > limit || at + size + 8 > data.len() {
            AtomWalk { end: at + size, open_ended: false }
        } else {
            atom_walk(data, at + size, at + size, limit)
        }
    }
}

fn walk_atoms(data: &[u8], limit: u64) -> (r: (u64, bool))
    requires
        limit <= 0x4000_0000,
    ensures
        atom_walk(data@, 0, 0, limit as int) == (AtomWalk { end: r.0 as int, open_ended: r.1 }),
{
    let len: usize = data.len();
    let mut at: usize = 0;
    let mut end: u64 = 0;
    loop
        invariant
            len == data.len(),
            at <= limit <= 0x4000_0000,
            end <= limit || at == 0,
            atom_walk(data@, at as int, end as int, limit as int) == atom_walk(
                data@,
                0,
                0,
                limit as int,
            ),
        decreases len - at,
    {
        if len < 8 || at > len - 8 {
            return (end, false);
        }
        let declared: u32 = read_be_u32(data, at);
        if declared == 0 {
            return (end, true);
        }
        let size: u64 = if declared == 1 && len >= 16 && at <= len - 16 {
            read_be_u64(data, at + 8)
        } else {
            declared as u64
        };
        if size < 8 || size > MAX_ATOM_SIZE {
            return (end, false);
        }
        let next: u64 = at as u64 + size;
        if next > limit || next > (len - 8) as u64 {
            return (next, false);
        }
        end = next;
        at = next as usize;
    }
}

/// The size of a file of the MP4 family, from its top-level atoms: a fixed
/// 100 MiB where an atom runs to the end of the file, the end of the last
/// atom where one was found, else a fixed 50 MiB. No more than 10 MiB of
/// atoms are walked.
pub open spec fn mp4_size(data: Seq<u8>) -> u64 {
    let walk = atom_walk(data, 0, 0, 10 * MIB as int);
    if walk.open_ended {
        (100 * MIB) as u64
    } else if walk.end > 0 {
        walk.end as u64
    } else {
        (50 * MIB) as u64
    }
}

pub fn estimate_mp4_size(data: &[u8]) -> (r: u64)
    ensures
        r == mp4_size(data@),
{
    let walk = walk_atoms(data, 10 * MIB);
    if walk.1 {
        100 * MIB
    } else if walk.0 > 0 {
        walk.0
    } else {
        50 * MIB
    }
}

// ---------------------------------------------------------------------
// Rating a header match
// ---------------------------------------------------------------------

pub open spec fn is_jpeg(ext: Seq<char>) -> bool {
    ext == "jpg"@ || ext == "jpeg"@
}

pub open spec fn is_zip_family(ext: Seq<char>) -> bool {
    ext == "zip"@ || ext == "docx"@ || ext == "xlsx"@ || ext == "pptx"@
}

pub open spec fn is_mp4_family(ext: Seq<char>) -> bool {
    ext == "mp4"@ || ext == "mov"@
}

pub open spec fn is_executable(ext: Seq<char>) -> bool {
    ext == "exe"@ || ext == "dll"@
}

pub open spec fn jpeg_confidence(data: Seq<u8>) -> u8 {
    if data.len() >= 3 && data[2] == 0xFF {
        if (matches_at(data, 6, seq![0x4Au8, 0x46, 0x49, 0x46]) || matches_at(
            data,
            6,
            seq![0x45u8, 0x78, 0x69, 0x66],
        )) {
            98
        } else {
            90
        }
    } else {
        BASE_CONFIDENCE
    }
}

pub open spec fn png_confidence(data: Seq<u8>) -> u8 {
    if matches_at(data, 12, seq![0x49u8, 0x48, 0x44, 0x52]) {
        98
    } else {
        BASE_CONFIDENCE
    }
}

pub open spec fn pdf_confidence(data: Seq<u8>) -> u8 {
    if data.len() >= 6 && data[4] == 0x2D && 0x30 <= data[5] <= 0x39 {
        95
    } else {
        BASE_CONFIDENCE
    }
}

/// The name of the first entry of a ZIP archive names an Office document.
pub open spec fn names_office_part(name: Seq<char>) -> bool {
    contains_text(name, "[Content_Types].xml"@) || has_prefix(name, "word/"@)
}

pub open spec fn zip_confidence(data: Seq<u8>) -> u8 {
    if data.len() >= 30 && 0 < le_u16(data, 26) < 256 && le_u32(data, 18) < 1_000_000_000 {
        if data.len() >= 30 + le_u16(data, 26) && names_office_part(
            utf8_lossy(data.subrange(30, 30 + le_u16(data, 26))),
        ) {
            98
        } else {
            90
        }
    } else {
        BASE_CONFIDENCE
    }
}

pub open spec fn mp3_confidence(data: Seq<u8>) -> u8 {
    if matches_at(data, 0, seq![0x49u8, 0x44, 0x33]) {
        95
    } else if data.len() >= 2 && data[0] == 0xFF && data[1] & 0xE0 == 0xE0 {
        85
    } else {
        BASE_CONFIDENCE
    }
}

/// The four bytes at `at` name a brand of the MP4 family that a header
/// match is rated by.
pub open spec fn rated_brand(data: Seq<u8>, at: int) -> bool {
    ||| matches_at(data, at, seq![0x69u8, 0x73, 0x6F, 0x6D])
    ||| matches_at(data, at, seq![0x6Du8, 0x70, 0x34, 0x31])
    ||| matches_at(data, at, seq![0x6Du8, 0x70, 0x34, 0x32])
    ||| matches_at(data, at, seq![0x4Du8, 0x34, 0x56, 0x20])
    ||| matches_at(data, at, seq![0x71u8, 0x74, 0x20, 0x20])
    ||| matches_at(data, at, seq![0x4Du8, 0x53, 0x4E, 0x56])
    ||| matches_at(data, at, seq![0x33u8, 0x67, 0x70, 0x34])
    ||| matches_at(data, at, seq![0x33u8, 0x67, 0x70, 0x35])
    ||| matches_at(data, at, seq![0x61u8, 0x76, 0x63, 0x31])
}

/// The four bytes at `at` name a brand of the MP4 family that the scan for
/// `ftyp` accepts: the rated ones and three more.
pub open spec fn known_brand(data: Seq<u8>, at: int) -> bool {
    ||| rated_brand(data, at)
    ||| matches_at(data, at, seq![0x4Du8, 0x34, 0x41, 0x20])
    ||| matches_at(data, at, seq![0x66u8, 0x34, 0x76, 0x20])
    ||| matches_at(data, at, seq![0x64u8, 0x61, 0x73, 0x68])
}

pub open spec fn mp4_confidence(data: Seq<u8>) -> u8 {
    if data.len() >= 8 && 8 <= be_u32(data, 0) <= 1024 && matches_at(
        data,
        4,
        seq![0x66u8, 0x74, 0x79, 0x70],
    ) {
        if rated_brand(data, 8) {
            98
        } else {
            95
        }
    } else {
        40
    }
}

pub open spec fn exe_confidence(data: Seq<u8>) -> u8 {
    if data.len() >= 64 && matches_at(
        data,
        le_u32(data, 60),
        seq![0x50u8, 0x45, 0x00, 0x00],
    ) {
        95
    } else {
        BASE_CONFIDENCE
    }
}

/// How sure a header match of a format with extension `ext` is, given the
/// bytes from the header on.
pub open spec fn confidence_of(ext: Seq<char>, data: Seq<u8>) -> u8 {
    if is_jpeg(ext) {
        jpeg_confidence(data)
    } else if ext == "png"@ {
        png_confidence(data)
    } else if ext == "pdf"@ {
        pdf_confidence(data)
    } else if is_zip_family(ext) {
        zip_confidence(data)
    } else if ext == "mp3"@ {
        mp3_confidence(data)
    } else if is_mp4_family(ext) {
        mp4_confidence(data)
    } else if is_executable(ext) {
        exe_confidence(data)
    } else {
        BASE_CONFIDENCE
    }
}

fn rated_brand_at(data: &[u8], at: usize) -> (r: bool)
    ensures
        r == rated_brand(data@, at as int),
{
    match_at(data, at, &[0x69, 0x73, 0x6F, 0x6D]) || match_at(data, at, &[0x6D, 0x70, 0x34, 0x31])
        || match_at(data, at, &[0x6D, 0x70, 0x34, 0x32]) || match_at(
        data,
        at,
        &[0x4D, 0x34, 0x56, 0x20],
    ) || match_at(data, at, &[0x71, 0x74, 0x20, 0x20]) || match_at(
        data,
        at,
        &[0x4D, 0x53, 0x4E, 0x56],
    ) || match_at(data, at, &[0x33, 0x67, 0x70, 0x34]) || match_at(
        data,
        at,
        &[0x33, 0x67, 0x70, 0x35],
    ) || match_at(data, at, &[0x61, 0x76, 0x63, 0x31])
}

fn known_brand_at(data: &[u8], at: usize) -> (r: bool)
    ensures
        r == known_brand(data@, at as int),
{
    rated_brand_at(data, at) || match_at(data, at, &[0x4D, 0x34, 0x41, 0x20]) || match_at(
        data,
        at,
        &[0x66, 0x34, 0x76, 0x20],
    ) || match_at(data, at, &[0x64, 0x61, 0x73, 0x68])
}

fn rate_zip(data: &[u8]) -> (r: u8)
    ensures
        r == zip_confidence(data@),
{
    if data.len() >= 30 {
        let compressed_size: u32 = read_le_u32(data, 18);
        let filename_len: usize = read_le_u16(data, 26) as usize;
        if filename_len > 0 && filename_len < 256 && compressed_size < 1_000_000_000 {
            if data.len() - 30 >= filename_len {
                let name = from_utf8_lossy(&data[30..30 + filename_len]);
                let chars = chars_of(name.as_str());
                let content_types = chars_of("[Content_Types].xml");
                let word = chars_of("word/");
                if chars_contain(chars.as_slice(), content_types.as_slice()) || chars_start_with(
                    chars.as_slice(),
                    word.as_slice(),
                ) {
                    return 98;
                }
            }
            return 90;
        }
    }
    BASE_CONFIDENCE
}

/// Rates a header match of `sig` on the bytes from the header on.
pub fn validate_signature(sig: &FileSignature, data: &[u8]) -> (r: u8)
    ensures
        r == confidence_of(sig.extension@, data@),
{
    let ext = sig.extension;
    let len: usize = data.len();
    if text_eq(ext, "jpg") || text_eq(ext, "jpeg") {
        if len >= 3 && data[2] == 0xFF {
            if (match_at(data, 6, &[0x4A, 0x46, 0x49, 0x46]) || match_at(
                data,
                6,
                &[0x45, 0x78, 0x69, 0x66],
            )) {
                98
            } else {
                90
            }
        } else {
            BASE_CONFIDENCE
        }
    } else if text_eq(ext, "png") {
        if match_at(data, 12, &[0x49, 0x48, 0x44, 0x52]) {
            98
        } else {
            BASE_CONFIDENCE
        }
    } else if text_eq(ext, "pdf") {
        if len >= 6 && data[4] == 0x2D && 0x30 <= data[5] && data[5] <= 0x39 {
            95
        } else {
            BASE_CONFIDENCE
        }
    } else if text_eq(ext, "zip") || text_eq(ext, "docx") || text_eq(ext, "xlsx") || text_eq(
        ext,
        "pptx",
    ) {
        rate_zip(data)
    } else if text_eq(ext, "mp3") {
        if match_at(data, 0, &[0x49, 0x44, 0x33]) {
            95
        } else if len >= 2 && data[0] == 0xFF && (data[1] & 0xE0) == 0xE0 {
            85
        } else {
            BASE_CONFIDENCE
        }
    } else if text_eq(ext, "mp4") || text_eq(ext, "mov") {
        if len >= 8 {
            let box_size: u32 = read_be_u32(data, 0);
            if box_size >= 8 && box_size <= 1024 && match_at(data, 4, &[0x66, 0x74, 0x79, 0x70]) {
                if rated_brand_at(data, 8) {
                    98
                } else {
                    95
                }
            } else {
                40
            }
        } else {
            40
        }
    } else if text_eq(ext, "exe") || text_eq(ext, "dll") {
        if len >= 64 {
            let pe_offset: usize = read_le_u32(data, 60) as usize;
            if match_at(data, pe_offset, &[0x50, 0x45, 0x00, 0x00]) {
                95
            } else {
                BASE_CONFIDENCE
            }
        } else {
            BASE_CONFIDENCE
        }
    } else {
        BASE_CONFIDENCE
    }
}

// ---------------------------------------------------------------------
// Estimating the size of a find
// ---------------------------------------------------------------------

/// The end of the file by its footer: scanning from behind the header, the
/// end of the first footer that ends no later than the lesser of the end of
/// the buffer and the size cap. A footer of no bytes is no footer.
pub open spec fn footer_end(sig: FileSignature, data: Seq<u8>) -> Option<int> {
    match sig.footer {
        Some(footer) => {
            let reach = if data.len() <= sig.max_size {
                data.len() as int
            } else {
                sig.max_size as int
            };
            if footer@.len() == 0 {
                None
            } else {
                match first_occurrence(
                    data,
                    footer@,
                    sig.header@.len() as int,
                    reach - footer@.len() + 1,
                ) {
                    Some(i) => Some(i + footer@.len()),
                    None => None,
                }
            }
        },
        None => None,
    }
}

/// The end of a PNG file by its chunks, from the chunk at `at` on: a chunk
/// is its length, four bytes of type, the data and four bytes of checksum;
/// the file ends with the chunk of type `IEND`. A chunk of more than a
/// hundred million bytes ends the walk without a result, and so does a
/// chunk whose end does not fit in 64 bits.
pub open spec fn png_end(data: Seq<u8>, at: int) -> Option<int>
    decreases data.len() - at,
{
    if at < 0 || at + 12 > data.len() || at + 12 + be_u32(data, at) > u64::MAX {
        None
    } else if matches_at(data, at + 4, seq![0x49u8, 0x45, 0x4E, 0x44]) {
        Some(at + 12 + be_u32(data, at))
    } else if be_u32(data, at) > 100_000_000 || at + 12 + be_u32(data, at) + 12 > data.len() {
        None
    } else {
        png_end(data, at + 12 + be_u32(data, at))
    }
}

/// The end of a ZIP archive by its end-of-central-directory record: the
/// last such record that starts in the 65557 bytes before the lesser of the
/// end of the buffer and a hundred million, and whose fixed part lies inside
/// the buffer, together with the comment that it announces.
pub open spec fn zip_end(data: Seq<u8>) -> Option<int> {
    let reach = if data.len() <= 100_000_000 {
        data.len() as int
    } else {
        100_000_000
    };
    let lo = if reach >= 65557 {
        reach - 65557
    } else {
        0
    };
    let hi = if reach - 4 <= data.len() - 21 {
        reach - 4
    } else {
        data.len() - 21
    };
    match last_occurrence(data, seq![0x50u8, 0x4B, 0x05, 0x06], lo, hi) {
        Some(i) => Some(i + 22 + le_u16(data, i + 20)),
        None => None,
    }
}

/// The size that the format itself gives, where it gives one: for the MP4
/// family by its atoms, a fixed 100 MiB where an atom runs to the end of
/// the file; for PNG by its chunks; for the ZIP family by its directory;
/// for BMP by the size that its header names. A size above the cap of the
/// format is none.
pub open spec fn format_size(sig: FileSignature, data: Seq<u8>) -> Option<int> {
    let ext = sig.extension@;
    if is_mp4_family(ext) {
        let walk = atom_walk(data, 0, 0, 10 * MIB as int);
        if walk.open_ended {
            Some(100 * MIB as int)
        } else if 0 < walk.end <= sig.max_size {
            Some(walk.end)
        } else {
            None
        }
    } else if ext == "png"@ {
        png_end(data, 8)
    } else if is_zip_family(ext) {
        zip_end(data)
    } else if ext == "bmp"@ {
        if data.len() >= 6 && 0 < le_u32(data, 2) <= sig.max_size {
            Some(le_u32(data, 2))
        } else {
            None
        }
    } else {
        None
    }
}

/// The size that is assumed of a file whose end was not found.
pub open spec fn default_size(ext: Seq<char>) -> u64 {
    if is_jpeg(ext) {
        (500 * KIB) as u64
    } else if ext == "png"@ {
        (300 * KIB) as u64
    } else if ext == "gif"@ {
        (100 * KIB) as u64
    } else if ext == "pdf"@ {
        MIB
    } else if ext == "mp3"@ {
        (5 * MIB) as u64
    } else if ext == "mp4"@ {
        (50 * MIB) as u64
    } else if ext == "doc"@ || ext == "docx"@ {
        (200 * KIB) as u64
    } else {
        MIB
    }
}

/// The estimated size of a file of format `sig` that starts at the front of
/// `data`: by its footer, else by its format, else by default.
pub open spec fn size_estimate(sig: FileSignature, data: Seq<u8>) -> u64 {
    match footer_end(sig, data) {
        Some(end) => end as u64,
        None => match format_size(sig, data) {
            Some(size) => size as u64,
            None => default_size(sig.extension@),
        },
    }
}

fn find_footer_end(sig: &FileSignature, data: &[u8]) -> (r: Option<u64>)
    ensures
        match r {
            Some(end) => footer_end(*sig, data@) == Some(end as int),
            None => footer_end(*sig, data@).is_none(),
        },
{
    match sig.footer {
        Some(footer) => {
            let len: usize = data.len();
            let reach: usize = if len as u64 <= sig.max_size {
                len
            } else {
                sig.max_size as usize
            };
            if footer.len() == 0 {
                return None;
            }
            if reach < footer.len() {
                assert(first_occurrence(
                    data@,
                    footer@,
                    sig.header@.len() as int,
                    reach - footer@.len() + 1,
                ).is_none());
                return None;
            }
            let hi: usize = reach - footer.len() + 1;
            proof {
                crate::bytes::lemma_first_occurrence(
                    data@,
                    footer@,
                    sig.header@.len() as int,
                    hi as int,
                );
            }
            match find_first(data, footer, sig.header.len(), hi) {
                Some(i) => Some((i + footer.len()) as u64),
                None => None,
            }
        },
        None => None,
    }
}

fn find_png_end(data: &[u8]) -> (r: Option<u64>)
    ensures
        match r {
            Some(end) => png_end(data@, 8) == Some(end as int),
            None => png_end(data@, 8).is_none(),
        },
{
    let len: usize = data.len();
    let mut at: usize = 8;
    loop
        invariant
            len == data.len(),
            png_end(data@, at as int) == png_end(data@, 8),
        decreases len - at,
    {
        if len < 12 || at > len - 12 {
            return None;
        }
        let chunk: u64 = read_be_u32(data, at) as u64;
        let next: u64 = match (at as u64 + 12).checked_add(chunk) {
            Some(next) => next,
            None => {
                return None;
            },
        };
        if match_at(data, at + 4, &[0x49, 0x45, 0x4E, 0x44]) {
            return Some(next);
        }
        if chunk > 100_000_000 || next > (len - 12) as u64 {
            return None;
        }
        at = next as usize;
    }
}

fn find_zip_end(data: &[u8]) -> (r: Option<u64>)
    ensures
        match r {
            Some(end) => zip_end(data@) == Some(end as int),
            None => zip_end(data@).is_none(),
        },
{
    let len: usize = data.len();
    let reach: usize = if len <= 100_000_000 {
        len
    } else {
        100_000_000
    };
    let lo: usize = if reach >= 65557 {
        reach - 65557
    } else {
        0
    };
    if len < 22 {
        assert(zip_end(data@).is_none());
        return None;
    }
    let hi: usize = if reach - 4 <= len - 21 {
        reach - 4
    } else {
        len - 21
    };
    proof {
        crate::bytes::lemma_last_occurrence(
            data@,
            seq![0x50u8, 0x4B, 0x05, 0x06],
            lo as int,
            hi as int,
        );
    }
    match find_last(data, &[0x50, 0x4B, 0x05, 0x06], lo, hi) {
        Some(i) => {
            let comment_len: u64 = read_le_u16(data, i + 20) as u64;
            Some(i as u64 + 22 + comment_len)
        },
        None => None,
    }
}

fn find_format_size(sig: &FileSignature, data: &[u8]) -> (r: Option<u64>)
    ensures
        match r {
            Some(size) => format_size(*sig, data@) == Some(size as int),
            None => format_size(*sig, data@).is_none(),
        },
{
    let ext = sig.extension;
    if text_eq(ext, "mp4") || text_eq(ext, "mov") {
        let walk = walk_atoms(data, 10 * MIB);
        if walk.1 {
            Some(100 * MIB)
        } else if walk.0 > 0 && walk.0 <= sig.max_size {
            Some(walk.0)
        } else {
            None
        }
    } else if text_eq(ext, "png") {
        find_png_end(data)
    } else if text_eq(ext, "zip") || text_eq(ext, "docx") || text_eq(ext, "xlsx") || text_eq(
        ext,
        "pptx",
    ) {
        find_zip_end(data)
    } else if text_eq(ext, "bmp") {
        if data.len() >= 6 {
            let size: u64 = read_le_u32(data, 2) as u64;
            if size > 0 && size <= sig.max_size {
                Some(size)
            } else {
                None
            }
        } else {
            None
        }
    } else {
        None
    }
}

fn default_size_of(ext: &str) -> (r: u64)
    ensures
        r == default_size(ext@),
{
    if text_eq(ext, "jpg") || text_eq(ext, "jpeg") {
        500 * KIB
    } else if text_eq(ext, "png") {
        300 * KIB
    } else if text_eq(ext, "gif") {
        100 * KIB
    } else if text_eq(ext, "pdf") {
        MIB
    } else if text_eq(ext, "mp3") {
        5 * MIB
    } else if text_eq(ext, "mp4") {
        50 * MIB
    } else if text_eq(ext, "doc") || text_eq(ext, "docx") {
        200 * KIB
    } else {
        MIB
    }
}

/// Estimates the size of a file of format `sig` that starts at the front of
/// `data`.
pub fn estimate_file_size(sig: &FileSignature, data: &[u8]) -> (r: u64)
    ensures
        r == size_estimate(*sig, data@),
{
    match find_footer_end(sig, data) {
        Some(end) => end,
        None => match find_format_size(sig, data) {
            Some(size) => size,
            None => default_size_of(sig.extension),
        },
    }
}

// ---------------------------------------------------------------------
// Carving a buffer
// ---------------------------------------------------------------------

/// The lowercase hexadecimal digit of a value below sixteen.
pub open spec fn hex_digit(value: int) -> char {
    if value < 10 {
        ((0x30 + value) as u8) as char
    } else {
        ((0x57 + value) as u8) as char
    }
}

/// The bytes in lowercase hexadecimal, two digits each, high digit first.
pub open spec fn hex_text(bytes: Seq<u8>) -> Seq<char> {
    Seq::new(
        2 * bytes.len(),
        |i: int|
            if i % 2 == 0 {
                hex_digit(bytes[i / 2] as int / 16)
            } else {
                hex_digit(bytes[i / 2] as int % 16)
            },
    )
}

/// `hex::encode`. Nothing is proved of it: the result is taken to be the
/// bytes in lowercase hexadecimal, two digits each.
#[verifier::external_body]
fn hex_encode(bytes: &[u8]) -> (r: String)
    ensures
        r@ == hex_text(bytes@),
{
    hex::encode(bytes)
}

/// A file of the MP4 family starts at `start`: the type `ftyp` follows a
/// box size between 8 and 64, a known brand follows the type, and the type
/// lies at least seventeen bytes before the end of the buffer.
pub open spec fn mp4_starts_at(data: Seq<u8>, start: int) -> bool {
    &&& 0 <= start
    &&& start + 20 < data.len()
    &&& matches_at(data, start + 4, seq![0x66u8, 0x74, 0x79, 0x70])
    &&& 8 <= be_u32(data, start) <= 64
    &&& known_brand(data, start + 8)
}

/// The first pass finds a file at `start`: a file of the MP4 family starts
/// there, and its size by its atoms is at least `MIN_PLAUSIBLE_SIZE`.
pub open spec fn mp4_found_at(data: Seq<u8>, start: int) -> bool {
    mp4_starts_at(data, start) && mp4_size(data.skip(start)) >= MIN_PLAUSIBLE_SIZE
}

/// The first bytes of the file that starts at `start`, up to sixteen.
pub open spec fn header_bytes(data: Seq<u8>, start: int) -> Seq<u8> {
    if start + 16 <= data.len() {
        data.subrange(start, start + 16)
    } else {
        data.subrange(start, data.len() as int)
    }
}

/// The find for a file of the MP4 family that starts at `start`.
pub open spec fn mp4_find(data: Seq<u8>, sector_offset: u64, start: int) -> CarvedFileView {
    CarvedFileView {
        sector_offset,
        byte_offset: start as u64,
        estimated_size: mp4_size(data.skip(start)),
        file_type: "MP4 Video"@,
        extension: "mp4"@,
        category: "Videos"@,
        confidence: 95,
        header_match: hex_text(header_bytes(data, start)),
    }
}

/// The finds of the first pass, for the starts from `from` on.
pub open spec fn mp4_pass(data: Seq<u8>, sector_offset: u64, from: int) -> Seq<CarvedFileView>
    decreases data.len() - from,
{
    if from < 0 || from + 20 >= data.len() {
        Seq::empty()
    } else if mp4_found_at(data, from) {
        seq![mp4_find(data, sector_offset, from)] + mp4_pass(data, sector_offset, from + 1)
    } else {
        mp4_pass(data, sector_offset, from + 1)
    }
}

/// The header of `sig` stands at `at`, the match is rated at
/// `MIN_CONFIDENCE` or above, and the estimated size is at least
/// `MIN_PLAUSIBLE_SIZE`.
pub open spec fn signature_hit(sig: FileSignature, data: Seq<u8>, at: int) -> bool {
    &&& matches_at(data, at, sig.header@)
    &&& confidence_of(sig.extension@, data.skip(at)) >= MIN_CONFIDENCE
    &&& size_estimate(sig, data.skip(at)) >= MIN_PLAUSIBLE_SIZE
}

/// The index of the first record from `from` on that hits at `at`.
pub open spec fn first_hit(sigs: Seq<FileSignature>, data: Seq<u8>, at: int, from: int) -> Option<
    int,
>
    decreases sigs.len() - from,
{
    if from < 0 || from >= sigs.len() {
        None
    } else if signature_hit(sigs[from], data, at) {
        Some(from)
    } else {
        first_hit(sigs, data, at, from + 1)
    }
}

/// The find for a file of format `sig` that starts at `at`.
pub open spec fn signature_find(
    sig: FileSignature,
    data: Seq<u8>,
    sector_offset: u64,
    at: int,
) -> CarvedFileView {
    CarvedFileView {
        sector_offset,
        byte_offset: at as u64,
        estimated_size: size_estimate(sig, data.skip(at)),
        file_type: sig.name@,
        extension: sig.extension@,
        category: sig.category@,
        confidence: confidence_of(sig.extension@, data.skip(at)),
        header_match: hex_text(header_bytes(data, at)),
    }
}

/// The find of the second pass at `at`, where there is one: the first pass
/// found no file there, and of the records indexed under the two bytes at
/// `at` the first that hits gives the find.
pub open spec fn signature_find_at(
    data: Seq<u8>,
    sector_offset: u64,
    index: Map<u16, Vec<FileSignature>>,
    at: int,
) -> Option<CarvedFileView> {
    let key = lookup_key(data, at);
    if mp4_found_at(data, at) || !index.contains_key(key) {
        None
    } else {
        match first_hit(index[key]@, data, at, 0) {
            Some(k) => Some(signature_find(index[key]@[k], data, sector_offset, at)),
            None => None,
        }
    }
}

/// The finds of the second pass, for the positions from `from` on.
pub open spec fn signature_pass(
    data: Seq<u8>,
    sector_offset: u64,
    index: Map<u16, Vec<FileSignature>>,
    from: int,
) -> Seq<CarvedFileView>
    decreases data.len() - from,
{
    if from < 0 || from + 32 >= data.len() {
        Seq::empty()
    } else {
        match signature_find_at(data, sector_offset, index, from) {
            Some(find) => seq![find] + signature_pass(data, sector_offset, index, from + 1),
            None => signature_pass(data, sector_offset, index, from + 1),
        }
    }
}

/// The finds in a buffer: those of the MP4 family, in buffer order, then
/// those of the indexed formats, in buffer order. The first pass looks at
/// the starts with more than twenty bytes behind them, the second at the
/// positions with more than 32.
pub open spec fn carved_from(
    data: Seq<u8>,
    sector_offset: u64,
    index: Map<u16, Vec<FileSignature>>,
) -> Seq<CarvedFileView> {
    mp4_pass(data, sector_offset, 0) + signature_pass(data, sector_offset, index, 0)
}

/// The views of a list of finds.
pub open spec fn carved_views(files: Seq<CarvedFile>) -> Seq<CarvedFileView> {
    Seq::new(files.len(), |i: int| files[i]@)
}

proof fn lemma_mp4_pass(data: Seq<u8>, sector_offset: u64, from: int)
    requires
        0 <= from,
        data.len() <= u64::MAX,
    ensures
        forall|k: int|
            0 <= k < mp4_pass(data, sector_offset, from).len() ==> {
                let find = #[trigger] mp4_pass(data, sector_offset, from)[k];
                &&& find.sector_offset == sector_offset
                &&& from <= find.byte_offset
                &&& mp4_found_at(data, find.byte_offset as int)
            },
        forall|a: int, b: int|
            0 <= a < b < mp4_pass(data, sector_offset, from).len() ==> (#[trigger] mp4_pass(
                data,
                sector_offset,
                from,
            )[a]).byte_offset < (#[trigger] mp4_pass(data, sector_offset, from)[b]).byte_offset,
    decreases data.len() - from,
{
    if from + 20 < data.len() {
        lemma_mp4_pass(data, sector_offset, from + 1);
        let all = mp4_pass(data, sector_offset, from);
        let rest = mp4_pass(data, sector_offset, from + 1);
        if mp4_found_at(data, from) {
            assert forall|k: int| 0 <= k < all.len() implies {
                let find = #[trigger] all[k];
                &&& find.sector_offset == sector_offset
                &&& from <= find.byte_offset
                &&& mp4_found_at(data, find.byte_offset as int)
            } by {
                if k > 0 {
                    assert(all[k] == rest[k - 1]);
                }
            }
            assert forall|a: int, b: int| 0 <= a < b < all.len() implies (#[trigger] all[a]).byte_offset
                < (#[trigger] all[b]).byte_offset by {
                assert(all[b] == rest[b - 1]);
                if a > 0 {
                    assert(all[a] == rest[a - 1]);
                }
            }
        }
    }
}

proof fn lemma_signature_pass(
    data: Seq<u8>,
    sector_offset: u64,
    index: Map<u16, Vec<FileSignature>>,
    from: int,
)
    requires
        0 <= from,
        data.len() <= u64::MAX,
    ensures
        forall|k: int|
            0 <= k < signature_pass(data, sector_offset, index, from).len() ==> {
                let find = #[trigger] signature_pass(data, sector_offset, index, from)[k];
                &&& find.sector_offset == sector_offset
                &&& from <= find.byte_offset
                &&& !mp4_found_at(data, find.byte_offset as int)
            },
        forall|a: int, b: int|
            0 <= a < b < signature_pass(data, sector_offset, index, from).len() ==> (
            #[trigger] signature_pass(data, sector_offset, index, from)[a]).byte_offset < (
            #[trigger] signature_pass(data, sector_offset, index, from)[b]).byte_offset,
    decreases data.len() - from,
{
    if from + 32 < data.len() {
        lemma_signature_pass(data, sector_offset, index, from + 1);
        let all = signature_pass(data, sector_offset, index, from);
        let rest = signature_pass(data, sector_offset, index, from + 1);
        if signature_find_at(data, sector_offset, index, from).is_some() {
            assert forall|k: int| 0 <= k < all.len() implies {
                let find = #[trigger] all[k];
                &&& find.sector_offset == sector_offset
                &&& from <= find.byte_offset
                &&& !mp4_found_at(data, find.byte_offset as int)
            } by {
                if k > 0 {
                    assert(all[k] == rest[k - 1]);
                }
            }
            assert forall|a: int, b: int| 0 <= a < b < all.len() implies (#[trigger] all[a]).byte_offset
                < (#[trigger] all[b]).byte_offset by {
                assert(all[b] == rest[b - 1]);
                if a > 0 {
                    assert(all[a] == rest[a - 1]);
                }
            }
        }
    }
}

/// No two finds in a buffer start at the same byte of the volume.
pub proof fn lemma_carved_offsets_distinct(
    data: Seq<u8>,
    sector_offset: u64,
    index: Map<u16, Vec<FileSignature>>,
)
    requires
        data.len() <= u64::MAX,
    ensures
        forall|a: int, b: int|
            0 <= a < b < carved_from(data, sector_offset, index).len() ==> absolute_offset(
                #[trigger] carved_from(data, sector_offset, index)[a],
            ) != absolute_offset(#[trigger] carved_from(data, sector_offset, index)[b]),
{
    lemma_mp4_pass(data, sector_offset, 0);
    lemma_signature_pass(data, sector_offset, index, 0);
    let first = mp4_pass(data, sector_offset, 0);
    let second = signature_pass(data, sector_offset, index, 0);
    let all = carved_from(data, sector_offset, index);
    assert forall|a: int, b: int| 0 <= a < b < all.len() implies absolute_offset(#[trigger] all[a])
        != absolute_offset(#[trigger] all[b]) by {
        if b < first.len() {
            assert(all[a] == first[a] && all[b] == first[b]);
        } else if a >= first.len() {
            assert(all[a] == second[a - first.len()] && all[b] == second[b - first.len()]);
        } else {
            assert(all[a] == first[a] && all[b] == second[b - first.len()]);
        }
    }
}

proof fn lemma_first_hit(sigs: Seq<FileSignature>, data: Seq<u8>, at: int, from: int)
    requires
        0 <= from,
    ensures
        first_hit(sigs, data, at, from) matches Some(k) ==> from <= k < sigs.len() && signature_hit(
            sigs[k],
            data,
            at,
        ),
    decreases sigs.len() - from,
{
    if from < sigs.len() && !signature_hit(sigs[from], data, at) {
        lemma_first_hit(sigs, data, at, from + 1);
    }
}

proof fn lemma_signature_pass_plausible(
    data: Seq<u8>,
    sector_offset: u64,
    index: Map<u16, Vec<FileSignature>>,
    from: int,
)
    requires
        0 <= from,
    ensures
        forall|k: int|
            0 <= k < signature_pass(data, sector_offset, index, from).len() ==> {
                let find = #[trigger] signature_pass(data, sector_offset, index, from)[k];
                &&& find.confidence >= MIN_CONFIDENCE
                &&& find.estimated_size >= MIN_PLAUSIBLE_SIZE
            },
    decreases data.len() - from,
{
    if from + 32 < data.len() {
        lemma_signature_pass_plausible(data, sector_offset, index, from + 1);
        let all = signature_pass(data, sector_offset, index, from);
        let rest = signature_pass(data, sector_offset, index, from + 1);
        if signature_find_at(data, sector_offset, index, from).is_some() {
            let key = lookup_key(data, from);
            lemma_first_hit(index[key]@, data, from, 0);
            assert forall|k: int| 0 <= k < all.len() implies {
                let find = #[trigger] all[k];
                &&& find.confidence >= MIN_CONFIDENCE
                &&& find.estimated_size >= MIN_PLAUSIBLE_SIZE
            } by {
                if k > 0 {
                    assert(all[k] == rest[k - 1]);
                }
            }
        }
    }
}

proof fn lemma_mp4_pass_plausible(data: Seq<u8>, sector_offset: u64, from: int)
    requires
        0 <= from,
    ensures
        forall|k: int|
            0 <= k < mp4_pass(data, sector_offset, from).len() ==> {
                let find = #[trigger] mp4_pass(data, sector_offset, from)[k];
                &&& find.confidence >= MIN_CONFIDENCE
                &&& find.estimated_size >= MIN_PLAUSIBLE_SIZE
            },
    decreases data.len() - from,
{
    if from + 20 < data.len() {
        lemma_mp4_pass_plausible(data, sector_offset, from + 1);
        let all = mp4_pass(data, sector_offset, from);
        let rest = mp4_pass(data, sector_offset, from + 1);
        if mp4_found_at(data, from) {
            assert forall|k: int| 0 <= k < all.len() implies {
                let find = #[trigger] all[k];
                &&& find.confidence >= MIN_CONFIDENCE
                &&& find.estimated_size >= MIN_PLAUSIBLE_SIZE
            } by {
                if k > 0 {
                    assert(all[k] == rest[k - 1]);
                }
            }
        }
    }
}

/// No find is rated below `MIN_CONFIDENCE` or smaller than
/// `MIN_PLAUSIBLE_SIZE`: what is rated or sized below that is dropped, in
/// both passes.
pub proof fn lemma_finds_are_plausible(
    data: Seq<u8>,
    sector_offset: u64,
    index: Map<u16, Vec<FileSignature>>,
)
    ensures
        forall|k: int|
            0 <= k < carved_from(data, sector_offset, index).len() ==> {
                let find = #[trigger] carved_from(data, sector_offset, index)[k];
                &&& find.confidence >= MIN_CONFIDENCE
                &&& find.estimated_size >= MIN_PLAUSIBLE_SIZE
            },
{
    lemma_mp4_pass_plausible(data, sector_offset, 0);
    lemma_signature_pass_plausible(data, sector_offset, index, 0);
    let first = mp4_pass(data, sector_offset, 0);
    let second = signature_pass(data, sector_offset, index, 0);
    let all = carved_from(data, sector_offset, index);
    assert forall|k: int| 0 <= k < all.len() implies {
        let find = #[trigger] all[k];
        &&& find.confidence >= MIN_CONFIDENCE
        &&& find.estimated_size >= MIN_PLAUSIBLE_SIZE
    } by {
        if k < first.len() {
            assert(all[k] == first[k]);
        } else {
            assert(all[k] == second[k - first.len()]);
        }
    }
}

fn header_hex(data: &[u8], start: usize) -> (r: String)
    requires
        start <= data.len(),
    ensures
        r@ == hex_text(header_bytes(data@, start as int)),
{
    let end: usize = if data.len() - start >= 16 {
        start + 16
    } else {
        data.len()
    };
    hex_encode(&data[start..end])
}

fn is_mp4_start(data: &[u8], start: usize) -> (r: bool)
    ensures
        r == mp4_starts_at(data@, start as int),
{
    let len: usize = data.len();
    if len < 21 || start >= len - 20 {
        return false;
    }
    if !match_at(data, start + 4, &[0x66, 0x74, 0x79, 0x70]) {
        return false;
    }
    let box_size: u32 = read_be_u32(data, start);
    box_size >= 8 && box_size <= 64 && known_brand_at(data, start + 8)
}

fn mp4_find_size(data: &[u8], start: usize) -> (r: Option<u64>)
    ensures
        match r {
            Some(size) => mp4_found_at(data@, start as int) && size == mp4_size(
                data@.skip(start as int),
            ),
            None => !mp4_found_at(data@, start as int),
        },
{
    if !is_mp4_start(data, start) {
        return None;
    }
    let tail = &data[start..data.len()];
    assert(tail@ =~= data@.skip(start as int));
    let size: u64 = estimate_mp4_size(tail);
    if size >= MIN_PLAUSIBLE_SIZE {
        Some(size)
    } else {
        None
    }
}

fn find_hit(sigs: &Vec<FileSignature>, data: &[u8], at: usize) -> (r: Option<(usize, u8, u64)>)
    requires
        at <= data.len(),
    ensures
        match r {
            Some(hit) => {
                &&& first_hit(sigs@, data@, at as int, 0) == Some(hit.0 as int)
                &&& hit.0 < sigs@.len()
                &&& hit.1 == confidence_of(sigs@[hit.0 as int].extension@, data@.skip(at as int))
                &&& hit.2 == size_estimate(sigs@[hit.0 as int], data@.skip(at as int))
            },
            None => first_hit(sigs@, data@, at as int, 0).is_none(),
        },
{
    let rest = &data[at..data.len()];
    assert(rest@ =~= data@.skip(at as int));
    let mut k: usize = 0;
    while k < sigs.len()
        invariant
            k <= sigs.len(),
            rest@ == data@.skip(at as int),
            first_hit(sigs@, data@, at as int, k as int) == first_hit(sigs@, data@, at as int, 0),
        decreases sigs.len() - k,
    {
        let sig = &sigs[k];
        if match_at(data, at, sig.header) {
            let confidence: u8 = validate_signature(sig, rest);
            if confidence >= MIN_CONFIDENCE {
                let estimated_size: u64 = estimate_file_size(sig, rest);
                if estimated_size >= MIN_PLAUSIBLE_SIZE {
                    return Some((k, confidence, estimated_size));
                }
            }
        }
        k += 1;
    }
    None
}

/// Carves a buffer that starts at sector `sector_offset` of the volume.
pub fn carve_sector(
    data: &[u8],
    sector_offset: u64,
    signatures: &HashMap<u16, Vec<FileSignature>>,
) -> (carved: Vec<CarvedFile>)
    ensures
        carved_views(carved@) == carved_from(data@, sector_offset, signatures@),
        forall|a: int, b: int|
            0 <= a < b < carved@.len() ==> absolute_offset(#[trigger] carved@[a]@)
                != absolute_offset(#[trigger] carved@[b]@),
{
    let mut carved: Vec<CarvedFile> = Vec::new();
    let len: usize = data.len();
    assert(carved_views(carved@) =~= Seq::<CarvedFileView>::empty());
    let ghost first = mp4_pass(data@, sector_offset, 0);
    let ghost second = signature_pass(data@, sector_offset, signatures@, 0);
    let mut start: usize = 0;
    while len > 20 && start < len - 20
        invariant
            len == data.len(),
            start <= len,
            carved_views(carved@) + mp4_pass(data@, sector_offset, start as int) == first,
        decreases len - start,
    {
        let ghost before = carved_views(carved@);
        let ghost rest = mp4_pass(data@, sector_offset, start + 1);
        if let Some(estimated_size) = mp4_find_size(data, start) {
            let file = CarvedFile {
                sector_offset,
                byte_offset: start as u64,
                estimated_size,
                file_type: "MP4 Video".to_owned(),
                extension: "mp4".to_owned(),
                category: "Videos".to_owned(),
                confidence: 95,
                header_match: header_hex(data, start),
            };
            let ghost v = file@;
            carved.push(file);
            assert(carved_views(carved@) =~= before + seq![v]);
            assert((before + seq![v]) + rest =~= before + (seq![v] + rest));
        }
        start += 1;
    }
    assert(carved_views(carved@) + Seq::<CarvedFileView>::empty() =~= carved_views(carved@));
    let mut at: usize = 0;
    while len > 32 && at < len - 32
        invariant
            len == data.len(),
            at <= len,
            carved_views(carved@) + signature_pass(data@, sector_offset, signatures@, at as int)
                == first + second,
        decreases len - at,
    {
        let ghost before = carved_views(carved@);
        let ghost rest = signature_pass(data@, sector_offset, signatures@, at + 1);
        let key: u16 = read_le_u16(data, at);
        let mut found: bool = false;
        if mp4_find_size(data, at).is_none() {
            if let Some(sigs) = signatures.get(&key) {
                if let Some(hit) = find_hit(sigs, data, at) {
                    let sig = &sigs[hit.0];
                    let file = CarvedFile {
                        sector_offset,
                        byte_offset: at as u64,
                        estimated_size: hit.2,
                        file_type: sig.name.to_owned(),
                        extension: sig.extension.to_owned(),
                        category: sig.category.to_owned(),
                        confidence: hit.1,
                        header_match: header_hex(data, at),
                    };
                    let ghost v = file@;
                    carved.push(file);
                    assert(carved_views(carved@) =~= before + seq![v]);
                    assert((before + seq![v]) + rest =~= before + (seq![v] + rest));
                    found = true;
                }
            }
        }
        at += 1;
    }
    proof {
        assert(carved_views(carved@) + Seq::<CarvedFileView>::empty() =~= carved_views(carved@));
        lemma_carved_offsets_distinct(data@, sector_offset, signatures@);
        let all = carved_from(data@, sector_offset, signatures@);
        assert forall|a: int, b: int| 0 <= a < b < carved@.len() implies absolute_offset(
            #[trigger] carved@[a]@,
        ) != absolute_offset(#[trigger] carved@[b]@) by {
            assert(all[a] == carved@[a]@);
            assert(all[b] == carved@[b]@);
        }
    }
    carved
}

// ---------------------------------------------------------------------
// Statistics
// ---------------------------------------------------------------------

/// The number of records of `sigs` in category `category`.
pub open spec fn count_in_category(sigs: Seq<FileSignature>, category: Seq<char>) -> nat
    decreases sigs.len(),
{
    if sigs.len() == 0 {
        0
    } else if sigs.last().category@ == category {
        1 + count_in_category(sigs.drop_last(), category)
    } else {
        count_in_category(sigs.drop_last(), category)
    }
}

/// The categories of a list of per-category counts.
pub open spec fn stat_names(stats: Seq<(String, usize)>) -> Seq<Seq<char>> {
    Seq::new(stats.len(), |i: int| stats[i].0@)
}

/// The categories of the first `upto` records, each once, in the order in
/// which they first appear.
pub open spec fn categories_in_order(sigs: Seq<FileSignature>, upto: int) -> Seq<Seq<char>>
    decreases upto,
{
    if upto <= 0 {
        Seq::empty()
    } else {
        let before = categories_in_order(sigs, upto - 1);
        if before.contains(sigs[upto - 1].category@) {
            before
        } else {
            before.push(sigs[upto - 1].category@)
        }
    }
}

/// `stats` counts the records of `sigs` by category: no category stands
/// twice, each count is the number of records of its category and is not
/// zero, and every category of a record stands in it.
pub open spec fn counts_categories(stats: Seq<(String, usize)>, sigs: Seq<FileSignature>) -> bool {
    &&& forall|a: int, b: int|
        0 <= a < b < stats.len() ==> (#[trigger] stats[a]).0@ != (#[trigger] stats[b]).0@
    &&& forall|a: int|
        0 <= a < stats.len() ==> (#[trigger] stats[a]).1 == count_in_category(sigs, stats[a].0@)
            && stats[a].1 > 0
    &&& forall|i: int|
        0 <= i < sigs.len() ==> stat_names(stats).contains((#[trigger] sigs[i]).category@)
}

/// Counts the records of a catalogue by category, in order of first
/// appearance.
pub fn count_by_category(sigs: &Vec<FileSignature>) -> (stats: Vec<(String, usize)>)
    ensures
        counts_categories(stats@, sigs@),
        stat_names(stats@) == categories_in_order(sigs@, sigs@.len() as int),
{
    let mut stats: Vec<(String, usize)> = Vec::new();
    let mut i: usize = 0;
    assert(sigs@.take(0) =~= Seq::<FileSignature>::empty());
    while i < sigs.len()
        invariant
            i <= sigs.len(),
            counts_categories(stats@, sigs@.take(i as int)),
            stat_names(stats@) == categories_in_order(sigs@, i as int),
        decreases sigs.len() - i,
    {
        let ghost done = sigs@.take(i as int);
        let ghost names = stat_names(stats@);
        let ghost now = sigs@.take(i + 1);
        let ghost old_stats = stats@;
        let category = sigs[i].category;
        assert(now.drop_last() =~= done);
        assert(now.last() == sigs@[i as int]);
        let mut k: usize = 0;
        let mut place: Option<usize> = None;
        while k < stats.len()
            invariant_except_break
                place.is_none(),
                forall|j: int| 0 <= j < k ==> (#[trigger] stats@[j]).0@ != category@,
            invariant
                k <= stats.len(),
            ensures
                place matches Some(at) ==> at < stats@.len() && stats@[at as int].0@ == category@,
                place.is_none() ==> forall|j: int|
                    0 <= j < stats@.len() ==> (#[trigger] stats@[j]).0@ != category@,
            decreases stats.len() - k,
        {
            if crate::text::text_eq(stats[k].0.as_str(), category) {
                place = Some(k);
                break ;
            }
            k += 1;
        }
        match place {
            Some(at) => {
                let count: usize = stats[at].1;
                assert(count == count_in_category(done, category@));
                assert(count_in_category(done, category@) <= done.len()) by {
                    lemma_count_bound(done, category@);
                }
                let name = stats[at].0.clone();
                stats.set(at, (name, count + 1));
                assert(stat_names(stats@) =~= names);
                assert(names[at as int] == category@);
                assert forall|j: int| 0 <= j < stats@.len() implies (#[trigger] stats@[j]).0@
                    == old_stats[j].0@ by {}
                assert(counts_categories(stats@, now)) by {
                    assert forall|n: int| 0 <= n < now.len() implies stat_names(stats@).contains(
                        (#[trigger] now[n]).category@,
                    ) by {
                        if n < done.len() {
                            assert(done[n] == now[n]);
                            let w = choose|w: int|
                                0 <= w < stat_names(old_stats).len() && stat_names(old_stats)[w]
                                    == done[n].category@;
                            assert(stat_names(stats@)[w] == now[n].category@);
                        } else {
                            assert(stat_names(stats@)[at as int] == now[n].category@);
                        }
                    }
                }
            },
            None => {
                assert(count_in_category(done, category@) == 0) by {
                    lemma_count_zero(done, category@, old_stats);
                }
                stats.push((category.to_owned(), 1));
                assert(stat_names(stats@) =~= names.push(category@));
                assert(!names.contains(category@)) by {
                    if names.contains(category@) {
                        let w = choose|w: int| 0 <= w < names.len() && names[w] == category@;
                        assert(old_stats[w].0@ == category@);
                    }
                }
                assert(counts_categories(stats@, now)) by {
                    assert forall|n: int| 0 <= n < now.len() implies stat_names(stats@).contains(
                        (#[trigger] now[n]).category@,
                    ) by {
                        if n < done.len() {
                            assert(done[n] == now[n]);
                            let w = choose|w: int|
                                0 <= w < stat_names(old_stats).len() && stat_names(old_stats)[w]
                                    == done[n].category@;
                            assert(stat_names(stats@)[w] == now[n].category@);
                        } else {
                            assert(stat_names(stats@)[stats@.len() - 1] == now[n].category@);
                        }
                    }
                }
            },
        }
        i += 1;
    }
    assert(sigs@.take(sigs@.len() as int) =~= sigs@);
    stats
}

proof fn lemma_count_bound(sigs: Seq<FileSignature>, category: Seq<char>)
    ensures
        count_in_category(sigs, category) <= sigs.len(),
    decreases sigs.len(),
{
    if sigs.len() > 0 {
        lemma_count_bound(sigs.drop_last(), category);
    }
}

proof fn lemma_count_zero(sigs: Seq<FileSignature>, category: Seq<char>, stats: Seq<(String, usize)>)
    requires
        forall|i: int|
            0 <= i < sigs.len() ==> stat_names(stats).contains((#[trigger] sigs[i]).category@),
        forall|j: int| 0 <= j < stats.len() ==> (#[trigger] stats[j]).0@ != category,
    ensures
        count_in_category(sigs, category) == 0,
    decreases sigs.len(),
{
    if sigs.len() > 0 {
        let last = sigs.last();
        assert(stat_names(stats).contains(sigs[sigs.len() - 1].category@));
        let w = choose|w: int|
            0 <= w < stat_names(stats).len() && stat_names(stats)[w] == last.category@;
        assert(stats[w].0@ != category);
        assert forall|i: int| 0 <= i < sigs.drop_last().len() implies stat_names(stats).contains(
            (#[trigger] sigs.drop_last()[i]).category@,
        ) by {
            assert(sigs.drop_last()[i] == sigs[i]);
        }
        lemma_count_zero(sigs.drop_last(), category, stats);
    }
}

/// The number of records of the built-in catalogue in each category, in
/// order of first appearance.
pub fn get_signature_stats() -> (stats: Vec<(String, usize)>)
    ensures
        counts_categories(stats@, catalogue()),
        stat_names(stats@) == categories_in_order(catalogue(), catalogue().len() as int),
{
    let sigs = get_signatures();
    count_by_category(&sigs)
}

} // verus!
