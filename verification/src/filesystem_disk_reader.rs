//! Reading the Master File Table through the volume: where a record lies on
//! disk, what the system's replies mean, and in which order the ways of
//! reading a record are tried.

use vstd::prelude::*;
use vstd::slice::slice_to_vec;
use crate::bytes::{
    le_bytes_of, le_bytes_of_i64, le_i64, le_u16, le_u32, le_u48, le_u64, push_le, push_le_i64,
    read_le_i64, read_le_u16, read_le_u32, read_le_u48, read_le_u64,
};
use crate::data_runs::{parse_data_runs, runs_of, DataRun};
use crate::error::RecoveryError;
use crate::ntfs_parser::{attribute_at, name_units, NtfsBootSector, ATTRIBUTE_DATA};
use vstd::string::*;
use crate::text::{drive_letter, drive_letter_of, from_utf16_lossy, utf16_lossy};

verus! {

/// What is known of an opened volume.
#[derive(Clone, Debug)]
pub struct FileSystemDiskInfo {
    pub drive_letter: String,
    pub size: u64,
    pub is_encrypted: bool,
}

/// A deletion that the change journal recorded.
#[derive(Clone, Debug)]
pub struct UsnDeletedFile {
    pub file_name: String,
    pub mft_record: u64,
    pub parent_mft_record: u64,
    /// Seconds since 1970.
    pub timestamp: i64,
    pub file_attributes: u32,
    pub reason: u32,
}

pub ghost struct UsnDeletedFileView {
    pub file_name: Seq<char>,
    pub mft_record: u64,
    pub parent_mft_record: u64,
    pub timestamp: i64,
    pub file_attributes: u32,
    pub reason: u32,
}

impl View for UsnDeletedFile {
    type V = UsnDeletedFileView;

    open spec fn view(&self) -> UsnDeletedFileView {
        UsnDeletedFileView {
            file_name: self.file_name@,
            mft_record: self.mft_record,
            parent_mft_record: self.parent_mft_record,
            timestamp: self.timestamp,
            file_attributes: self.file_attributes,
            reason: self.reason,
        }
    }
}

/// A stretch of the Master File Table on disk: `cluster_count` clusters from
/// `physical_cluster` on. A list of extents is in the table's logical order.
#[derive(Clone, Copy, Debug, PartialEq, Eq, Structural)]
pub struct MftExtent {
    pub physical_cluster: u64,
    pub cluster_count: u64,
}

/// The ways of reading a record, in the order in which they are tried.
#[derive(Clone, Copy, Debug, PartialEq, Eq, Structural)]
pub enum ReadStrategy {
    /// Through the table opened as a file.
    OpenedMftFile,
    /// Through the system's record lookup.
    Fsctl,
    /// Through the table's own extents.
    DataRunMap,
    /// At the table's start plus the record's offset.
    NaiveOffset,
}

/// The first way to try: the opened table where there is one.
pub fn first_strategy(mft_file_open: bool) -> (r: ReadStrategy)
    ensures
        r == if mft_file_open {
            ReadStrategy::OpenedMftFile
        } else {
            ReadStrategy::Fsctl
        },
{
    if mft_file_open {
        ReadStrategy::OpenedMftFile
    } else {
        ReadStrategy::Fsctl
    }
}

/// The way that follows `failed` in the order, or `None` after the last.
pub open spec fn strategy_after(failed: ReadStrategy) -> Option<ReadStrategy> {
    match failed {
        ReadStrategy::OpenedMftFile => Some(ReadStrategy::Fsctl),
        ReadStrategy::Fsctl => Some(ReadStrategy::DataRunMap),
        ReadStrategy::DataRunMap => Some(ReadStrategy::NaiveOffset),
        ReadStrategy::NaiveOffset => None,
    }
}

/// The way to try after `failed` did not give the record.
pub fn next_strategy(failed: ReadStrategy) -> (r: Option<ReadStrategy>)
    ensures
        r == strategy_after(failed),
{
    match failed {
        ReadStrategy::OpenedMftFile => Some(ReadStrategy::Fsctl),
        ReadStrategy::Fsctl => Some(ReadStrategy::DataRunMap),
        ReadStrategy::DataRunMap => Some(ReadStrategy::NaiveOffset),
        ReadStrategy::NaiveOffset => None,
    }
}

/// The byte offset of record `record_number` from `start`, where records
/// take `record_size` bytes each; `None` where it does not fit in 64 bits.
pub fn record_offset(start: u64, record_number: u64, record_size: u64) -> (r: Option<u64>)
    ensures
        r == if start + record_number * record_size <= u64::MAX {
            Some((start + record_number * record_size) as u64)
        } else {
            None::<u64>
        },
{
    assert(record_number * record_size >= 0) by (nonlinear_arith)
        requires
            record_number >= 0,
            record_size >= 0,
    ;
    match record_number.checked_mul(record_size) {
        Some(within) => start.checked_add(within),
        None => None,
    }
}

/// The byte offset of the Master File Table on the volume; `None` where it
/// does not fit in 64 bits.
pub fn mft_byte_offset(boot: &NtfsBootSector) -> (r: Option<u64>)
    ensures
        r == if boot.mft_cluster * boot.cluster_size <= u64::MAX {
            Some((boot.mft_cluster * boot.cluster_size) as u64)
        } else {
            None::<u64>
        },
{
    boot.mft_cluster.checked_mul(boot.cluster_size as u64)
}

/// Where a stretch of clusters lies: its byte offset and its length in
/// bytes; `None` where either does not fit.
pub fn cluster_span(cluster_offset: u64, cluster_count: u64, cluster_size: u64) -> (r: Option<
    (u64, usize),
>)
    ensures
        r == if cluster_offset * cluster_size <= u64::MAX && cluster_count * cluster_size
            <= usize::MAX && cluster_count * cluster_size <= u64::MAX {
            Some(((cluster_offset * cluster_size) as u64, (cluster_count * cluster_size) as usize))
        } else {
            None::<(u64, usize)>
        },
{
    match cluster_offset.checked_mul(cluster_size) {
        Some(byte_offset) => match cluster_count.checked_mul(cluster_size) {
            Some(byte_size) => if byte_size <= usize::MAX as u64 {
                Some((byte_offset, byte_size as usize))
            } else {
                None
            },
            None => None,
        },
        None => None,
    }
}

/// What the system's record lookup answered, for a request for
/// `record_number`. The reply starts with the file reference of the record
/// that it holds and the length of that record; the record follows.
///
/// The system answers a request for a freed record with the nearest record
/// in use. So a reply that holds another record than the one asked for is a
/// freed slot, never the record.
pub open spec fn record_reply(reply: Seq<u8>, record_number: u64, record_size: int) -> Result<
    Seq<u8>,
    RecoveryError,
> {
    if reply.len() < 12 || reply.len() < 12 + le_u32(reply, 8) {
        Err(RecoveryError::Io)
    } else if le_u48(reply, 0) != record_number {
        Err(RecoveryError::FreedSlot)
    } else if le_u32(reply, 8) <= record_size {
        Ok(reply.subrange(12, 12 + le_u32(reply, 8)))
    } else {
        Ok(reply.subrange(12, 12 + record_size))
    }
}

/// A reply that is whole and holds another record than the one asked for
/// is reported as a freed slot, whatever record it holds instead.
pub proof fn lemma_freed_slot_guard(reply: Seq<u8>, record_number: u64, record_size: int)
    requires
        reply.len() >= 12,
        reply.len() >= 12 + le_u32(reply, 8),
        le_u48(reply, 0) != record_number,
    ensures
        record_reply(reply, record_number, record_size) == Err::<Seq<u8>, RecoveryError>(
            RecoveryError::FreedSlot,
        ),
{
}

/// Takes the record out of a reply of the system's record lookup.
pub fn check_record_reply(reply: &[u8], record_number: u64, record_size: usize) -> (r: Result<
    Vec<u8>,
    RecoveryError,
>)
    ensures
        match r {
            Ok(record) => record_reply(reply@, record_number, record_size as int) == Ok::<
                Seq<u8>,
                RecoveryError,
            >(record@),
            Err(e) => record_reply(reply@, record_number, record_size as int) == Err::<
                Seq<u8>,
                RecoveryError,
            >(e),
        },
        r.is_ok() ==> le_u48(reply@, 0) == record_number,
{
    if reply.len() < 12 {
        return Err(RecoveryError::Io);
    }
    let record_length: usize = read_le_u32(reply, 8) as usize;
    if reply.len() - 12 < record_length {
        return Err(RecoveryError::Io);
    }
    let returned: u64 = read_le_u48(reply, 0);
    if returned != record_number {
        return Err(RecoveryError::FreedSlot);
    }
    let take: usize = if record_length <= record_size {
        record_length
    } else {
        record_size
    };
    Ok(slice_to_vec(&reply[12..12 + take]))
}

/// The offset of the first attribute from `at` on that is the unnamed,
/// non-resident data stream with a full header.
pub open spec fn unnamed_data_from(record: Seq<u8>, at: int) -> Option<int>
    decreases record.len() - at,
{
    if !attribute_at(record, at) {
        None
    } else if le_u32(record, at) == ATTRIBUTE_DATA && le_u32(record, at + 4) >= 64 && record[at + 8]
        != 0 && record[at + 9] == 0 {
        Some(at)
    } else {
        unnamed_data_from(record, at + le_u32(record, at + 4))
    }
}

/// The buffer starts like a record of the table: `FILE`, and room for the
/// header.
pub open spec fn has_record_header(record: Seq<u8>) -> bool {
    &&& record.len() >= 56
    &&& record[0] == 0x46
    &&& record[1] == 0x49
    &&& record[2] == 0x4C
    &&& record[3] == 0x45
}

/// The offset of the unnamed non-resident data stream of a record.
pub open spec fn unnamed_data_of(record: Seq<u8>) -> Option<int> {
    if has_record_header(record) {
        unnamed_data_from(record, le_u16(record, 0x14))
    } else {
        None
    }
}

fn find_unnamed_data(record: &[u8]) -> (r: Option<usize>)
    ensures
        match r {
            Some(at) => unnamed_data_of(record@) == Some(at as int) && at + 64 <= record.len()
                && at + le_u32(record@, at + 4) <= record.len() && le_u32(record@, at + 4) >= 64,
            None => unnamed_data_of(record@).is_none(),
        },
{
    let len: usize = record.len();
    if len < 56 || record[0] != 0x46 || record[1] != 0x49 || record[2] != 0x4C || record[3]
        != 0x45 {
        return None;
    }
    let first: usize = read_le_u16(record, 0x14) as usize;
    let mut at: usize = first;
    loop
        invariant
            len == record.len(),
            len >= 56,
            has_record_header(record@),
            unnamed_data_from(record@, at as int) == unnamed_data_from(record@, first as int),
            first == le_u16(record@, 0x14),
        decreases len - at,
    {
        if at > len - 8 {
            return None;
        }
        let kind: u32 = read_le_u32(record, at);
        if kind == 0 || kind == 0xFFFF_FFFF {
            return None;
        }
        let attr_len: usize = read_le_u32(record, at + 4) as usize;
        if attr_len == 0 || attr_len > len - at {
            return None;
        }
        if kind == ATTRIBUTE_DATA && attr_len >= 64 && record[at + 8] != 0 && record[at + 9] == 0 {
            return Some(at);
        }
        at = at + attr_len;
    }
}

/// The extents among a list of runs: those that are stored and not empty.
pub open spec fn extents_of_runs(runs: Seq<DataRun>) -> Seq<MftExtent>
    decreases runs.len(),
{
    if runs.len() == 0 {
        Seq::empty()
    } else {
        let rest = extents_of_runs(runs.drop_last());
        if runs.last().cluster_offset > 0 && runs.last().cluster_count > 0 {
            rest.push(
                MftExtent {
                    physical_cluster: runs.last().cluster_offset as u64,
                    cluster_count: runs.last().cluster_count,
                },
            )
        } else {
            rest
        }
    }
}

/// The extents of the Master File Table, as its own record describes them;
/// a parse error where the record has no unnamed non-resident data stream
/// or that stream's run list starts outside the attribute.
pub open spec fn mft_extents_of(record0: Seq<u8>) -> Result<Seq<MftExtent>, RecoveryError> {
    match unnamed_data_of(record0) {
        Some(at) => {
            let attr = record0.subrange(at, at + le_u32(record0, at + 4));
            if le_u16(attr, 32) > attr.len() {
                Err(RecoveryError::ParseError)
            } else {
                Ok(extents_of_runs(runs_of(attr.skip(le_u16(attr, 32)))))
            }
        },
        None => Err(RecoveryError::ParseError),
    }
}

/// Builds the map of the table's extents from record 0.
pub fn build_mft_data_run_map(record0: &[u8]) -> (r: Result<Vec<MftExtent>, RecoveryError>)
    ensures
        match r {
            Ok(extents) => mft_extents_of(record0@) == Ok::<Seq<MftExtent>, RecoveryError>(
                extents@,
            ),
            Err(e) => mft_extents_of(record0@) == Err::<Seq<MftExtent>, RecoveryError>(e),
        },
{
    match find_unnamed_data(record0) {
        Some(at) => {
            let attr_len: usize = read_le_u32(record0, at + 4) as usize;
            let attr = &record0[at..at + attr_len];
            let runs_offset: usize = read_le_u16(attr, 32) as usize;
            if runs_offset > attr_len {
                return Err(RecoveryError::ParseError);
            }
            let list = &attr[runs_offset..attr_len];
            assert(list@ =~= attr@.skip(runs_offset as int));
            let runs = parse_data_runs(list);
            let mut extents: Vec<MftExtent> = Vec::new();
            let mut i: usize = 0;
            while i < runs.len()
                invariant
                    i <= runs.len(),
                    extents@ == extents_of_runs(runs@.take(i as int)),
                decreases runs.len() - i,
            {
                let run = runs[i];
                assert(runs@.take(i + 1).drop_last() =~= runs@.take(i as int));
                if run.cluster_offset > 0 && run.cluster_count > 0 {
                    extents.push(
                        MftExtent {
                            physical_cluster: run.cluster_offset as u64,
                            cluster_count: run.cluster_count,
                        },
                    );
                }
                i += 1;
            }
            assert(runs@.take(runs@.len() as int) =~= runs@);
            Ok(extents)
        },
        None => Err(RecoveryError::ParseError),
    }
}

/// The number of records of the table: the real size of its unnamed data
/// stream over the record size. `None` where record 0 has no such stream or
/// the record size is zero.
pub open spec fn mft_record_count(record0: Seq<u8>, record_size: u64) -> Option<u64> {
    match unnamed_data_of(record0) {
        Some(at) => if record_size == 0 {
            None
        } else {
            Some((le_u64(record0, at + 0x30) / record_size as int) as u64)
        },
        None => None,
    }
}

pub fn get_mft_total_records(record0: &[u8], record_size: u64) -> (r: Option<u64>)
    ensures
        r == mft_record_count(record0@, record_size),
{
    match find_unnamed_data(record0) {
        Some(at) => {
            if record_size == 0 {
                None
            } else {
                let real_size: u64 = read_le_u64(record0, at + 0x30);
                Some(real_size / record_size)
            }
        },
        None => None,
    }
}

/// The number of clusters that a list of extents covers.
pub open spec fn total_clusters(extents: Seq<MftExtent>) -> int
    decreases extents.len(),
{
    if extents.len() == 0 {
        0
    } else {
        extents[0].cluster_count + total_clusters(extents.drop_first())
    }
}

/// The index of the extent that holds the logical cluster `cluster` of the
/// table.
pub open spec fn extent_index(extents: Seq<MftExtent>, cluster: int) -> Option<int>
    decreases extents.len(),
{
    if extents.len() == 0 || cluster < 0 {
        None
    } else if cluster < extents[0].cluster_count {
        Some(0)
    } else {
        match extent_index(extents.drop_first(), cluster - extents[0].cluster_count) {
            Some(k) => Some(k + 1),
            None => None,
        }
    }
}

/// The number of clusters of the table that lie in front of extent `k`.
pub open spec fn window_start(extents: Seq<MftExtent>, k: int) -> int
    decreases k,
{
    if k <= 0 || extents.len() == 0 {
        0
    } else {
        extents[0].cluster_count + window_start(extents.drop_first(), k - 1)
    }
}

/// The number of bytes that an extent holds.
pub open spec fn extent_bytes(extent: MftExtent, cluster_size: int) -> int {
    extent.cluster_count * cluster_size
}

/// The byte of the volume at which record `record_number` starts: the
/// start of the extent whose window of logical clusters holds the cluster
/// in which the record starts, and behind it the logical byte of the
/// record modulo the number of bytes of that extent.
pub open spec fn record_position(
    extents: Seq<MftExtent>,
    record_number: int,
    record_size: int,
    cluster_size: int,
) -> Option<int> {
    let logical_byte = record_number * record_size;
    match extent_index(extents, logical_byte / cluster_size) {
        Some(k) => Some(
            extents[k].physical_cluster * cluster_size + logical_byte % extent_bytes(
                extents[k],
                cluster_size,
            ),
        ),
        None => None,
    }
}

/// The byte of the volume at which a record starts; out of range where
/// the cluster size is zero, the record lies beyond the extents, or a
/// position does not fit in 64 bits.
pub open spec fn record_location(
    extents: Seq<MftExtent>,
    record_number: u64,
    record_size: u64,
    cluster_size: u64,
) -> Result<u64, RecoveryError> {
    if cluster_size == 0 || record_number * record_size > u64::MAX {
        Err(RecoveryError::OutOfRange)
    } else {
        match record_position(
            extents,
            record_number as int,
            record_size as int,
            cluster_size as int,
        ) {
            Some(p) => if p <= u64::MAX {
                Ok(p as u64)
            } else {
                Err(RecoveryError::OutOfRange)
            },
            None => Err(RecoveryError::OutOfRange),
        }
    }
}

/// Finds where a record lies on the volume.
#[verifier::loop_isolation(false)]
pub fn locate_record(
    extents: &Vec<MftExtent>,
    record_number: u64,
    record_size: u64,
    cluster_size: u64,
) -> (r: Result<u64, RecoveryError>)
    ensures
        r == record_location(extents@, record_number, record_size, cluster_size),
{
    if cluster_size == 0 {
        return Err(RecoveryError::OutOfRange);
    }
    assert(record_number * record_size >= 0) by (nonlinear_arith)
        requires
            record_number >= 0,
            record_size >= 0,
    ;
    let logical_byte: u64 = match record_number.checked_mul(record_size) {
        Some(b) => b,
        None => {
            return Err(RecoveryError::OutOfRange);
        },
    };
    let logical_cluster: u64 = logical_byte / cluster_size;
    let mut remaining: u64 = logical_cluster;
    let mut i: usize = 0;
    assert(extents@.skip(0) =~= extents@);
    while i < extents.len()
        invariant
            i <= extents.len(),
            cluster_size > 0,
            match extent_index(extents@.skip(i as int), remaining as int) {
                Some(k) => extent_index(extents@, logical_cluster as int) == Some(k + i),
                None => extent_index(extents@, logical_cluster as int).is_none(),
            },
        decreases extents.len() - i,
    {
        let extent = extents[i];
        assert(extents@.skip(i as int).drop_first() =~= extents@.skip(i + 1));
        assert(extents@.skip(i as int)[0] == extent);
        if remaining < extent.cluster_count {
            assert(extent_index(extents@, logical_cluster as int) == Some(i as int));
            let ghost length = extent_bytes(extent, cluster_size as int);
            assert(length >= cluster_size) by (nonlinear_arith)
                requires
                    length == extent.cluster_count * cluster_size,
                    extent.cluster_count >= 1,
                    cluster_size >= 1,
            ;
            let inside: u64 = match extent.cluster_count.checked_mul(cluster_size) {
                Some(length) => logical_byte % length,
                None => {
                    proof {
                        vstd::arithmetic::div_mod::lemma_small_mod(
                            logical_byte as nat,
                            length as nat,
                        );
                    }
                    logical_byte
                },
            };
            assert(extent.physical_cluster * cluster_size >= 0) by (nonlinear_arith)
                requires
                    extent.physical_cluster >= 0,
                    cluster_size > 0,
            ;
            let start: u64 = match extent.physical_cluster.checked_mul(cluster_size) {
                Some(b) => b,
                None => {
                    return Err(RecoveryError::OutOfRange);
                },
            };
            return match start.checked_add(inside) {
                Some(place) => Ok(place),
                None => Err(RecoveryError::OutOfRange),
            };
        }
        remaining = remaining - extent.cluster_count;
        i += 1;
    }
    Err(RecoveryError::OutOfRange)
}

/// A logical cluster of the table lies in an extent exactly when it lies
/// below the number of clusters that the extents cover, and then in the
/// window of exactly one extent, which is not empty.
pub proof fn lemma_extent_map_covers(extents: Seq<MftExtent>, cluster: int)
    ensures
        extent_index(extents, cluster).is_some() <==> 0 <= cluster < total_clusters(extents),
        extent_index(extents, cluster) matches Some(k) ==> {
            &&& 0 <= k < extents.len()
            &&& window_start(extents, k) <= cluster < window_start(extents, k)
                + extents[k].cluster_count
            &&& window_start(extents, k) >= 0
        },
        total_clusters(extents) >= 0,
    decreases extents.len(),
{
    if extents.len() > 0 {
        let rest = extents.drop_first();
        lemma_extent_map_covers(rest, cluster - extents[0].cluster_count);
        lemma_extent_map_covers(rest, 0);
        match extent_index(extents, cluster) {
            Some(k) => {
                if k > 0 {
                    assert(rest[k - 1] == extents[k]);
                }
            },
            None => {},
        }
    }
}

/// Every record that starts below the number of bytes that the extents
/// cover has a position on the volume, and no other record has one.
pub proof fn lemma_record_covered(
    extents: Seq<MftExtent>,
    record_number: int,
    record_size: int,
    cluster_size: int,
)
    requires
        cluster_size > 0,
        record_number >= 0,
        record_size >= 0,
    ensures
        record_position(extents, record_number, record_size, cluster_size).is_some()
            <==> record_number * record_size < total_clusters(extents) * cluster_size,
{
    let logical_byte = record_number * record_size;
    let total = total_clusters(extents);
    assert(logical_byte >= 0) by (nonlinear_arith)
        requires
            logical_byte == record_number * record_size,
            record_number >= 0,
            record_size >= 0,
    ;
    lemma_extent_map_covers(extents, logical_byte / cluster_size);
    vstd::arithmetic::div_mod::lemma_fundamental_div_mod(logical_byte, cluster_size);
    let q = logical_byte / cluster_size;
    let r = logical_byte % cluster_size;
    assert(0 <= r < cluster_size);
    if q < total {
        assert(cluster_size * q + r < total * cluster_size) by (nonlinear_arith)
            requires
                q + 1 <= total,
                0 <= r < cluster_size,
        ;
    } else {
        assert(cluster_size * q + r >= total * cluster_size) by (nonlinear_arith)
            requires
                q >= total,
                0 <= r,
                cluster_size > 0,
        ;
    }
    assert(q >= 0) by (nonlinear_arith)
        requires
            logical_byte == cluster_size * q + r,
            logical_byte >= 0,
            0 <= r < cluster_size,
            cluster_size > 0,
    ;
}

/// Two records that start in the same extent, with no multiple of the
/// length of that extent between their logical bytes, lie as far apart on
/// the volume as in the table: the position grows with the record number.
pub proof fn lemma_record_positions_ordered(
    extents: Seq<MftExtent>,
    first: int,
    second: int,
    record_size: int,
    cluster_size: int,
)
    requires
        cluster_size > 0,
        record_size > 0,
        0 <= first < second,
        extent_index(extents, first * record_size / cluster_size) matches Some(k)
            && extent_index(extents, second * record_size / cluster_size) == Some(k) && first
            * record_size / extent_bytes(extents[k], cluster_size) == second * record_size
            / extent_bytes(extents[k], cluster_size),
    ensures
        record_position(extents, first, record_size, cluster_size).is_some(),
        record_position(extents, second, record_size, cluster_size).is_some(),
        record_position(extents, second, record_size, cluster_size).unwrap() - record_position(
            extents,
            first,
            record_size,
            cluster_size,
        ).unwrap() == (second - first) * record_size,
        record_position(extents, first, record_size, cluster_size).unwrap() < record_position(
            extents,
            second,
            record_size,
            cluster_size,
        ).unwrap(),
{
    let lb1 = first * record_size;
    let lb2 = second * record_size;
    let k = extent_index(extents, lb1 / cluster_size).unwrap();
    let length = extent_bytes(extents[k], cluster_size);
    lemma_extent_map_covers(extents, lb1 / cluster_size);
    assert(length > 0) by (nonlinear_arith)
        requires
            length == extents[k].cluster_count * cluster_size,
            extents[k].cluster_count >= 1,
            cluster_size >= 1,
    ;
    vstd::arithmetic::div_mod::lemma_fundamental_div_mod(lb1, length);
    vstd::arithmetic::div_mod::lemma_fundamental_div_mod(lb2, length);
    assert(lb2 - lb1 == (second - first) * record_size) by (nonlinear_arith)
        requires
            lb1 == first * record_size,
            lb2 == second * record_size,
    ;
    assert((second - first) * record_size > 0) by (nonlinear_arith)
        requires
            second - first > 0,
            record_size > 0,
    ;
}

/// Where the size of a cluster is a multiple of the size of a record, every
/// record that has a position lies wholly inside the extent that holds its
/// first cluster: it starts no earlier than the extent and ends no later.
pub proof fn lemma_record_inside_extent(
    extents: Seq<MftExtent>,
    record_number: int,
    record_size: int,
    cluster_size: int,
)
    requires
        cluster_size > 0,
        record_size > 0,
        cluster_size % record_size == 0,
        record_number >= 0,
        record_number * record_size < total_clusters(extents) * cluster_size,
    ensures
        extent_index(extents, record_number * record_size / cluster_size) matches Some(k) && ({
            let p = record_position(extents, record_number, record_size, cluster_size).unwrap();
            &&& 0 <= k < extents.len()
            &&& record_position(extents, record_number, record_size, cluster_size).is_some()
            &&& extents[k].physical_cluster * cluster_size <= p
            &&& p + record_size <= (extents[k].physical_cluster + extents[k].cluster_count)
                * cluster_size
        }),
{
    let lb = record_number * record_size;
    lemma_record_covered(extents, record_number, record_size, cluster_size);
    lemma_extent_map_covers(extents, lb / cluster_size);
    let k = extent_index(extents, lb / cluster_size).unwrap();
    let count = extents[k].cluster_count as int;
    let length = extent_bytes(extents[k], cluster_size);
    let per = cluster_size / record_size;
    vstd::arithmetic::div_mod::lemma_fundamental_div_mod(cluster_size, record_size);
    assert(length == record_size * (per * count)) by (nonlinear_arith)
        requires
            length == count * cluster_size,
            cluster_size == record_size * per,
    ;
    assert(length > 0) by (nonlinear_arith)
        requires
            length == count * cluster_size,
            count >= 1,
            cluster_size >= 1,
    ;
    assert(lb >= 0) by (nonlinear_arith)
        requires
            lb == record_number * record_size,
            record_number >= 0,
            record_size > 0,
    ;
    vstd::arithmetic::div_mod::lemma_fundamental_div_mod(lb, length);
    let q = lb / length;
    let inside = lb % length;
    // what lies inside the extent is a whole number of records
    let records_inside = record_number - q * (per * count);
    assert(inside == record_size * records_inside) by (nonlinear_arith)
        requires
            lb == length * q + inside,
            lb == record_number * record_size,
            length == record_size * (per * count),
            records_inside == record_number - q * (per * count),
    ;
    assert(records_inside < per * count) by (nonlinear_arith)
        requires
            inside == record_size * records_inside,
            inside < length,
            length == record_size * (per * count),
            record_size > 0,
    ;
    assert(inside + record_size <= length) by (nonlinear_arith)
        requires
            inside == record_size * records_inside,
            records_inside + 1 <= per * count,
            length == record_size * (per * count),
            record_size > 0,
    ;
    assert((extents[k].physical_cluster + count) * cluster_size == extents[k].physical_cluster
        * cluster_size + length) by (nonlinear_arith)
        requires
            length == count * cluster_size,
    ;
}

/// In an extent whose window starts at a multiple of its own length, as
/// the window of the first extent always does, the volume follows the
/// table: a record lies as far behind the start of the extent as its
/// logical byte lies behind the start of the window.
pub proof fn lemma_aligned_extent_follows_table(
    extents: Seq<MftExtent>,
    record_number: int,
    record_size: int,
    cluster_size: int,
)
    requires
        cluster_size > 0,
        record_size >= 0,
        record_number >= 0,
        extent_index(extents, record_number * record_size / cluster_size) matches Some(k)
            && window_start(extents, k) % extents[k].cluster_count as int == 0,
    ensures
        ({
            let k = extent_index(extents, record_number * record_size / cluster_size).unwrap();
            record_position(extents, record_number, record_size, cluster_size) == Some(
                extents[k].physical_cluster * cluster_size + (record_number * record_size
                    - window_start(extents, k) * cluster_size),
            )
        }),
{
    let lb = record_number * record_size;
    let lc = lb / cluster_size;
    let k = extent_index(extents, lc).unwrap();
    let count = extents[k].cluster_count as int;
    let start = window_start(extents, k);
    let length = extent_bytes(extents[k], cluster_size);
    lemma_extent_map_covers(extents, lc);
    vstd::arithmetic::div_mod::lemma_fundamental_div_mod(lb, cluster_size);
    vstd::arithmetic::div_mod::lemma_fundamental_div_mod(start, count);
    let m = start / count;
    let inside = lb - start * cluster_size;
    assert(0 <= inside < length) by (nonlinear_arith)
        requires
            inside == lb - start * cluster_size,
            lb == cluster_size * lc + lb % cluster_size,
            0 <= lb % cluster_size < cluster_size,
            start <= lc < start + count,
            length == count * cluster_size,
            cluster_size > 0,
    ;
    assert(lb == length * m + inside) by (nonlinear_arith)
        requires
            inside == lb - start * cluster_size,
            start == count * m,
            length == count * cluster_size,
    ;
    assert(length > 0) by (nonlinear_arith)
        requires
            length == count * cluster_size,
            count >= 1,
            cluster_size >= 1,
    ;
    vstd::arithmetic::div_mod::lemma_fundamental_div_mod_converse(lb, length, m, inside);
}

/// A slice of records that the change journal handed out.
#[derive(Clone, Debug)]
pub struct UsnBatch {
    /// Where the next read of the journal starts.
    pub next_usn: i64,
    /// The deletions of files among the records, in journal order.
    pub deleted: Vec<UsnDeletedFile>,
    /// The number of records in the slice.
    pub records_read: u64,
}

/// The reason bit of a deletion.
pub const USN_REASON_FILE_DELETE: u32 = 0x200;

/// The attribute bit of a directory.
pub const FILE_ATTRIBUTE_DIRECTORY: u32 = 0x10;

/// The most records that a scan of the journal reads.
pub const USN_RECORD_LIMIT: u64 = 10_000_000;

/// Seconds since 1970 for a journal timestamp in 100-nanosecond ticks since
/// 1601, rounded towards zero; zero where the timestamp is not positive.
pub open spec fn usn_timestamp(ticks: int) -> int {
    if ticks <= 0 {
        0
    } else if ticks >= 116_444_736_000_000_000 {
        (ticks - 116_444_736_000_000_000) / 10_000_000
    } else {
        -((116_444_736_000_000_000 - ticks) / 10_000_000)
    }
}

/// The size of a cluster that is taken where the volume does not tell.
pub const DEFAULT_CLUSTER_SIZE: u64 = 4096;

/// The number of bytes of a journal record in front of its name.
pub const USN_FIXED_PART: usize = 60;

/// A journal record starts at `at`: its fixed part of sixty bytes lies
/// inside the buffer, and its length is not zero and does not lead beyond
/// the buffer.
pub open spec fn usn_record_at(buf: Seq<u8>, at: int) -> bool {
    &&& 0 <= at
    &&& at + USN_FIXED_PART <= buf.len()
    &&& le_u32(buf, at) != 0
    &&& at + le_u32(buf, at) <= buf.len()
}

/// The record at `at` reports the deletion of a file that is no directory,
/// under a name that lies inside the buffer.
pub open spec fn usn_reports_deletion(buf: Seq<u8>, at: int) -> bool {
    &&& le_u16(buf, at + 56) > 0
    &&& at + le_u16(buf, at + 58) + le_u16(buf, at + 56) <= buf.len()
    &&& (le_u32(buf, at + 40) as u32) & USN_REASON_FILE_DELETE != 0
    &&& (le_u32(buf, at + 52) as u32) & FILE_ATTRIBUTE_DIRECTORY == 0
}

/// The deletion that the record at `at` reports.
pub open spec fn usn_deletion_at(buf: Seq<u8>, at: int) -> UsnDeletedFileView {
    UsnDeletedFileView {
        file_name: utf16_lossy(
            name_units(buf, at + le_u16(buf, at + 58), le_u16(buf, at + 56) / 2),
        ),
        mft_record: le_u48(buf, at + 8) as u64,
        parent_mft_record: le_u48(buf, at + 16) as u64,
        timestamp: usn_timestamp(le_i64(buf, at + 32)) as i64,
        file_attributes: le_u32(buf, at + 52) as u32,
        reason: le_u32(buf, at + 40) as u32,
    }
}

/// The deletions that the records from `at` on report.
pub open spec fn usn_deletions_from(buf: Seq<u8>, at: int) -> Seq<UsnDeletedFileView>
    decreases buf.len() - at,
{
    if usn_record_at(buf, at) {
        let found = if usn_reports_deletion(buf, at) {
            seq![usn_deletion_at(buf, at)]
        } else {
            Seq::empty()
        };
        found + usn_deletions_from(buf, at + le_u32(buf, at))
    } else {
        Seq::empty()
    }
}

/// The number of records from `at` on.
pub open spec fn usn_records_from(buf: Seq<u8>, at: int) -> nat
    decreases buf.len() - at,
{
    if usn_record_at(buf, at) {
        1 + usn_records_from(buf, at + le_u32(buf, at))
    } else {
        0
    }
}

/// The views of a list of deletions.
pub open spec fn deletion_views(files: Seq<UsnDeletedFile>) -> Seq<UsnDeletedFileView> {
    Seq::new(files.len(), |i: int| files[i]@)
}

fn usn_unix_time(ticks: i64) -> (r: i64)
    ensures
        r == usn_timestamp(ticks as int),
{
    if ticks <= 0 {
        0
    } else if ticks >= 116_444_736_000_000_000 {
        (ticks - 116_444_736_000_000_000) / 10_000_000
    } else {
        let behind: u64 = (116_444_736_000_000_000 - ticks) as u64;
        let seconds: u64 = behind / 10_000_000;
        0 - (seconds as i64)
    }
}

fn read_usn_deletion(buf: &[u8], at: usize) -> (r: UsnDeletedFile)
    requires
        usn_record_at(buf@, at as int),
        usn_reports_deletion(buf@, at as int),
    ensures
        r@ == usn_deletion_at(buf@, at as int),
{
    let len: usize = buf.len();
    assert(at + 60 <= len);
    let name_length: usize = read_le_u16(buf, at + 56) as usize;
    let name_offset: usize = read_le_u16(buf, at + 58) as usize;
    let name_start: usize = at + name_offset;
    let count: usize = name_length / 2;
    let mut units: Vec<u16> = Vec::new();
    let mut i: usize = 0;
    while i < count
        invariant
            i <= count,
            count == name_length / 2,
            name_start + name_length <= buf.len(),
            units@ == name_units(buf@, name_start as int, i as int),
        decreases count - i,
    {
        let unit: u16 = read_le_u16(buf, name_start + 2 * i);
        units.push(unit);
        assert(units@ =~= name_units(buf@, name_start as int, i + 1));
        i += 1;
    }
    UsnDeletedFile {
        file_name: from_utf16_lossy(units.as_slice()),
        mft_record: read_le_u48(buf, at + 8),
        parent_mft_record: read_le_u48(buf, at + 16),
        timestamp: usn_unix_time(read_le_i64(buf, at + 32)),
        file_attributes: read_le_u32(buf, at + 52),
        reason: read_le_u32(buf, at + 40),
    }
}

/// Decodes one reply of the journal read: the cursor for the next read, then
/// the records. `None` where the reply is too short to hold the cursor.
pub fn parse_usn_batch(reply: &[u8]) -> (r: Option<UsnBatch>)
    ensures
        r.is_some() <==> reply.len() >= 8,
        r matches Some(batch) ==> {
            &&& batch.next_usn == le_i64(reply@, 0)
            &&& deletion_views(batch.deleted@) == usn_deletions_from(reply@, 8)
            &&& batch.records_read == usn_records_from(reply@, 8)
        },
{
    let len: usize = reply.len();
    if len < 8 {
        return None;
    }
    let next_usn: i64 = read_le_i64(reply, 0);
    let mut deleted: Vec<UsnDeletedFile> = Vec::new();
    let mut records_read: u64 = 0;
    let mut at: usize = 8;
    assert(deletion_views(deleted@) =~= Seq::<UsnDeletedFileView>::empty());
    loop
        invariant
            len == reply.len(),
            8 <= at,
            records_read <= at,
            deletion_views(deleted@) + usn_deletions_from(reply@, at as int) == usn_deletions_from(
                reply@,
                8,
            ),
            records_read + usn_records_from(reply@, at as int) == usn_records_from(reply@, 8),
        ensures
            deletion_views(deleted@) == usn_deletions_from(reply@, 8),
            records_read == usn_records_from(reply@, 8),
        decreases len - at,
    {
        let ghost before = deletion_views(deleted@);
        if len < USN_FIXED_PART || at > len - USN_FIXED_PART {
            assert(before + Seq::<UsnDeletedFileView>::empty() =~= before);
            break ;
        }
        let record_length: usize = read_le_u32(reply, at) as usize;
        if record_length == 0 || record_length > len - at {
            assert(before + Seq::<UsnDeletedFileView>::empty() =~= before);
            break ;
        }
        let ghost rest = usn_deletions_from(reply@, at + record_length);
        let name_length: usize = read_le_u16(reply, at + 56) as usize;
        let name_offset: usize = read_le_u16(reply, at + 58) as usize;
        let reason: u32 = read_le_u32(reply, at + 40);
        let file_attributes: u32 = read_le_u32(reply, at + 52);
        if name_length > 0 && name_offset + name_length <= len - at && (reason
            & USN_REASON_FILE_DELETE) != 0 && (file_attributes & FILE_ATTRIBUTE_DIRECTORY) == 0 {
            let file = read_usn_deletion(reply, at);
            let ghost v = file@;
            deleted.push(file);
            assert(deletion_views(deleted@) =~= before + seq![v]);
            assert((before + seq![v]) + rest =~= before + (seq![v] + rest));
        } else {
            assert(before + (Seq::<UsnDeletedFileView>::empty() + rest) =~= before + rest);
        }
        records_read = records_read + 1;
        at = at + record_length;
    }
    Some(UsnBatch { next_usn, deleted, records_read })
}

/// Where the next read of the journal starts, or `None` where the scan of
/// the journal ends: the cursor did not advance, or more records were read
/// than the limit allows.
pub fn usn_next_start(start_usn: i64, next_usn: i64, total_records: u64) -> (r: Option<i64>)
    ensures
        r == if next_usn <= start_usn || total_records > USN_RECORD_LIMIT {
            None
        } else {
            Some(next_usn)
        },
{
    if next_usn <= start_usn || total_records > USN_RECORD_LIMIT {
        None
    } else {
        Some(next_usn)
    }
}

/// The path under which the Master File Table of a drive is opened as a
/// file.
pub fn mft_file_path(drive_text: &str) -> (r: String)
    ensures
        r@ == drive_letter_of(drive_text@) + ":\\$MFT"@,
{
    let mut path = drive_letter(drive_text).to_owned();
    path.append(":\\$MFT");
    path
}

/// Whether a drive can be read through the file system: the backup
/// privilege was granted and the table opened.
pub fn check_filesystem_access(privilege_enabled: bool, table_opened: bool) -> (r: Result<
    bool,
    String,
>)
    ensures
        r matches Ok(b) && b == (privilege_enabled && table_opened),
{
    Ok(privilege_enabled && table_opened)
}

/// The request for the record of a file reference: the reference in eight
/// bytes.
pub fn record_request(record_number: u64) -> (r: Vec<u8>)
    ensures
        r@ == le_bytes_of(record_number as nat, 8),
{
    let mut request: Vec<u8> = Vec::new();
    push_le(&mut request, record_number, 8);
    assert(Seq::<u8>::empty() + le_bytes_of(record_number as nat, 8) =~= le_bytes_of(
        record_number as nat,
        8,
    ));
    request
}

/// The room that a reply to a request for a record needs: the reference,
/// the length, the record, and some to spare.
pub fn record_reply_room(record_size: usize) -> (r: usize)
    ensures
        r == if record_size + 268 <= usize::MAX {
            (record_size + 268) as usize
        } else {
            usize::MAX
        },
{
    record_size.saturating_add(268)
}

/// What the change journal says of itself.
#[derive(Clone, Copy, Debug, PartialEq, Eq, Structural)]
pub struct JournalInfo {
    pub journal_id: u64,
    pub first_usn: i64,
    pub next_usn: i64,
}

/// What the reply to a query of the journal says: the identifier, the first
/// and the next cursor; `None` where the reply is too short.
pub fn parse_journal_info(reply: &[u8]) -> (r: Option<JournalInfo>)
    ensures
        r == if reply@.len() >= 24 {
            Some(
                JournalInfo {
                    journal_id: le_u64(reply@, 0) as u64,
                    first_usn: le_i64(reply@, 8) as i64,
                    next_usn: le_i64(reply@, 16) as i64,
                },
            )
        } else {
            None
        },
{
    if reply.len() < 24 {
        return None;
    }
    Some(
        JournalInfo {
            journal_id: read_le_u64(reply, 0),
            first_usn: read_le_i64(reply, 8),
            next_usn: read_le_i64(reply, 16),
        },
    )
}

/// The bytes of a request to read the journal from `start_usn` on for the
/// deletions of files: the cursor, the reason mask, three fields of zero,
/// and the identifier of the journal.
pub open spec fn journal_read_request_bytes(start_usn: i64, journal_id: u64) -> Seq<u8> {
    le_bytes_of_i64(start_usn) + le_bytes_of(USN_REASON_FILE_DELETE as nat, 4) + le_bytes_of(0, 4)
        + le_bytes_of(0, 8) + le_bytes_of(0, 8) + le_bytes_of(journal_id as nat, 8)
}

/// Writes a request to read the journal.
pub fn journal_read_request(start_usn: i64, journal_id: u64) -> (r: Vec<u8>)
    ensures
        r@ == journal_read_request_bytes(start_usn, journal_id),
{
    let mut request: Vec<u8> = Vec::new();
    push_le_i64(&mut request, start_usn);
    assert(request@ =~= le_bytes_of_i64(start_usn));
    push_le(&mut request, USN_REASON_FILE_DELETE as u64, 4);
    push_le(&mut request, 0, 4);
    push_le(&mut request, 0, 8);
    push_le(&mut request, 0, 8);
    push_le(&mut request, journal_id, 8);
    request
}

} // verus!
