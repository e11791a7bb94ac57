//! The NTFS boot sector and the records of the Master File Table.

use byteorder::{ByteOrder, LittleEndian};
use vstd::prelude::*;
use vstd::slice::slice_to_vec;
use vstd::string::*;
use crate::bytes::{
    le_i64, le_u16, le_u32, le_u48, le_u64, read_le_i64, read_le_u16, read_le_u32, read_le_u48,
    read_le_u64,
};
use crate::data_runs::{parse_data_runs, runs_of, DataRun};
use crate::error::RecoveryError;
use crate::fixup::{apply_fixup, fixed_up};
use crate::text::{
    chars_of, chars_rfind, from_utf16_lossy, last_index_of, lowercase, to_lowercase, utf16_lossy,
    utf8_len,
};

verus! {

/// The smallest buffer that is taken for a record.
pub const MFT_RECORD_SIZE: usize = 1024;

pub const ATTRIBUTE_STANDARD_INFORMATION: u32 = 0x10;

pub const ATTRIBUTE_FILE_NAME: u32 = 0x30;

pub const ATTRIBUTE_DATA: u32 = 0x80;

pub const ATTRIBUTE_END: u32 = 0xFFFF_FFFF;

/// The namespace byte of a name that exists only for DOS.
pub const NAMESPACE_DOS: u8 = 2;

/// What one record of the Master File Table says of a file.
#[derive(Clone, Debug)]
pub struct MftEntry {
    pub record_number: u64,
    pub file_name: String,
    pub parent_record: u64,
    pub file_size: u64,
    pub allocated_size: u64,
    pub created_time: i64,
    pub modified_time: i64,
    pub accessed_time: i64,
    pub is_deleted: bool,
    pub is_directory: bool,
    pub is_in_use: bool,
    pub data_runs: Vec<DataRun>,
    pub extension: String,
}

pub ghost struct MftEntryView {
    pub record_number: u64,
    pub file_name: Seq<char>,
    pub parent_record: u64,
    pub file_size: u64,
    pub allocated_size: u64,
    pub created_time: i64,
    pub modified_time: i64,
    pub accessed_time: i64,
    pub is_deleted: bool,
    pub is_directory: bool,
    pub is_in_use: bool,
    pub data_runs: Seq<DataRun>,
    pub extension: Seq<char>,
}

impl View for MftEntry {
    type V = MftEntryView;

    open spec fn view(&self) -> MftEntryView {
        MftEntryView {
            record_number: self.record_number,
            file_name: self.file_name@,
            parent_record: self.parent_record,
            file_size: self.file_size,
            allocated_size: self.allocated_size,
            created_time: self.created_time,
            modified_time: self.modified_time,
            accessed_time: self.accessed_time,
            is_deleted: self.is_deleted,
            is_directory: self.is_directory,
            is_in_use: self.is_in_use,
            data_runs: self.data_runs@,
            extension: self.extension@,
        }
    }
}

/// The geometry of a volume, as its boot sector gives it.
#[derive(Clone, Copy, Debug, PartialEq, Eq, Structural)]
pub struct NtfsBootSector {
    pub bytes_per_sector: u16,
    pub sectors_per_cluster: u8,
    pub mft_cluster: u64,
    pub mft_record_size: u32,
    pub cluster_size: u32,
}

/// `byteorder::LittleEndian::read_u16` on the bytes from `at` on. Nothing is
/// proved of it: the result is taken to be the little-endian value of the
/// two bytes at `at`.
#[verifier::external_body]
fn le_read_u16(data: &[u8], at: usize) -> (r: u16)
    requires
        at + 2 <= data.len(),
    ensures
        r as int == le_u16(data@, at as int),
{
    LittleEndian::read_u16(&data[at..])
}

/// `byteorder::LittleEndian::read_u64` on the bytes from `at` on. Nothing is
/// proved of it: the result is taken to be the little-endian value of the
/// eight bytes at `at`.
#[verifier::external_body]
fn le_read_u64(data: &[u8], at: usize) -> (r: u64)
    requires
        at + 8 <= data.len(),
    ensures
        r as int == le_u64(data@, at as int),
{
    LittleEndian::read_u64(&data[at..])
}

/// The buffer holds a boot sector with the NTFS mark at offset 3.
pub open spec fn is_ntfs_boot_sector(data: Seq<u8>) -> bool {
    &&& data.len() >= 512
    &&& data[3] == 0x4E
    &&& data[4] == 0x54
    &&& data[5] == 0x46
    &&& data[6] == 0x53
}

/// The record-size byte at offset 0x40, read as a signed number.
pub open spec fn record_size_hint(data: Seq<u8>) -> int {
    if data[0x40] >= 0x80 {
        data[0x40] as int - 0x100
    } else {
        data[0x40] as int
    }
}

/// The record size that a hint stands for: a positive hint counts clusters,
/// any other is the negated base-two logarithm of the size in bytes. A size
/// of two to the 32 or more cannot be held.
pub open spec fn record_size_of(hint: int, cluster_size: u32) -> Option<u32> {
    if hint > 0 {
        Some((hint * cluster_size) as u32)
    } else if hint > -32 {
        Some(1u32 << ((-hint) as u32))
    } else {
        None
    }
}

/// The geometry that a boot sector gives, or `None` where the buffer is no
/// NTFS boot sector or the record size cannot be held.
pub open spec fn boot_sector_of(data: Seq<u8>) -> Option<NtfsBootSector> {
    if !is_ntfs_boot_sector(data) {
        None
    } else {
        let bytes_per_sector = le_u16(data, 0x0B) as u16;
        let sectors_per_cluster = data[0x0D];
        let cluster_size = (bytes_per_sector * sectors_per_cluster) as u32;
        match record_size_of(record_size_hint(data), cluster_size) {
            Some(mft_record_size) => Some(
                NtfsBootSector {
                    bytes_per_sector,
                    sectors_per_cluster,
                    mft_cluster: le_u64(data, 0x30) as u64,
                    mft_record_size,
                    cluster_size,
                },
            ),
            None => None,
        }
    }
}

/// Decodes the boot sector of a volume.
pub fn parse_boot_sector(data: &[u8]) -> (r: Option<NtfsBootSector>)
    ensures
        r == boot_sector_of(data@),
{
    if data.len() < 512 {
        return None;
    }
    if data[3] != 0x4E || data[4] != 0x54 || data[5] != 0x46 || data[6] != 0x53 {
        return None;
    }
    let bytes_per_sector: u16 = le_read_u16(data, 0x0B);
    let sectors_per_cluster: u8 = data[0x0D];
    let mft_cluster: u64 = le_read_u64(data, 0x30);
    let raw: u8 = data[0x40];
    assert(bytes_per_sector * sectors_per_cluster <= 0xFFFF * 0xFF) by (nonlinear_arith)
        requires
            bytes_per_sector <= 0xFFFF,
            sectors_per_cluster <= 0xFF,
    ;
    let cluster_size: u32 = (bytes_per_sector as u32) * (sectors_per_cluster as u32);
    let mft_record_size: u32 = if 0 < raw && raw < 0x80 {
        assert(raw * cluster_size <= 0x7F * (0xFFFF * 0xFF)) by (nonlinear_arith)
            requires
                raw <= 0x7F,
                cluster_size <= 0xFFFF * 0xFF,
        ;
        (raw as u32) * cluster_size
    } else {
        let shift: u32 = if raw == 0 {
            0
        } else {
            0x100 - (raw as u32)
        };
        if shift >= 32 {
            return None;
        }
        1u32 << shift
    };
    Some(
        NtfsBootSector {
            bytes_per_sector,
            sectors_per_cluster,
            mft_cluster,
            mft_record_size,
            cluster_size,
        },
    )
}

/// The geometry that a boot sector gives; `NotNtfs` where the buffer is no
/// NTFS boot sector, a parse error where the record size cannot be held.
pub open spec fn geometry_of(data: Seq<u8>) -> Result<NtfsBootSector, RecoveryError> {
    if !is_ntfs_boot_sector(data) {
        Err(RecoveryError::NotNtfs)
    } else {
        match boot_sector_of(data) {
            Some(boot) => Ok(boot),
            None => Err(RecoveryError::ParseError),
        }
    }
}

/// Reads the geometry of a volume from its boot sector.
pub fn read_geometry(data: &[u8]) -> (r: Result<NtfsBootSector, RecoveryError>)
    ensures
        r == geometry_of(data@),
{
    match parse_boot_sector(data) {
        Some(boot) => Ok(boot),
        None => {
            if data.len() >= 512 && data[3] == 0x4E && data[4] == 0x54 && data[5] == 0x46
                && data[6] == 0x53 {
                Err(RecoveryError::ParseError)
            } else {
                Err(RecoveryError::NotNtfs)
            }
        },
    }
}

/// Seconds since 1970 for a count of 100-nanosecond ticks since 1601; zero
/// where the count is not positive.
pub open spec fn filetime_to_unix(ticks: int) -> int {
    if ticks <= 0 {
        0
    } else {
        ticks / 10_000_000 - 11_644_473_600
    }
}

pub fn unix_from_filetime(ticks: i64) -> (r: i64)
    ensures
        r == filetime_to_unix(ticks as int),
{
    if ticks <= 0 {
        0
    } else {
        ticks / 10_000_000 - 11_644_473_600
    }
}

/// The creation, modification and access times of a resident standard
/// information attribute, in seconds since 1970.
pub open spec fn standard_info_of(attr: Seq<u8>) -> Option<(i64, i64, i64)> {
    if attr.len() < 24 || attr[8] != 0 || le_u16(attr, 20) + 32 > attr.len() {
        None
    } else {
        let at = le_u16(attr, 20);
        Some(
            (
                filetime_to_unix(le_i64(attr, at)) as i64,
                filetime_to_unix(le_i64(attr, at + 8)) as i64,
                filetime_to_unix(le_i64(attr, at + 24)) as i64,
            ),
        )
    }
}

pub fn parse_standard_info(data: &[u8]) -> (r: Option<(i64, i64, i64)>)
    ensures
        r == standard_info_of(data@),
{
    if data.len() < 24 || data[8] != 0 {
        return None;
    }
    let at: usize = read_le_u16(data, 20) as usize;
    if at + 32 > data.len() {
        return None;
    }
    let created: i64 = read_le_i64(data, at);
    let modified: i64 = read_le_i64(data, at + 8);
    let accessed: i64 = read_le_i64(data, at + 24);
    Some((unix_from_filetime(created), unix_from_filetime(modified), unix_from_filetime(accessed)))
}

/// One file name attribute of a record.
#[derive(Clone, Debug)]
pub struct FileNameAttr {
    pub name: String,
    pub parent_record: u64,
    pub real_size: u64,
    pub allocated_size: u64,
    pub namespace: u8,
}

pub ghost struct FileNameAttrView {
    pub name: Seq<char>,
    pub parent_record: u64,
    pub real_size: u64,
    pub allocated_size: u64,
    pub namespace: u8,
}

impl View for FileNameAttr {
    type V = FileNameAttrView;

    open spec fn view(&self) -> FileNameAttrView {
        FileNameAttrView {
            name: self.name@,
            parent_record: self.parent_record,
            real_size: self.real_size,
            allocated_size: self.allocated_size,
            namespace: self.namespace,
        }
    }
}

/// The `n` UTF-16 code units stored little-endian from `at` on.
pub open spec fn name_units(s: Seq<u8>, at: int, n: int) -> Seq<u16> {
    Seq::new(n as nat, |i: int| le_u16(s, at + 2 * i) as u16)
}

/// What a resident file name attribute holds, or `None` where it is not
/// resident or too short for what it announces.
pub open spec fn file_name_of(attr: Seq<u8>) -> Option<FileNameAttrView> {
    if attr.len() < 24 || attr[8] != 0 || le_u16(attr, 20) + 66 > attr.len() {
        None
    } else {
        let at = le_u16(attr, 20);
        let n = attr[at + 64] as int;
        if at + 66 + 2 * n > attr.len() {
            None
        } else {
            Some(
                FileNameAttrView {
                    name: utf16_lossy(name_units(attr, at + 66, n)),
                    parent_record: le_u48(attr, at) as u64,
                    real_size: le_u64(attr, at + 48) as u64,
                    allocated_size: le_u64(attr, at + 40) as u64,
                    namespace: attr[at + 65],
                },
            )
        }
    }
}

pub fn parse_file_name_attr(data: &[u8]) -> (r: Option<FileNameAttr>)
    ensures
        match r {
            Some(f) => file_name_of(data@) == Some(f@),
            None => file_name_of(data@).is_none(),
        },
{
    if data.len() < 24 || data[8] != 0 {
        return None;
    }
    let at: usize = read_le_u16(data, 20) as usize;
    if at + 66 > data.len() {
        return None;
    }
    let parent_record: u64 = read_le_u48(data, at);
    let allocated_size: u64 = read_le_u64(data, at + 40);
    let real_size: u64 = read_le_u64(data, at + 48);
    let n: usize = data[at + 64] as usize;
    let namespace: u8 = data[at + 65];
    if at + 66 + 2 * n > data.len() {
        return None;
    }
    let mut units: Vec<u16> = Vec::new();
    let mut i: usize = 0;
    while i < n
        invariant
            i <= n,
            at + 66 + 2 * n <= data.len(),
            units@ == name_units(data@, at + 66, i as int),
        decreases n - i,
    {
        let unit: u16 = read_le_u16(data, at + 66 + 2 * i);
        units.push(unit);
        assert(units@ =~= name_units(data@, at + 66, i + 1));
        i += 1;
    }
    let name = from_utf16_lossy(units.as_slice());
    Some(FileNameAttr { name, parent_record, real_size, allocated_size, namespace })
}

/// The size and the runs of a data attribute: the content length of a
/// resident one, the real size and the decoded run list of a non-resident
/// one; `None` where the attribute is too short for its form.
pub open spec fn data_attr_of(attr: Seq<u8>) -> Option<(u64, Seq<DataRun>)> {
    if attr.len() < 24 {
        None
    } else if attr[8] == 0 {
        Some((le_u32(attr, 16) as u64, Seq::empty()))
    } else if attr.len() < 56 || le_u16(attr, 32) > attr.len() {
        None
    } else {
        Some((le_u64(attr, 48) as u64, runs_of(attr.skip(le_u16(attr, 32)))))
    }
}

pub fn parse_data_attr(data: &[u8]) -> (r: Option<(u64, Vec<DataRun>)>)
    ensures
        match r {
            Some(d) => data_attr_of(data@) == Some((d.0, d.1@)),
            None => data_attr_of(data@).is_none(),
        },
{
    if data.len() < 24 {
        return None;
    }
    if data[8] == 0 {
        let content_length: u32 = read_le_u32(data, 16);
        return Some((content_length as u64, Vec::new()));
    }
    if data.len() < 56 {
        return None;
    }
    let real_size: u64 = read_le_u64(data, 48);
    let runs_offset: usize = read_le_u16(data, 32) as usize;
    if runs_offset > data.len() {
        return None;
    }
    let list = &data[runs_offset..data.len()];
    assert(list@ =~= data@.skip(runs_offset as int));
    let data_runs = parse_data_runs(list);
    Some((real_size, data_runs))
}

/// What the attributes read so far have given.
#[derive(Debug)]
pub struct Walk {
    pub file_name: String,
    pub parent_record: u64,
    pub file_size: u64,
    pub allocated_size: u64,
    pub created_time: i64,
    pub modified_time: i64,
    pub accessed_time: i64,
    pub data_runs: Vec<DataRun>,
    /// A file name attribute gave the name.
    pub name_taken: bool,
    /// A file name attribute outside the DOS namespace gave the name.
    pub long_name_taken: bool,
}

pub ghost struct WalkView {
    pub file_name: Seq<char>,
    pub parent_record: u64,
    pub file_size: u64,
    pub allocated_size: u64,
    pub created_time: i64,
    pub modified_time: i64,
    pub accessed_time: i64,
    pub data_runs: Seq<DataRun>,
    pub name_taken: bool,
    pub long_name_taken: bool,
}

impl View for Walk {
    type V = WalkView;

    open spec fn view(&self) -> WalkView {
        WalkView {
            file_name: self.file_name@,
            parent_record: self.parent_record,
            file_size: self.file_size,
            allocated_size: self.allocated_size,
            created_time: self.created_time,
            modified_time: self.modified_time,
            accessed_time: self.accessed_time,
            data_runs: self.data_runs@,
            name_taken: self.name_taken,
            long_name_taken: self.long_name_taken,
        }
    }
}

/// The state before any attribute was read.
pub open spec fn walk_start() -> WalkView {
    WalkView {
        file_name: Seq::empty(),
        parent_record: 0,
        file_size: 0,
        allocated_size: 0,
        created_time: 0,
        modified_time: 0,
        accessed_time: 0,
        data_runs: Seq::empty(),
        name_taken: false,
        long_name_taken: false,
    }
}

/// Whether a file name attribute replaces the name held so far. A DOS name
/// is taken only while no name attribute was taken at all. Any other name
/// is taken over a DOS name, over an empty name, and over a name that is
/// shorter in UTF-8 bytes.
pub open spec fn name_wins(st: WalkView, f: FileNameAttrView) -> bool {
    if f.namespace == NAMESPACE_DOS {
        !st.name_taken
    } else {
        !st.long_name_taken || st.file_name.len() == 0 || utf8_len(f.name) > utf8_len(st.file_name)
    }
}

/// The state after a file name attribute. The name that wins also gives the
/// parent, and each of the two sizes that it holds as nonzero.
pub open spec fn absorb_file_name(st: WalkView, f: FileNameAttrView) -> WalkView {
    if name_wins(st, f) {
        WalkView {
            file_name: f.name,
            parent_record: f.parent_record,
            file_size: if f.real_size > 0 {
                f.real_size
            } else {
                st.file_size
            },
            allocated_size: if f.allocated_size > 0 {
                f.allocated_size
            } else {
                st.allocated_size
            },
            name_taken: true,
            long_name_taken: st.long_name_taken || f.namespace != NAMESPACE_DOS,
            ..st
        }
    } else {
        st
    }
}

/// The state after a data attribute. Only the unnamed stream counts: it
/// raises the size to its own, and gives the runs where it has more of them
/// than were held.
pub open spec fn absorb_data(st: WalkView, stream_name_len: u8, d: (u64, Seq<DataRun>)) -> WalkView {
    if stream_name_len != 0 {
        st
    } else {
        WalkView {
            file_size: if d.0 > st.file_size {
                d.0
            } else {
                st.file_size
            },
            data_runs: if d.1.len() > st.data_runs.len() {
                d.1
            } else {
                st.data_runs
            },
            ..st
        }
    }
}

/// The state after the attribute of type `kind` whose bytes are `attr`.
pub open spec fn absorb(st: WalkView, kind: u32, attr: Seq<u8>) -> WalkView {
    if kind == ATTRIBUTE_STANDARD_INFORMATION {
        match standard_info_of(attr) {
            Some(t) => WalkView { created_time: t.0, modified_time: t.1, accessed_time: t.2, ..st },
            None => st,
        }
    } else if kind == ATTRIBUTE_FILE_NAME {
        match file_name_of(attr) {
            Some(f) => absorb_file_name(st, f),
            None => st,
        }
    } else if kind == ATTRIBUTE_DATA {
        match data_attr_of(attr) {
            Some(d) => absorb_data(st, attr[9], d),
            None => st,
        }
    } else {
        st
    }
}

/// An attribute starts at `at`: its eight header bytes lie inside the
/// record, its type is neither zero nor the end mark, and its length is not
/// zero and does not lead beyond the record.
pub open spec fn attribute_at(record: Seq<u8>, at: int) -> bool {
    &&& 0 <= at
    &&& at + 8 <= record.len()
    &&& le_u32(record, at) != 0
    &&& le_u32(record, at) != ATTRIBUTE_END
    &&& le_u32(record, at + 4) != 0
    &&& at + le_u32(record, at + 4) <= record.len()
}

/// The state after the attributes from `at` on.
pub open spec fn walk_from(record: Seq<u8>, at: int, st: WalkView) -> WalkView
    decreases record.len() - at,
{
    if attribute_at(record, at) {
        let len = le_u32(record, at + 4);
        walk_from(
            record,
            at + len,
            absorb(st, le_u32(record, at) as u32, record.subrange(at, at + len)),
        )
    } else {
        st
    }
}

/// The extension of a file name: what follows its last dot, in lowercase;
/// empty where the name has no dot or that part takes more than ten bytes
/// as UTF-8.
pub open spec fn extension_of(name: Seq<char>) -> Seq<char> {
    match last_index_of(name, '.', name.len() as int) {
        Some(dot) => if utf8_len(name.skip(dot + 1)) <= 10 {
            lowercase(name.skip(dot + 1))
        } else {
            Seq::empty()
        },
        None => Seq::empty(),
    }
}

pub fn file_extension(name: &str) -> (r: String)
    ensures
        r@ == extension_of(name@),
{
    let chars = chars_of(name);
    let n: usize = chars.len();
    match chars_rfind(chars.as_slice(), '.') {
        Some(dot) => {
            let rest = name.substring_char(dot + 1, n);
            assert(rest@ =~= name@.skip(dot + 1));
            if rest.as_bytes().len() <= 10 {
                to_lowercase(rest)
            } else {
                String::new()
            }
        },
        None => String::new(),
    }
}

/// The fewest bytes that a record has: its header in front of the first
/// attribute.
pub const MIN_RECORD_SIZE: usize = 56;

/// The buffer holds a record: it is long enough for the header of one and
/// starts with `FILE`. No size of records is taken for granted.
pub open spec fn is_file_record(data: Seq<u8>) -> bool {
    &&& data.len() >= MIN_RECORD_SIZE
    &&& data[0] == 0x46
    &&& data[1] == 0x49
    &&& data[2] == 0x4C
    &&& data[3] == 0x45
}

/// The record with its update sequence array applied.
pub open spec fn repaired_record(data: Seq<u8>) -> Seq<u8> {
    fixed_up(data, le_u16(data, 4), le_u16(data, 6))
}

/// The entry that a record describes, or `None` where the buffer holds no
/// record.
pub open spec fn record_entry(data: Seq<u8>, record_number: u64) -> Option<MftEntryView> {
    if !is_file_record(data) {
        None
    } else {
        let record = repaired_record(data);
        let flags = le_u16(record, 0x16) as u16;
        let st = walk_from(record, le_u16(record, 0x14), walk_start());
        Some(
            MftEntryView {
                record_number,
                file_name: st.file_name,
                parent_record: st.parent_record,
                file_size: st.file_size,
                allocated_size: st.allocated_size,
                created_time: st.created_time,
                modified_time: st.modified_time,
                accessed_time: st.accessed_time,
                is_deleted: flags & 0x01 == 0,
                is_directory: flags & 0x02 != 0,
                is_in_use: flags & 0x01 != 0,
                data_runs: st.data_runs,
                extension: extension_of(st.file_name),
            },
        )
    }
}

fn take_file_name(st: Walk, f: FileNameAttr) -> (r: Walk)
    ensures
        r@ == absorb_file_name(st@, f@),
{
    let wins = if f.namespace == NAMESPACE_DOS {
        !st.name_taken
    } else {
        !st.long_name_taken || st.file_name.as_str().is_empty() || f.name.as_str().as_bytes().len()
            > st.file_name.as_str().as_bytes().len()
    };
    if wins {
        Walk {
            file_name: f.name,
            parent_record: f.parent_record,
            file_size: if f.real_size > 0 {
                f.real_size
            } else {
                st.file_size
            },
            allocated_size: if f.allocated_size > 0 {
                f.allocated_size
            } else {
                st.allocated_size
            },
            created_time: st.created_time,
            modified_time: st.modified_time,
            accessed_time: st.accessed_time,
            data_runs: st.data_runs,
            name_taken: true,
            long_name_taken: st.long_name_taken || f.namespace != NAMESPACE_DOS,
        }
    } else {
        st
    }
}

fn take_attribute(st: Walk, kind: u32, attr: &[u8]) -> (r: Walk)
    ensures
        r@ == absorb(st@, kind, attr@),
{
    if kind == ATTRIBUTE_STANDARD_INFORMATION {
        match parse_standard_info(attr) {
            Some(t) => Walk { created_time: t.0, modified_time: t.1, accessed_time: t.2, ..st },
            None => st,
        }
    } else if kind == ATTRIBUTE_FILE_NAME {
        match parse_file_name_attr(attr) {
            Some(f) => take_file_name(st, f),
            None => st,
        }
    } else if kind == ATTRIBUTE_DATA {
        match parse_data_attr(attr) {
            Some(d) => {
                if attr[9] != 0 {
                    st
                } else {
                    let file_size = if d.0 > st.file_size {
                        d.0
                    } else {
                        st.file_size
                    };
                    if d.1.len() > st.data_runs.len() {
                        Walk { file_size, data_runs: d.1, ..st }
                    } else {
                        Walk { file_size, ..st }
                    }
                }
            },
            None => st,
        }
    } else {
        st
    }
}

/// Decodes one record of the Master File Table.
pub fn parse_mft_record(data: &[u8], record_number: u64) -> (r: Option<MftEntry>)
    ensures
        match r {
            Some(e) => record_entry(data@, record_number) == Some(e@),
            None => record_entry(data@, record_number).is_none(),
        },
{
    if data.len() < MIN_RECORD_SIZE {
        return None;
    }
    if data[0] != 0x46 || data[1] != 0x49 || data[2] != 0x4C || data[3] != 0x45 {
        return None;
    }
    let update_seq_offset: u16 = le_read_u16(data, 4);
    let update_seq_size: u16 = le_read_u16(data, 6);
    let mut record: Vec<u8> = slice_to_vec(data);
    apply_fixup(&mut record, update_seq_offset as usize, update_seq_size as usize);
    proof {
        crate::fixup::lemma_fixed_up_len(data@, update_seq_offset as int, update_seq_size as int);
    }
    let flags: u16 = le_read_u16(record.as_slice(), 0x16);
    let first_attr_offset: u16 = le_read_u16(record.as_slice(), 0x14);
    let mut st = Walk {
        file_name: String::new(),
        parent_record: 0,
        file_size: 0,
        allocated_size: 0,
        created_time: 0,
        modified_time: 0,
        accessed_time: 0,
        data_runs: Vec::new(),
        name_taken: false,
        long_name_taken: false,
    };
    let mut at: usize = first_attr_offset as usize;
    let len: usize = record.len();
    loop
        invariant
            len == record@.len(),
            walk_from(record@, at as int, st@) == walk_from(
                record@,
                first_attr_offset as int,
                walk_start(),
            ),
        ensures
            st@ == walk_from(record@, first_attr_offset as int, walk_start()),
        decreases len - at,
    {
        if len < 8 || at > len - 8 {
            break ;
        }
        let kind: u32 = read_le_u32(record.as_slice(), at);
        if kind == ATTRIBUTE_END || kind == 0 {
            break ;
        }
        let attr_length: usize = read_le_u32(record.as_slice(), at + 4) as usize;
        if attr_length == 0 || attr_length > len - at {
            break ;
        }
        let attr = &record.as_slice()[at..at + attr_length];
        st = take_attribute(st, kind, attr);
        at = at + attr_length;
    }
    let extension = file_extension(st.file_name.as_str());
    let is_in_use: bool = (flags & 0x01) != 0;
    let is_directory: bool = (flags & 0x02) != 0;
    Some(
        MftEntry {
            record_number,
            file_name: st.file_name,
            parent_record: st.parent_record,
            file_size: st.file_size,
            allocated_size: st.allocated_size,
            created_time: st.created_time,
            modified_time: st.modified_time,
            accessed_time: st.accessed_time,
            is_deleted: !is_in_use,
            is_directory,
            is_in_use,
            data_runs: st.data_runs,
            extension,
        },
    )
}

/// The state after a list of file name attributes, taken in order.
pub open spec fn absorb_file_names(st: WalkView, names: Seq<FileNameAttrView>) -> WalkView
    decreases names.len(),
{
    if names.len() == 0 {
        st
    } else {
        absorb_file_names(absorb_file_name(st, names[0]), names.drop_first())
    }
}

/// Once a name outside the DOS namespace was taken, the name held is never
/// again one of the DOS namespace, whatever attributes follow.
pub proof fn lemma_long_name_stays(st: WalkView, names: Seq<FileNameAttrView>)
    requires
        st.long_name_taken,
        st.name_taken,
    ensures
        absorb_file_names(st, names).long_name_taken,
        absorb_file_names(st, names).file_name == st.file_name || exists|i: int|
            0 <= i < names.len() && names[i].namespace != NAMESPACE_DOS && absorb_file_names(
                st,
                names,
            ).file_name == #[trigger] names[i].name,
    decreases names.len(),
{
    if names.len() > 0 {
        let next = absorb_file_name(st, names[0]);
        let rest = names.drop_first();
        lemma_long_name_stays(next, rest);
        let end = absorb_file_names(st, names);
        if end.file_name != st.file_name {
            if end.file_name == next.file_name {
                assert(names[0].namespace != NAMESPACE_DOS && end.file_name == names[0].name);
            } else {
                let i = choose|i: int|
                    0 <= i < rest.len() && rest[i].namespace != NAMESPACE_DOS && end.file_name
                        == #[trigger] rest[i].name;
                assert(names[i + 1] == rest[i]);
            }
        }
    }
}

/// Of a DOS name and a name of another namespace, in either order, the
/// other one becomes the name of the entry; a DOS name alone is used.
pub proof fn lemma_file_name_precedence(dos: FileNameAttrView, long: FileNameAttrView)
    requires
        dos.namespace == NAMESPACE_DOS,
        long.namespace != NAMESPACE_DOS,
    ensures
        absorb_file_names(walk_start(), seq![dos, long]).file_name == long.name,
        absorb_file_names(walk_start(), seq![long, dos]).file_name == long.name,
        absorb_file_names(walk_start(), seq![dos]).file_name == dos.name,
{
    reveal_with_fuel(absorb_file_names, 3);
    let a = seq![dos, long];
    assert(a.drop_first() =~= seq![long]);
    assert(a.drop_first().drop_first() =~= Seq::<FileNameAttrView>::empty());
    let b = seq![long, dos];
    assert(b.drop_first() =~= seq![dos]);
    assert(b.drop_first().drop_first() =~= Seq::<FileNameAttrView>::empty());
    let c = seq![dos];
    assert(c.drop_first() =~= Seq::<FileNameAttrView>::empty());
}

/// The views of a list of entries.
pub open spec fn entry_views(entries: Seq<MftEntry>) -> Seq<MftEntryView> {
    Seq::new(entries.len(), |i: int| entries[i]@)
}

/// An entry of a deleted file that has a name and is no system file.
pub open spec fn is_deleted_user_file(e: MftEntryView) -> bool {
    e.is_deleted && e.file_name.len() > 0 && e.file_name[0] != '$'
}

/// The deleted user files among the records `i..total` of a table whose
/// records take `record_size` bytes each.
pub open spec fn deleted_from(mft: Seq<u8>, record_size: int, i: int, total: int) -> Seq<
    MftEntryView,
>
    decreases total - i,
{
    if i >= total {
        Seq::empty()
    } else {
        let found = match record_entry(
            mft.subrange(i * record_size, (i + 1) * record_size),
            i as u64,
        ) {
            Some(e) => if is_deleted_user_file(e) {
                seq![e]
            } else {
                Seq::empty()
            },
            None => Seq::empty(),
        };
        found + deleted_from(mft, record_size, i + 1, total)
    }
}

/// The deleted user files of a table held in memory, in record order. A
/// record size of zero gives none.
pub fn scan_mft_for_deleted(mft_data: &[u8], boot_sector: &NtfsBootSector) -> (r: Vec<MftEntry>)
    ensures
        boot_sector.mft_record_size == 0 ==> r@.len() == 0,
        boot_sector.mft_record_size > 0 ==> entry_views(r@) == deleted_from(
            mft_data@,
            boot_sector.mft_record_size as int,
            0,
            mft_data@.len() as int / boot_sector.mft_record_size as int,
        ),
{
    let mut deleted_files: Vec<MftEntry> = Vec::new();
    let record_size: usize = boot_sector.mft_record_size as usize;
    if record_size == 0 {
        return deleted_files;
    }
    let total_records: usize = mft_data.len() / record_size;
    let mut i: usize = 0;
    let mut offset: usize = 0;
    assert(entry_views(deleted_files@) =~= Seq::<MftEntryView>::empty());
    assert(total_records * record_size <= mft_data.len()) by (nonlinear_arith)
        requires
            total_records == mft_data.len() / record_size,
            record_size > 0,
    ;
    while i < total_records
        invariant
            i <= total_records,
            record_size > 0,
            offset == i * record_size,
            total_records * record_size <= mft_data.len(),
            entry_views(deleted_files@) + deleted_from(
                mft_data@,
                record_size as int,
                i as int,
                total_records as int,
            ) == deleted_from(mft_data@, record_size as int, 0, total_records as int),
        decreases total_records - i,
    {
        assert((i + 1) * record_size == i * record_size + record_size) by (nonlinear_arith);
        assert((i + 1) * record_size <= total_records * record_size) by (nonlinear_arith)
            requires
                i + 1 <= total_records,
                record_size > 0,
        ;
        let record_data = &mft_data[offset..offset + record_size];
        let ghost before = entry_views(deleted_files@);
        let ghost rest = deleted_from(
            mft_data@,
            record_size as int,
            i + 1,
            total_records as int,
        );
        let mut kept: bool = false;
        if let Some(entry) = parse_mft_record(record_data, i as u64) {
            if entry.is_deleted && !entry.file_name.as_str().is_empty() {
                if entry.file_name.as_str().get_char(0) != '$' {
                    let ghost e = entry@;
                    deleted_files.push(entry);
                    assert(entry_views(deleted_files@) =~= before + seq![e]);
                    assert((before + seq![e]) + rest =~= before + (seq![e] + rest));
                    kept = true;
                }
            }
        }
        proof {
            if !kept {
                assert(before + (Seq::<MftEntryView>::empty() + rest) =~= before + rest);
            }
        }
        offset = offset + record_size;
        i += 1;
    }
    assert(entry_views(deleted_files@) + Seq::<MftEntryView>::empty() =~= entry_views(
        deleted_files@,
    ));
    deleted_files
}

} // verus!
