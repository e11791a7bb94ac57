//! The scan of a volume by raw access: which records of the table are
//! offered, how their chances are rated, and what becomes of the finds of
//! the carver.

use std::collections::{HashMap, HashSet};
use vstd::prelude::*;
use vstd::string::*;
use crate::bitlocker::BitLockerStatus;
use crate::bytes::{capped_mul, match_at, matches_at, multiply_capped};
use crate::data_runs::DataRun;
use crate::error::RecoveryError;
use crate::file_carver::{
    carve_sector, carved_from, carved_views, CarvedFile, CarvedFileView, FileSignature,
};
use crate::filesystem_recovery_engine::{
    copy_runs, first_cluster, format_timestamp, timestamp_label, FileSystemScanResult,
    RecoverableFileFS, RecoverableFileFSView, DEEP_SCAN_LIMIT, QUICK_SCAN_LIMIT,
};
use crate::ntfs_parser::{parse_mft_record, record_entry, MftEntry, MftEntryView};
use crate::ordering::{better_chance, sort_by_chance, stably_sorted};
use crate::text::{
    decimal_string, decimal_text, lowercase, text_eq, to_lowercase, to_uppercase, uppercase,
};
use crate::recovery_strategies::{
    capped_sum, reassembly_message, reassembly_text, verdict_outcome, Outcome, Reassembly,
    Verdict,
};
use crate::validation::{
    among, corruption_message, corruption_of, describe_corruption, find_corruption, is_among,
};

verus! {

/// How thoroughly a volume is scanned.
#[derive(Clone, Copy, Debug, PartialEq, Eq, Structural)]
pub enum ScanMode {
    /// The table only.
    Quick,
    /// The table, then the carver.
    Deep,
    /// Every sector.
    Complete,
}

/// How hard a recovery is.
#[derive(Clone, Copy, Debug, PartialEq, Eq, Structural)]
pub enum RecoveryDifficulty {
    Easy,
    Moderate,
    Hard,
    VeryHard,
}

/// One stretch of a file on the volume.
#[derive(Clone, Copy, Debug, PartialEq, Eq, Structural)]
pub struct FileFragment {
    pub offset: u64,
    pub size: u64,
    pub cluster: i64,
    pub is_readable: bool,
    /// From 0 to 100.
    pub data_quality: u8,
}

/// A file that is offered for recovery.
#[derive(Clone, Debug)]
pub struct RecoverableFile {
    pub id: String,
    pub name: String,
    pub path: String,
    pub size: u64,
    pub extension: String,
    pub category: String,
    pub file_type: String,
    pub modified: String,
    pub created: String,
    pub is_deleted: bool,
    /// From 0 to 100.
    pub recovery_chance: u8,
    /// One of `mft`, `mft_orphan`, `usn`, `carved`, `recycle`, `vss`.
    pub source: String,
    /// The byte of the volume at which a carved file starts.
    pub sector_offset: Option<u64>,
    pub cluster_offset: Option<i64>,
    pub data_runs: Option<Vec<DataRun>>,
    pub fragments: Option<Vec<FileFragment>>,
    pub partial_recovery: bool,
    pub recoverable_bytes: u64,
    pub difficulty: String,
    pub age_estimate: String,
}

pub ghost struct RecoverableFileView {
    pub id: Seq<char>,
    pub name: Seq<char>,
    pub path: Seq<char>,
    pub size: u64,
    pub extension: Seq<char>,
    pub category: Seq<char>,
    pub file_type: Seq<char>,
    pub modified: Seq<char>,
    pub created: Seq<char>,
    pub is_deleted: bool,
    pub recovery_chance: u8,
    pub source: Seq<char>,
    pub sector_offset: Option<u64>,
    pub cluster_offset: Option<i64>,
    pub data_runs: Option<Seq<DataRun>>,
    pub fragments: Option<Seq<FileFragment>>,
    pub partial_recovery: bool,
    pub recoverable_bytes: u64,
    pub difficulty: Seq<char>,
    pub age_estimate: Seq<char>,
}

impl View for RecoverableFile {
    type V = RecoverableFileView;

    open spec fn view(&self) -> RecoverableFileView {
        RecoverableFileView {
            id: self.id@,
            name: self.name@,
            path: self.path@,
            size: self.size,
            extension: self.extension@,
            category: self.category@,
            file_type: self.file_type@,
            modified: self.modified@,
            created: self.created@,
            is_deleted: self.is_deleted,
            recovery_chance: self.recovery_chance,
            source: self.source@,
            sector_offset: self.sector_offset,
            cluster_offset: self.cluster_offset,
            data_runs: match self.data_runs {
                Some(runs) => Some(runs@),
                None => None,
            },
            fragments: match self.fragments {
                Some(fragments) => Some(fragments@),
                None => None,
            },
            partial_recovery: self.partial_recovery,
            recoverable_bytes: self.recoverable_bytes,
            difficulty: self.difficulty@,
            age_estimate: self.age_estimate@,
        }
    }
}

/// What a scan found.
#[derive(Debug)]
pub struct RecoveryScanResult {
    pub success: bool,
    pub message: String,
    pub scan_mode: String,
    pub drive: String,
    pub bitlocker_status: Option<BitLockerStatus>,
    pub mft_entries: Vec<RecoverableFile>,
    pub carved_files: Vec<RecoverableFile>,
    /// Files whose parent directory is not in the table.
    pub orphan_files: Vec<RecoverableFile>,
    pub total_files: usize,
    pub total_recoverable_size: u64,
    pub scan_duration_ms: u64,
    pub sectors_scanned: u64,
    pub mft_records_scanned: u64,
    pub orphan_records_found: u64,
    pub requires_admin: bool,
}

/// The outcome of the recovery of one file.
#[derive(Clone, Debug)]
pub struct FileRecoveryResult {
    pub success: bool,
    pub source_path: String,
    pub destination_path: String,
    pub bytes_recovered: u64,
    pub message: String,
}

// ---------------------------------------------------------------------
// Rating an entry of the table
// ---------------------------------------------------------------------

/// The words for a difficulty.
pub open spec fn difficulty_word(d: RecoveryDifficulty) -> Seq<char> {
    match d {
        RecoveryDifficulty::Easy => "easy"@,
        RecoveryDifficulty::Moderate => "moderate"@,
        RecoveryDifficulty::Hard => "hard"@,
        RecoveryDifficulty::VeryHard => "very_hard"@,
    }
}

pub fn difficulty_name(d: RecoveryDifficulty) -> (r: String)
    ensures
        r@ == difficulty_word(d),
{
    match d {
        RecoveryDifficulty::Easy => "easy".to_owned(),
        RecoveryDifficulty::Moderate => "moderate".to_owned(),
        RecoveryDifficulty::Hard => "hard".to_owned(),
        RecoveryDifficulty::VeryHard => "very_hard".to_owned(),
    }
}

/// The difficulty that goes with a chance of recovery from the table.
pub open spec fn difficulty_of_chance(chance: u8) -> RecoveryDifficulty {
    if 80 <= chance <= 100 {
        RecoveryDifficulty::Easy
    } else if 50 <= chance <= 79 {
        RecoveryDifficulty::Moderate
    } else if 20 <= chance <= 49 {
        RecoveryDifficulty::Hard
    } else {
        RecoveryDifficulty::VeryHard
    }
}

/// The difficulty that goes with the confidence of a carved find.
pub open spec fn difficulty_of_confidence(confidence: u8) -> RecoveryDifficulty {
    if 80 <= confidence <= 100 {
        RecoveryDifficulty::Easy
    } else if 60 <= confidence <= 79 {
        RecoveryDifficulty::Moderate
    } else if 40 <= confidence <= 59 {
        RecoveryDifficulty::Hard
    } else {
        RecoveryDifficulty::VeryHard
    }
}

/// The quality of what a run leads to: 85 for a stored run, 10 for a
/// sparse one.
pub open spec fn run_quality(run: DataRun) -> u8 {
    if run.cluster_offset > 0 {
        85
    } else {
        10
    }
}

/// The sum of the qualities of the first `upto` runs.
pub open spec fn quality_sum(runs: Seq<DataRun>, upto: int) -> int
    decreases upto,
{
    if upto <= 0 {
        0
    } else {
        quality_sum(runs, upto - 1) + run_quality(runs[upto - 1])
    }
}

/// The fragment that stands for run `i` of a file.
pub open spec fn fragment_of(run: DataRun, i: int, cluster_size: u32) -> FileFragment {
    let size = capped_mul(run.cluster_count, cluster_size as u64);
    FileFragment {
        offset: capped_mul(i as u64, size),
        size,
        cluster: run.cluster_offset,
        is_readable: run.cluster_offset > 0,
        data_quality: run_quality(run),
    }
}

/// The fragments of a file by its runs.
pub open spec fn fragments_of(runs: Seq<DataRun>, cluster_size: u32) -> Seq<FileFragment> {
    Seq::new(runs.len(), |i: int| fragment_of(runs[i], i, cluster_size))
}

/// The chance of recovery of a deleted entry: without runs, 50 for a file
/// that may be stored in its record and 5 for any other; with runs, the
/// mean quality of the runs.
pub open spec fn analysed_chance(e: MftEntryView) -> u8 {
    if e.data_runs.len() == 0 {
        if 0 < e.file_size <= 700 {
            50
        } else {
            5
        }
    } else {
        (quality_sum(e.data_runs, e.data_runs.len() as int) / (e.data_runs.len() as int)) as u8
    }
}

/// The difficulty of the recovery of a deleted entry.
pub open spec fn analysed_difficulty(e: MftEntryView) -> RecoveryDifficulty {
    if e.data_runs.len() == 0 {
        if 0 < e.file_size <= 700 {
            RecoveryDifficulty::Moderate
        } else {
            RecoveryDifficulty::VeryHard
        }
    } else {
        difficulty_of_chance(analysed_chance(e))
    }
}

/// The fragments of a deleted entry: those of its runs, or the content in
/// the record for a file without runs that may be stored there.
pub open spec fn analysed_fragments(e: MftEntryView, cluster_size: u32) -> Seq<FileFragment> {
    if e.data_runs.len() == 0 {
        if 0 < e.file_size <= 700 {
            seq![
                FileFragment {
                    offset: 0,
                    size: e.file_size,
                    cluster: 0,
                    is_readable: true,
                    data_quality: 50,
                },
            ]
        } else {
            Seq::empty()
        }
    } else {
        fragments_of(e.data_runs, cluster_size)
    }
}

proof fn lemma_quality_sum(runs: Seq<DataRun>, upto: int)
    requires
        0 <= upto <= runs.len(),
    ensures
        10 * upto <= quality_sum(runs, upto) <= 85 * upto,
    decreases upto,
{
    if upto > 0 {
        lemma_quality_sum(runs, upto - 1);
    }
}

/// Rates the recovery of a deleted entry: its chance, its difficulty and
/// its fragments.
pub fn analyze_recovery_possibility(entry: &MftEntry, cluster_size: u32) -> (r: (
    u8,
    RecoveryDifficulty,
    Vec<FileFragment>,
))
    ensures
        r.0 == analysed_chance(entry@),
        r.1 == analysed_difficulty(entry@),
        r.2@ == analysed_fragments(entry@, cluster_size),
{
    let mut fragments: Vec<FileFragment> = Vec::new();
    let count: usize = entry.data_runs.len();
    if count == 0 {
        if entry.file_size <= 700 && entry.file_size > 0 {
            fragments.push(
                FileFragment {
                    offset: 0,
                    size: entry.file_size,
                    cluster: 0,
                    is_readable: true,
                    data_quality: 50,
                },
            );
            assert(fragments@ =~= analysed_fragments(entry@, cluster_size));
            return (50, RecoveryDifficulty::Moderate, fragments);
        }
        assert(fragments@ =~= analysed_fragments(entry@, cluster_size));
        return (5, RecoveryDifficulty::VeryHard, fragments);
    }
    let mut total: u128 = 0;
    let mut i: usize = 0;
    while i < count
        invariant
            i <= count,
            count == entry.data_runs@.len(),
            total == quality_sum(entry.data_runs@, i as int),
            total <= 85 * i,
            fragments@ == fragments_of(entry.data_runs@, cluster_size).take(i as int),
        decreases count - i,
    {
        let run = entry.data_runs[i];
        let quality: u8 = if run.cluster_offset > 0 {
            85
        } else {
            10
        };
        total = total + quality as u128;
        let size: u64 = multiply_capped(run.cluster_count, cluster_size as u64);
        fragments.push(
            FileFragment {
                offset: multiply_capped(i as u64, size),
                size,
                cluster: run.cluster_offset,
                is_readable: run.cluster_offset > 0,
                data_quality: quality,
            },
        );
        assert(fragments@ =~= fragments_of(entry.data_runs@, cluster_size).take(i + 1));
        i += 1;
    }
    proof {
        lemma_quality_sum(entry.data_runs@, count as int);
        assert(fragments_of(entry.data_runs@, cluster_size).take(count as int) =~= fragments_of(
            entry.data_runs@,
            cluster_size,
        ));
        assert(total as int / count as int <= 85) by (nonlinear_arith)
            requires
                total <= 85 * count,
                count > 0,
                total >= 0,
        ;
    }
    let chance: u8 = (total / count as u128) as u8;
    let difficulty = if chance >= 80 {
        RecoveryDifficulty::Easy
    } else if chance >= 50 {
        RecoveryDifficulty::Moderate
    } else if chance >= 20 {
        RecoveryDifficulty::Hard
    } else {
        RecoveryDifficulty::VeryHard
    };
    (chance, difficulty, fragments)
}

/// The chance of recovery of an entry by its runs and its size alone.
pub open spec fn basic_chance(e: MftEntryView) -> u8 {
    let base: int = if e.data_runs.len() == 0 {
        20
    } else if e.data_runs[0].cluster_offset > 0 {
        90
    } else {
        80
    };
    if e.file_size <= 700 {
        (base + 5) as u8
    } else {
        base as u8
    }
}

pub fn calculate_recovery_chance(entry: &MftEntry) -> (r: u8)
    ensures
        r == basic_chance(entry@),
{
    let base: u8 = if entry.data_runs.len() == 0 {
        20
    } else if entry.data_runs[0].cluster_offset > 0 {
        90
    } else {
        80
    };
    if entry.file_size <= 700 {
        base + 5
    } else {
        base
    }
}

/// The bytes of a file that one may hope to recover: all of them for a
/// chance above 50, the share that the chance gives for a chance above 20,
/// none below.
pub open spec fn recoverable_share(size: u64, chance: u8) -> u64 {
    if chance > 50 {
        size
    } else if chance > 20 {
        (size * chance / 100) as u64
    } else {
        0
    }
}

pub fn recoverable_bytes_of(size: u64, chance: u8) -> (r: u64)
    ensures
        r == recoverable_share(size, chance),
{
    if chance > 50 {
        size
    } else if chance > 20 {
        assert(size * chance / 100 <= size) by (nonlinear_arith)
            requires
                chance <= 50,
                size >= 0,
                chance >= 0,
        ;
        ((size as u128 * chance as u128) / 100) as u64
    } else {
        0
    }
}

// ---------------------------------------------------------------------
// Ages, categories, names of types
// ---------------------------------------------------------------------

/// How long ago a file was last modified, in words, at the time
/// `current_time`; both in seconds since 1970.
pub open spec fn age_label(modified_time: i64, current_time: i64) -> Seq<char> {
    let days = (current_time - modified_time) / 86400;
    if modified_time <= 0 || current_time < modified_time {
        "Unknown age"@
    } else if days == 0 {
        "Today"@
    } else if days == 1 {
        "Yesterday"@
    } else if days <= 7 {
        "This week"@
    } else if days <= 30 {
        "This month"@
    } else if days <= 90 {
        "1-3 months ago"@
    } else if days <= 180 {
        "3-6 months ago"@
    } else if days <= 365 {
        "6-12 months ago"@
    } else if days <= 730 {
        "1-2 years ago"@
    } else {
        decimal_text((days / 365) as nat) + " years ago"@
    }
}

pub fn estimate_file_age(modified_time: i64, current_time: i64) -> (r: String)
    ensures
        r@ == age_label(modified_time, current_time),
{
    if modified_time <= 0 || current_time < modified_time {
        return "Unknown age".to_owned();
    }
    let days: i64 = (current_time - modified_time) / 86400;
    if days == 0 {
        "Today".to_owned()
    } else if days == 1 {
        "Yesterday".to_owned()
    } else if days <= 7 {
        "This week".to_owned()
    } else if days <= 30 {
        "This month".to_owned()
    } else if days <= 90 {
        "1-3 months ago".to_owned()
    } else if days <= 180 {
        "3-6 months ago".to_owned()
    } else if days <= 365 {
        "6-12 months ago".to_owned()
    } else if days <= 730 {
        "1-2 years ago".to_owned()
    } else {
        let mut label = decimal_string((days / 365) as u64);
        label.append(" years ago");
        label
    }
}

/// The category of a file by its extension in lowercase.
pub open spec fn extension_category(ext: Seq<char>) -> Seq<char> {
    if among(ext, seq!["jpg", "jpeg", "png", "gif", "bmp", "webp", "tiff", "ico", "svg"]) {
        "Images"@
    } else if among(ext, seq!["mp4", "avi", "mkv", "mov", "wmv", "flv", "webm", "m4v"]) {
        "Videos"@
    } else if among(ext, seq!["mp3", "wav", "flac", "aac", "ogg", "wma", "m4a"]) {
        "Audio"@
    } else if among(
        ext,
        seq!["pdf", "doc", "docx", "xls", "xlsx", "ppt", "pptx", "txt", "rtf", "odt"],
    ) {
        "Documents"@
    } else if among(ext, seq!["zip", "rar", "7z", "tar", "gz", "bz2"]) {
        "Archives"@
    } else if among(ext, seq!["exe", "dll", "msi", "bat", "cmd", "ps1"]) {
        "Executables"@
    } else if among(ext, seq!["html", "htm", "css", "js", "json", "xml"]) {
        "Web"@
    } else if among(ext, seq!["psd", "ai", "eps", "indd"]) {
        "Design"@
    } else if among(ext, seq!["sql", "db", "sqlite", "mdb"]) {
        "Databases"@
    } else {
        "Other"@
    }
}

/// Names the category of a file whose extension is given in lowercase.
pub fn category_of_lowered(ext: &str) -> (r: String)
    ensures
        r@ == extension_category(ext@),
{
    let images: [&'static str; 9] = ["jpg", "jpeg", "png", "gif", "bmp", "webp", "tiff", "ico", "svg"];
    let videos: [&'static str; 8] = ["mp4", "avi", "mkv", "mov", "wmv", "flv", "webm", "m4v"];
    let audio: [&'static str; 7] = ["mp3", "wav", "flac", "aac", "ogg", "wma", "m4a"];
    let documents: [&'static str; 10] = [
        "pdf",
        "doc",
        "docx",
        "xls",
        "xlsx",
        "ppt",
        "pptx",
        "txt",
        "rtf",
        "odt",
    ];
    let archives: [&'static str; 6] = ["zip", "rar", "7z", "tar", "gz", "bz2"];
    let executables: [&'static str; 6] = ["exe", "dll", "msi", "bat", "cmd", "ps1"];
    let web: [&'static str; 6] = ["html", "htm", "css", "js", "json", "xml"];
    let design: [&'static str; 4] = ["psd", "ai", "eps", "indd"];
    let databases: [&'static str; 4] = ["sql", "db", "sqlite", "mdb"];
    assert(images@ =~= seq!["jpg", "jpeg", "png", "gif", "bmp", "webp", "tiff", "ico", "svg"]);
    assert(videos@ =~= seq!["mp4", "avi", "mkv", "mov", "wmv", "flv", "webm", "m4v"]);
    assert(audio@ =~= seq!["mp3", "wav", "flac", "aac", "ogg", "wma", "m4a"]);
    assert(documents@ =~= seq![
        "pdf",
        "doc",
        "docx",
        "xls",
        "xlsx",
        "ppt",
        "pptx",
        "txt",
        "rtf",
        "odt",
    ]);
    assert(archives@ =~= seq!["zip", "rar", "7z", "tar", "gz", "bz2"]);
    assert(executables@ =~= seq!["exe", "dll", "msi", "bat", "cmd", "ps1"]);
    assert(web@ =~= seq!["html", "htm", "css", "js", "json", "xml"]);
    assert(design@ =~= seq!["psd", "ai", "eps", "indd"]);
    assert(databases@ =~= seq!["sql", "db", "sqlite", "mdb"]);
    if is_among(ext, images.as_slice()) {
        "Images".to_owned()
    } else if is_among(ext, videos.as_slice()) {
        "Videos".to_owned()
    } else if is_among(ext, audio.as_slice()) {
        "Audio".to_owned()
    } else if is_among(ext, documents.as_slice()) {
        "Documents".to_owned()
    } else if is_among(ext, archives.as_slice()) {
        "Archives".to_owned()
    } else if is_among(ext, executables.as_slice()) {
        "Executables".to_owned()
    } else if is_among(ext, web.as_slice()) {
        "Web".to_owned()
    } else if is_among(ext, design.as_slice()) {
        "Design".to_owned()
    } else if is_among(ext, databases.as_slice()) {
        "Databases".to_owned()
    } else {
        "Other".to_owned()
    }
}

/// Names the category of a file by its extension, compared in lowercase.
pub fn categorize_extension(ext: &str) -> (r: String)
    ensures
        r@ == extension_category(lowercase(ext@)),
{
    let lowered = to_lowercase(ext);
    category_of_lowered(lowered.as_str())
}

/// The name of the type of a file, given its extension in lowercase and in
/// uppercase.
pub open spec fn file_type_label(lower: Seq<char>, upper: Seq<char>) -> Seq<char> {
    if lower == "jpg"@ || lower == "jpeg"@ {
        "JPEG Image"@
    } else if lower == "png"@ {
        "PNG Image"@
    } else if lower == "gif"@ {
        "GIF Image"@
    } else if lower == "bmp"@ {
        "Bitmap Image"@
    } else if lower == "pdf"@ {
        "PDF Document"@
    } else if lower == "doc"@ || lower == "docx"@ {
        "Word Document"@
    } else if lower == "xls"@ || lower == "xlsx"@ {
        "Excel Spreadsheet"@
    } else if lower == "mp3"@ {
        "MP3 Audio"@
    } else if lower == "mp4"@ {
        "MP4 Video"@
    } else if lower == "avi"@ {
        "AVI Video"@
    } else if lower == "zip"@ {
        "ZIP Archive"@
    } else if lower == "exe"@ {
        "Windows Executable"@
    } else {
        upper + " File"@
    }
}

/// Names the type of a file, given its extension in lowercase and in
/// uppercase.
pub fn name_file_type(lower: &str, upper: String) -> (r: String)
    ensures
        r@ == file_type_label(lower@, upper@),
{
    if text_eq(lower, "jpg") || text_eq(lower, "jpeg") {
        "JPEG Image".to_owned()
    } else if text_eq(lower, "png") {
        "PNG Image".to_owned()
    } else if text_eq(lower, "gif") {
        "GIF Image".to_owned()
    } else if text_eq(lower, "bmp") {
        "Bitmap Image".to_owned()
    } else if text_eq(lower, "pdf") {
        "PDF Document".to_owned()
    } else if text_eq(lower, "doc") || text_eq(lower, "docx") {
        "Word Document".to_owned()
    } else if text_eq(lower, "xls") || text_eq(lower, "xlsx") {
        "Excel Spreadsheet".to_owned()
    } else if text_eq(lower, "mp3") {
        "MP3 Audio".to_owned()
    } else if text_eq(lower, "mp4") {
        "MP4 Video".to_owned()
    } else if text_eq(lower, "avi") {
        "AVI Video".to_owned()
    } else if text_eq(lower, "zip") {
        "ZIP Archive".to_owned()
    } else if text_eq(lower, "exe") {
        "Windows Executable".to_owned()
    } else {
        let mut name = upper;
        name.append(" File");
        name
    }
}

/// Names the type of a file by its extension.
pub fn get_file_type_name(ext: &str) -> (r: String)
    ensures
        r@ == file_type_label(lowercase(ext@), uppercase(ext@)),
{
    let lowered = to_lowercase(ext);
    name_file_type(lowered.as_str(), to_uppercase(ext))
}

// ---------------------------------------------------------------------
// Checking recovered bytes by their header
// ---------------------------------------------------------------------

/// What a look at the header of recovered bytes gave.
#[derive(Clone, Debug)]
pub struct ValidationResult {
    pub is_valid: bool,
    pub details: String,
}

/// The first bytes are those of the format with extension `ext`, given in
/// lowercase; of a format that is not known nothing is asked.
pub open spec fn header_matches(data: Seq<u8>, ext: Seq<char>) -> bool {
    if ext == "jpg"@ || ext == "jpeg"@ {
        matches_at(data, 0, seq![0xFFu8, 0xD8, 0xFF])
    } else if ext == "png"@ {
        matches_at(data, 0, seq![0x89u8, 0x50, 0x4E, 0x47])
    } else if ext == "gif"@ {
        matches_at(data, 0, seq![0x47u8, 0x49, 0x46])
    } else if ext == "pdf"@ {
        matches_at(data, 0, seq![0x25u8, 0x50, 0x44, 0x46])
    } else if ext == "zip"@ || ext == "docx"@ || ext == "xlsx"@ || ext == "pptx"@ {
        matches_at(data, 0, seq![0x50u8, 0x4B])
    } else if ext == "mp4"@ || ext == "mov"@ {
        matches_at(data, 4, seq![0x66u8, 0x74, 0x79, 0x70])
    } else if ext == "mp3"@ {
        matches_at(data, 0, seq![0xFFu8, 0xFB]) || matches_at(data, 0, seq![0x49u8, 0x44, 0x33])
    } else if ext == "doc"@ || ext == "xls"@ || ext == "ppt"@ {
        matches_at(data, 0, seq![0xD0u8, 0xCF, 0x11, 0xE0])
    } else {
        true
    }
}

/// Whether recovered bytes pass: they are not empty and their header
/// matches.
pub open spec fn passes_header_check(data: Seq<u8>, ext: Seq<char>) -> bool {
    data.len() > 0 && header_matches(data, ext)
}

/// The words in which the outcome of the check is told.
pub open spec fn header_check_details(data: Seq<u8>, ext: Seq<char>) -> Seq<char> {
    if data.len() == 0 {
        "Empty file"@
    } else if header_matches(data, ext) {
        "Header validated"@
    } else {
        "Header mismatch - file may be damaged"@
    }
}

/// Checks the header of recovered bytes against an extension that is given
/// in lowercase.
pub fn check_recovered_header(data: &[u8], ext: &str) -> (r: bool)
    ensures
        r == header_matches(data@, ext@),
{
    if text_eq(ext, "jpg") || text_eq(ext, "jpeg") {
        match_at(data, 0, &[0xFF, 0xD8, 0xFF])
    } else if text_eq(ext, "png") {
        match_at(data, 0, &[0x89, 0x50, 0x4E, 0x47])
    } else if text_eq(ext, "gif") {
        match_at(data, 0, &[0x47, 0x49, 0x46])
    } else if text_eq(ext, "pdf") {
        match_at(data, 0, &[0x25, 0x50, 0x44, 0x46])
    } else if text_eq(ext, "zip") || text_eq(ext, "docx") || text_eq(ext, "xlsx") || text_eq(
        ext,
        "pptx",
    ) {
        match_at(data, 0, &[0x50, 0x4B])
    } else if text_eq(ext, "mp4") || text_eq(ext, "mov") {
        match_at(data, 4, &[0x66, 0x74, 0x79, 0x70])
    } else if text_eq(ext, "mp3") {
        match_at(data, 0, &[0xFF, 0xFB]) || match_at(data, 0, &[0x49, 0x44, 0x33])
    } else if text_eq(ext, "doc") || text_eq(ext, "xls") || text_eq(ext, "ppt") {
        match_at(data, 0, &[0xD0, 0xCF, 0x11, 0xE0])
    } else {
        true
    }
}

/// Checks recovered bytes by their header. The extension is compared in
/// lowercase.
pub fn validate_recovered_data(data: &[u8], extension: &str) -> (r: ValidationResult)
    ensures
        r.is_valid == passes_header_check(data@, lowercase(extension@)),
        r.details@ == header_check_details(data@, lowercase(extension@)),
{
    if data.len() == 0 {
        return ValidationResult { is_valid: false, details: "Empty file".to_owned() };
    }
    let lowered = to_lowercase(extension);
    if check_recovered_header(data, lowered.as_str()) {
        ValidationResult { is_valid: true, details: "Header validated".to_owned() }
    } else {
        ValidationResult {
            is_valid: false,
            details: "Header mismatch - file may be damaged".to_owned(),
        }
    }
}

// ---------------------------------------------------------------------
// The offers of a raw scan
// ---------------------------------------------------------------------

/// The most records of the table that a quick scan reads.
pub const QUICK_SCAN_RECORDS: usize = 100_000;

/// The most records of the table that a deep scan reads.
pub const DEEP_SCAN_RECORDS: usize = 500_000;

/// The number of records of the table that a raw scan reads.
pub fn raw_scan_records(deep_scan: bool) -> (r: usize)
    ensures
        r == if deep_scan {
            DEEP_SCAN_RECORDS
        } else {
            QUICK_SCAN_RECORDS
        },
{
    if deep_scan {
        DEEP_SCAN_RECORDS
    } else {
        QUICK_SCAN_RECORDS
    }
}

/// What the offers of one raw scan have in common.
pub struct RawScan {
    pub drive_letter: String,
    pub cluster_size: u32,
    /// The time of the scan, in seconds since 1970.
    pub current_time: i64,
}

/// The offer for a deleted entry of the table.
pub open spec fn raw_offer(scan: RawScan, e: MftEntryView, is_orphan: bool) -> RecoverableFileView {
    let chance = analysed_chance(e);
    RecoverableFileView {
        id: "mft_"@ + decimal_text(e.record_number as nat),
        name: e.file_name,
        path: scan.drive_letter@ + ":\\[Deleted]\\"@ + e.file_name,
        size: e.file_size,
        extension: e.extension,
        category: extension_category(lowercase(e.extension)),
        file_type: file_type_label(lowercase(e.extension), uppercase(e.extension)),
        modified: timestamp_label(e.modified_time),
        created: timestamp_label(e.created_time),
        is_deleted: true,
        recovery_chance: chance,
        source: if is_orphan {
            "mft_orphan"@
        } else {
            "mft"@
        },
        sector_offset: None,
        cluster_offset: first_cluster(e.data_runs),
        data_runs: Some(e.data_runs),
        fragments: Some(analysed_fragments(e, scan.cluster_size)),
        partial_recovery: 0 < chance < 80,
        recoverable_bytes: recoverable_share(e.file_size, chance),
        difficulty: difficulty_word(analysed_difficulty(e)),
        age_estimate: age_label(e.modified_time, scan.current_time),
    }
}

/// Makes the offer for a deleted entry of the table.
pub fn entry_to_recoverable(scan: &RawScan, entry: &MftEntry, is_orphan: bool) -> (r:
    RecoverableFile)
    ensures
        r@ == raw_offer(*scan, entry@, is_orphan),
{
    let rating = analyze_recovery_possibility(entry, scan.cluster_size);
    let chance: u8 = rating.0;
    let mut id = "mft_".to_owned();
    let digits = decimal_string(entry.record_number);
    id.append(digits.as_str());
    let mut path = scan.drive_letter.clone();
    path.append(":\\[Deleted]\\");
    path.append(entry.file_name.as_str());
    let cluster_offset: Option<i64> = if entry.data_runs.len() > 0 {
        Some(entry.data_runs[0].cluster_offset)
    } else {
        None
    };
    RecoverableFile {
        id,
        name: entry.file_name.clone(),
        path,
        size: entry.file_size,
        extension: entry.extension.clone(),
        category: categorize_extension(entry.extension.as_str()),
        file_type: get_file_type_name(entry.extension.as_str()),
        modified: format_timestamp(entry.modified_time),
        created: format_timestamp(entry.created_time),
        is_deleted: true,
        recovery_chance: chance,
        source: if is_orphan {
            "mft_orphan".to_owned()
        } else {
            "mft".to_owned()
        },
        sector_offset: None,
        cluster_offset,
        data_runs: Some(copy_runs(&entry.data_runs)),
        fragments: Some(rating.2),
        partial_recovery: chance > 0 && chance < 80,
        recoverable_bytes: recoverable_bytes_of(entry.file_size, chance),
        difficulty: difficulty_name(rating.1),
        age_estimate: estimate_file_age(entry.modified_time, scan.current_time),
    }
}

/// The entry of record `i` of a table whose records take `record_size`
/// bytes each.
pub open spec fn table_entry(mft: Seq<u8>, record_size: int, i: int) -> Option<MftEntryView> {
    record_entry(mft.subrange(i * record_size, (i + 1) * record_size), i as u64)
}

/// An entry that is no system file.
pub open spec fn is_user_entry(e: MftEntryView) -> bool {
    !(e.file_name.len() > 0 && e.file_name[0] == '$')
}

/// The records among the first `upto` that hold a directory that is no
/// system file.
pub open spec fn directory_records(mft: Seq<u8>, record_size: int, upto: int) -> Set<u64>
    decreases upto,
{
    if upto <= 0 {
        Set::empty()
    } else {
        let before = directory_records(mft, record_size, upto - 1);
        match table_entry(mft, record_size, upto - 1) {
            Some(e) => if is_user_entry(e) && e.is_directory {
                before.insert(e.record_number)
            } else {
                before
            },
            None => before,
        }
    }
}

/// An entry whose file is offered: a deleted file with a name that is
/// neither a system file nor a directory.
pub open spec fn is_offered(e: MftEntryView) -> bool {
    is_user_entry(e) && !e.is_directory && e.is_deleted && e.file_name.len() > 0
}

/// An entry whose parent is not among the directories.
pub open spec fn is_orphan(e: MftEntryView, directories: Set<u64>) -> bool {
    e.parent_record > 0 && !directories.contains(e.parent_record)
}

/// The offers for the records among the first `upto`, in record order:
/// the orphans where `orphans` holds, else the others.
pub open spec fn raw_offers(
    scan: RawScan,
    mft: Seq<u8>,
    record_size: int,
    upto: int,
    directories: Set<u64>,
    orphans: bool,
) -> Seq<RecoverableFileView>
    decreases upto,
{
    if upto <= 0 {
        Seq::empty()
    } else {
        let before = raw_offers(scan, mft, record_size, upto - 1, directories, orphans);
        match table_entry(mft, record_size, upto - 1) {
            Some(e) => if is_offered(e) && is_orphan(e, directories) == orphans {
                before.push(raw_offer(scan, e, orphans))
            } else {
                before
            },
            None => before,
        }
    }
}

/// The views of a list of offers.
pub open spec fn offer_views(files: Seq<RecoverableFile>) -> Seq<RecoverableFileView> {
    Seq::new(files.len(), |i: int| files[i]@)
}

/// The directories of a table held in memory. A record size of zero gives
/// none.
pub fn collect_directories(mft_data: &[u8], record_size: usize) -> (r: HashSet<u64>)
    ensures
        r@ == if record_size == 0 {
            Set::<u64>::empty()
        } else {
            directory_records(
                mft_data@,
                record_size as int,
                mft_data@.len() as int / record_size as int,
            )
        },
{
    broadcast use vstd::std_specs::hash::group_hash_axioms;

    let mut directories: HashSet<u64> = HashSet::new();
    if record_size == 0 {
        return directories;
    }
    let total: usize = mft_data.len() / record_size;
    assert(total * record_size <= mft_data.len()) by (nonlinear_arith)
        requires
            total == mft_data.len() / record_size,
            record_size > 0,
    ;
    let mut i: usize = 0;
    let mut offset: usize = 0;
    while i < total
        invariant
            i <= total,
            record_size > 0,
            offset == i * record_size,
            total * record_size <= mft_data.len(),
            directories@ == directory_records(mft_data@, record_size as int, i as int),
        decreases total - i,
    {
        assert((i + 1) * record_size == i * record_size + record_size) by (nonlinear_arith);
        assert((i + 1) * record_size <= total * record_size) by (nonlinear_arith)
            requires
                i + 1 <= total,
                record_size > 0,
        ;
        let record = &mft_data[offset..offset + record_size];
        if let Some(entry) = parse_mft_record(record, i as u64) {
            let system: bool = !entry.file_name.as_str().is_empty() && entry.file_name.as_str().get_char(
                0,
            ) == '$';
            if !system && entry.is_directory {
                directories.insert(entry.record_number);
            }
        }
        offset = offset + record_size;
        i += 1;
    }
    directories
}

/// The offers of a table held in memory: the orphans where `orphans`
/// holds, else the others; the better chances first, and of equal chances
/// the lower record first. A record size of zero gives none.
pub fn collect_offers(
    scan: &RawScan,
    mft_data: &[u8],
    record_size: usize,
    directories: &HashSet<u64>,
    orphans: bool,
) -> (r: Vec<RecoverableFile>)
    ensures
        record_size == 0 ==> r@.len() == 0,
        record_size > 0 ==> exists|unsorted: Seq<RecoverableFile>|
            offer_views(unsorted) == raw_offers(
                *scan,
                mft_data@,
                record_size as int,
                mft_data@.len() as int / record_size as int,
                directories@,
                orphans,
            ) && r@ == #[trigger] stably_sorted(better_chance(), unsorted),
{
    broadcast use vstd::std_specs::hash::group_hash_axioms;

    let mut files: Vec<RecoverableFile> = Vec::new();
    if record_size == 0 {
        return files;
    }
    let total: usize = mft_data.len() / record_size;
    assert(total * record_size <= mft_data.len()) by (nonlinear_arith)
        requires
            total == mft_data.len() / record_size,
            record_size > 0,
    ;
    let mut i: usize = 0;
    let mut offset: usize = 0;
    assert(offer_views(files@) =~= Seq::<RecoverableFileView>::empty());
    while i < total
        invariant
            i <= total,
            record_size > 0,
            offset == i * record_size,
            total * record_size <= mft_data.len(),
            offer_views(files@) == raw_offers(
                *scan,
                mft_data@,
                record_size as int,
                i as int,
                directories@,
                orphans,
            ),
        decreases total - i,
    {
        assert((i + 1) * record_size == i * record_size + record_size) by (nonlinear_arith);
        assert((i + 1) * record_size <= total * record_size) by (nonlinear_arith)
            requires
                i + 1 <= total,
                record_size > 0,
        ;
        let ghost before = offer_views(files@);
        let record = &mft_data[offset..offset + record_size];
        if let Some(entry) = parse_mft_record(record, i as u64) {
            let named: bool = !entry.file_name.as_str().is_empty();
            let system: bool = named && entry.file_name.as_str().get_char(0) == '$';
            if !system && !entry.is_directory && entry.is_deleted && named {
                let orphan: bool = entry.parent_record > 0 && !directories.contains(
                    &entry.parent_record,
                );
                if orphan == orphans {
                    let file = entry_to_recoverable(scan, &entry, orphans);
                    let ghost v = file@;
                    files.push(file);
                    assert(offer_views(files@) =~= before.push(v));
                }
            }
        }
        offset = offset + record_size;
        i += 1;
    }
    let ghost unsorted = files@;
    sort_by_chance(&mut files);
    files
}

// ---------------------------------------------------------------------
// The finds of the carver
// ---------------------------------------------------------------------

/// The most finds that a deep scan keeps.
pub const MAX_CARVED_FILES: usize = 50_000;

/// The number of sectors that stands for a volume of unknown size.
pub const ASSUMED_SECTORS: u64 = 50_000_000;

/// The most sectors that the carver reads.
pub const MAX_CARVED_SECTORS: u64 = 100_000_000;

/// The number of sectors that the carver reads: the limit that was asked
/// for, no more than the volume has, and no more than
/// `MAX_CARVED_SECTORS`.
pub open spec fn sector_limit(total_sectors: u64, max_sectors: Option<u64>) -> u64 {
    let total = if total_sectors > 0 {
        total_sectors
    } else {
        ASSUMED_SECTORS
    };
    let wanted = match max_sectors {
        Some(max) => if max <= total {
            max
        } else {
            total
        },
        None => total,
    };
    if wanted <= MAX_CARVED_SECTORS {
        wanted
    } else {
        MAX_CARVED_SECTORS
    }
}

/// Works out the number of sectors that the carver reads.
pub fn carve_sector_limit(total_sectors: u64, max_sectors: Option<u64>) -> (r: u64)
    ensures
        r == sector_limit(total_sectors, max_sectors),
{
    let total: u64 = if total_sectors > 0 {
        total_sectors
    } else {
        ASSUMED_SECTORS
    };
    let wanted: u64 = match max_sectors {
        Some(max) => if max <= total {
            max
        } else {
            total
        },
        None => total,
    };
    if wanted <= MAX_CARVED_SECTORS {
        wanted
    } else {
        MAX_CARVED_SECTORS
    }
}

/// The offer for find number `number` of the carver.
pub open spec fn carved_offer(drive: Seq<char>, find: CarvedFileView, number: u64) -> RecoverableFileView {
    RecoverableFileView {
        id: "carved_"@ + decimal_text(number as nat),
        name: "Recovered_"@ + decimal_text(number as nat) + "."@ + find.extension,
        path: drive + ":\\[Carved]\\sector_"@ + decimal_text(find.sector_offset as nat) + "_"@
            + decimal_text(number as nat) + "."@ + find.extension,
        size: find.estimated_size,
        extension: find.extension,
        category: find.category,
        file_type: find.file_type,
        modified: "Unknown"@,
        created: "Unknown"@,
        is_deleted: true,
        recovery_chance: find.confidence,
        source: "carved"@,
        sector_offset: if find.sector_offset * 512 + find.byte_offset <= u64::MAX {
            Some((find.sector_offset * 512 + find.byte_offset) as u64)
        } else {
            None
        },
        cluster_offset: None,
        data_runs: None,
        fragments: None,
        partial_recovery: find.confidence < 80,
        recoverable_bytes: find.estimated_size,
        difficulty: difficulty_word(difficulty_of_confidence(find.confidence)),
        age_estimate: "Unknown"@,
    }
}

/// Makes the offer for a find of the carver.
pub fn carved_to_recoverable(drive_letter: &str, find: &CarvedFile, number: u64) -> (r:
    RecoverableFile)
    ensures
        r@ == carved_offer(drive_letter@, find@, number),
{
    let digits = decimal_string(number);
    let mut id = "carved_".to_owned();
    id.append(digits.as_str());
    let mut name = "Recovered_".to_owned();
    name.append(digits.as_str());
    name.append(".");
    name.append(find.extension.as_str());
    let mut path = drive_letter.to_owned();
    path.append(":\\[Carved]\\sector_");
    let sector = decimal_string(find.sector_offset);
    path.append(sector.as_str());
    path.append("_");
    path.append(digits.as_str());
    path.append(".");
    path.append(find.extension.as_str());
    let start: Option<u64> = match find.sector_offset.checked_mul(512) {
        Some(base) => base.checked_add(find.byte_offset),
        None => None,
    };
    let difficulty = if find.confidence >= 80 && find.confidence <= 100 {
        RecoveryDifficulty::Easy
    } else if find.confidence >= 60 && find.confidence <= 79 {
        RecoveryDifficulty::Moderate
    } else if find.confidence >= 40 && find.confidence <= 59 {
        RecoveryDifficulty::Hard
    } else {
        RecoveryDifficulty::VeryHard
    };
    RecoverableFile {
        id,
        name,
        path,
        size: find.estimated_size,
        extension: find.extension.clone(),
        category: find.category.clone(),
        file_type: find.file_type.clone(),
        modified: "Unknown".to_owned(),
        created: "Unknown".to_owned(),
        is_deleted: true,
        recovery_chance: find.confidence,
        source: "carved".to_owned(),
        sector_offset: start,
        cluster_offset: None,
        data_runs: None,
        fragments: None,
        partial_recovery: find.confidence < 80,
        recoverable_bytes: find.estimated_size,
        difficulty: difficulty_name(difficulty),
        age_estimate: "Unknown".to_owned(),
    }
}

// ---------------------------------------------------------------------
// Choosing how to scan and how to recover
// ---------------------------------------------------------------------

/// Where a recovery goes by the source of its file.
#[derive(Clone, Copy, Debug, PartialEq, Eq, Structural)]
pub enum RecoveryRoute {
    /// By the runs that the table gave.
    Table,
    /// By the place that the carver gave.
    Carved,
}

/// The route of a file by its source tag.
pub open spec fn route_of(source: Seq<char>) -> Option<RecoveryRoute> {
    if among(source, seq!["mft", "mft_orphan", "usn", "USN", "MFT", "mft_filesystem"]) {
        Some(RecoveryRoute::Table)
    } else if among(source, seq!["carved", "slack"]) {
        Some(RecoveryRoute::Carved)
    } else {
        None
    }
}

pub fn recovery_route(source: &str) -> (r: Option<RecoveryRoute>)
    ensures
        r == route_of(source@),
{
    let table: [&'static str; 6] = ["mft", "mft_orphan", "usn", "USN", "MFT", "mft_filesystem"];
    let carved: [&'static str; 2] = ["carved", "slack"];
    assert(table@ =~= seq!["mft", "mft_orphan", "usn", "USN", "MFT", "mft_filesystem"]);
    assert(carved@ =~= seq!["carved", "slack"]);
    if is_among(source, table.as_slice()) {
        Some(RecoveryRoute::Table)
    } else if is_among(source, carved.as_slice()) {
        Some(RecoveryRoute::Carved)
    } else {
        None
    }
}

/// The mode that a word names, in lowercase: `quick` or `deep`.
pub open spec fn mode_of(word: Seq<char>) -> Option<ScanMode> {
    if word == "quick"@ {
        Some(ScanMode::Quick)
    } else if word == "deep"@ {
        Some(ScanMode::Deep)
    } else {
        None
    }
}

/// Reads the mode of a scan. The word is compared in lowercase.
pub fn parse_scan_mode(mode: &str) -> (r: Option<ScanMode>)
    ensures
        r == mode_of(lowercase(mode@)),
{
    let lowered = to_lowercase(mode);
    if text_eq(lowered.as_str(), "quick") {
        Some(ScanMode::Quick)
    } else if text_eq(lowered.as_str(), "deep") {
        Some(ScanMode::Deep)
    } else {
        None
    }
}

/// The mode of a scan through the file system and the number of records
/// that it reads at most: quick for the text `quick`, deep for every other.
pub fn filesystem_scan_plan(mode: &str) -> (r: (ScanMode, usize))
    ensures
        r == if mode@ == "quick"@ {
            (ScanMode::Quick, QUICK_SCAN_LIMIT)
        } else {
            (ScanMode::Deep, DEEP_SCAN_LIMIT)
        },
{
    if text_eq(mode, "quick") {
        (ScanMode::Quick, QUICK_SCAN_LIMIT)
    } else {
        (ScanMode::Deep, DEEP_SCAN_LIMIT)
    }
}

/// Whether a scan starts, and in which mode: without privileges it does
/// not, nor on a locked volume, nor in a mode that is not known.
pub open spec fn scan_decision(is_admin: bool, is_locked: bool, mode: Option<ScanMode>) -> Result<
    ScanMode,
    RecoveryError,
> {
    if !is_admin {
        Err(RecoveryError::PermissionDenied)
    } else if is_locked {
        Err(RecoveryError::VolumeLocked)
    } else {
        match mode {
            Some(m) => Ok(m),
            None => Err(RecoveryError::Unsupported),
        }
    }
}

/// Decides whether a scan starts.
pub fn decide_scan(is_admin: bool, is_locked: bool, mode: Option<ScanMode>) -> (r: Result<
    ScanMode,
    RecoveryError,
>)
    ensures
        r == scan_decision(is_admin, is_locked, mode),
{
    if !is_admin {
        Err(RecoveryError::PermissionDenied)
    } else if is_locked {
        Err(RecoveryError::VolumeLocked)
    } else {
        match mode {
            Some(m) => Ok(m),
            None => Err(RecoveryError::Unsupported),
        }
    }
}

/// Why an engine cannot start on a drive: the privileges are missing, or
/// the volume is locked; `None` where it can.
pub open spec fn start_refusal(drive: Seq<char>, is_admin: bool, is_locked: bool) -> Option<
    Seq<char>,
> {
    if !is_admin {
        Some("Administrator privileges required. Please run as Administrator."@)
    } else if is_locked {
        Some(
            "Drive "@ + drive + " is BitLocker encrypted and locked. Please unlock it first."@,
        )
    } else {
        None
    }
}

/// Tells why an engine cannot start on a drive, before the volume is
/// opened.
pub fn check_start(drive_letter: &str, is_admin: bool, is_locked: bool) -> (r: Result<(), String>)
    ensures
        match r {
            Ok(_) => start_refusal(drive_letter@, is_admin, is_locked).is_none(),
            Err(message) => start_refusal(drive_letter@, is_admin, is_locked) == Some(message@),
        },
{
    if !is_admin {
        Err("Administrator privileges required. Please run as Administrator.".to_owned())
    } else if is_locked {
        let mut message = "Drive ".to_owned();
        message.append(drive_letter);
        message.append(" is BitLocker encrypted and locked. Please unlock it first.");
        Err(message)
    } else {
        Ok(())
    }
}

/// The words in which a refusal is told.
pub open spec fn refusal_message(refusal: RecoveryError, mode: Seq<char>) -> Seq<char> {
    match refusal {
        RecoveryError::PermissionDenied =>
            "Administrator privileges required. Please run as Administrator."@,
        RecoveryError::VolumeLocked =>
            "Drive is BitLocker encrypted and locked. Please unlock with password or recovery key."@,
        RecoveryError::Unsupported => "Unknown scan mode: "@ + mode,
        _ => "The scan was refused"@,
    }
}

/// `r` is the result of a scan that failed or was refused: it tells why,
/// names the mode, the drive and the state of BitLocker, and holds nothing
/// else.
pub open spec fn is_failed_scan(
    r: RecoveryScanResult,
    drive: Seq<char>,
    scan_mode: Seq<char>,
    message: Seq<char>,
    status: Option<BitLockerStatus>,
    requires_admin: bool,
) -> bool {
    &&& !r.success
    &&& r.message@ == message
    &&& r.scan_mode@ == scan_mode
    &&& r.drive@ == drive
    &&& r.bitlocker_status == status
    &&& r.mft_entries@.len() == 0
    &&& r.carved_files@.len() == 0
    &&& r.orphan_files@.len() == 0
    &&& r.total_files == 0
    &&& r.total_recoverable_size == 0
    &&& r.scan_duration_ms == 0
    &&& r.sectors_scanned == 0
    &&& r.mft_records_scanned == 0
    &&& r.orphan_records_found == 0
    &&& r.requires_admin == requires_admin
}

/// The result of a scan that failed or was refused, with `message` to tell
/// why.
pub fn failed_scan(
    drive_letter: &str,
    scan_mode: &str,
    message: String,
    status: Option<BitLockerStatus>,
    requires_admin: bool,
) -> (r: RecoveryScanResult)
    ensures
        is_failed_scan(r, drive_letter@, scan_mode@, message@, status, requires_admin),
{
    RecoveryScanResult {
        success: false,
        message,
        scan_mode: scan_mode.to_owned(),
        drive: drive_letter.to_owned(),
        bitlocker_status: status,
        mft_entries: Vec::new(),
        carved_files: Vec::new(),
        orphan_files: Vec::new(),
        total_files: 0,
        total_recoverable_size: 0,
        scan_duration_ms: 0,
        sectors_scanned: 0,
        mft_records_scanned: 0,
        orphan_records_found: 0,
        requires_admin,
    }
}

/// The name of a mode in the result of a scan.
pub open spec fn mode_name(mode: ScanMode) -> Seq<char> {
    match mode {
        ScanMode::Quick => "Quick"@,
        ScanMode::Deep => "Deep"@,
        ScanMode::Complete => "Complete"@,
    }
}

/// The result of a scan, from what became of it: a scan that was refused
/// gives a failure that tells why, under the mode as it was asked for; a
/// scan that ran gives its result, or a failure with its error under the
/// name of its mode.
///
/// `outcome` is what the scan gave where `decision` let it run, and is not
/// looked at where it did not.
pub fn perform_scan(
    drive_letter: &str,
    mode: &str,
    decision: Result<ScanMode, RecoveryError>,
    status: BitLockerStatus,
    outcome: Option<Result<RecoveryScanResult, String>>,
) -> (r: RecoveryScanResult)
    ensures
        match (decision, outcome) {
            (Ok(_), Some(Ok(result))) => r == result,
            (Ok(ran), Some(Err(error))) => is_failed_scan(
                r,
                drive_letter@,
                mode_name(ran),
                error@,
                Some(status),
                false,
            ),
            (Ok(ran), None) => is_failed_scan(
                r,
                drive_letter@,
                mode_name(ran),
                "The scan did not run"@,
                Some(status),
                false,
            ),
            (Err(refusal), _) => is_failed_scan(
                r,
                drive_letter@,
                mode@,
                refusal_message(refusal, mode@),
                Some(status),
                refusal == RecoveryError::PermissionDenied,
            ),
        },
{
    match decision {
        Err(RecoveryError::PermissionDenied) => failed_scan(
            drive_letter,
            mode,
            "Administrator privileges required. Please run as Administrator.".to_owned(),
            Some(status),
            true,
        ),
        Err(RecoveryError::VolumeLocked) => failed_scan(
            drive_letter,
            mode,
            "Drive is BitLocker encrypted and locked. Please unlock with password or recovery key.".to_owned(),
            Some(status),
            false,
        ),
        Err(RecoveryError::Unsupported) => {
            let mut message = "Unknown scan mode: ".to_owned();
            message.append(mode);
            failed_scan(drive_letter, mode, message, Some(status), false)
        },
        Err(_) => failed_scan(
            drive_letter,
            mode,
            "The scan was refused".to_owned(),
            Some(status),
            false,
        ),
        Ok(scan_mode) => {
            let name = match scan_mode {
                ScanMode::Quick => "Quick",
                ScanMode::Deep => "Deep",
                ScanMode::Complete => "Complete",
            };
            match outcome {
                Some(Ok(result)) => result,
                Some(Err(error)) => failed_scan(drive_letter, name, error, Some(status), false),
                None => failed_scan(
                    drive_letter,
                    name,
                    "The scan did not run".to_owned(),
                    Some(status),
                    false,
                ),
            }
        },
    }
}

/// The offer of a scan through the file system as an offer of a scan: all
/// of its bytes count as recoverable, and nothing is known of its age.
pub open spec fn from_fs_offer(f: RecoverableFileFSView) -> RecoverableFileView {
    RecoverableFileView {
        id: f.id,
        name: f.name,
        path: f.path,
        size: f.size,
        extension: f.extension,
        category: f.category,
        file_type: f.file_type,
        modified: f.modified,
        created: f.created,
        is_deleted: f.is_deleted,
        recovery_chance: f.recovery_chance,
        source: f.source,
        sector_offset: None,
        cluster_offset: f.cluster_offset,
        data_runs: f.data_runs,
        fragments: None,
        partial_recovery: false,
        recoverable_bytes: f.size,
        difficulty: "easy"@,
        age_estimate: "unknown"@,
    }
}

/// Turns an offer of a scan through the file system into an offer of a
/// scan.
pub fn fs_to_recoverable(file: RecoverableFileFS) -> (r: RecoverableFile)
    ensures
        r@ == from_fs_offer(file@),
{
    RecoverableFile {
        id: file.id,
        name: file.name,
        path: file.path,
        size: file.size,
        extension: file.extension,
        category: file.category,
        file_type: file.file_type,
        modified: file.modified,
        created: file.created,
        is_deleted: file.is_deleted,
        recovery_chance: file.recovery_chance,
        source: file.source,
        sector_offset: None,
        cluster_offset: file.cluster_offset,
        data_runs: file.data_runs,
        fragments: None,
        partial_recovery: false,
        recoverable_bytes: file.size,
        difficulty: "easy".to_owned(),
        age_estimate: "unknown".to_owned(),
    }
}

// ---------------------------------------------------------------------
// The carver's pass over the volume
// ---------------------------------------------------------------------

/// The number of sectors that the carver reads at once.
pub const CARVE_CHUNK_SECTORS: usize = 8192;

/// Where the carver's pass over the volume stands.
#[derive(Debug)]
pub struct CarveScan {
    /// The sector at which the pass ends.
    pub limit: u64,
    /// The sector at which the next piece starts.
    pub sector: u64,
    /// The offers so far.
    pub found: Vec<RecoverableFile>,
}

/// Starts a pass over a volume of `total_sectors` sectors, of which
/// `max_sectors` at most are wanted.
pub fn start_carve_scan(total_sectors: u64, max_sectors: Option<u64>) -> (scan: CarveScan)
    ensures
        scan.sector == 0,
        scan.found@.len() == 0,
        scan.limit == sector_limit(total_sectors, max_sectors),
{
    CarveScan { limit: carve_sector_limit(total_sectors, max_sectors), sector: 0, found: Vec::new() }
}

/// The sector at which the next piece is read; none where the pass is
/// over: the limit is reached, or `MAX_CARVED_FILES` offers were made.
/// Once the operator has asked for the scan to stop, the pass is
/// cancelled, and what it found is not reported.
pub fn next_carve_read(scan: &CarveScan, cancelled: bool) -> (r: Result<Option<u64>, RecoveryError>)
    ensures
        r == if cancelled {
            Err::<Option<u64>, RecoveryError>(RecoveryError::Cancelled)
        } else if scan.sector < scan.limit && scan.found@.len() < MAX_CARVED_FILES {
            Ok::<Option<u64>, RecoveryError>(Some(scan.sector))
        } else {
            Ok::<Option<u64>, RecoveryError>(None)
        },
{
    if cancelled {
        Err(RecoveryError::Cancelled)
    } else if scan.sector < scan.limit && scan.found.len() < MAX_CARVED_FILES {
        Ok(Some(scan.sector))
    } else {
        Ok(None)
    }
}

/// The number of the find that follows `made` finds.
pub open spec fn find_number(made: int) -> u64 {
    if made + 1 <= u64::MAX {
        (made + 1) as u64
    } else {
        u64::MAX
    }
}

/// The offers for the finds of one piece, numbered on from the `made`
/// offers before them.
pub open spec fn numbered_offers(drive: Seq<char>, finds: Seq<CarvedFileView>, made: int) -> Seq<
    RecoverableFileView,
> {
    Seq::new(finds.len(), |k: int| carved_offer(drive, finds[k], find_number(made + k)))
}

/// Carves a piece that was read at the sector where the pass stands, makes
/// an offer of each find, and moves the pass behind the piece.
pub fn carve_chunk(
    scan: &mut CarveScan,
    drive_letter: &str,
    data: &[u8],
    signatures: &HashMap<u16, Vec<FileSignature>>,
)
    ensures
        final(scan).limit == old(scan).limit,
        final(scan).sector == capped_sum(old(scan).sector, CARVE_CHUNK_SECTORS as int),
        offer_views(final(scan).found@) == offer_views(old(scan).found@) + numbered_offers(
            drive_letter@,
            carved_from(data@, old(scan).sector, signatures@),
            old(scan).found@.len() as int,
        ),
{
    let finds = carve_sector(data, scan.sector, signatures);
    let ghost views = carved_views(finds@);
    let ghost made = old(scan).found@.len() as int;
    let mut i: usize = 0;
    assert(offer_views(scan.found@) =~= offer_views(old(scan).found@) + numbered_offers(
        drive_letter@,
        views.take(0),
        made,
    ));
    while i < finds.len()
        invariant
            i <= finds.len(),
            views == carved_views(finds@),
            made == old(scan).found@.len(),
            scan.limit == old(scan).limit,
            scan.sector == old(scan).sector,
            scan.found@.len() == made + i,
            offer_views(scan.found@) == offer_views(old(scan).found@) + numbered_offers(
                drive_letter@,
                views.take(i as int),
                made,
            ),
        decreases finds.len() - i,
    {
        let number: u64 = (scan.found.len() as u64).saturating_add(1);
        let offer = carved_to_recoverable(drive_letter, &finds[i], number);
        let ghost before = offer_views(scan.found@);
        scan.found.push(offer);
        assert(offer_views(scan.found@) =~= before.push(offer@));
        assert(before.push(offer@) =~= offer_views(old(scan).found@) + numbered_offers(
            drive_letter@,
            views.take(i + 1),
            made,
        ));
        i += 1;
    }
    assert(views.take(finds@.len() as int) =~= views);
    scan.sector = scan.sector.saturating_add(CARVE_CHUNK_SECTORS as u64);
}

// ---------------------------------------------------------------------
// Reporting a scan
// ---------------------------------------------------------------------

/// The recoverable bytes of all offers of a scan, or the largest 64-bit
/// number where they are more.
pub open spec fn scan_total(
    files: Seq<RecoverableFile>,
    orphans: Seq<RecoverableFile>,
    carved: Seq<RecoverableFile>,
) -> u64 {
    capped_sum(
        capped_sum(
            total_recoverable(files, files.len() as int),
            total_recoverable(orphans, orphans.len() as int) as int,
        ),
        total_recoverable(carved, carved.len() as int) as int,
    )
}

/// Adds up the recoverable bytes of all offers of a scan.
pub fn raw_scan_total(
    files: &Vec<RecoverableFile>,
    orphans: &Vec<RecoverableFile>,
    carved: &Vec<RecoverableFile>,
) -> (r: u64)
    ensures
        r == scan_total(files@, orphans@, carved@),
{
    sum_recoverable(files).saturating_add(sum_recoverable(orphans)).saturating_add(
        sum_recoverable(carved),
    )
}

/// The number of offers of a scan, or the largest number where they are
/// more.
pub open spec fn scan_count(files: int, orphans: int, carved: int) -> usize {
    if files + orphans + carved <= usize::MAX {
        (files + orphans + carved) as usize
    } else {
        usize::MAX
    }
}

/// What is said of a scan that ran: the numbers of its offers and, in
/// `size_text`, the size of what can be recovered.
pub open spec fn scan_summary(
    deep: bool,
    files: nat,
    orphans: nat,
    carved: nat,
    size_text: Seq<char>,
) -> Seq<char> {
    if deep {
        "Deep scan complete. Found "@ + decimal_text(files) + " MFT files, "@ + decimal_text(
            orphans,
        ) + " orphan records, "@ + decimal_text(carved) + " carved files. Total: "@ + size_text
            + " recoverable."@
    } else {
        "Quick scan complete. Found "@ + decimal_text(files) + " deleted files, "@ + decimal_text(
            orphans,
        ) + " orphan records ("@ + size_text + " recoverable)."@
    }
}

/// Reports a scan that ran. `size_text` is the size of what can be
/// recovered, written out for a reader.
pub fn raw_scan_result(
    drive_letter: &str,
    deep: bool,
    status: BitLockerStatus,
    files: Vec<RecoverableFile>,
    orphans: Vec<RecoverableFile>,
    carved: Vec<RecoverableFile>,
    records_scanned: u64,
    sectors_scanned: u64,
    size_text: &str,
    duration_ms: u64,
) -> (r: RecoveryScanResult)
    ensures
        r.success,
        !r.requires_admin,
        r.drive@ == drive_letter@,
        r.scan_mode@ == if deep {
            "Deep"@
        } else {
            "Quick"@
        },
        r.bitlocker_status == Some(status),
        r.mft_entries@ == files@,
        r.orphan_files@ == orphans@,
        r.carved_files@ == carved@,
        r.total_files == scan_count(
            files@.len() as int,
            orphans@.len() as int,
            carved@.len() as int,
        ),
        r.total_recoverable_size == scan_total(files@, orphans@, carved@),
        r.orphan_records_found == orphans@.len(),
        r.mft_records_scanned == records_scanned,
        r.sectors_scanned == sectors_scanned,
        r.scan_duration_ms == duration_ms,
        r.message@ == scan_summary(
            deep,
            files@.len(),
            orphans@.len(),
            carved@.len(),
            size_text@,
        ),
{
    let total_recoverable_size = raw_scan_total(&files, &orphans, &carved);
    let total_files = files.len().saturating_add(orphans.len()).saturating_add(carved.len());
    let n_files = decimal_string(files.len() as u64);
    let n_orphans = decimal_string(orphans.len() as u64);
    let n_carved = decimal_string(carved.len() as u64);
    let message = if deep {
        let mut m = "Deep scan complete. Found ".to_owned();
        m.append(n_files.as_str());
        m.append(" MFT files, ");
        m.append(n_orphans.as_str());
        m.append(" orphan records, ");
        m.append(n_carved.as_str());
        m.append(" carved files. Total: ");
        m.append(size_text);
        m.append(" recoverable.");
        m
    } else {
        let mut m = "Quick scan complete. Found ".to_owned();
        m.append(n_files.as_str());
        m.append(" deleted files, ");
        m.append(n_orphans.as_str());
        m.append(" orphan records (");
        m.append(size_text);
        m.append(" recoverable).");
        m
    };
    RecoveryScanResult {
        success: true,
        message,
        scan_mode: if deep {
            "Deep".to_owned()
        } else {
            "Quick".to_owned()
        },
        drive: drive_letter.to_owned(),
        bitlocker_status: Some(status),
        orphan_records_found: orphans.len() as u64,
        mft_entries: files,
        carved_files: carved,
        orphan_files: orphans,
        total_files,
        total_recoverable_size,
        scan_duration_ms: duration_ms,
        sectors_scanned,
        mft_records_scanned: records_scanned,
        requires_admin: false,
    }
}

/// The offers of a scan through the file system as offers of a scan, in
/// their order.
pub open spec fn from_fs_offers(files: Seq<RecoverableFileFS>) -> Seq<RecoverableFileView> {
    Seq::new(files.len(), |k: int| from_fs_offer(files[k]@))
}

/// Turns the offers of a scan through the file system into offers of a
/// scan, in their order.
pub fn fs_offers_to_recoverable(files: Vec<RecoverableFileFS>) -> (r: Vec<RecoverableFile>)
    ensures
        offer_views(r@) == from_fs_offers(files@),
{
    let ghost n = files@.len() as int;
    let mut rest = files;
    let mut turned: Vec<RecoverableFile> = Vec::new();
    while rest.len() > 0
        invariant
            n == files@.len(),
            rest@.len() <= n,
            rest@ == files@.take(rest@.len() as int),
            turned@.len() == n - rest@.len(),
            forall|k: int|
                0 <= k < turned@.len() ==> (#[trigger] turned@[k])@ == from_fs_offer(
                    files@[n - 1 - k]@,
                ),
        decreases rest.len(),
    {
        match rest.pop() {
            Some(file) => {
                turned.push(fs_to_recoverable(file));
            },
            None => {},
        }
    }
    let ghost reversed = turned@;
    let mut r: Vec<RecoverableFile> = Vec::new();
    while turned.len() > 0
        invariant
            n == files@.len(),
            reversed.len() == n,
            turned@.len() <= n,
            turned@ == reversed.take(turned@.len() as int),
            r@.len() == n - turned@.len(),
            forall|k: int| 0 <= k < r@.len() ==> #[trigger] r@[k] == reversed[n - 1 - k],
            forall|k: int|
                0 <= k < n ==> (#[trigger] reversed[k])@ == from_fs_offer(files@[n - 1 - k]@),
        decreases turned.len(),
    {
        match turned.pop() {
            Some(file) => {
                r.push(file);
            },
            None => {},
        }
    }
    assert(offer_views(r@) =~= from_fs_offers(files@));
    r
}

/// Reports a scan through the file system in the shape of a scan: its
/// offers are those of the table, and its message tells the way it read.
pub fn filesystem_scan_result(found: FileSystemScanResult) -> (r: RecoveryScanResult)
    ensures
        r.success,
        r.requires_admin,
        r.message@ == found.message@ + " (FileSystem Mode - Decrypted)"@,
        r.scan_mode@ == "FileSystem"@,
        r.drive@ == found.drive@,
        r.bitlocker_status == found.bitlocker_status,
        offer_views(r.mft_entries@) == from_fs_offers(found.mft_entries@),
        r.carved_files@.len() == 0,
        r.orphan_files@.len() == 0,
        r.total_files == found.total_files,
        r.total_recoverable_size == found.total_recoverable_size,
        r.scan_duration_ms == found.scan_duration_ms,
        r.mft_records_scanned == found.mft_records_scanned,
        r.sectors_scanned == 0,
        r.orphan_records_found == 0,
{
    let mut message = found.message;
    message.append(" (FileSystem Mode - Decrypted)");
    RecoveryScanResult {
        success: true,
        message,
        scan_mode: "FileSystem".to_owned(),
        drive: found.drive,
        bitlocker_status: found.bitlocker_status,
        mft_entries: fs_offers_to_recoverable(found.mft_entries),
        carved_files: Vec::new(),
        orphan_files: Vec::new(),
        total_files: found.total_files,
        total_recoverable_size: found.total_recoverable_size,
        scan_duration_ms: found.scan_duration_ms,
        sectors_scanned: 0,
        mft_records_scanned: found.mft_records_scanned,
        orphan_records_found: 0,
        requires_admin: true,
    }
}

// ---------------------------------------------------------------------
// Reporting a recovery
// ---------------------------------------------------------------------

/// What is said of an offer of the table whose runs are lost.
pub open spec fn lost_runs_message(name: Seq<char>, difficulty: Seq<char>) -> Seq<char> {
    "File '"@ + name
        + "' cannot be recovered. The file's cluster information has been lost. Recovery difficulty: "@
        + difficulty + ". Try deep scan for file carving."@
}

/// The failure that is reported of an offer of the table whose runs are
/// lost: there is nothing to read.
pub fn lost_runs_result(file: &RecoverableFile, destination: &str) -> (r: FileRecoveryResult)
    ensures
        !r.success,
        r.bytes_recovered == 0,
        r.source_path@ == file.path@,
        r.destination_path@ == destination@,
        r.message@ == lost_runs_message(file.name@, file.difficulty@),
{
    let mut message = "File '".to_owned();
    message.append(file.name.as_str());
    message.append(
        "' cannot be recovered. The file's cluster information has been lost. Recovery difficulty: ",
    );
    message.append(file.difficulty.as_str());
    message.append(". Try deep scan for file carving.");
    FileRecoveryResult {
        success: false,
        source_path: file.path.clone(),
        destination_path: destination.to_owned(),
        bytes_recovered: 0,
        message,
    }
}

/// Reports the outcome of the reassembly of an offer of the table. Bytes
/// count as recovered only where they are to be written: in full, or with
/// failed runs; bytes that were refused are not.
pub fn table_recovery_result(
    file: &RecoverableFile,
    ext: &str,
    destination: &str,
    state: &Reassembly,
    verdict: Verdict,
) -> (r: FileRecoveryResult)
    ensures
        r.success == (verdict_outcome(verdict) == Outcome::Recovered),
        r.bytes_recovered == if verdict_outcome(verdict) == Outcome::Recovered {
            state.data@.len() as u64
        } else {
            0
        },
        r.source_path@ == file.path@,
        r.destination_path@ == destination@,
        r.message@ == reassembly_message(file.name@, ext@, file.size, state@, verdict),
{
    let written: bool = match verdict {
        Verdict::Complete => true,
        Verdict::Partial => true,
        _ => false,
    };
    FileRecoveryResult {
        success: written,
        source_path: file.path.clone(),
        destination_path: destination.to_owned(),
        bytes_recovered: if written {
            state.data.len() as u64
        } else {
            0
        },
        message: reassembly_text(file.name.as_str(), ext, file.size, state, verdict),
    }
}

/// What is said of carved bytes that were read back from the volume, for a
/// file whose extension in lowercase is `ext`: the reason for which they
/// are refused, or else what the look at their header gave.
pub open spec fn carved_message(name: Seq<char>, data: Seq<u8>, ext: Seq<char>) -> Seq<char> {
    match corruption_of(data, ext) {
        Some(kind) => "Recovery failed for '"@ + name + "': "@ + corruption_message(kind, ext),
        None => if passes_header_check(data, ext) {
            "Successfully recovered "@ + decimal_text(data.len()) + " bytes. File appears intact."@
        } else {
            "Recovered "@ + decimal_text(data.len()) + " bytes ("@ + header_check_details(data, ext)
                + "). The file may be partially corrupted."@
        },
    }
}

/// Reports the recovery of a carved offer from the bytes that were read
/// back. Bytes that the check of their structure refuses are not to be
/// written, and the recovery has failed; all others are.
pub fn carved_recovery_result(file: &RecoverableFile, destination: &str, data: &[u8]) -> (r:
    FileRecoveryResult)
    ensures
        r.success == corruption_of(data@, lowercase(file.extension@)).is_none(),
        r.bytes_recovered == if r.success {
            data@.len() as u64
        } else {
            0
        },
        r.source_path@ == file.path@,
        r.destination_path@ == destination@,
        r.message@ == carved_message(file.name@, data@, lowercase(file.extension@)),
{
    let ext = to_lowercase(file.extension.as_str());
    let size = decimal_string(data.len() as u64);
    match find_corruption(data, ext.as_str()) {
        Some(kind) => {
            let mut message = "Recovery failed for '".to_owned();
            message.append(file.name.as_str());
            message.append("': ");
            let reason = describe_corruption(kind, ext.as_str());
            message.append(reason.as_str());
            FileRecoveryResult {
                success: false,
                source_path: file.path.clone(),
                destination_path: destination.to_owned(),
                bytes_recovered: 0,
                message,
            }
        },
        None => {
            let check = validate_recovered_data(data, file.extension.as_str());
            let message = if check.is_valid {
                let mut m = "Successfully recovered ".to_owned();
                m.append(size.as_str());
                m.append(" bytes. File appears intact.");
                m
            } else {
                let mut m = "Recovered ".to_owned();
                m.append(size.as_str());
                m.append(" bytes (");
                m.append(check.details.as_str());
                m.append("). The file may be partially corrupted.");
                m
            };
            FileRecoveryResult {
                success: true,
                source_path: file.path.clone(),
                destination_path: destination.to_owned(),
                bytes_recovered: data.len() as u64,
                message,
            }
        },
    }
}

/// The sum of the recoverable bytes of the first `upto` offers, or the
/// largest 64-bit number where it is larger.
pub open spec fn total_recoverable(files: Seq<RecoverableFile>, upto: int) -> u64
    decreases upto,
{
    if upto <= 0 {
        0
    } else if total_recoverable(files, upto - 1) + files[upto - 1].recoverable_bytes <= u64::MAX {
        (total_recoverable(files, upto - 1) + files[upto - 1].recoverable_bytes) as u64
    } else {
        u64::MAX
    }
}

/// Adds up the recoverable bytes of a list of offers.
pub fn sum_recoverable(files: &Vec<RecoverableFile>) -> (r: u64)
    ensures
        r == total_recoverable(files@, files@.len() as int),
{
    let mut total: u64 = 0;
    let mut i: usize = 0;
    while i < files.len()
        invariant
            i <= files.len(),
            total == total_recoverable(files@, i as int),
        decreases files.len() - i,
    {
        total = total.saturating_add(files[i].recoverable_bytes);
        i += 1;
    }
    total
}

} // verus!
