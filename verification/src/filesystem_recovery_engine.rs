//! The scan of a volume through the file system: which entries of the
//! Master File Table are offered for recovery, under which path, with which
//! chance, in which order and how many.

use std::collections::HashMap;
use std::collections::HashSet;
use vstd::prelude::*;
use vstd::string::*;
use crate::bitlocker::BitLockerStatus;
use crate::bytes::{le_u16, le_u32, read_le_u16, read_le_u32};
use crate::data_runs::DataRun;
use crate::error::RecoveryError;
use crate::filesystem_disk_reader::{UsnDeletedFile, UsnDeletedFileView};
use crate::fixup::apply_fixup;
use crate::ntfs_parser::{
    attribute_at, is_file_record, parse_mft_record, record_entry, repaired_record, MftEntry,
    MftEntryView, ATTRIBUTE_DATA, MIN_RECORD_SIZE,
};
use crate::text::{
    chars_contain, chars_contain_str, chars_end_with, chars_end_with_str, chars_of, chars_rfind,
    chars_start_with, chars_start_with_str, contains_text, decimal_string, decimal_text,
    has_prefix, has_suffix, last_index_of, lowercase, parse_number, parse_u64, string_texts,
    text_eq, to_lowercase, utf8_len,
};
use crate::validation::{among, is_among};

verus! {

broadcast use vstd::std_specs::hash::group_hash_axioms;

/// What a scan through the file system found.
#[derive(Debug)]
pub struct FileSystemScanResult {
    pub success: bool,
    pub message: String,
    pub scan_mode: String,
    pub drive: String,
    pub bitlocker_status: Option<BitLockerStatus>,
    pub mft_entries: Vec<RecoverableFileFS>,
    pub total_files: usize,
    pub total_recoverable_size: u64,
    pub scan_duration_ms: u64,
    pub mft_records_scanned: u64,
    pub requires_admin: bool,
}

/// A file that is offered for recovery.
#[derive(Clone, Debug)]
pub struct RecoverableFileFS {
    pub id: String,
    pub name: String,
    pub path: String,
    pub size: u64,
    pub extension: String,
    pub category: String,
    pub file_type: String,
    pub modified: String,
    pub created: String,
    pub is_deleted: bool,
    /// From 0 to 100.
    pub recovery_chance: u8,
    pub source: String,
    /// The first cluster of the file.
    pub cluster_offset: Option<i64>,
    pub data_runs: Option<Vec<DataRun>>,
}

pub ghost struct RecoverableFileFSView {
    pub id: Seq<char>,
    pub name: Seq<char>,
    pub path: Seq<char>,
    pub size: u64,
    pub extension: Seq<char>,
    pub category: Seq<char>,
    pub file_type: Seq<char>,
    pub modified: Seq<char>,
    pub created: Seq<char>,
    pub is_deleted: bool,
    pub recovery_chance: u8,
    pub source: Seq<char>,
    pub cluster_offset: Option<i64>,
    pub data_runs: Option<Seq<DataRun>>,
}

impl View for RecoverableFileFS {
    type V = RecoverableFileFSView;

    open spec fn view(&self) -> RecoverableFileFSView {
        RecoverableFileFSView {
            id: self.id@,
            name: self.name@,
            path: self.path@,
            size: self.size,
            extension: self.extension@,
            category: self.category@,
            file_type: self.file_type@,
            modified: self.modified@,
            created: self.created@,
            is_deleted: self.is_deleted,
            recovery_chance: self.recovery_chance,
            source: self.source@,
            cluster_offset: self.cluster_offset,
            data_runs: match self.data_runs {
                Some(runs) => Some(runs@),
                None => None,
            },
        }
    }
}

/// The outcome of the recovery of one file.
#[derive(Clone, Debug)]
pub struct FileRecoveryResultFS {
    pub success: bool,
    pub source_path: String,
    pub destination_path: String,
    pub bytes_recovered: u64,
    pub message: String,
}

/// The record number of the root directory.
pub const ROOT_RECORD: u64 = 5;

/// The most directories that a path is followed upwards.
pub const MAX_PATH_DEPTH: usize = 100;

// ---------------------------------------------------------------------
// Identifiers
// ---------------------------------------------------------------------

/// The record number in an identifier of the form `fs_mft_N` or
/// `usn_mft_N`.
pub open spec fn record_of_id(id: Seq<char>) -> Option<u64> {
    if has_prefix(id, "fs_mft_"@) {
        parse_u64(id.skip(7))
    } else if has_prefix(id, "usn_mft_"@) {
        parse_u64(id.skip(8))
    } else {
        None
    }
}

pub fn extract_mft_record_from_id(id: &str) -> (r: Option<u64>)
    ensures
        r == record_of_id(id@),
{
    proof {
        reveal_strlit("fs_mft_");
        reveal_strlit("usn_mft_");
    }
    let chars = chars_of(id);
    let fs = chars_of("fs_mft_");
    let usn = chars_of("usn_mft_");
    if chars_start_with(chars.as_slice(), fs.as_slice()) {
        parse_number(chars.as_slice(), 7)
    } else if chars_start_with(chars.as_slice(), usn.as_slice()) {
        parse_number(chars.as_slice(), 8)
    } else {
        None
    }
}

/// The record number in an identifier, or zero where it has none.
pub fn extract_mft_record(id: &str) -> (r: u64)
    ensures
        r == match record_of_id(id@) {
            Some(n) => n,
            None => 0,
        },
{
    match extract_mft_record_from_id(id) {
        Some(n) => n,
        None => 0,
    }
}

/// The identifier of an entry of the table.
pub open spec fn mft_id(record_number: u64) -> Seq<char> {
    "fs_mft_"@ + decimal_text(record_number as nat)
}

/// The identifier of a deletion from the journal.
pub open spec fn usn_id(record_number: u64) -> Seq<char> {
    "usn_mft_"@ + decimal_text(record_number as nat)
}

fn make_id(prefix: &str, record_number: u64) -> (r: String)
    ensures
        r@ == prefix@ + decimal_text(record_number as nat),
{
    let mut id = prefix.to_owned();
    let digits = decimal_string(record_number);
    id.append(digits.as_str());
    id
}

// ---------------------------------------------------------------------
// Paths
// ---------------------------------------------------------------------

/// A directory name that becomes part of a path: not empty, no system
/// name, and not the dot.
pub open spec fn is_path_part(name: Seq<char>) -> bool {
    name.len() > 0 && name[0] != '$' && name != "."@
}

/// The names of the directories above a file, nearest first: from `parent`
/// upwards through the map until the root, a record that the map does not
/// hold, or the depth cap.
pub open spec fn ancestors(dirs: Map<u64, (u64, String)>, parent: u64, depth: nat) -> Seq<
    Seq<char>,
>
    decreases MAX_PATH_DEPTH - depth,
{
    if parent == ROOT_RECORD || depth >= MAX_PATH_DEPTH || !dirs.contains_key(parent) {
        Seq::empty()
    } else {
        let here = if is_path_part(dirs[parent].1@) {
            seq![dirs[parent].1@]
        } else {
            Seq::empty()
        };
        here + ancestors(dirs, dirs[parent].0, depth + 1)
    }
}

/// The walk up the parents ends after a hundred steps at most, whatever
/// the map holds: no path has more than a hundred directories.
pub proof fn lemma_path_walk_bounded(dirs: Map<u64, (u64, String)>, parent: u64, depth: nat)
    ensures
        ancestors(dirs, parent, depth).len() <= MAX_PATH_DEPTH - depth || depth >= MAX_PATH_DEPTH,
        ancestors(dirs, parent, depth).len() <= MAX_PATH_DEPTH,
    decreases MAX_PATH_DEPTH - depth,
{
    if parent != ROOT_RECORD && depth < MAX_PATH_DEPTH && dirs.contains_key(parent) {
        lemma_path_walk_bounded(dirs, dirs[parent].0, depth + 1);
    }
}

/// The directories of a path, outermost first, each followed by a
/// backslash.
pub open spec fn directory_prefix(nearest_first: Seq<Seq<char>>) -> Seq<char>
    decreases nearest_first.len(),
{
    if nearest_first.len() == 0 {
        Seq::empty()
    } else {
        directory_prefix(nearest_first.drop_first()) + nearest_first[0] + "\\"@
    }
}

/// The path of a file: the drive, a colon and a backslash, the directories
/// and the file name.
pub open spec fn path_text(drive: Seq<char>, nearest_first: Seq<Seq<char>>, file_name: Seq<char>) -> Seq<
    char,
> {
    drive + ":\\"@ + directory_prefix(nearest_first) + file_name
}

/// The path of a file whose parent directory is `parent_record`.
pub open spec fn full_path(
    drive: Seq<char>,
    parent_record: u64,
    file_name: Seq<char>,
    dirs: Map<u64, (u64, String)>,
) -> Seq<char> {
    path_text(drive, ancestors(dirs, parent_record, 0), file_name)
}

/// Tells whether a directory name becomes part of a path.
pub fn is_part(name: &str) -> (r: bool)
    ensures
        r == is_path_part(name@),
{
    if name.is_empty() {
        return false;
    }
    if name.get_char(0) == '$' {
        return false;
    }
    !text_eq(name, ".")
}

/// Puts a path together from the names of its directories, nearest first.
pub fn join_path(drive_letter: &str, nearest_first: &Vec<String>, file_name: &str) -> (r: String)
    ensures
        r@ == path_text(drive_letter@, string_texts(nearest_first@), file_name@),
{
    let mut path = drive_letter.to_owned();
    path.append(":\\");
    let mut k: usize = nearest_first.len();
    let ghost all = string_texts(nearest_first@);
    assert(all.skip(all.len() as int) =~= Seq::<Seq<char>>::empty());
    assert(path@ + Seq::<char>::empty() =~= path@);
    while k > 0
        invariant
            k <= nearest_first.len(),
            all == string_texts(nearest_first@),
            path@ == drive_letter@ + ":\\"@ + directory_prefix(all.skip(k as int)),
        decreases k,
    {
        k -= 1;
        assert(all.skip(k as int).drop_first() =~= all.skip(k + 1));
        assert(all.skip(k as int)[0] == nearest_first@[k as int]@);
        let ghost before = path@;
        path.append(nearest_first[k].as_str());
        path.append("\\");
        assert(path@ =~= drive_letter@ + ":\\"@ + directory_prefix(all.skip(k as int)));
    }
    assert(all.skip(0) =~= all);
    path.append(file_name);
    path
}

/// Builds the path of a file by following its parents through the map of
/// directories.
pub fn build_full_path(
    drive_letter: &str,
    parent_record: u64,
    file_name: &str,
    dir_map: &HashMap<u64, (u64, String)>,
) -> (r: String)
    ensures
        r@ == full_path(drive_letter@, parent_record, file_name@, dir_map@),
{
    let mut parts: Vec<String> = Vec::new();
    let mut current: u64 = parent_record;
    let mut depth: usize = 0;
    assert(string_texts(parts@) =~= Seq::<Seq<char>>::empty());
    loop
        invariant
            depth <= MAX_PATH_DEPTH,
            string_texts(parts@) + ancestors(dir_map@, current, depth as nat) == ancestors(
                dir_map@,
                parent_record,
                0,
            ),
        ensures
            string_texts(parts@) == ancestors(dir_map@, parent_record, 0),
        decreases MAX_PATH_DEPTH - depth,
    {
        let ghost before = string_texts(parts@);
        if current == ROOT_RECORD || depth >= MAX_PATH_DEPTH {
            assert(before + Seq::<Seq<char>>::empty() =~= before);
            break ;
        }
        match dir_map.get(&current) {
            Some(entry) => {
                let ghost rest = ancestors(dir_map@, entry.0, (depth + 1) as nat);
                if is_part(entry.1.as_str()) {
                    parts.push(entry.1.clone());
                    assert(string_texts(parts@) =~= before + seq![entry.1@]);
                    assert((before + seq![entry.1@]) + rest =~= before + (seq![entry.1@] + rest));
                } else {
                    assert(before + (Seq::<Seq<char>>::empty() + rest) =~= before + rest);
                }
                current = entry.0;
                depth += 1;
            },
            None => {
                assert(before + Seq::<Seq<char>>::empty() =~= before);
                break ;
            },
        }
    }
    join_path(drive_letter, &parts, file_name)
}

// ---------------------------------------------------------------------
// Lists of texts
// ---------------------------------------------------------------------

/// One of the texts of `list` occurs in `text`.
pub open spec fn contains_any(text: Seq<char>, list: Seq<&'static str>) -> bool {
    exists|i: int| 0 <= i < list.len() && contains_text(text, (#[trigger] list[i])@)
}

/// `text` ends with one of the texts of `list`.
pub open spec fn ends_with_any(text: Seq<char>, list: Seq<&'static str>) -> bool {
    exists|i: int| 0 <= i < list.len() && has_suffix(text, (#[trigger] list[i])@)
}

fn has_any(text: &[char], list: &[&'static str]) -> (r: bool)
    ensures
        r == contains_any(text@, list@),
{
    let mut i: usize = 0;
    while i < list.len()
        invariant
            i <= list.len(),
            forall|j: int| 0 <= j < i ==> !contains_text(text@, (#[trigger] list@[j])@),
        decreases list.len() - i,
    {
        let pattern = chars_of(list[i]);
        if chars_contain(text, pattern.as_slice()) {
            return true;
        }
        i += 1;
    }
    false
}

fn ends_with_one(text: &[char], list: &[&'static str]) -> (r: bool)
    ensures
        r == ends_with_any(text@, list@),
{
    let mut i: usize = 0;
    while i < list.len()
        invariant
            i <= list.len(),
            forall|j: int| 0 <= j < i ==> !has_suffix(text@, (#[trigger] list@[j])@),
        decreases list.len() - i,
    {
        let pattern = chars_of(list[i]);
        if chars_end_with(text, pattern.as_slice()) {
            return true;
        }
        i += 1;
    }
    false
}

// ---------------------------------------------------------------------
// Temporary files and junk
// ---------------------------------------------------------------------

/// The endings of names of temporary files.
pub open spec fn temp_suffixes() -> Seq<&'static str> {
    seq![".tmp", ".temp", ".bak", ".~", ".lock", ".partial", ".crdownload", ".part"]
}

/// The parts of paths that mark temporary, cache and system directories.
pub open spec fn temp_directories() -> Seq<&'static str> {
    seq![
        "\\temp\\",
        "\\tmp\\",
        "\\appdata\\local\\temp",
        "\\windows\\temp",
        "\\system volume information",
        "\\prefetch",
        "\\.cache\\",
        "\\cache\\",
        "\\cache_data\\",
        "\\code cache\\",
        "\\gpucache\\",
        "\\shadercache\\",
        "\\thumbnails\\",
        "\\winsxs\\",
        "\\windows\\assembly",
        "\\windows\\installer",
        "\\microsoft\\windows\\inetcache",
        "\\local\\microsoft\\edge",
        "\\local\\google\\chrome",
        "\\local\\mozilla\\firefox",
        "\\local\\packages\\",
    ]
}

/// The extensions of files that are never offered.
pub open spec fn junk_extensions() -> Seq<&'static str> {
    seq!["lnk", "url", "ini", "tmp", "temp", "log", "bak", "thumbs"]
}

pub open spec fn is_hex_digit(c: char) -> bool {
    ('0' <= c <= '9') || ('a' <= c <= 'f') || ('A' <= c <= 'F')
}

/// The name of a file of a browser's cache: `f_` and hexadecimal digits, ten
/// bytes at most.
pub open spec fn is_cache_name(name: Seq<char>) -> bool {
    &&& has_prefix(name, "f_"@)
    &&& utf8_len(name) <= 10
    &&& forall|i: int| 2 <= i < name.len() ==> is_hex_digit(#[trigger] name[i])
}

/// A name and a path, both in lowercase, are those of a temporary, cache or
/// system file. The recycle bin is no such place.
pub open spec fn is_temp(name: Seq<char>, path: Seq<char>) -> bool {
    ||| ends_with_any(name, temp_suffixes())
    ||| has_prefix(name, "~"@)
    ||| contains_text(name, ".tmp"@)
    ||| is_cache_name(name)
    ||| contains_any(path, temp_directories())
}

fn check_cache_name(name: &str, chars: &[char]) -> (r: bool)
    requires
        chars@ == name@,
    ensures
        r == is_cache_name(name@),
{
    if !chars_start_with_str(chars, "f_") || name.as_bytes().len() > 10 {
        return false;
    }
    let mut i: usize = 2;
    while i < chars.len()
        invariant
            2 <= i,
            chars@ == name@,
            forall|j: int| 2 <= j < i && j < chars@.len() ==> is_hex_digit(#[trigger] chars@[j]),
        decreases chars.len() - i,
    {
        let c: char = chars[i];
        if !(('0' <= c && c <= '9') || ('a' <= c && c <= 'f') || ('A' <= c && c <= 'F')) {
            return false;
        }
        i += 1;
    }
    true
}

/// Tells whether a name and a path, both in lowercase, are those of a
/// temporary, cache or system file.
pub fn is_temp_lowered(name: &str, path: &str) -> (r: bool)
    ensures
        r == is_temp(name@, path@),
{
    let name_chars = chars_of(name);
    let suffixes: [&'static str; 8] = [
        ".tmp",
        ".temp",
        ".bak",
        ".~",
        ".lock",
        ".partial",
        ".crdownload",
        ".part",
    ];
    assert(suffixes@ =~= temp_suffixes());
    if ends_with_one(name_chars.as_slice(), suffixes.as_slice()) {
        return true;
    }
    if chars_start_with_str(name_chars.as_slice(), "~") || chars_contain_str(name_chars.as_slice(), ".tmp") {
        return true;
    }
    if check_cache_name(name, name_chars.as_slice()) {
        return true;
    }
    let path_chars = chars_of(path);
    let directories: [&'static str; 21] = [
        "\\temp\\",
        "\\tmp\\",
        "\\appdata\\local\\temp",
        "\\windows\\temp",
        "\\system volume information",
        "\\prefetch",
        "\\.cache\\",
        "\\cache\\",
        "\\cache_data\\",
        "\\code cache\\",
        "\\gpucache\\",
        "\\shadercache\\",
        "\\thumbnails\\",
        "\\winsxs\\",
        "\\windows\\assembly",
        "\\windows\\installer",
        "\\microsoft\\windows\\inetcache",
        "\\local\\microsoft\\edge",
        "\\local\\google\\chrome",
        "\\local\\mozilla\\firefox",
        "\\local\\packages\\",
    ];
    assert(directories@ =~= temp_directories());
    has_any(path_chars.as_slice(), directories.as_slice())
}

/// Tells whether a file is a temporary, cache or system file, by its name
/// and its path. Both are compared in lowercase.
pub fn is_temp_file(name: &str, path: &str) -> (r: bool)
    ensures
        r == is_temp(lowercase(name@), lowercase(path@)),
{
    let name_lower = to_lowercase(name);
    let path_lower = to_lowercase(path);
    is_temp_lowered(name_lower.as_str(), path_lower.as_str())
}

// ---------------------------------------------------------------------
// Ranking paths
// ---------------------------------------------------------------------

/// The rank of a path in lowercase: the folders of a user profile come
/// first, the lower the rank the earlier.
pub open spec fn path_priority(path: Seq<char>) -> u32 {
    if contains_text(path, "\\desktop\\"@) || has_suffix(path, "\\desktop"@) {
        1
    } else if contains_text(path, "\\downloads\\"@) {
        2
    } else if contains_text(path, "\\documents\\"@) {
        3
    } else if contains_text(path, "\\pictures\\"@) || contains_text(path, "\\videos\\"@) {
        4
    } else if contains_text(path, "\\music\\"@) {
        5
    } else if contains_text(path, "\\users\\"@) {
        10
    } else {
        99
    }
}

/// Ranks a path that is given in lowercase.
pub fn priority_of_lowered(path: &str) -> (r: u32)
    ensures
        r == path_priority(path@),
{
    let chars = chars_of(path);
    let text = chars.as_slice();
    if chars_contain_str(text, "\\desktop\\") || chars_end_with_str(text, "\\desktop") {
        1
    } else if chars_contain_str(text, "\\downloads\\") {
        2
    } else if chars_contain_str(text, "\\documents\\") {
        3
    } else if chars_contain_str(text, "\\pictures\\") || chars_contain_str(text, "\\videos\\") {
        4
    } else if chars_contain_str(text, "\\music\\") {
        5
    } else if chars_contain_str(text, "\\users\\") {
        10
    } else {
        99
    }
}

/// Ranks a path. It is compared in lowercase.
pub fn get_path_priority(path: &str) -> (r: u32)
    ensures
        r == path_priority(lowercase(path@)),
{
    let lowered = to_lowercase(path);
    priority_of_lowered(lowered.as_str())
}

// ---------------------------------------------------------------------
// Categories, chances, times
// ---------------------------------------------------------------------

/// The category of a file by its extension, as it is given.
pub open spec fn category_of(ext: Seq<char>) -> Seq<char> {
    if among(ext, seq!["jpg", "jpeg", "png", "gif", "bmp", "tiff", "webp", "svg"]) {
        "Images"@
    } else if among(ext, seq!["mp4", "avi", "mkv", "mov", "wmv", "flv", "webm"]) {
        "Videos"@
    } else if among(ext, seq!["mp3", "wav", "flac", "aac", "ogg", "m4a", "wma"]) {
        "Audio"@
    } else if ext == "pdf"@ {
        "PDF Documents"@
    } else if among(ext, seq!["doc", "docx", "odt", "rtf"]) {
        "Word Documents"@
    } else if among(ext, seq!["xls", "xlsx", "ods", "csv"]) {
        "Spreadsheets"@
    } else if among(ext, seq!["ppt", "pptx", "odp"]) {
        "Presentations"@
    } else if among(ext, seq!["txt", "log", "md", "json", "xml", "html", "css", "js"]) {
        "Text Files"@
    } else if among(ext, seq!["zip", "rar", "7z", "tar", "gz", "bz2"]) {
        "Archives"@
    } else if among(ext, seq!["exe", "dll", "sys", "msi"]) {
        "Executables"@
    } else {
        "Other"@
    }
}

pub fn categorize_file(extension: &str) -> (r: String)
    ensures
        r@ == category_of(extension@),
{
    let images: [&'static str; 8] = ["jpg", "jpeg", "png", "gif", "bmp", "tiff", "webp", "svg"];
    let videos: [&'static str; 7] = ["mp4", "avi", "mkv", "mov", "wmv", "flv", "webm"];
    let audio: [&'static str; 7] = ["mp3", "wav", "flac", "aac", "ogg", "m4a", "wma"];
    let word: [&'static str; 4] = ["doc", "docx", "odt", "rtf"];
    let sheets: [&'static str; 4] = ["xls", "xlsx", "ods", "csv"];
    let slides: [&'static str; 3] = ["ppt", "pptx", "odp"];
    let texts: [&'static str; 8] = ["txt", "log", "md", "json", "xml", "html", "css", "js"];
    let archives: [&'static str; 6] = ["zip", "rar", "7z", "tar", "gz", "bz2"];
    let executables: [&'static str; 4] = ["exe", "dll", "sys", "msi"];
    assert(images@ =~= seq!["jpg", "jpeg", "png", "gif", "bmp", "tiff", "webp", "svg"]);
    assert(videos@ =~= seq!["mp4", "avi", "mkv", "mov", "wmv", "flv", "webm"]);
    assert(audio@ =~= seq!["mp3", "wav", "flac", "aac", "ogg", "m4a", "wma"]);
    assert(word@ =~= seq!["doc", "docx", "odt", "rtf"]);
    assert(sheets@ =~= seq!["xls", "xlsx", "ods", "csv"]);
    assert(slides@ =~= seq!["ppt", "pptx", "odp"]);
    assert(texts@ =~= seq!["txt", "log", "md", "json", "xml", "html", "css", "js"]);
    assert(archives@ =~= seq!["zip", "rar", "7z", "tar", "gz", "bz2"]);
    assert(executables@ =~= seq!["exe", "dll", "sys", "msi"]);
    if is_among(extension, images.as_slice()) {
        "Images".to_owned()
    } else if is_among(extension, videos.as_slice()) {
        "Videos".to_owned()
    } else if is_among(extension, audio.as_slice()) {
        "Audio".to_owned()
    } else if text_eq(extension, "pdf") {
        "PDF Documents".to_owned()
    } else if is_among(extension, word.as_slice()) {
        "Word Documents".to_owned()
    } else if is_among(extension, sheets.as_slice()) {
        "Spreadsheets".to_owned()
    } else if is_among(extension, slides.as_slice()) {
        "Presentations".to_owned()
    } else if is_among(extension, texts.as_slice()) {
        "Text Files".to_owned()
    } else if is_among(extension, archives.as_slice()) {
        "Archives".to_owned()
    } else if is_among(extension, executables.as_slice()) {
        "Executables".to_owned()
    } else {
        "Other".to_owned()
    }
}

/// The chance, from 0 to 100, that the content of an entry of the table
/// can be recovered.
pub open spec fn recovery_chance_of(is_deleted: bool, has_runs: bool, size: u64) -> u8 {
    if !is_deleted {
        95
    } else if !has_runs {
        if size <= 700 {
            50
        } else if size <= 100 * 1024 {
            15
        } else {
            5
        }
    } else if size <= 4096 {
        60
    } else if size <= 100 * 1024 {
        45
    } else if size <= 1024 * 1024 {
        30
    } else {
        20
    }
}

pub fn recovery_chance(is_deleted: bool, has_runs: bool, size: u64) -> (r: u8)
    ensures
        r == recovery_chance_of(is_deleted, has_runs, size),
{
    if !is_deleted {
        95
    } else if !has_runs {
        if size <= 700 {
            50
        } else if size <= 100 * 1024 {
            15
        } else {
            5
        }
    } else if size <= 4096 {
        60
    } else if size <= 100 * 1024 {
        45
    } else if size <= 1024 * 1024 {
        30
    } else {
        20
    }
}

/// The date and time of a count of seconds since 1970, in UTC, written as
/// year, month, day, hour, minute and second; `None` where the count is out
/// of the range of dates.
pub uninterp spec fn utc_timestamp_text(seconds: int) -> Option<Seq<char>>;

/// `chrono::DateTime::from_timestamp`, and `format` with the pattern
/// `%Y-%m-%d %H:%M:%S` on what it gives. Nothing is proved of them: the
/// result is taken to be the date and time of the count of seconds.
#[verifier::external_body]
fn utc_timestamp(seconds: i64) -> (r: Option<String>)
    ensures
        match r {
            Some(text) => utc_timestamp_text(seconds as int) == Some(text@),
            None => utc_timestamp_text(seconds as int).is_none(),
        },
{
    match chrono::DateTime::from_timestamp(seconds, 0) {
        Some(date_time) => Some(date_time.format("%Y-%m-%d %H:%M:%S").to_string()),
        None => None,
    }
}

/// How a time is shown: `Unknown` for a count of seconds that is not
/// positive or out of the range of dates.
pub open spec fn timestamp_label(seconds: i64) -> Seq<char> {
    if seconds <= 0 {
        "Unknown"@
    } else {
        match utc_timestamp_text(seconds as int) {
            Some(text) => text,
            None => "Unknown"@,
        }
    }
}

/// How a time is shown, given the date and time of its count of seconds.
pub open spec fn timestamp_label_from(seconds: i64, text: Option<Seq<char>>) -> Seq<char> {
    if seconds <= 0 {
        "Unknown"@
    } else {
        match text {
            Some(text) => text,
            None => "Unknown"@,
        }
    }
}

/// Shows a time, given the date and time of its count of seconds.
pub fn label_timestamp(seconds: i64, text: Option<String>) -> (r: String)
    ensures
        r@ == timestamp_label_from(
            seconds,
            match text {
                Some(t) => Some(t@),
                None => None,
            },
        ),
{
    if seconds <= 0 {
        return "Unknown".to_owned();
    }
    match text {
        Some(text) => text,
        None => "Unknown".to_owned(),
    }
}

/// Shows a time that is given in seconds since 1970.
pub fn format_timestamp(unix_ts: i64) -> (r: String)
    ensures
        r@ == timestamp_label(unix_ts),
{
    if unix_ts <= 0 {
        return "Unknown".to_owned();
    }
    label_timestamp(unix_ts, utc_timestamp(unix_ts))
}

// ---------------------------------------------------------------------
// Resident data
// ---------------------------------------------------------------------

/// Where the content of the unnamed resident data stream lies, for the
/// attributes from `at` on: its offset in the record and its length. The
/// stream counts only where its content is not empty and lies inside the
/// record.
pub open spec fn resident_data_from(record: Seq<u8>, at: int) -> Option<(int, int)>
    decreases record.len() - at,
{
    if !attribute_at(record, at) || at + 24 > record.len() {
        None
    } else if le_u32(record, at) == ATTRIBUTE_DATA && record[at + 8] == 0 && record[at + 9] == 0
        && le_u32(record, at + 16) > 0 && at + le_u16(record, at + 20) + le_u32(record, at + 16)
        <= record.len() {
        Some((at + le_u16(record, at + 20), le_u32(record, at + 16)))
    } else {
        resident_data_from(record, at + le_u32(record, at + 4))
    }
}

/// The content of a small file that is stored inside its record, cut to
/// `expected_size` bytes; `None` where the buffer is no record or holds no
/// such content. The content is read after the update sequence array of
/// the record was applied, so that it holds the bytes of the file where it
/// lies across the end of a sector.
pub open spec fn resident_data_of(data: Seq<u8>, expected_size: u64) -> Option<Seq<u8>> {
    if !is_file_record(data) {
        None
    } else {
        let record = repaired_record(data);
        match resident_data_from(record, le_u16(record, 0x14)) {
            Some((start, len)) => Some(
                record.subrange(
                    start,
                    start + if len <= expected_size {
                        len
                    } else {
                        expected_size as int
                    },
                ),
            ),
            None => None,
        }
    }
}

/// Takes the content of a small file out of its record.
#[verifier::loop_isolation(false)]
pub fn extract_resident_data(mft_record: &[u8], expected_size: u64) -> (r: Option<Vec<u8>>)
    ensures
        match r {
            Some(data) => resident_data_of(mft_record@, expected_size) == Some(data@),
            None => resident_data_of(mft_record@, expected_size).is_none(),
        },
{
    let len: usize = mft_record.len();
    if len < MIN_RECORD_SIZE || mft_record[0] != 0x46 || mft_record[1] != 0x49 || mft_record[2]
        != 0x4C || mft_record[3] != 0x45 {
        return None;
    }
    let update_seq_offset: u16 = read_le_u16(mft_record, 4);
    let update_seq_size: u16 = read_le_u16(mft_record, 6);
    let mut repaired: Vec<u8> = vstd::slice::slice_to_vec(mft_record);
    apply_fixup(&mut repaired, update_seq_offset as usize, update_seq_size as usize);
    proof {
        crate::fixup::lemma_fixed_up_len(
            mft_record@,
            update_seq_offset as int,
            update_seq_size as int,
        );
    }
    let mft_record: &[u8] = repaired.as_slice();
    let first: usize = read_le_u16(mft_record, 0x14) as usize;
    let mut at: usize = first;
    loop
        invariant
            len == mft_record@.len(),
            resident_data_from(mft_record@, at as int) == resident_data_from(
                mft_record@,
                first as int,
            ),
        decreases len - at,
    {
        if at > len - 24 {
            return None;
        }
        let kind: u32 = read_le_u32(mft_record, at);
        if kind == 0 || kind == 0xFFFF_FFFF {
            return None;
        }
        let attr_length: usize = read_le_u32(mft_record, at + 4) as usize;
        if attr_length == 0 || attr_length > len - at {
            return None;
        }
        if kind == ATTRIBUTE_DATA && mft_record[at + 8] == 0 && mft_record[at + 9] == 0 {
            let content_size: usize = read_le_u32(mft_record, at + 16) as usize;
            let content_offset: usize = read_le_u16(mft_record, at + 20) as usize;
            if content_size > 0 && content_offset <= len - at && content_size <= len - at
                - content_offset {
                let start: usize = at + content_offset;
                let take: usize = if content_size as u64 <= expected_size {
                    content_size
                } else {
                    expected_size as usize
                };
                return Some(vstd::slice::slice_to_vec(&mft_record[start..start + take]));
            }
        }
        at = at + attr_length;
    }
}

// ---------------------------------------------------------------------
// From an entry of the table to an offer
// ---------------------------------------------------------------------

/// The size above which a deleted file without runs is not offered.
pub const UNRECOVERABLE_SIZE: u64 = 10 * 1024 * 1024;

/// The extension of a file name as the scan takes it: what follows the last
/// dot, in lowercase; empty where the name has no dot.
pub open spec fn scan_extension(name: Seq<char>) -> Seq<char> {
    match last_index_of(name, '.', name.len() as int) {
        Some(dot) => lowercase(name.skip(dot + 1)),
        None => Seq::empty(),
    }
}

pub fn extension_for_scan(name: &str) -> (r: String)
    ensures
        r@ == scan_extension(name@),
{
    let chars = chars_of(name);
    let n: usize = chars.len();
    match chars_rfind(chars.as_slice(), '.') {
        Some(dot) => {
            let rest = name.substring_char(dot + 1, n);
            assert(rest@ =~= name@.skip(dot + 1));
            to_lowercase(rest)
        },
        None => String::new(),
    }
}

/// A path leads into the recycle bin.
pub open spec fn in_recycle_bin(path: Seq<char>) -> bool {
    contains_text(lowercase(path), "$recycle.bin"@)
}

/// The first cluster of a run list.
pub open spec fn first_cluster(runs: Seq<DataRun>) -> Option<i64> {
    if runs.len() > 0 {
        Some(runs[0].cluster_offset)
    } else {
        None
    }
}

/// An entry of the table is not offered: it has no name, is a directory or
/// a system file, has a junk extension, has no size (unless it is deleted
/// and has runs), is a temporary file, or is deleted without runs and
/// larger than `UNRECOVERABLE_SIZE`.
pub open spec fn is_filtered_out(
    e: MftEntryView,
    path: Seq<char>,
) -> bool {
    ||| e.file_name.len() == 0
    ||| e.is_directory
    ||| e.file_name[0] == '$'
    ||| among(scan_extension(e.file_name), junk_extensions())
    ||| (e.file_size == 0 && !(e.is_deleted && e.data_runs.len() > 0))
    ||| is_temp(lowercase(e.file_name), lowercase(path))
    ||| (e.is_deleted && e.data_runs.len() == 0 && e.file_size > UNRECOVERABLE_SIZE)
}

/// The offer that an entry of the table gives, or `None` where it gives
/// none. A file in the recycle bin counts as deleted, and has a chance of
/// 95 where its record is in use.
pub open spec fn recoverable_of(
    drive: Seq<char>,
    e: MftEntryView,
    dirs: Map<u64, (u64, String)>,
) -> Option<RecoverableFileFSView> {
    let path = full_path(drive, e.parent_record, e.file_name, dirs);
    let ext = scan_extension(e.file_name);
    if is_filtered_out(e, path) {
        None
    } else {
        Some(
            RecoverableFileFSView {
                id: mft_id(e.record_number),
                name: e.file_name,
                path,
                size: e.file_size,
                extension: ext,
                category: category_of(ext),
                file_type: ext,
                modified: timestamp_label(e.modified_time),
                created: timestamp_label(e.created_time),
                is_deleted: e.is_deleted || in_recycle_bin(path),
                recovery_chance: if in_recycle_bin(path) && !e.is_deleted {
                    95
                } else {
                    recovery_chance_of(e.is_deleted, e.data_runs.len() > 0, e.file_size)
                },
                source: "mft"@,
                cluster_offset: first_cluster(e.data_runs),
                data_runs: Some(e.data_runs),
            },
        )
    }
}

/// A copy of a run list.
pub fn copy_runs(runs: &Vec<DataRun>) -> (r: Vec<DataRun>)
    ensures
        r@ == runs@,
{
    let mut copy: Vec<DataRun> = Vec::new();
    let mut i: usize = 0;
    while i < runs.len()
        invariant
            i <= runs.len(),
            copy@ == runs@.take(i as int),
        decreases runs.len() - i,
    {
        copy.push(runs[i]);
        assert(copy@ =~= runs@.take(i + 1));
        i += 1;
    }
    assert(runs@.take(runs@.len() as int) =~= runs@);
    copy
}

fn is_junk_extension(ext: &str) -> (r: bool)
    ensures
        r == among(ext@, junk_extensions()),
{
    let junk: [&'static str; 8] = ["lnk", "url", "ini", "tmp", "temp", "log", "bak", "thumbs"];
    assert(junk@ =~= junk_extensions());
    is_among(ext, junk.as_slice())
}

/// Tells whether a path leads into the recycle bin.
pub fn leads_into_recycle_bin(path: &str) -> (r: bool)
    ensures
        r == in_recycle_bin(path@),
{
    let lowered = to_lowercase(path);
    let chars = chars_of(lowered.as_str());
    chars_contain_str(chars.as_slice(), "$recycle.bin")
}

/// Turns an entry of the table into an offer, with its path built from the
/// map of directories.
pub fn mft_entry_to_recoverable_with_path(
    drive_letter: &str,
    entry: &MftEntry,
    dir_map: &HashMap<u64, (u64, String)>,
) -> (r: Option<RecoverableFileFS>)
    ensures
        match r {
            Some(file) => recoverable_of(drive_letter@, entry@, dir_map@) == Some(file@),
            None => recoverable_of(drive_letter@, entry@, dir_map@).is_none(),
        },
{
    let name = entry.file_name.as_str();
    if name.is_empty() {
        return None;
    }
    if entry.is_directory || name.get_char(0) == '$' {
        return None;
    }
    let extension = extension_for_scan(name);
    if is_junk_extension(extension.as_str()) {
        return None;
    }
    let has_runs: bool = entry.data_runs.len() > 0;
    if entry.file_size == 0 && !(entry.is_deleted && has_runs) {
        return None;
    }
    let path = build_full_path(drive_letter, entry.parent_record, name, dir_map);
    if is_temp_file(name, path.as_str()) {
        return None;
    }
    if entry.is_deleted && !has_runs && entry.file_size > UNRECOVERABLE_SIZE {
        return None;
    }
    let recycled: bool = leads_into_recycle_bin(path.as_str());
    let chance: u8 = if recycled && !entry.is_deleted {
        95
    } else {
        recovery_chance(entry.is_deleted, has_runs, entry.file_size)
    };
    let cluster_offset: Option<i64> = if has_runs {
        Some(entry.data_runs[0].cluster_offset)
    } else {
        None
    };
    Some(
        RecoverableFileFS {
            id: make_id("fs_mft_", entry.record_number),
            name: entry.file_name.clone(),
            path,
            size: entry.file_size,
            category: categorize_file(extension.as_str()),
            file_type: extension.clone(),
            extension,
            modified: format_timestamp(entry.modified_time),
            created: format_timestamp(entry.created_time),
            is_deleted: entry.is_deleted || recycled,
            recovery_chance: chance,
            source: "mft".to_owned(),
            cluster_offset,
            data_runs: Some(copy_runs(&entry.data_runs)),
        },
    )
}

// ---------------------------------------------------------------------
// The walk over the table
// ---------------------------------------------------------------------

/// The number of records that a scan reads when the size of the table is
/// not known and no limit is given.
pub const DEFAULT_SCAN_LIMIT: usize = 1_000_000;

/// The number of failed reads in a row after which a scan gives up.
pub const MAX_CONSECUTIVE_FAILURES: u64 = 100_000;

/// The number of records that a scan reads: the lesser of the size of the
/// table, where it is known, and the limit, where one is given.
pub fn scan_limit(mft_total: u64, max_records: Option<usize>) -> (r: usize)
    ensures
        r == match max_records {
            Some(max) => if 0 < mft_total < max {
                mft_total as usize
            } else {
                max
            },
            None => if 0 < mft_total <= usize::MAX {
                mft_total as usize
            } else if mft_total == 0 {
                DEFAULT_SCAN_LIMIT
            } else {
                usize::MAX
            },
        },
{
    match max_records {
        Some(max) => {
            if mft_total > 0 && mft_total < max as u64 {
                mft_total as usize
            } else {
                max
            }
        },
        None => {
            if mft_total == 0 {
                DEFAULT_SCAN_LIMIT
            } else if mft_total <= usize::MAX as u64 {
                mft_total as usize
            } else {
                usize::MAX
            }
        },
    }
}

/// Whether the walk over the table goes on to record `record_number`.
pub fn scan_continues(record_number: u64, limit: usize, consecutive_failures: u64, cancelled: bool) -> (r:
    bool)
    ensures
        r == (record_number < limit && consecutive_failures < MAX_CONSECUTIVE_FAILURES
            && !cancelled),
{
    record_number < limit as u64 && consecutive_failures < MAX_CONSECUTIVE_FAILURES && !cancelled
}

/// The number of failed reads in a row after one more read.
pub fn count_failure(consecutive_failures: u64, read_ok: bool) -> (r: u64)
    ensures
        r == if read_ok {
            0
        } else if consecutive_failures < u64::MAX {
            (consecutive_failures + 1) as u64
        } else {
            u64::MAX
        },
{
    if read_ok {
        0
    } else if consecutive_failures < u64::MAX {
        consecutive_failures + 1
    } else {
        u64::MAX
    }
}

/// What the walk over the table does next.
#[derive(Clone, Copy, Debug, PartialEq, Eq, Structural)]
pub enum WalkAction {
    /// Read the record of this number and hand in what the read gave.
    Read(u64),
    /// The walk is over.
    Done,
}

/// The walk over the table: where it stands and what it has gathered.
#[derive(Debug)]
pub struct TableWalk {
    /// The record to read next.
    pub record: u64,
    /// The number of records that the walk reads at most.
    pub limit: usize,
    /// The number of reads that failed since the last one that succeeded.
    pub consecutive_failures: u64,
    /// The number of failed reads in a row after which the walk gives up.
    pub failure_cap: u64,
    /// The number of records that were read.
    pub scanned: u64,
    /// The entries of the records that were read, in record order.
    pub entries: Vec<MftEntry>,
    /// The directories among them: record number to parent and name.
    pub directories: HashMap<u64, (u64, String)>,
}

/// Starts a walk over a table of `mft_total` records, zero where that is
/// not known. The walk gives up after `MAX_CONSECUTIVE_FAILURES` failed
/// reads in a row; the field takes another cap.
pub fn start_walk(mft_total: u64, max_records: Option<usize>) -> (walk: TableWalk)
    ensures
        walk.record == 0,
        walk.consecutive_failures == 0,
        walk.failure_cap == MAX_CONSECUTIVE_FAILURES,
        walk.scanned == 0,
        walk.entries@.len() == 0,
        walk.directories@ == Map::<u64, (u64, String)>::empty(),
        walk.limit == match max_records {
            Some(max) => if 0 < mft_total < max {
                mft_total as usize
            } else {
                max
            },
            None => if 0 < mft_total <= usize::MAX {
                mft_total as usize
            } else if mft_total == 0 {
                DEFAULT_SCAN_LIMIT
            } else {
                usize::MAX
            },
        },
{
    TableWalk {
        record: 0,
        limit: scan_limit(mft_total, max_records),
        consecutive_failures: 0,
        failure_cap: MAX_CONSECUTIVE_FAILURES,
        scanned: 0,
        entries: Vec::new(),
        directories: HashMap::new(),
    }
}

/// A count after one more, as far as 64 bits can hold it.
pub open spec fn stepped(n: u64) -> u64 {
    if n < u64::MAX {
        (n + 1) as u64
    } else {
        u64::MAX
    }
}

/// What the walk does next: it reads the next record as long as records
/// are left under the limit, fewer reads failed in a row than the cap of
/// the walk allows, and the operator did not cancel.
pub fn walk_action(walk: &TableWalk, cancelled: bool) -> (r: WalkAction)
    ensures
        r == if walk.record < walk.limit && walk.consecutive_failures < walk.failure_cap
            && !cancelled {
            WalkAction::Read(walk.record)
        } else {
            WalkAction::Done
        },
{
    if walk.record < walk.limit as u64 && walk.consecutive_failures < walk.failure_cap
        && !cancelled {
        WalkAction::Read(walk.record)
    } else {
        WalkAction::Done
    }
}

/// Hands in what the read of the next record gave; `None` stands for a
/// read that failed. The walk moves on to the next record number, as far
/// as 64 bits can hold one. A read that failed is counted and changes
/// nothing else. A read that succeeded is counted, and ends the run of
/// failures; where the bytes are a record, its entry is kept, and entered
/// into the map where it is a directory that the map takes.
pub fn walk_absorb(walk: &mut TableWalk, read: Option<&[u8]>)
    ensures
        final(walk).record == stepped(old(walk).record),
        final(walk).limit == old(walk).limit,
        final(walk).failure_cap == old(walk).failure_cap,
        match read {
            None => {
                &&& final(walk).consecutive_failures == if old(walk).consecutive_failures
                    < u64::MAX {
                    (old(walk).consecutive_failures + 1) as u64
                } else {
                    u64::MAX
                }
                &&& final(walk).scanned == old(walk).scanned
                &&& final(walk).entries@ == old(walk).entries@
                &&& final(walk).directories@ == old(walk).directories@
            },
            Some(bytes) => {
                &&& final(walk).consecutive_failures == 0
                &&& final(walk).scanned == stepped(old(walk).scanned)
                &&& match record_entry(bytes@, old(walk).record) {
                    None => {
                        &&& final(walk).entries@ == old(walk).entries@
                        &&& final(walk).directories@ == old(walk).directories@
                    },
                    Some(e) => {
                        &&& final(walk).entries@.len() == old(walk).entries@.len() + 1
                        &&& final(walk).entries@.last()@ == e
                        &&& final(walk).entries@.drop_last() == old(walk).entries@
                        &&& final(walk).directories@ == if is_mapped_directory(e) {
                            old(walk).directories@.insert(
                                e.record_number,
                                (e.parent_record, final(walk).entries@.last().file_name),
                            )
                        } else {
                            old(walk).directories@
                        }
                    },
                }
            },
        },
{
    match read {
        None => {
            walk.consecutive_failures = count_failure(walk.consecutive_failures, false);
        },
        Some(bytes) => {
            walk.consecutive_failures = 0;
            walk.scanned = walk.scanned.saturating_add(1);
            match parse_mft_record(bytes, walk.record) {
                Some(entry) => {
                    note_directory(&mut walk.directories, &entry);
                    walk.entries.push(entry);
                    assert(walk.entries@.drop_last() =~= old(walk).entries@);
                },
                None => {},
            }
        },
    }
    walk.record = walk.record.saturating_add(1);
}

/// Ends a walk: a walk that the operator cancelled gives nothing of what
/// it gathered.
pub fn finish_walk(walk: TableWalk, cancelled: bool) -> (r: Result<TableWalk, RecoveryError>)
    ensures
        r == if cancelled {
            Err::<TableWalk, RecoveryError>(RecoveryError::Cancelled)
        } else {
            Ok::<TableWalk, RecoveryError>(walk)
        },
{
    if cancelled {
        Err(RecoveryError::Cancelled)
    } else {
        Ok(walk)
    }
}

/// The offers that the first `upto` entries give, in their order.
pub open spec fn table_offers(
    drive: Seq<char>,
    entries: Seq<MftEntry>,
    dirs: Map<u64, (u64, String)>,
    upto: int,
) -> Seq<RecoverableFileFSView>
    decreases upto,
{
    if upto <= 0 {
        Seq::empty()
    } else {
        match recoverable_of(drive, entries[upto - 1]@, dirs) {
            Some(file) => table_offers(drive, entries, dirs, upto - 1).push(file),
            None => table_offers(drive, entries, dirs, upto - 1),
        }
    }
}

/// The views of a list of offers.
pub open spec fn file_views(files: Seq<RecoverableFileFS>) -> Seq<RecoverableFileFSView> {
    Seq::new(files.len(), |i: int| files[i]@)
}

/// Turns the entries that a walk gathered into offers.
pub fn collect_table_offers(
    drive_letter: &str,
    entries: &Vec<MftEntry>,
    dir_map: &HashMap<u64, (u64, String)>,
) -> (r: Vec<RecoverableFileFS>)
    ensures
        file_views(r@) == table_offers(drive_letter@, entries@, dir_map@, entries@.len() as int),
{
    let mut offers: Vec<RecoverableFileFS> = Vec::new();
    let mut i: usize = 0;
    assert(file_views(offers@) =~= Seq::<RecoverableFileFSView>::empty());
    while i < entries.len()
        invariant
            i <= entries.len(),
            file_views(offers@) == table_offers(drive_letter@, entries@, dir_map@, i as int),
        decreases entries.len() - i,
    {
        let ghost before = file_views(offers@);
        match mft_entry_to_recoverable_with_path(drive_letter, &entries[i], dir_map) {
            Some(file) => {
                let ghost v = file@;
                offers.push(file);
                assert(file_views(offers@) =~= before.push(v));
            },
            None => {},
        }
        i += 1;
    }
    offers
}

/// A directory that the map of directories takes: it has a name, and no
/// system name.
pub open spec fn is_mapped_directory(e: MftEntryView) -> bool {
    e.is_directory && e.file_name.len() > 0 && e.file_name[0] != '$'
}

/// Enters a parsed record into the map of directories where it is a
/// directory that the map takes.
pub fn note_directory(dir_map: &mut HashMap<u64, (u64, String)>, entry: &MftEntry)
    ensures
        final(dir_map)@ == if is_mapped_directory(entry@) {
            old(dir_map)@.insert(entry.record_number, (entry.parent_record, entry.file_name))
        } else {
            old(dir_map)@
        },
{
    if entry.is_directory && !entry.file_name.as_str().is_empty() {
        if entry.file_name.as_str().get_char(0) != '$' {
            dir_map.insert(entry.record_number, (entry.parent_record, entry.file_name.clone()));
        }
    }
}

// ---------------------------------------------------------------------
// Merging the change journal
// ---------------------------------------------------------------------

/// What a fresh read of the record of a deleted file showed.
#[derive(Debug)]
pub enum RecordState {
    /// The record still bears the name of the deleted file.
    SameFile { size: u64, runs: Vec<DataRun> },
    /// The record bears another name: the slot was taken by another file.
    Reused,
    /// The record could not be read or is no record.
    Unreadable,
}

pub ghost enum RecordStateView {
    SameFile { size: u64, runs: Seq<DataRun> },
    Reused,
    Unreadable,
}

impl View for RecordState {
    type V = RecordStateView;

    open spec fn view(&self) -> RecordStateView {
        match self {
            RecordState::SameFile { size, runs } => RecordStateView::SameFile {
                size: *size,
                runs: runs@,
            },
            RecordState::Reused => RecordStateView::Reused,
            RecordState::Unreadable => RecordStateView::Unreadable,
        }
    }
}

/// What a record says of the file `file_name` that the journal saw deleted
/// from it.
pub open spec fn record_state_of(record: Option<Seq<u8>>, record_number: u64, file_name: Seq<char>) -> RecordStateView {
    match record {
        None => RecordStateView::Unreadable,
        Some(bytes) => match record_entry(bytes, record_number) {
            None => RecordStateView::Unreadable,
            Some(e) => if e.file_name == file_name {
                RecordStateView::SameFile { size: e.file_size, runs: e.data_runs }
            } else {
                RecordStateView::Reused
            },
        },
    }
}

/// Judges the record of a file that the journal saw deleted, from a fresh
/// read of the record; `None` stands for a read that failed.
pub fn classify_record(record: Option<&[u8]>, record_number: u64, file_name: &str) -> (r:
    RecordState)
    ensures
        r@ == record_state_of(
            match record {
                Some(bytes) => Some(bytes@),
                None => None,
            },
            record_number,
            file_name@,
        ),
{
    match record {
        None => RecordState::Unreadable,
        Some(bytes) => match parse_mft_record(bytes, record_number) {
            None => RecordState::Unreadable,
            Some(entry) => {
                if text_eq(entry.file_name.as_str(), file_name) {
                    RecordState::SameFile { size: entry.file_size, runs: entry.data_runs }
                } else {
                    RecordState::Reused
                }
            },
        },
    }
}

/// The size that a record state gives.
pub open spec fn state_size(state: RecordStateView) -> u64 {
    match state {
        RecordStateView::SameFile { size, runs } => size,
        _ => 0,
    }
}

/// The runs that a record state gives.
pub open spec fn state_runs(state: RecordStateView) -> Seq<DataRun> {
    match state {
        RecordStateView::SameFile { size, runs } => runs,
        _ => Seq::empty(),
    }
}

/// The chance of recovery of a file that only the journal remembers.
pub open spec fn usn_chance(state: RecordStateView) -> u8 {
    match state {
        RecordStateView::SameFile { size, runs } => if runs.len() > 0 {
            45
        } else {
            8
        },
        RecordStateView::Reused => 3,
        RecordStateView::Unreadable => 5,
    }
}

/// A deletion of the journal is not offered, by the rules for the entries
/// of the table: the name is a system or temporary name, or the extension
/// is junk.
pub open spec fn usn_filtered_out(u: UsnDeletedFileView, path: Seq<char>) -> bool {
    let name = lowercase(u.file_name);
    ||| has_prefix(name, "$"@)
    ||| has_prefix(name, "~"@)
    ||| is_temp(name, lowercase(path))
    ||| among(scan_extension(u.file_name), junk_extensions())
}

/// The offer that a deletion of the journal gives, under the path `path`
/// and with what a fresh read of its record showed.
pub open spec fn usn_offer(
    u: UsnDeletedFileView,
    path: Seq<char>,
    state: RecordStateView,
) -> Option<RecoverableFileFSView> {
    let ext = scan_extension(u.file_name);
    if usn_filtered_out(u, path) {
        None
    } else {
        Some(
            RecoverableFileFSView {
                id: usn_id(u.mft_record),
                name: u.file_name,
                path,
                size: state_size(state),
                extension: ext,
                category: category_of(ext),
                file_type: ext,
                modified: timestamp_label(u.timestamp),
                created: timestamp_label(u.timestamp),
                is_deleted: true,
                recovery_chance: usn_chance(state),
                source: "usn"@,
                cluster_offset: first_cluster(state_runs(state)),
                data_runs: if state_runs(state).len() > 0 {
                    Some(state_runs(state))
                } else {
                    None
                },
            },
        )
    }
}

/// Turns a deletion of the journal into an offer.
pub fn usn_to_recoverable(usn_file: &UsnDeletedFile, path: String, state: RecordState) -> (r:
    Option<RecoverableFileFS>)
    ensures
        match r {
            Some(file) => usn_offer(usn_file@, path@, state@) == Some(file@),
            None => usn_offer(usn_file@, path@, state@).is_none(),
        },
{
    let name_lower = to_lowercase(usn_file.file_name.as_str());
    let name_chars = chars_of(name_lower.as_str());
    if chars_start_with_str(name_chars.as_slice(), "$") || chars_start_with_str(name_chars.as_slice(), "~") {
        return None;
    }
    let path_lower = to_lowercase(path.as_str());
    if is_temp_lowered(name_lower.as_str(), path_lower.as_str()) {
        return None;
    }
    let extension = extension_for_scan(usn_file.file_name.as_str());
    if is_junk_extension(extension.as_str()) {
        return None;
    }
    let chance: u8 = match &state {
        RecordState::SameFile { size, runs } => if runs.len() > 0 {
            45
        } else {
            8
        },
        RecordState::Reused => 3,
        RecordState::Unreadable => 5,
    };
    let (size, runs): (u64, Vec<DataRun>) = match state {
        RecordState::SameFile { size, runs } => (size, runs),
        RecordState::Reused => (0, Vec::new()),
        RecordState::Unreadable => (0, Vec::new()),
    };
    let cluster_offset: Option<i64> = if runs.len() > 0 {
        Some(runs[0].cluster_offset)
    } else {
        None
    };
    let data_runs: Option<Vec<DataRun>> = if runs.len() > 0 {
        Some(runs)
    } else {
        None
    };
    let when = format_timestamp(usn_file.timestamp);
    Some(
        RecoverableFileFS {
            id: make_id("usn_mft_", usn_file.mft_record),
            name: usn_file.file_name.clone(),
            path,
            size,
            category: categorize_file(extension.as_str()),
            file_type: extension.clone(),
            extension,
            modified: when.clone(),
            created: when,
            is_deleted: true,
            recovery_chance: chance,
            source: "usn".to_owned(),
            cluster_offset,
            data_runs,
        },
    )
}

/// The record number that the scan of the table gave an offer: the number
/// behind `fs_mft_`, or zero.
pub open spec fn scanned_record(id: Seq<char>) -> u64 {
    if has_prefix(id, "fs_mft_"@) {
        match parse_u64(id.skip(7)) {
            Some(n) => n,
            None => 0,
        }
    } else {
        0
    }
}

/// The records of the deleted files among the first `upto` offers.
pub open spec fn deleted_records(files: Seq<RecoverableFileFS>, upto: int) -> Set<u64>
    decreases upto,
{
    if upto <= 0 {
        Set::empty()
    } else if files[upto - 1].is_deleted {
        deleted_records(files, upto - 1).insert(scanned_record(files[upto - 1].id@))
    } else {
        deleted_records(files, upto - 1)
    }
}

/// Collects the records of the deleted files that the scan of the table
/// offered.
pub fn collect_deleted_records(files: &Vec<RecoverableFileFS>) -> (r: HashSet<u64>)
    ensures
        r@ == deleted_records(files@, files@.len() as int),
{
    proof {
        reveal_strlit("fs_mft_");
    }
    let mut records: HashSet<u64> = HashSet::new();
    let prefix = chars_of("fs_mft_");
    let mut i: usize = 0;
    while i < files.len()
        invariant
            i <= files.len(),
            prefix@ == "fs_mft_"@,
            prefix@.len() == 7,
            records@ == deleted_records(files@, i as int),
        decreases files.len() - i,
    {
        if files[i].is_deleted {
            let chars = chars_of(files[i].id.as_str());
            let record: u64 = if chars_start_with(chars.as_slice(), prefix.as_slice()) {
                match parse_number(chars.as_slice(), 7) {
                    Some(n) => n,
                    None => 0,
                }
            } else {
                0
            };
            records.insert(record);
        }
        i += 1;
    }
    records
}

/// Tells whether a deletion of the journal is to be looked at: the scan of
/// the table offered no deleted file of its record, and no earlier deletion
/// of the journal had its record. The record is then marked as seen.
pub fn usn_is_new(existing_deleted: &HashSet<u64>, seen: &mut HashSet<u64>, record: u64) -> (r: bool)
    ensures
        r == (!existing_deleted@.contains(record) && !old(seen)@.contains(record)),
        final(seen)@ == if existing_deleted@.contains(record) {
            old(seen)@
        } else {
            old(seen)@.insert(record)
        },
{
    if existing_deleted.contains(&record) {
        return false;
    }
    seen.insert(record)
}

/// The map of directories gave no directory for a file that does not lie
/// in the root: the parents are to be read afresh.
pub open spec fn path_unresolved(
    path: Seq<char>,
    drive: Seq<char>,
    file_name: Seq<char>,
    parent_record: u64,
) -> bool {
    path == path_text(drive, Seq::empty(), file_name) && parent_record != ROOT_RECORD
}

pub fn needs_live_resolution(path: &str, drive_letter: &str, file_name: &str, parent_record: u64) -> (r:
    bool)
    ensures
        r == path_unresolved(path@, drive_letter@, file_name@, parent_record),
{
    if parent_record == ROOT_RECORD {
        return false;
    }
    let none: Vec<String> = Vec::new();
    assert(string_texts(none@) =~= Seq::<Seq<char>>::empty());
    let bare = join_path(drive_letter, &none, file_name);
    text_eq(path, bare.as_str())
}

/// The most parents that are read afresh for one path.
pub const MAX_LIVE_DEPTH: usize = 50;

/// What a parent that was read afresh adds to a path: its name, where that
/// is a part of paths, and the record to read next; `None` for the next
/// record where the walk ends, at a record that is its own parent.
pub fn absorb_parent(parts: &mut Vec<String>, current: u64, parent: &MftEntry) -> (next: Option<u64>)
    ensures
        string_texts(final(parts)@) == if is_path_part(parent.file_name@) {
            string_texts(old(parts)@).push(parent.file_name@)
        } else {
            string_texts(old(parts)@)
        },
        next == if parent.parent_record == current {
            None
        } else {
            Some(parent.parent_record)
        },
{
    let ghost before = string_texts(parts@);
    if is_part(parent.file_name.as_str()) {
        parts.push(parent.file_name.clone());
        assert(string_texts(parts@) =~= before.push(parent.file_name@));
    }
    if parent.parent_record == current {
        None
    } else {
        Some(parent.parent_record)
    }
}

/// Whether the walk over parents that are read afresh goes on to `current`.
pub fn live_walk_continues(current: u64, depth: usize) -> (r: bool)
    ensures
        r == (current != ROOT_RECORD && depth < MAX_LIVE_DEPTH),
{
    current != ROOT_RECORD && depth < MAX_LIVE_DEPTH
}

// ---------------------------------------------------------------------
// The result of a scan
// ---------------------------------------------------------------------

/// The number of records that a quick scan reads at most.
pub const QUICK_SCAN_LIMIT: usize = 10_000;

/// The number of records that a deep scan reads at most.
pub const DEEP_SCAN_LIMIT: usize = 50_000;

/// The sum of the sizes of the first `upto` offers, or the largest 64-bit
/// number where it is larger.
pub open spec fn total_size(files: Seq<RecoverableFileFS>, upto: int) -> u64
    decreases upto,
{
    if upto <= 0 {
        0
    } else if total_size(files, upto - 1) + files[upto - 1].size <= u64::MAX {
        (total_size(files, upto - 1) + files[upto - 1].size) as u64
    } else {
        u64::MAX
    }
}

/// The note that tells of records that a scan did not reach.
pub open spec fn limit_note(mft_total: u64, scanned: u64, limit: usize) -> Seq<char> {
    if mft_total > 0 && scanned >= limit && mft_total > scanned {
        "\nNote: Results limited to "@ + decimal_text(scanned as nat) + " records out of "@
            + decimal_text(mft_total as nat)
            + " total MFT entries. Use filters to refine your search."@
    } else {
        Seq::empty()
    }
}

/// The message of a scan that ran.
pub open spec fn scan_message(found: nat, mft_total: u64, scanned: u64, limit: usize) -> Seq<char> {
    "Found "@ + decimal_text(found) + " recoverable files (encrypted drive mode)"@ + limit_note(
        mft_total,
        scanned,
        limit,
    )
}

/// Puts the result of a scan together, from the offers in their order and
/// under their cap.
pub fn finish_scan(
    drive_letter: &str,
    status: BitLockerStatus,
    mft_entries: Vec<RecoverableFileFS>,
    mft_total: u64,
    scanned: u64,
    limit: usize,
    scan_duration_ms: u64,
) -> (r: FileSystemScanResult)
    ensures
        r.success,
        r.message@ == scan_message(mft_entries@.len(), mft_total, scanned, limit),
        r.scan_mode@ == "FileSystem"@,
        r.drive@ == drive_letter@,
        r.bitlocker_status == Some(status),
        r.mft_entries@ == mft_entries@,
        r.total_files == mft_entries@.len(),
        r.total_recoverable_size == total_size(mft_entries@, mft_entries@.len() as int),
        r.scan_duration_ms == scan_duration_ms,
        r.mft_records_scanned == scanned,
        r.requires_admin,
{
    let mut total: u64 = 0;
    let mut i: usize = 0;
    while i < mft_entries.len()
        invariant
            i <= mft_entries.len(),
            total == total_size(mft_entries@, i as int),
        decreases mft_entries.len() - i,
    {
        total = total.saturating_add(mft_entries[i].size);
        i += 1;
    }
    let mut message = "Found ".to_owned();
    let found = decimal_string(mft_entries.len() as u64);
    message.append(found.as_str());
    message.append(" recoverable files (encrypted drive mode)");
    if mft_total > 0 && scanned >= limit as u64 && mft_total > scanned {
        message.append("\nNote: Results limited to ");
        let n = decimal_string(scanned);
        message.append(n.as_str());
        message.append(" records out of ");
        let m = decimal_string(mft_total);
        message.append(m.as_str());
        message.append(" total MFT entries. Use filters to refine your search.");
    } else {
        assert(message@ + Seq::<char>::empty() =~= message@);
    }
    FileSystemScanResult {
        success: true,
        message,
        scan_mode: "FileSystem".to_owned(),
        drive: drive_letter.to_owned(),
        bitlocker_status: Some(status),
        total_files: mft_entries.len(),
        mft_entries,
        total_recoverable_size: total,
        scan_duration_ms,
        mft_records_scanned: scanned,
        requires_admin: true,
    }
}

} // verus!
