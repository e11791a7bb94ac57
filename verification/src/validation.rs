//! The integrity validator: tells recovered bytes that are a plausible file
//! of their type from bytes that are not, so that no corrupt file is
//! written.

use vstd::prelude::*;
use vstd::string::*;
use crate::bytes::{
    count_matches, count_occurrences, find_in, find_last, last_occurrence, match_at, matches_at,
    occurs_in,
};
use crate::text::{
    chars_contain, chars_of, contains_text, from_utf8_lossy, lowercase, text_eq, to_lowercase,
    to_uppercase, uppercase, utf8_lossy,
};

verus! {

/// Why recovered bytes are refused.
#[derive(Clone, Copy, Debug, PartialEq, Eq, Structural)]
pub enum Corruption {
    /// Eight bytes or fewer.
    TooSmall,
    /// The first four kibibytes hold nothing but zeros.
    AllZeros,
    /// The first bytes are not those of the format.
    HeaderMismatch,
    /// A PDF without `%%EOF` in its last two kibibytes.
    PdfNoEof,
    /// A PDF without `startxref` in its last two kibibytes.
    PdfNoStartxref,
    /// A PDF whose `startxref` is not followed by an offset inside the file.
    PdfBadXrefOffset,
    /// A PDF with neither `xref`, `obj` nor `XRef` at the offset that
    /// `startxref` gives.
    PdfNoXref,
    /// A PDF with fewer than two ` obj` markers in its first 64 kibibytes.
    PdfTooFewObjects,
    /// A ZIP archive without an end-of-central-directory record in its last
    /// 256 bytes.
    ZipNoDirectoryEnd,
    /// A PNG without `IEND` in its last 32 bytes.
    PngNoEnd,
    /// A JPEG that does not end with `FF D9`.
    JpegNoEnd,
}

/// `list` holds the text `ext`.
pub open spec fn among(ext: Seq<char>, list: Seq<&'static str>) -> bool {
    exists|i: int| 0 <= i < list.len() && (#[trigger] list[i])@ == ext
}

/// Tells whether `list` holds the text `ext`.
pub fn is_among(ext: &str, list: &[&'static str]) -> (r: bool)
    ensures
        r == among(ext@, list@),
{
    let mut i: usize = 0;
    while i < list.len()
        invariant
            i <= list.len(),
            forall|j: int| 0 <= j < i ==> (#[trigger] list@[j])@ != ext@,
        decreases list.len() - i,
    {
        if text_eq(ext, list[i]) {
            return true;
        }
        i += 1;
    }
    false
}

/// The extensions of formats whose content is compressed: a wrong header
/// does not count against them.
pub open spec fn compressed_extensions() -> Seq<&'static str> {
    seq![
        "zip",
        "rar",
        "7z",
        "gz",
        "bz2",
        "xz",
        "mp4",
        "mkv",
        "avi",
        "mov",
        "mp3",
        "aac",
        "ogg",
        "flac",
        "m4a",
        "webm",
        "webp",
        "heic",
        "avif",
    ]
}

/// The extensions of formats that are text.
pub open spec fn text_extensions() -> Seq<&'static str> {
    seq![
        "txt",
        "csv",
        "log",
        "md",
        "json",
        "xml",
        "html",
        "htm",
        "css",
        "js",
        "ts",
        "jsx",
        "tsx",
        "py",
        "rs",
        "c",
        "cpp",
        "h",
        "java",
        "sql",
        "ini",
        "cfg",
        "yaml",
        "yml",
        "toml",
        "sh",
        "bat",
        "ps1",
    ]
}

/// The extensions of formats that are ZIP archives with a fixed start.
pub open spec fn zip_document_extensions() -> Seq<&'static str> {
    seq!["docx", "xlsx", "pptx", "odt", "ods", "odp"]
}

/// The extensions of formats whose structure is that of a ZIP archive.
pub open spec fn zip_family_extensions() -> Seq<&'static str> {
    seq!["docx", "xlsx", "pptx", "zip", "jar"]
}

/// The first `n` bytes of `data`, or all of it where it is shorter.
pub open spec fn front(data: Seq<u8>, n: int) -> Seq<u8> {
    if data.len() <= n {
        data
    } else {
        data.take(n)
    }
}

/// The offset at which the last `n` bytes of `data` start.
pub open spec fn back_start(data: Seq<u8>, n: int) -> int {
    if data.len() <= n {
        0
    } else {
        data.len() - n
    }
}

/// No byte among the first `upto` of `data` differs from zero.
pub open spec fn all_zero(data: Seq<u8>, upto: int) -> bool {
    forall|i: int| 0 <= i < upto && i < data.len() ==> data[i] == 0
}

/// A byte of text: tab, line feed, carriage return, printable ASCII, or a
/// byte of a multi-byte UTF-8 sequence.
pub open spec fn is_text_byte(b: u8) -> bool {
    b == 0x0A || b == 0x0D || b == 0x09 || (0x20 <= b <= 0x7E) || b >= 0x80
}

/// The number of text bytes among the first `upto` of `data`.
pub open spec fn text_bytes(data: Seq<u8>, upto: int) -> nat
    decreases upto,
{
    if upto <= 0 {
        0
    } else if is_text_byte(data[upto - 1]) {
        1 + text_bytes(data, upto - 1)
    } else {
        text_bytes(data, upto - 1)
    }
}

/// At least seven in ten of the first 256 bytes are text bytes.
pub open spec fn looks_like_text(data: Seq<u8>) -> bool {
    let sample = if data.len() <= 256 {
        data.len() as int
    } else {
        256
    };
    sample > 0 && text_bytes(data, sample) * 100 / (sample as nat) >= 70
}

/// Whether the first bytes are those of the format with extension `ext`;
/// `None` for an extension of which nothing is known.
pub open spec fn header_verdict(data: Seq<u8>, ext: Seq<char>) -> Option<bool> {
    if ext == "jpg"@ || ext == "jpeg"@ {
        Some(matches_at(data, 0, seq![0xFFu8, 0xD8, 0xFF]))
    } else if ext == "png"@ {
        Some(matches_at(data, 0, seq![0x89u8, 0x50, 0x4E, 0x47]))
    } else if ext == "gif"@ {
        Some(matches_at(data, 0, seq![0x47u8, 0x49, 0x46, 0x38]))
    } else if ext == "bmp"@ {
        Some(matches_at(data, 0, seq![0x42u8, 0x4D]))
    } else if ext == "webp"@ {
        Some(
            matches_at(data, 0, seq![0x52u8, 0x49, 0x46, 0x46]) && matches_at(
                data,
                8,
                seq![0x57u8, 0x45, 0x42, 0x50],
            ),
        )
    } else if ext == "tiff"@ || ext == "tif"@ {
        Some(
            matches_at(data, 0, seq![0x49u8, 0x49, 0x2A, 0x00]) || matches_at(
                data,
                0,
                seq![0x4Du8, 0x4D, 0x00, 0x2A],
            ),
        )
    } else if ext == "pdf"@ {
        Some(matches_at(data, 0, seq![0x25u8, 0x50, 0x44, 0x46]))
    } else if ext == "doc"@ || ext == "xls"@ || ext == "ppt"@ {
        Some(matches_at(data, 0, seq![0xD0u8, 0xCF, 0x11, 0xE0]))
    } else if among(ext, zip_document_extensions()) {
        Some(matches_at(data, 0, seq![0x50u8, 0x4B, 0x03, 0x04]))
    } else if ext == "zip"@ {
        Some(matches_at(data, 0, seq![0x50u8, 0x4B]))
    } else if ext == "rar"@ {
        Some(matches_at(data, 0, seq![0x52u8, 0x61, 0x72, 0x21]))
    } else if ext == "7z"@ {
        Some(matches_at(data, 0, seq![0x37u8, 0x7A, 0xBC, 0xAF]))
    } else if ext == "gz"@ {
        Some(matches_at(data, 0, seq![0x1Fu8, 0x8B]))
    } else if ext == "mp3"@ {
        Some(
            matches_at(data, 0, seq![0xFFu8, 0xFB]) || matches_at(data, 0, seq![0xFFu8, 0xF3])
                || matches_at(data, 0, seq![0xFFu8, 0xF2]) || matches_at(
                data,
                0,
                seq![0x49u8, 0x44, 0x33],
            ),
        )
    } else if ext == "mp4"@ || ext == "m4a"@ || ext == "m4v"@ || ext == "mov"@ {
        Some(
            data.len() >= 12 && (matches_at(data, 4, seq![0x66u8, 0x74, 0x79, 0x70]) || matches_at(
                data,
                4,
                seq![0x6Du8, 0x64, 0x61, 0x74],
            ) || matches_at(data, 4, seq![0x6Du8, 0x6F, 0x6F, 0x76]) || matches_at(
                data,
                4,
                seq![0x66u8, 0x72, 0x65, 0x65],
            )),
        )
    } else if ext == "flac"@ {
        Some(matches_at(data, 0, seq![0x66u8, 0x4C, 0x61, 0x43]))
    } else if ext == "ogg"@ {
        Some(matches_at(data, 0, seq![0x4Fu8, 0x67, 0x67, 0x53]))
    } else if ext == "wav"@ {
        Some(
            matches_at(data, 0, seq![0x52u8, 0x49, 0x46, 0x46]) && matches_at(
                data,
                8,
                seq![0x57u8, 0x41, 0x56, 0x45],
            ),
        )
    } else if ext == "avi"@ {
        Some(
            matches_at(data, 0, seq![0x52u8, 0x49, 0x46, 0x46]) && matches_at(
                data,
                8,
                seq![0x41u8, 0x56, 0x49, 0x20],
            ),
        )
    } else if ext == "mkv"@ || ext == "webm"@ {
        Some(matches_at(data, 0, seq![0x1Au8, 0x45, 0xDF, 0xA3]))
    } else if ext == "exe"@ || ext == "dll"@ {
        Some(matches_at(data, 0, seq![0x4Du8, 0x5A]))
    } else if among(ext, text_extensions()) {
        Some(looks_like_text(data))
    } else {
        None
    }
}

fn count_text_bytes(data: &[u8], upto: usize) -> (r: usize)
    requires
        upto <= data.len(),
    ensures
        r == text_bytes(data@, upto as int),
        r <= upto,
{
    let mut n: usize = 0;
    let mut i: usize = 0;
    while i < upto
        invariant
            i <= upto <= data.len(),
            n <= i,
            n == text_bytes(data@, i as int),
        decreases upto - i,
    {
        let b: u8 = data[i];
        if b == 0x0A || b == 0x0D || b == 0x09 || (0x20 <= b && b <= 0x7E) || b >= 0x80 {
            n += 1;
        }
        i += 1;
    }
    n
}

fn check_text(data: &[u8]) -> (r: bool)
    ensures
        r == looks_like_text(data@),
{
    let sample: usize = if data.len() <= 256 {
        data.len()
    } else {
        256
    };
    if sample == 0 {
        return false;
    }
    let printable: usize = count_text_bytes(data, sample);
    printable * 100 / sample >= 70
}

fn check_header(data: &[u8], ext: &str) -> (r: Option<bool>)
    ensures
        r == header_verdict(data@, ext@),
{
    if text_eq(ext, "jpg") || text_eq(ext, "jpeg") {
        Some(match_at(data, 0, &[0xFF, 0xD8, 0xFF]))
    } else if text_eq(ext, "png") {
        Some(match_at(data, 0, &[0x89, 0x50, 0x4E, 0x47]))
    } else if text_eq(ext, "gif") {
        Some(match_at(data, 0, &[0x47, 0x49, 0x46, 0x38]))
    } else if text_eq(ext, "bmp") {
        Some(match_at(data, 0, &[0x42, 0x4D]))
    } else if text_eq(ext, "webp") {
        Some(match_at(data, 0, &[0x52, 0x49, 0x46, 0x46]) && match_at(data, 8, &[0x57, 0x45, 0x42, 0x50]))
    } else if text_eq(ext, "tiff") || text_eq(ext, "tif") {
        Some(
            match_at(data, 0, &[0x49, 0x49, 0x2A, 0x00]) || match_at(
                data,
                0,
                &[0x4D, 0x4D, 0x00, 0x2A],
            ),
        )
    } else if text_eq(ext, "pdf") {
        Some(match_at(data, 0, &[0x25, 0x50, 0x44, 0x46]))
    } else if text_eq(ext, "doc") || text_eq(ext, "xls") || text_eq(ext, "ppt") {
        Some(match_at(data, 0, &[0xD0, 0xCF, 0x11, 0xE0]))
    } else if {
        let list: [&'static str; 6] = ["docx", "xlsx", "pptx", "odt", "ods", "odp"];
        assert(list@ =~= zip_document_extensions());
        is_among(ext, list.as_slice())
    } {
        Some(match_at(data, 0, &[0x50, 0x4B, 0x03, 0x04]))
    } else if text_eq(ext, "zip") {
        Some(match_at(data, 0, &[0x50, 0x4B]))
    } else if text_eq(ext, "rar") {
        Some(match_at(data, 0, &[0x52, 0x61, 0x72, 0x21]))
    } else if text_eq(ext, "7z") {
        Some(match_at(data, 0, &[0x37, 0x7A, 0xBC, 0xAF]))
    } else if text_eq(ext, "gz") {
        Some(match_at(data, 0, &[0x1F, 0x8B]))
    } else if text_eq(ext, "mp3") {
        Some(
            match_at(data, 0, &[0xFF, 0xFB]) || match_at(data, 0, &[0xFF, 0xF3]) || match_at(
                data,
                0,
                &[0xFF, 0xF2],
            ) || match_at(data, 0, &[0x49, 0x44, 0x33]),
        )
    } else if text_eq(ext, "mp4") || text_eq(ext, "m4a") || text_eq(ext, "m4v") || text_eq(
        ext,
        "mov",
    ) {
        Some(
            data.len() >= 12 && (match_at(data, 4, &[0x66, 0x74, 0x79, 0x70]) || match_at(
                data,
                4,
                &[0x6D, 0x64, 0x61, 0x74],
            ) || match_at(data, 4, &[0x6D, 0x6F, 0x6F, 0x76]) || match_at(
                data,
                4,
                &[0x66, 0x72, 0x65, 0x65],
            )),
        )
    } else if text_eq(ext, "flac") {
        Some(match_at(data, 0, &[0x66, 0x4C, 0x61, 0x43]))
    } else if text_eq(ext, "ogg") {
        Some(match_at(data, 0, &[0x4F, 0x67, 0x67, 0x53]))
    } else if text_eq(ext, "wav") {
        Some(match_at(data, 0, &[0x52, 0x49, 0x46, 0x46]) && match_at(data, 8, &[0x57, 0x41, 0x56, 0x45]))
    } else if text_eq(ext, "avi") {
        Some(match_at(data, 0, &[0x52, 0x49, 0x46, 0x46]) && match_at(data, 8, &[0x41, 0x56, 0x49, 0x20]))
    } else if text_eq(ext, "mkv") || text_eq(ext, "webm") {
        Some(match_at(data, 0, &[0x1A, 0x45, 0xDF, 0xA3]))
    } else if text_eq(ext, "exe") || text_eq(ext, "dll") {
        Some(match_at(data, 0, &[0x4D, 0x5A]))
    } else if {
        let list: [&'static str; 28] = [
            "txt",
            "csv",
            "log",
            "md",
            "json",
            "xml",
            "html",
            "htm",
            "css",
            "js",
            "ts",
            "jsx",
            "tsx",
            "py",
            "rs",
            "c",
            "cpp",
            "h",
            "java",
            "sql",
            "ini",
            "cfg",
            "yaml",
            "yml",
            "toml",
            "sh",
            "bat",
            "ps1",
        ];
        assert(list@ =~= text_extensions());
        is_among(ext, list.as_slice())
    } {
        Some(check_text(data))
    } else {
        None
    }
}

// ---------------------------------------------------------------------
// The structure of a PDF
// ---------------------------------------------------------------------

/// A byte that may stand between `startxref` and the offset.
pub open spec fn is_pdf_space(b: u8) -> bool {
    b == 0x0D || b == 0x0A || b == 0x20
}

pub open spec fn is_digit(b: u8) -> bool {
    0x30 <= b <= 0x39
}

/// The first offset at or after `at` that holds no space.
pub open spec fn skip_spaces(data: Seq<u8>, at: int) -> int
    decreases data.len() - at,
{
    if 0 <= at < data.len() && is_pdf_space(data[at]) {
        skip_spaces(data, at + 1)
    } else {
        at
    }
}

/// The first offset at or after `at` that holds no digit.
pub open spec fn digits_end(data: Seq<u8>, at: int) -> int
    decreases data.len() - at,
{
    if 0 <= at < data.len() && is_digit(data[at]) {
        digits_end(data, at + 1)
    } else {
        at
    }
}

/// The number that the digits in `from..to` write in decimal.
pub open spec fn decimal(data: Seq<u8>, from: int, to: int) -> nat
    decreases to - from,
{
    if to <= from {
        0
    } else {
        decimal(data, from, to - 1) * 10 + (data[to - 1] - 0x30) as nat
    }
}

/// The offset that follows `startxref`, where `after` is the first byte
/// behind that word: spaces and line ends, then at least one digit, then
/// the end of the file or a space, a tab or a line end.
pub open spec fn xref_offset(data: Seq<u8>, after: int) -> Option<nat> {
    let start = skip_spaces(data, after);
    let end = digits_end(data, start);
    if end > start && (end >= data.len() || is_pdf_space(data[end]) || data[end] == 0x09) {
        Some(decimal(data, start, end))
    } else {
        None
    }
}

/// The number of bytes of the front of a PDF in which ` obj` markers are
/// counted.
pub open spec fn object_scan_len(data: Seq<u8>) -> int {
    if data.len() <= 65536 {
        data.len() as int
    } else {
        65536
    }
}

/// What is wrong with the structure of a PDF, if anything.
pub open spec fn pdf_fault(data: Seq<u8>) -> Option<Corruption> {
    if !matches_at(data, 0, seq![0x25u8, 0x50, 0x44, 0x46, 0x2D]) {
        Some(Corruption::HeaderMismatch)
    } else if !occurs_in(
        data,
        seq![0x25u8, 0x25, 0x45, 0x4F, 0x46],
        back_start(data, 2048),
        data.len() as int,
    ) {
        Some(Corruption::PdfNoEof)
    } else {
        match last_occurrence(
            data,
            seq![0x73u8, 0x74, 0x61, 0x72, 0x74, 0x78, 0x72, 0x65, 0x66],
            back_start(data, 2048),
            data.len() as int,
        ) {
            None => Some(Corruption::PdfNoStartxref),
            Some(i) => match xref_offset(data, i + 9) {
                None => Some(Corruption::PdfBadXrefOffset),
                Some(v) => if v >= data.len() {
                    Some(Corruption::PdfBadXrefOffset)
                } else if !(matches_at(data, v as int, seq![0x78u8, 0x72, 0x65, 0x66]) || matches_at(
                    data,
                    v as int,
                    seq![0x6Fu8, 0x62, 0x6A],
                ) || matches_at(data, v as int, seq![0x58u8, 0x52, 0x65, 0x66])) {
                    Some(Corruption::PdfNoXref)
                } else if count_occurrences(
                    data,
                    seq![0x20u8, 0x6F, 0x62, 0x6A],
                    0,
                    object_scan_len(data) - 3,
                ) < 2 {
                    Some(Corruption::PdfTooFewObjects)
                } else {
                    None
                },
            },
        }
    }
}

proof fn lemma_decimal_grows(data: Seq<u8>, from: int, mid: int, to: int)
    requires
        0 <= from <= mid <= to <= data.len(),
        forall|i: int| from <= i < to ==> is_digit(data[i]),
    ensures
        decimal(data, from, mid) <= decimal(data, from, to),
    decreases to - mid,
{
    if mid < to {
        lemma_decimal_grows(data, from, mid, to - 1);
    }
}

/// Reads the offset that follows `startxref`, where it lies inside the
/// file.
fn read_xref_offset(data: &[u8], after: usize) -> (r: Option<usize>)
    requires
        after <= data.len(),
    ensures
        match r {
            Some(v) => xref_offset(data@, after as int) == Some(v as nat) && v < data.len(),
            None => match xref_offset(data@, after as int) {
                Some(v) => v >= data.len(),
                None => true,
            },
        },
{
    let len: usize = data.len();
    let mut start: usize = after;
    while start < len && (data[start] == 0x0D || data[start] == 0x0A || data[start] == 0x20)
        invariant
            after <= start <= len,
            len == data.len(),
            skip_spaces(data@, start as int) == skip_spaces(data@, after as int),
        decreases len - start,
    {
        start += 1;
    }
    if start >= len {
        return None;
    }
    let mut end: usize = start;
    let mut value: usize = 0;
    let mut beyond: bool = false;
    while end < len && 0x30 <= data[end] && data[end] <= 0x39
        invariant
            start <= end <= len,
            len == data.len(),
            digits_end(data@, end as int) == digits_end(data@, start as int),
            forall|i: int| start <= i < end ==> is_digit(data@[i]),
            !beyond ==> value == decimal(data@, start as int, end as int) && value < len,
            beyond ==> exists|m: int|
                start <= m <= end && decimal(data@, start as int, m) >= len,
        decreases len - end,
    {
        let digit: usize = (data[end] - 0x30) as usize;
        if !beyond {
            let next: u128 = value as u128 * 10 + digit as u128;
            if next >= len as u128 {
                beyond = true;
                assert(decimal(data@, start as int, end + 1) >= len);
            } else {
                value = next as usize;
            }
        }
        proof {
            if beyond {
                let m = choose|m: int|
                    start <= m <= end + 1 && decimal(data@, start as int, m) >= len;
                assert(start <= m <= end + 1);
            }
        }
        end += 1;
    }
    if end == start {
        return None;
    }
    if end < len && !(data[end] == 0x0D || data[end] == 0x0A || data[end] == 0x20 || data[end]
        == 0x09) {
        return None;
    }
    if beyond {
        proof {
            let m = choose|m: int| start <= m <= end && decimal(data@, start as int, m) >= len;
            lemma_decimal_grows(data@, start as int, m, end as int);
        }
        return None;
    }
    Some(value)
}

fn check_pdf(data: &[u8]) -> (r: Option<Corruption>)
    ensures
        r == pdf_fault(data@),
{
    let len: usize = data.len();
    if !match_at(data, 0, &[0x25, 0x50, 0x44, 0x46, 0x2D]) {
        return Some(Corruption::HeaderMismatch);
    }
    let tail: usize = len - 2048.min(len);
    if !find_in(data, &[0x25, 0x25, 0x45, 0x4F, 0x46], tail, len) {
        return Some(Corruption::PdfNoEof);
    }
    match find_last(data, &[0x73, 0x74, 0x61, 0x72, 0x74, 0x78, 0x72, 0x65, 0x66], tail, len) {
        None => Some(Corruption::PdfNoStartxref),
        Some(i) => {
            proof {
                crate::bytes::lemma_last_occurrence(
                    data@,
                    seq![0x73u8, 0x74, 0x61, 0x72, 0x74, 0x78, 0x72, 0x65, 0x66],
                    tail as int,
                    len as int,
                );
            }
            match read_xref_offset(data, i + 9) {
                None => Some(Corruption::PdfBadXrefOffset),
                Some(v) => {
                    if !(match_at(data, v, &[0x78, 0x72, 0x65, 0x66]) || match_at(
                        data,
                        v,
                        &[0x6F, 0x62, 0x6A],
                    ) || match_at(data, v, &[0x58, 0x52, 0x65, 0x66])) {
                        return Some(Corruption::PdfNoXref);
                    }
                    let scan: usize = if len <= 65536 {
                        len
                    } else {
                        65536
                    };
                    if count_matches(data, &[0x20, 0x6F, 0x62, 0x6A], 0, scan - 3) < 2 {
                        Some(Corruption::PdfTooFewObjects)
                    } else {
                        None
                    }
                },
            }
        },
    }
}

// ---------------------------------------------------------------------
// The structure of the other formats
// ---------------------------------------------------------------------

/// What is wrong with the structure of a ZIP archive, if anything.
pub open spec fn zip_fault(data: Seq<u8>) -> Option<Corruption> {
    if !matches_at(data, 0, seq![0x50u8, 0x4B, 0x03, 0x04]) {
        Some(Corruption::HeaderMismatch)
    } else if !occurs_in(
        data,
        seq![0x50u8, 0x4B, 0x05, 0x06],
        back_start(data, 256),
        data.len() as int,
    ) {
        Some(Corruption::ZipNoDirectoryEnd)
    } else {
        None
    }
}

/// What is wrong with the structure of a PNG, if anything.
pub open spec fn png_fault(data: Seq<u8>) -> Option<Corruption> {
    if !occurs_in(
        data,
        seq![0x49u8, 0x45, 0x4E, 0x44],
        back_start(data, 32),
        data.len() as int,
    ) {
        Some(Corruption::PngNoEnd)
    } else {
        None
    }
}

/// What is wrong with the structure of a JPEG, if anything.
pub open spec fn jpeg_fault(data: Seq<u8>) -> Option<Corruption> {
    if !matches_at(data, 0, seq![0xFFu8, 0xD8, 0xFF]) {
        Some(Corruption::HeaderMismatch)
    } else if !matches_at(data, data.len() - 2, seq![0xFFu8, 0xD9]) {
        Some(Corruption::JpegNoEnd)
    } else {
        None
    }
}

/// What is wrong with the structure of a file whose extension, in
/// lowercase, is `ext`; `None` where nothing is, or nothing is known of the
/// format.
pub open spec fn structural_fault(data: Seq<u8>, ext: Seq<char>) -> Option<Corruption> {
    if ext == "pdf"@ {
        pdf_fault(data)
    } else if among(ext, zip_family_extensions()) {
        zip_fault(data)
    } else if ext == "png"@ {
        png_fault(data)
    } else if ext == "jpg"@ || ext == "jpeg"@ {
        jpeg_fault(data)
    } else {
        None
    }
}

/// Checks the structure of a file whose extension, in lowercase, is `ext`.
pub fn check_structure(data: &[u8], ext: &str) -> (r: Option<Corruption>)
    ensures
        r == structural_fault(data@, ext@),
{
    let len: usize = data.len();
    if text_eq(ext, "pdf") {
        check_pdf(data)
    } else if {
        let list: [&'static str; 5] = ["docx", "xlsx", "pptx", "zip", "jar"];
        assert(list@ =~= zip_family_extensions());
        is_among(ext, list.as_slice())
    } {
        if !match_at(data, 0, &[0x50, 0x4B, 0x03, 0x04]) {
            Some(Corruption::HeaderMismatch)
        } else if !find_in(data, &[0x50, 0x4B, 0x05, 0x06], len - 256.min(len), len) {
            Some(Corruption::ZipNoDirectoryEnd)
        } else {
            None
        }
    } else if text_eq(ext, "png") {
        if !find_in(data, &[0x49, 0x45, 0x4E, 0x44], len - 32.min(len), len) {
            Some(Corruption::PngNoEnd)
        } else {
            None
        }
    } else if text_eq(ext, "jpg") || text_eq(ext, "jpeg") {
        if !match_at(data, 0, &[0xFF, 0xD8, 0xFF]) {
            Some(Corruption::HeaderMismatch)
        } else if !match_at(data, len - 2, &[0xFF, 0xD9]) {
            Some(Corruption::JpegNoEnd)
        } else {
            None
        }
    } else {
        None
    }
}

/// Tells whether carved bytes have the structure of their format.
///
/// The extension is compared in lowercase.
pub fn validate_carved_file(data: &[u8], extension: &str) -> (r: bool)
    ensures
        r == structural_fault(data@, lowercase(extension@)).is_none(),
{
    let ext = to_lowercase(extension);
    check_structure(data, ext.as_str()).is_none()
}

// ---------------------------------------------------------------------
// The validator
// ---------------------------------------------------------------------

/// Why the bytes are refused as a file with extension `ext`, or `None`
/// where they are accepted.
///
/// Eight bytes or fewer are refused, and so are bytes whose first four
/// kibibytes are all zero. A wrong header is refused except for compressed
/// formats. After that the structure decides, for the formats of which one
/// is known.
pub open spec fn corruption_of(data: Seq<u8>, ext: Seq<char>) -> Option<Corruption> {
    if data.len() <= 8 {
        Some(Corruption::TooSmall)
    } else if all_zero(data, 4096) {
        Some(Corruption::AllZeros)
    } else if header_verdict(data, ext) == Some(false) && !among(ext, compressed_extensions()) {
        Some(Corruption::HeaderMismatch)
    } else {
        structural_fault(data, ext)
    }
}

/// Bytes that are all zero are refused, whatever the extension.
pub proof fn lemma_wiped_data_rejected(data: Seq<u8>, ext: Seq<char>)
    requires
        forall|i: int| 0 <= i < data.len() ==> data[i] == 0,
    ensures
        corruption_of(data, ext).is_some(),
        data.len() > 8 ==> corruption_of(data, ext) == Some(Corruption::AllZeros),
{
}

fn is_all_zero(data: &[u8], upto: usize) -> (r: bool)
    ensures
        r == all_zero(data@, upto as int),
{
    let mut i: usize = 0;
    while i < upto && i < data.len()
        invariant
            forall|j: int| 0 <= j < i ==> data@[j] == 0,
        decreases data.len() - i,
    {
        if data[i] != 0 {
            return false;
        }
        i += 1;
    }
    true
}

/// Validates recovered bytes as a file whose extension, in lowercase, is
/// `ext`.
pub fn find_corruption(data: &[u8], ext: &str) -> (r: Option<Corruption>)
    ensures
        r == corruption_of(data@, ext@),
{
    if data.len() <= 8 {
        return Some(Corruption::TooSmall);
    }
    if is_all_zero(data, 4096) {
        return Some(Corruption::AllZeros);
    }
    let verdict = check_header(data, ext);
    let wrong: bool = match verdict {
        Some(ok) => !ok,
        None => false,
    };
    if wrong {
        let list: [&'static str; 19] = [
            "zip",
            "rar",
            "7z",
            "gz",
            "bz2",
            "xz",
            "mp4",
            "mkv",
            "avi",
            "mov",
            "mp3",
            "aac",
            "ogg",
            "flac",
            "m4a",
            "webm",
            "webp",
            "heic",
            "avif",
        ];
        assert(list@ =~= compressed_extensions());
        if !is_among(ext, list.as_slice()) {
            return Some(Corruption::HeaderMismatch);
        }
    }
    check_structure(data, ext)
}

/// The words in which a refusal is reported.
pub open spec fn corruption_message(kind: Corruption, ext: Seq<char>) -> Seq<char> {
    match kind {
        Corruption::TooSmall => "File is too small to be valid"@,
        Corruption::AllZeros => "File data is all zeros - clusters have been wiped"@,
        Corruption::HeaderMismatch => "File header does not match expected "@ + uppercase(ext)
            + " format - data may be overwritten or encrypted"@,
        Corruption::PdfNoEof => "PDF has no %%EOF marker in its last 2 KB"@,
        Corruption::PdfNoStartxref => "PDF has no startxref pointer in its last 2 KB"@,
        Corruption::PdfBadXrefOffset => "PDF startxref does not point inside the file"@,
        Corruption::PdfNoXref => "PDF has no cross-reference table where startxref points"@,
        Corruption::PdfTooFewObjects => "PDF has fewer than two objects in its first 64 KB"@,
        Corruption::ZipNoDirectoryEnd => "ZIP archive has no end of central directory record"@,
        Corruption::PngNoEnd => "PNG has no IEND chunk at its end"@,
        Corruption::JpegNoEnd => "JPEG has no end-of-image marker at its end"@,
    }
}

/// Reports a refusal in words.
pub fn describe_corruption(kind: Corruption, ext: &str) -> (r: String)
    ensures
        r@ == corruption_message(kind, ext@),
{
    match kind {
        Corruption::TooSmall => "File is too small to be valid".to_owned(),
        Corruption::AllZeros => "File data is all zeros - clusters have been wiped".to_owned(),
        Corruption::HeaderMismatch => {
            let mut message = "File header does not match expected ".to_owned();
            let upper = to_uppercase(ext);
            message.append(upper.as_str());
            message.append(" format - data may be overwritten or encrypted");
            message
        },
        Corruption::PdfNoEof => "PDF has no %%EOF marker in its last 2 KB".to_owned(),
        Corruption::PdfNoStartxref => "PDF has no startxref pointer in its last 2 KB".to_owned(),
        Corruption::PdfBadXrefOffset => "PDF startxref does not point inside the file".to_owned(),
        Corruption::PdfNoXref => "PDF has no cross-reference table where startxref points".to_owned(),
        Corruption::PdfTooFewObjects => "PDF has fewer than two objects in its first 64 KB".to_owned(),
        Corruption::ZipNoDirectoryEnd => "ZIP archive has no end of central directory record".to_owned(),
        Corruption::PngNoEnd => "PNG has no IEND chunk at its end".to_owned(),
        Corruption::JpegNoEnd => "JPEG has no end-of-image marker at its end".to_owned(),
    }
}

/// Checks recovered bytes for signs of corruption. The extension is taken
/// as it is given: callers pass it in lowercase.
///
/// Returns the reason for which the bytes are refused, or `None` where they
/// are accepted.
pub fn detect_corruption(data: &[u8], extension: &str) -> (r: Option<String>)
    ensures
        match r {
            Some(message) => corruption_of(data@, extension@) matches Some(kind) && message@
                == corruption_message(kind, extension@),
            None => corruption_of(data@, extension@).is_none(),
        },
{
    match find_corruption(data, extension) {
        Some(kind) => Some(describe_corruption(kind, extension)),
        None => None,
    }
}

// ---------------------------------------------------------------------
// Keywords and footers
// ---------------------------------------------------------------------

/// The number of keywords among the first `upto` that occur in `text`.
pub open spec fn keyword_hits(text: Seq<char>, keywords: Seq<String>, upto: int) -> nat
    decreases upto,
{
    if upto <= 0 {
        0
    } else if contains_text(text, keywords[upto - 1]@) {
        1 + keyword_hits(text, keywords, upto - 1)
    } else {
        keyword_hits(text, keywords, upto - 1)
    }
}

/// Counts the keywords that occur in `text`.
pub fn count_keywords_in(text: &[char], keywords: &[String]) -> (r: usize)
    ensures
        r == keyword_hits(text@, keywords@, keywords@.len() as int),
        r <= keywords@.len(),
{
    let mut hits: usize = 0;
    let mut i: usize = 0;
    while i < keywords.len()
        invariant
            i <= keywords.len(),
            hits <= i,
            hits == keyword_hits(text@, keywords@, i as int),
        decreases keywords.len() - i,
    {
        let keyword = chars_of(keywords[i].as_str());
        if chars_contain(text, keyword.as_slice()) {
            hits += 1;
        }
        i += 1;
    }
    hits
}

/// The number of bytes of the front of a file in which keywords are
/// looked for.
pub const KEYWORD_SCAN_LEN: usize = 100 * 1024;

/// Counts the keywords that occur in the front of a file, read as text in
/// lowercase.
pub fn count_keyword_matches(data: &[u8], keywords: &[String]) -> (r: usize)
    ensures
        r == keyword_hits(
            lowercase(utf8_lossy(front(data@, KEYWORD_SCAN_LEN as int))),
            keywords@,
            keywords@.len() as int,
        ),
        r <= keywords@.len(),
{
    let check_size: usize = if data.len() <= KEYWORD_SCAN_LEN {
        data.len()
    } else {
        KEYWORD_SCAN_LEN
    };
    let sample = &data[0..check_size];
    assert(sample@ =~= front(data@, KEYWORD_SCAN_LEN as int));
    let text = from_utf8_lossy(sample);
    let lowered = to_lowercase(text.as_str());
    let chars = chars_of(lowered.as_str());
    count_keywords_in(chars.as_slice(), keywords)
}

/// The start of the last occurrence of `footer` in `data` that starts at
/// `start` or later.
pub open spec fn footer_position(data: Seq<u8>, footer: Seq<u8>, start: int) -> Option<int> {
    if data.len() < footer.len() || start >= data.len() {
        None
    } else {
        last_occurrence(data, footer, start, data.len() - footer.len() + 1)
    }
}

/// Finds the last occurrence of `footer` in `data` that starts at `start`
/// or later.
pub fn find_footer_from(data: &[u8], footer: &[u8], start: usize) -> (r: Option<usize>)
    ensures
        match r {
            Some(i) => footer_position(data@, footer@, start as int) == Some(i as int),
            None => footer_position(data@, footer@, start as int).is_none(),
        },
{
    if data.len() < footer.len() || start >= data.len() {
        return None;
    }
    if footer.len() == 0 {
        assert(matches_at(data@, data@.len() as int, footer@));
        return Some(data.len());
    }
    find_last(data, footer, start, data.len() - footer.len() + 1)
}

/// Finds the last occurrence of `footer` in `data`.
pub fn find_footer(data: &[u8], footer: &[u8]) -> (r: Option<usize>)
    ensures
        match r {
            Some(i) => footer_position(data@, footer@, 0) == Some(i as int),
            None => footer_position(data@, footer@, 0).is_none(),
        },
{
    find_footer_from(data, footer, 0)
}

} // verus!
