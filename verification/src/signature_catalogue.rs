//! The built-in catalogue of file signatures.
//!
//! The catalogue is written down twice: once as what it is, `catalogue`,
//! and once as the code that builds it, `get_signatures`. The two are
//! proved equal, so that the rest of the library can reason about the
//! records that it works with.

use vstd::prelude::*;
use crate::file_carver::FileSignature;

verus! {

pub const KIB: u64 = 1024;

pub const MIB: u64 = 1024 * 1024;

pub const GIB: u64 = 1024 * 1024 * 1024;

/// The number of records in the catalogue.
pub const CATALOGUE_LEN: usize = 503;

/// What holds of every record of the catalogue: the header is not empty, a
/// footer, where there is one, is not empty, and the size cap is at least
/// ten kibibytes.
pub open spec fn well_formed(sig: FileSignature) -> bool {
    &&& sig.header@.len() >= 1
    &&& sig.footer matches Some(footer) ==> footer@.len() >= 1
    &&& sig.max_size >= 10 * KIB
}

/// Records 0 to 31 of the catalogue.
pub open spec fn catalogue_part_00() -> Seq<FileSignature> {
    seq![
        FileSignature {
            name: "JPEG Image",
            extension: "jpg",
            header: &[0xFFu8, 0xD8, 0xFF],
            footer: Some(&[0xFFu8, 0xD9]),
            max_size: (50 * MIB) as u64,
            category: "Images",
        },
        FileSignature {
            name: "PNG Image",
            extension: "png",
            header: &[0x89u8, 0x50, 0x4E, 0x47, 0x0D, 0x0A, 0x1A, 0x0A],
            footer: Some(&[0x49u8, 0x45, 0x4E, 0x44, 0xAE, 0x42, 0x60, 0x82]),
            max_size: (50 * MIB) as u64,
            category: "Images",
        },
        FileSignature {
            name: "GIF Image",
            extension: "gif",
            header: &[0x47u8, 0x49, 0x46, 0x38],
            footer: Some(&[0x00u8, 0x3B]),
            max_size: (20 * MIB) as u64,
            category: "Images",
        },
        FileSignature {
            name: "BMP Image",
            extension: "bmp",
            header: &[0x42u8, 0x4D],
            footer: None,
            max_size: (100 * MIB) as u64,
            category: "Images",
        },
        FileSignature {
            name: "WebP Image",
            extension: "webp",
            header: &[0x52u8, 0x49, 0x46, 0x46],
            footer: None,
            max_size: (50 * MIB) as u64,
            category: "Images",
        },
        FileSignature {
            name: "TIFF Image",
            extension: "tiff",
            header: &[0x49u8, 0x49, 0x2A, 0x00],
            footer: None,
            max_size: (200 * MIB) as u64,
            category: "Images",
        },
        FileSignature {
            name: "ICO Icon",
            extension: "ico",
            header: &[0x00u8, 0x00, 0x01, 0x00],
            footer: None,
            max_size: (1 * MIB) as u64,
            category: "Images",
        },
        FileSignature {
            name: "PDF Document",
            extension: "pdf",
            header: &[0x25u8, 0x50, 0x44, 0x46],
            footer: Some(&[0x25u8, 0x25, 0x45, 0x4F, 0x46]),
            max_size: (500 * MIB) as u64,
            category: "Documents",
        },
        FileSignature {
            name: "Microsoft Office (DOCX/XLSX/PPTX)",
            extension: "docx",
            header: &[0x50u8, 0x4B, 0x03, 0x04],
            footer: None,
            max_size: (100 * MIB) as u64,
            category: "Documents",
        },
        FileSignature {
            name: "Microsoft Word (DOC)",
            extension: "doc",
            header: &[0xD0u8, 0xCF, 0x11, 0xE0, 0xA1, 0xB1, 0x1A, 0xE1],
            footer: None,
            max_size: (100 * MIB) as u64,
            category: "Documents",
        },
        FileSignature {
            name: "Rich Text Format",
            extension: "rtf",
            header: &[0x7Bu8, 0x5C, 0x72, 0x74, 0x66],
            footer: Some(&[0x7Du8]),
            max_size: (50 * MIB) as u64,
            category: "Documents",
        },
        FileSignature {
            name: "AVI Video",
            extension: "avi",
            header: &[0x52u8, 0x49, 0x46, 0x46],
            footer: None,
            max_size: (10 * GIB) as u64,
            category: "Videos",
        },
        FileSignature {
            name: "MKV Video",
            extension: "mkv",
            header: &[0x1Au8, 0x45, 0xDF, 0xA3],
            footer: None,
            max_size: (10 * GIB) as u64,
            category: "Videos",
        },
        FileSignature {
            name: "WMV Video",
            extension: "wmv",
            header: &[0x30u8, 0x26, 0xB2, 0x75, 0x8E, 0x66, 0xCF, 0x11],
            footer: None,
            max_size: (5 * GIB) as u64,
            category: "Videos",
        },
        FileSignature {
            name: "FLV Video",
            extension: "flv",
            header: &[0x46u8, 0x4C, 0x56, 0x01],
            footer: None,
            max_size: (2 * GIB) as u64,
            category: "Videos",
        },
        FileSignature {
            name: "MP3 Audio",
            extension: "mp3",
            header: &[0xFFu8, 0xFB],
            footer: None,
            max_size: (100 * MIB) as u64,
            category: "Audio",
        },
        FileSignature {
            name: "MP3 with ID3",
            extension: "mp3",
            header: &[0x49u8, 0x44, 0x33],
            footer: None,
            max_size: (100 * MIB) as u64,
            category: "Audio",
        },
        FileSignature {
            name: "WAV Audio",
            extension: "wav",
            header: &[0x52u8, 0x49, 0x46, 0x46],
            footer: None,
            max_size: (500 * MIB) as u64,
            category: "Audio",
        },
        FileSignature {
            name: "FLAC Audio",
            extension: "flac",
            header: &[0x66u8, 0x4C, 0x61, 0x43],
            footer: None,
            max_size: (500 * MIB) as u64,
            category: "Audio",
        },
        FileSignature {
            name: "OGG Audio",
            extension: "ogg",
            header: &[0x4Fu8, 0x67, 0x67, 0x53],
            footer: None,
            max_size: (100 * MIB) as u64,
            category: "Audio",
        },
        FileSignature {
            name: "M4A Audio",
            extension: "m4a",
            header: &[0x00u8, 0x00, 0x00, 0x20, 0x66, 0x74, 0x79, 0x70],
            footer: None,
            max_size: (200 * MIB) as u64,
            category: "Audio",
        },
        FileSignature {
            name: "WMA Audio",
            extension: "wma",
            header: &[0x30u8, 0x26, 0xB2, 0x75, 0x8E, 0x66, 0xCF, 0x11],
            footer: None,
            max_size: (100 * MIB) as u64,
            category: "Audio",
        },
        FileSignature {
            name: "ZIP Archive",
            extension: "zip",
            header: &[0x50u8, 0x4B, 0x03, 0x04],
            footer: Some(&[0x50u8, 0x4B, 0x05, 0x06]),
            max_size: (5 * GIB) as u64,
            category: "Archives",
        },
        FileSignature {
            name: "RAR Archive",
            extension: "rar",
            header: &[0x52u8, 0x61, 0x72, 0x21, 0x1A, 0x07],
            footer: None,
            max_size: (5 * GIB) as u64,
            category: "Archives",
        },
        FileSignature {
            name: "7-Zip Archive",
            extension: "7z",
            header: &[0x37u8, 0x7A, 0xBC, 0xAF, 0x27, 0x1C],
            footer: None,
            max_size: (5 * GIB) as u64,
            category: "Archives",
        },
        FileSignature {
            name: "GZIP Archive",
            extension: "gz",
            header: &[0x1Fu8, 0x8B, 0x08],
            footer: None,
            max_size: (1 * GIB) as u64,
            category: "Archives",
        },
        FileSignature {
            name: "TAR Archive",
            extension: "tar",
            header: &[0x75u8, 0x73, 0x74, 0x61, 0x72],
            footer: None,
            max_size: (5 * GIB) as u64,
            category: "Archives",
        },
        FileSignature {
            name: "Windows Executable",
            extension: "exe",
            header: &[0x4Du8, 0x5A],
            footer: None,
            max_size: (500 * MIB) as u64,
            category: "Executables",
        },
        FileSignature {
            name: "Windows DLL",
            extension: "dll",
            header: &[0x4Du8, 0x5A],
            footer: None,
            max_size: (200 * MIB) as u64,
            category: "Executables",
        },
        FileSignature {
            name: "SQLite Database",
            extension: "sqlite",
            header: &[0x53u8, 0x51, 0x4C, 0x69, 0x74, 0x65],
            footer: None,
            max_size: (1 * GIB) as u64,
            category: "Databases",
        },
        FileSignature {
            name: "Outlook PST",
            extension: "pst",
            header: &[0x21u8, 0x42, 0x44, 0x4E],
            footer: None,
            max_size: (50 * GIB) as u64,
            category: "Email",
        },
        FileSignature {
            name: "XML Document",
            extension: "xml",
            header: &[0x3Cu8, 0x3F, 0x78, 0x6D, 0x6C],
            footer: None,
            max_size: (100 * MIB) as u64,
            category: "Documents",
        },
    ]
}

/// Builds records 0 to 31 of the catalogue.
fn signatures_part_00() -> (sigs: Vec<FileSignature>)
    ensures
        sigs@ == catalogue_part_00(),
        sigs@.len() == 32,
        forall|i: int| 0 <= i < sigs@.len() ==> well_formed(#[trigger] sigs@[i]),
{
    let sigs = vec![
        FileSignature {
            name: "JPEG Image",
            extension: "jpg",
            header: &[0xFF, 0xD8, 0xFF],
            footer: Some(&[0xFF, 0xD9]),
            max_size: 50 * MIB,
            category: "Images",
        },
        FileSignature {
            name: "PNG Image",
            extension: "png",
            header: &[0x89, 0x50, 0x4E, 0x47, 0x0D, 0x0A, 0x1A, 0x0A],
            footer: Some(&[0x49, 0x45, 0x4E, 0x44, 0xAE, 0x42, 0x60, 0x82]),
            max_size: 50 * MIB,
            category: "Images",
        },
        FileSignature {
            name: "GIF Image",
            extension: "gif",
            header: &[0x47, 0x49, 0x46, 0x38],
            footer: Some(&[0x00, 0x3B]),
            max_size: 20 * MIB,
            category: "Images",
        },
        FileSignature {
            name: "BMP Image",
            extension: "bmp",
            header: &[0x42, 0x4D],
            footer: None,
            max_size: 100 * MIB,
            category: "Images",
        },
        FileSignature {
            name: "WebP Image",
            extension: "webp",
            header: &[0x52, 0x49, 0x46, 0x46],
            footer: None,
            max_size: 50 * MIB,
            category: "Images",
        },
        FileSignature {
            name: "TIFF Image",
            extension: "tiff",
            header: &[0x49, 0x49, 0x2A, 0x00],
            footer: None,
            max_size: 200 * MIB,
            category: "Images",
        },
        FileSignature {
            name: "ICO Icon",
            extension: "ico",
            header: &[0x00, 0x00, 0x01, 0x00],
            footer: None,
            max_size: 1 * MIB,
            category: "Images",
        },
        FileSignature {
            name: "PDF Document",
            extension: "pdf",
            header: &[0x25, 0x50, 0x44, 0x46],
            footer: Some(&[0x25, 0x25, 0x45, 0x4F, 0x46]),
            max_size: 500 * MIB,
            category: "Documents",
        },
        FileSignature {
            name: "Microsoft Office (DOCX/XLSX/PPTX)",
            extension: "docx",
            header: &[0x50, 0x4B, 0x03, 0x04],
            footer: None,
            max_size: 100 * MIB,
            category: "Documents",
        },
        FileSignature {
            name: "Microsoft Word (DOC)",
            extension: "doc",
            header: &[0xD0, 0xCF, 0x11, 0xE0, 0xA1, 0xB1, 0x1A, 0xE1],
            footer: None,
            max_size: 100 * MIB,
            category: "Documents",
        },
        FileSignature {
            name: "Rich Text Format",
            extension: "rtf",
            header: &[0x7B, 0x5C, 0x72, 0x74, 0x66],
            footer: Some(&[0x7D]),
            max_size: 50 * MIB,
            category: "Documents",
        },
        FileSignature {
            name: "AVI Video",
            extension: "avi",
            header: &[0x52, 0x49, 0x46, 0x46],
            footer: None,
            max_size: 10 * GIB,
            category: "Videos",
        },
        FileSignature {
            name: "MKV Video",
            extension: "mkv",
            header: &[0x1A, 0x45, 0xDF, 0xA3],
            footer: None,
            max_size: 10 * GIB,
            category: "Videos",
        },
        FileSignature {
            name: "WMV Video",
            extension: "wmv",
            header: &[0x30, 0x26, 0xB2, 0x75, 0x8E, 0x66, 0xCF, 0x11],
            footer: None,
            max_size: 5 * GIB,
            category: "Videos",
        },
        FileSignature {
            name: "FLV Video",
            extension: "flv",
            header: &[0x46, 0x4C, 0x56, 0x01],
            footer: None,
            max_size: 2 * GIB,
            category: "Videos",
        },
        FileSignature {
            name: "MP3 Audio",
            extension: "mp3",
            header: &[0xFF, 0xFB],
            footer: None,
            max_size: 100 * MIB,
            category: "Audio",
        },
        FileSignature {
            name: "MP3 with ID3",
            extension: "mp3",
            header: &[0x49, 0x44, 0x33],
            footer: None,
            max_size: 100 * MIB,
            category: "Audio",
        },
        FileSignature {
            name: "WAV Audio",
            extension: "wav",
            header: &[0x52, 0x49, 0x46, 0x46],
            footer: None,
            max_size: 500 * MIB,
            category: "Audio",
        },
        FileSignature {
            name: "FLAC Audio",
            extension: "flac",
            header: &[0x66, 0x4C, 0x61, 0x43],
            footer: None,
            max_size: 500 * MIB,
            category: "Audio",
        },
        FileSignature {
            name: "OGG Audio",
            extension: "ogg",
            header: &[0x4F, 0x67, 0x67, 0x53],
            footer: None,
            max_size: 100 * MIB,
            category: "Audio",
        },
        FileSignature {
            name: "M4A Audio",
            extension: "m4a",
            header: &[0x00, 0x00, 0x00, 0x20, 0x66, 0x74, 0x79, 0x70],
            footer: None,
            max_size: 200 * MIB,
            category: "Audio",
        },
        FileSignature {
            name: "WMA Audio",
            extension: "wma",
            header: &[0x30, 0x26, 0xB2, 0x75, 0x8E, 0x66, 0xCF, 0x11],
            footer: None,
            max_size: 100 * MIB,
            category: "Audio",
        },
        FileSignature {
            name: "ZIP Archive",
            extension: "zip",
            header: &[0x50, 0x4B, 0x03, 0x04],
            footer: Some(&[0x50, 0x4B, 0x05, 0x06]),
            max_size: 5 * GIB,
            category: "Archives",
        },
        FileSignature {
            name: "RAR Archive",
            extension: "rar",
            header: &[0x52, 0x61, 0x72, 0x21, 0x1A, 0x07],
            footer: None,
            max_size: 5 * GIB,
            category: "Archives",
        },
        FileSignature {
            name: "7-Zip Archive",
            extension: "7z",
            header: &[0x37, 0x7A, 0xBC, 0xAF, 0x27, 0x1C],
            footer: None,
            max_size: 5 * GIB,
            category: "Archives",
        },
        FileSignature {
            name: "GZIP Archive",
            extension: "gz",
            header: &[0x1F, 0x8B, 0x08],
            footer: None,
            max_size: 1 * GIB,
            category: "Archives",
        },
        FileSignature {
            name: "TAR Archive",
            extension: "tar",
            header: &[0x75, 0x73, 0x74, 0x61, 0x72],
            footer: None,
            max_size: 5 * GIB,
            category: "Archives",
        },
        FileSignature {
            name: "Windows Executable",
            extension: "exe",
            header: &[0x4D, 0x5A],
            footer: None,
            max_size: 500 * MIB,
            category: "Executables",
        },
        FileSignature {
            name: "Windows DLL",
            extension: "dll",
            header: &[0x4D, 0x5A],
            footer: None,
            max_size: 200 * MIB,
            category: "Executables",
        },
        FileSignature {
            name: "SQLite Database",
            extension: "sqlite",
            header: &[0x53, 0x51, 0x4C, 0x69, 0x74, 0x65],
            footer: None,
            max_size: 1 * GIB,
            category: "Databases",
        },
        FileSignature {
            name: "Outlook PST",
            extension: "pst",
            header: &[0x21, 0x42, 0x44, 0x4E],
            footer: None,
            max_size: 50 * GIB,
            category: "Email",
        },
        FileSignature {
            name: "XML Document",
            extension: "xml",
            header: &[0x3C, 0x3F, 0x78, 0x6D, 0x6C],
            footer: None,
            max_size: 100 * MIB,
            category: "Documents",
        },
    ];
    assert(sigs@ =~= catalogue_part_00());
    sigs
}

/// Records 32 to 63 of the catalogue.
pub open spec fn catalogue_part_01() -> Seq<FileSignature> {
    seq![
        FileSignature {
            name: "HTML Document",
            extension: "html",
            header: &[0x3Cu8, 0x21, 0x44, 0x4F, 0x43, 0x54, 0x59, 0x50, 0x45],
            footer: None,
            max_size: (50 * MIB) as u64,
            category: "Documents",
        },
        FileSignature {
            name: "Canon RAW CR2",
            extension: "cr2",
            header: &[0x49u8, 0x49, 0x2A, 0x00],
            footer: None,
            max_size: (100 * MIB) as u64,
            category: "RAW Photos",
        },
        FileSignature {
            name: "Canon RAW CR3",
            extension: "cr3",
            header: &[0x00u8, 0x00, 0x00, 0x18, 0x66, 0x74, 0x79, 0x70, 0x63, 0x72, 0x78],
            footer: None,
            max_size: (100 * MIB) as u64,
            category: "RAW Photos",
        },
        FileSignature {
            name: "Nikon NEF RAW",
            extension: "nef",
            header: &[0x4Du8, 0x4D, 0x00, 0x2A],
            footer: None,
            max_size: (100 * MIB) as u64,
            category: "RAW Photos",
        },
        FileSignature {
            name: "Sony ARW RAW",
            extension: "arw",
            header: &[0x49u8, 0x49, 0x2A, 0x00],
            footer: None,
            max_size: (100 * MIB) as u64,
            category: "RAW Photos",
        },
        FileSignature {
            name: "Adobe DNG RAW",
            extension: "dng",
            header: &[0x49u8, 0x49, 0x2A, 0x00],
            footer: None,
            max_size: (100 * MIB) as u64,
            category: "RAW Photos",
        },
        FileSignature {
            name: "Fujifilm RAF RAW",
            extension: "raf",
            header: &[0x46u8, 0x55, 0x4A, 0x49, 0x46, 0x49, 0x4C, 0x4D],
            footer: None,
            max_size: (100 * MIB) as u64,
            category: "RAW Photos",
        },
        FileSignature {
            name: "Olympus ORF RAW",
            extension: "orf",
            header: &[0x49u8, 0x49, 0x52, 0x4F],
            footer: None,
            max_size: (100 * MIB) as u64,
            category: "RAW Photos",
        },
        FileSignature {
            name: "Panasonic RW2 RAW",
            extension: "rw2",
            header: &[0x49u8, 0x49, 0x55, 0x00],
            footer: None,
            max_size: (80 * MIB) as u64,
            category: "RAW Photos",
        },
        FileSignature {
            name: "Pentax PEF RAW",
            extension: "pef",
            header: &[0x4Du8, 0x4D, 0x00, 0x2A],
            footer: None,
            max_size: (100 * MIB) as u64,
            category: "RAW Photos",
        },
        FileSignature {
            name: "Photoshop PSD",
            extension: "psd",
            header: &[0x38u8, 0x42, 0x50, 0x53],
            footer: None,
            max_size: (2 * GIB) as u64,
            category: "Images",
        },
        FileSignature {
            name: "GIMP XCF",
            extension: "xcf",
            header: &[0x67u8, 0x69, 0x6D, 0x70, 0x20, 0x78, 0x63, 0x66],
            footer: None,
            max_size: (1 * GIB) as u64,
            category: "Images",
        },
        FileSignature {
            name: "SVG Image",
            extension: "svg",
            header: &[0x3Cu8, 0x3F, 0x78, 0x6D, 0x6C],
            footer: None,
            max_size: (10 * MIB) as u64,
            category: "Images",
        },
        FileSignature {
            name: "HEIC Image",
            extension: "heic",
            header: &[0x00u8, 0x00, 0x00, 0x18, 0x66, 0x74, 0x79, 0x70, 0x68, 0x65, 0x69, 0x63],
            footer: None,
            max_size: (50 * MIB) as u64,
            category: "Images",
        },
        FileSignature {
            name: "AVIF Image",
            extension: "avif",
            header: &[0x00u8, 0x00, 0x00, 0x18, 0x66, 0x74, 0x79, 0x70, 0x61, 0x76, 0x69, 0x66],
            footer: None,
            max_size: (50 * MIB) as u64,
            category: "Images",
        },
        FileSignature {
            name: "JPEG 2000",
            extension: "jp2",
            header: &[0x00u8, 0x00, 0x00, 0x0C, 0x6A, 0x50, 0x20, 0x20],
            footer: None,
            max_size: (100 * MIB) as u64,
            category: "Images",
        },
        FileSignature {
            name: "TGA Image",
            extension: "tga",
            header: &[0x00u8, 0x00, 0x02, 0x00, 0x00],
            footer: None,
            max_size: (50 * MIB) as u64,
            category: "Images",
        },
        FileSignature {
            name: "WebM Video",
            extension: "webm",
            header: &[0x1Au8, 0x45, 0xDF, 0xA3],
            footer: None,
            max_size: (5 * GIB) as u64,
            category: "Videos",
        },
        FileSignature {
            name: "3GP Video",
            extension: "3gp",
            header: &[0x00u8, 0x00, 0x00, 0x14, 0x66, 0x74, 0x79, 0x70, 0x33, 0x67, 0x70],
            footer: None,
            max_size: (2 * GIB) as u64,
            category: "Videos",
        },
        FileSignature {
            name: "MPEG Video",
            extension: "mpg",
            header: &[0x00u8, 0x00, 0x01, 0xBA],
            footer: None,
            max_size: (10 * GIB) as u64,
            category: "Videos",
        },
        FileSignature {
            name: "VOB Video",
            extension: "vob",
            header: &[0x00u8, 0x00, 0x01, 0xBA],
            footer: None,
            max_size: (10 * GIB) as u64,
            category: "Videos",
        },
        FileSignature {
            name: "M2TS Video",
            extension: "m2ts",
            header: &[0x47u8, 0x40],
            footer: None,
            max_size: (10 * GIB) as u64,
            category: "Videos",
        },
        FileSignature {
            name: "AIFF Audio",
            extension: "aiff",
            header: &[0x46u8, 0x4F, 0x52, 0x4D],
            footer: None,
            max_size: (500 * MIB) as u64,
            category: "Audio",
        },
        FileSignature {
            name: "APE Audio",
            extension: "ape",
            header: &[0x4Du8, 0x41, 0x43, 0x20],
            footer: None,
            max_size: (500 * MIB) as u64,
            category: "Audio",
        },
        FileSignature {
            name: "AAC Audio",
            extension: "aac",
            header: &[0xFFu8, 0xF1],
            footer: None,
            max_size: (200 * MIB) as u64,
            category: "Audio",
        },
        FileSignature {
            name: "MIDI Audio",
            extension: "mid",
            header: &[0x4Du8, 0x54, 0x68, 0x64],
            footer: None,
            max_size: (10 * MIB) as u64,
            category: "Audio",
        },
        FileSignature {
            name: "AMR Audio",
            extension: "amr",
            header: &[0x23u8, 0x21, 0x41, 0x4D, 0x52],
            footer: None,
            max_size: (50 * MIB) as u64,
            category: "Audio",
        },
        FileSignature {
            name: "EPUB eBook",
            extension: "epub",
            header: &[0x50u8, 0x4B, 0x03, 0x04],
            footer: None,
            max_size: (100 * MIB) as u64,
            category: "Documents",
        },
        FileSignature {
            name: "MOBI eBook",
            extension: "mobi",
            header: &[0x00u8, 0x00, 0x00, 0x00, 0x00, 0x00, 0x00, 0x00, 0x00, 0x00, 0x00, 0x00, 0x00, 0x00, 0x00, 0x00, 0x00, 0x00, 0x00, 0x00, 0x00, 0x00, 0x00, 0x00, 0x00, 0x00, 0x00, 0x00, 0x00, 0x00, 0x00, 0x00, 0x00, 0x00, 0x00, 0x00, 0x00, 0x00, 0x00, 0x00, 0x00, 0x00, 0x00, 0x00, 0x00, 0x00, 0x00, 0x00, 0x00, 0x00, 0x00, 0x00, 0x00, 0x00, 0x00, 0x00, 0x00, 0x00, 0x00, 0x00, 0x42, 0x4F, 0x4F, 0x4B, 0x4D, 0x4F, 0x42, 0x49],
            footer: None,
            max_size: (100 * MIB) as u64,
            category: "Documents",
        },
        FileSignature {
            name: "OpenDocument Text",
            extension: "odt",
            header: &[0x50u8, 0x4B, 0x03, 0x04],
            footer: None,
            max_size: (100 * MIB) as u64,
            category: "Documents",
        },
        FileSignature {
            name: "PostScript",
            extension: "ps",
            header: &[0x25u8, 0x21, 0x50, 0x53],
            footer: None,
            max_size: (100 * MIB) as u64,
            category: "Documents",
        },
        FileSignature {
            name: "LaTeX Document",
            extension: "tex",
            header: &[0x5Cu8, 0x64, 0x6F, 0x63, 0x75, 0x6D, 0x65, 0x6E, 0x74, 0x63, 0x6C, 0x61, 0x73, 0x73],
            footer: None,
            max_size: (50 * MIB) as u64,
            category: "Documents",
        },
    ]
}

/// Builds records 32 to 63 of the catalogue.
fn signatures_part_01() -> (sigs: Vec<FileSignature>)
    ensures
        sigs@ == catalogue_part_01(),
        sigs@.len() == 32,
        forall|i: int| 0 <= i < sigs@.len() ==> well_formed(#[trigger] sigs@[i]),
{
    let sigs = vec![
        FileSignature {
            name: "HTML Document",
            extension: "html",
            header: &[0x3C, 0x21, 0x44, 0x4F, 0x43, 0x54, 0x59, 0x50, 0x45],
            footer: None,
            max_size: 50 * MIB,
            category: "Documents",
        },
        FileSignature {
            name: "Canon RAW CR2",
            extension: "cr2",
            header: &[0x49, 0x49, 0x2A, 0x00],
            footer: None,
            max_size: 100 * MIB,
            category: "RAW Photos",
        },
        FileSignature {
            name: "Canon RAW CR3",
            extension: "cr3",
            header: &[0x00, 0x00, 0x00, 0x18, 0x66, 0x74, 0x79, 0x70, 0x63, 0x72, 0x78],
            footer: None,
            max_size: 100 * MIB,
            category: "RAW Photos",
        },
        FileSignature {
            name: "Nikon NEF RAW",
            extension: "nef",
            header: &[0x4D, 0x4D, 0x00, 0x2A],
            footer: None,
            max_size: 100 * MIB,
            category: "RAW Photos",
        },
        FileSignature {
            name: "Sony ARW RAW",
            extension: "arw",
            header: &[0x49, 0x49, 0x2A, 0x00],
            footer: None,
            max_size: 100 * MIB,
            category: "RAW Photos",
        },
        FileSignature {
            name: "Adobe DNG RAW",
            extension: "dng",
            header: &[0x49, 0x49, 0x2A, 0x00],
            footer: None,
            max_size: 100 * MIB,
            category: "RAW Photos",
        },
        FileSignature {
            name: "Fujifilm RAF RAW",
            extension: "raf",
            header: &[0x46, 0x55, 0x4A, 0x49, 0x46, 0x49, 0x4C, 0x4D],
            footer: None,
            max_size: 100 * MIB,
            category: "RAW Photos",
        },
        FileSignature {
            name: "Olympus ORF RAW",
            extension: "orf",
            header: &[0x49, 0x49, 0x52, 0x4F],
            footer: None,
            max_size: 100 * MIB,
            category: "RAW Photos",
        },
        FileSignature {
            name: "Panasonic RW2 RAW",
            extension: "rw2",
            header: &[0x49, 0x49, 0x55, 0x00],
            footer: None,
            max_size: 80 * MIB,
            category: "RAW Photos",
        },
        FileSignature {
            name: "Pentax PEF RAW",
            extension: "pef",
            header: &[0x4D, 0x4D, 0x00, 0x2A],
            footer: None,
            max_size: 100 * MIB,
            category: "RAW Photos",
        },
        FileSignature {
            name: "Photoshop PSD",
            extension: "psd",
            header: &[0x38, 0x42, 0x50, 0x53],
            footer: None,
            max_size: 2 * GIB,
            category: "Images",
        },
        FileSignature {
            name: "GIMP XCF",
            extension: "xcf",
            header: &[0x67, 0x69, 0x6D, 0x70, 0x20, 0x78, 0x63, 0x66],
            footer: None,
            max_size: 1 * GIB,
            category: "Images",
        },
        FileSignature {
            name: "SVG Image",
            extension: "svg",
            header: &[0x3C, 0x3F, 0x78, 0x6D, 0x6C],
            footer: None,
            max_size: 10 * MIB,
            category: "Images",
        },
        FileSignature {
            name: "HEIC Image",
            extension: "heic",
            header: &[0x00, 0x00, 0x00, 0x18, 0x66, 0x74, 0x79, 0x70, 0x68, 0x65, 0x69, 0x63],
            footer: None,
            max_size: 50 * MIB,
            category: "Images",
        },
        FileSignature {
            name: "AVIF Image",
            extension: "avif",
            header: &[0x00, 0x00, 0x00, 0x18, 0x66, 0x74, 0x79, 0x70, 0x61, 0x76, 0x69, 0x66],
            footer: None,
            max_size: 50 * MIB,
            category: "Images",
        },
        FileSignature {
            name: "JPEG 2000",
            extension: "jp2",
            header: &[0x00, 0x00, 0x00, 0x0C, 0x6A, 0x50, 0x20, 0x20],
            footer: None,
            max_size: 100 * MIB,
            category: "Images",
        },
        FileSignature {
            name: "TGA Image",
            extension: "tga",
            header: &[0x00, 0x00, 0x02, 0x00, 0x00],
            footer: None,
            max_size: 50 * MIB,
            category: "Images",
        },
        FileSignature {
            name: "WebM Video",
            extension: "webm",
            header: &[0x1A, 0x45, 0xDF, 0xA3],
            footer: None,
            max_size: 5 * GIB,
            category: "Videos",
        },
        FileSignature {
            name: "3GP Video",
            extension: "3gp",
            header: &[0x00, 0x00, 0x00, 0x14, 0x66, 0x74, 0x79, 0x70, 0x33, 0x67, 0x70],
            footer: None,
            max_size: 2 * GIB,
            category: "Videos",
        },
        FileSignature {
            name: "MPEG Video",
            extension: "mpg",
            header: &[0x00, 0x00, 0x01, 0xBA],
            footer: None,
            max_size: 10 * GIB,
            category: "Videos",
        },
        FileSignature {
            name: "VOB Video",
            extension: "vob",
            header: &[0x00, 0x00, 0x01, 0xBA],
            footer: None,
            max_size: 10 * GIB,
            category: "Videos",
        },
        FileSignature {
            name: "M2TS Video",
            extension: "m2ts",
            header: &[0x47, 0x40],
            footer: None,
            max_size: 10 * GIB,
            category: "Videos",
        },
        FileSignature {
            name: "AIFF Audio",
            extension: "aiff",
            header: &[0x46, 0x4F, 0x52, 0x4D],
            footer: None,
            max_size: 500 * MIB,
            category: "Audio",
        },
        FileSignature {
            name: "APE Audio",
            extension: "ape",
            header: &[0x4D, 0x41, 0x43, 0x20],
            footer: None,
            max_size: 500 * MIB,
            category: "Audio",
        },
        FileSignature {
            name: "AAC Audio",
            extension: "aac",
            header: &[0xFF, 0xF1],
            footer: None,
            max_size: 200 * MIB,
            category: "Audio",
        },
        FileSignature {
            name: "MIDI Audio",
            extension: "mid",
            header: &[0x4D, 0x54, 0x68, 0x64],
            footer: None,
            max_size: 10 * MIB,
            category: "Audio",
        },
        FileSignature {
            name: "AMR Audio",
            extension: "amr",
            header: &[0x23, 0x21, 0x41, 0x4D, 0x52],
            footer: None,
            max_size: 50 * MIB,
            category: "Audio",
        },
        FileSignature {
            name: "EPUB eBook",
            extension: "epub",
            header: &[0x50, 0x4B, 0x03, 0x04],
            footer: None,
            max_size: 100 * MIB,
            category: "Documents",
        },
        FileSignature {
            name: "MOBI eBook",
            extension: "mobi",
            header: &[0x00, 0x00, 0x00, 0x00, 0x00, 0x00, 0x00, 0x00, 0x00, 0x00, 0x00, 0x00, 0x00, 0x00, 0x00, 0x00, 0x00, 0x00, 0x00, 0x00, 0x00, 0x00, 0x00, 0x00, 0x00, 0x00, 0x00, 0x00, 0x00, 0x00, 0x00, 0x00, 0x00, 0x00, 0x00, 0x00, 0x00, 0x00, 0x00, 0x00, 0x00, 0x00, 0x00, 0x00, 0x00, 0x00, 0x00, 0x00, 0x00, 0x00, 0x00, 0x00, 0x00, 0x00, 0x00, 0x00, 0x00, 0x00, 0x00, 0x00, 0x42, 0x4F, 0x4F, 0x4B, 0x4D, 0x4F, 0x42, 0x49],
            footer: None,
            max_size: 100 * MIB,
            category: "Documents",
        },
        FileSignature {
            name: "OpenDocument Text",
            extension: "odt",
            header: &[0x50, 0x4B, 0x03, 0x04],
            footer: None,
            max_size: 100 * MIB,
            category: "Documents",
        },
        FileSignature {
            name: "PostScript",
            extension: "ps",
            header: &[0x25, 0x21, 0x50, 0x53],
            footer: None,
            max_size: 100 * MIB,
            category: "Documents",
        },
        FileSignature {
            name: "LaTeX Document",
            extension: "tex",
            header: &[0x5C, 0x64, 0x6F, 0x63, 0x75, 0x6D, 0x65, 0x6E, 0x74, 0x63, 0x6C, 0x61, 0x73, 0x73],
            footer: None,
            max_size: 50 * MIB,
            category: "Documents",
        },
    ];
    assert(sigs@ =~= catalogue_part_01());
    sigs
}

/// Records 64 to 95 of the catalogue.
pub open spec fn catalogue_part_02() -> Seq<FileSignature> {
    seq![
        FileSignature {
            name: "TrueType Font",
            extension: "ttf",
            header: &[0x00u8, 0x01, 0x00, 0x00],
            footer: None,
            max_size: (20 * MIB) as u64,
            category: "Fonts",
        },
        FileSignature {
            name: "OpenType Font",
            extension: "otf",
            header: &[0x4Fu8, 0x54, 0x54, 0x4F],
            footer: None,
            max_size: (20 * MIB) as u64,
            category: "Fonts",
        },
        FileSignature {
            name: "WOFF Font",
            extension: "woff",
            header: &[0x77u8, 0x4F, 0x46, 0x46],
            footer: None,
            max_size: (10 * MIB) as u64,
            category: "Fonts",
        },
        FileSignature {
            name: "WOFF2 Font",
            extension: "woff2",
            header: &[0x77u8, 0x4F, 0x46, 0x32],
            footer: None,
            max_size: (10 * MIB) as u64,
            category: "Fonts",
        },
        FileSignature {
            name: "Microsoft Access MDB",
            extension: "mdb",
            header: &[0x00u8, 0x01, 0x00, 0x00, 0x53, 0x74, 0x61, 0x6E, 0x64, 0x61, 0x72, 0x64, 0x20, 0x4A, 0x65, 0x74],
            footer: None,
            max_size: (2 * GIB) as u64,
            category: "Databases",
        },
        FileSignature {
            name: "Microsoft Access ACCDB",
            extension: "accdb",
            header: &[0x00u8, 0x01, 0x00, 0x00, 0x53, 0x74, 0x61, 0x6E, 0x64, 0x61, 0x72, 0x64, 0x20, 0x41, 0x43, 0x45],
            footer: None,
            max_size: (2 * GIB) as u64,
            category: "Databases",
        },
        FileSignature {
            name: "MySQL Database",
            extension: "myd",
            header: &[0xFEu8, 0x01],
            footer: None,
            max_size: (10 * GIB) as u64,
            category: "Databases",
        },
        FileSignature {
            name: "AutoCAD DWG",
            extension: "dwg",
            header: &[0x41u8, 0x43, 0x31, 0x30],
            footer: None,
            max_size: (500 * MIB) as u64,
            category: "CAD",
        },
        FileSignature {
            name: "AutoCAD DXF",
            extension: "dxf",
            header: &[0x30u8, 0x0A, 0x53, 0x45, 0x43, 0x54, 0x49, 0x4F, 0x4E],
            footer: None,
            max_size: (200 * MIB) as u64,
            category: "CAD",
        },
        FileSignature {
            name: "STL 3D Model",
            extension: "stl",
            header: &[0x73u8, 0x6F, 0x6C, 0x69, 0x64],
            footer: None,
            max_size: (500 * MIB) as u64,
            category: "3D",
        },
        FileSignature {
            name: "OBJ 3D Model",
            extension: "obj",
            header: &[0x23u8],
            footer: None,
            max_size: (500 * MIB) as u64,
            category: "3D",
        },
        FileSignature {
            name: "FBX 3D Model",
            extension: "fbx",
            header: &[0x4Bu8, 0x61, 0x79, 0x64, 0x61, 0x72, 0x61, 0x20, 0x46, 0x42, 0x58],
            footer: None,
            max_size: (1 * GIB) as u64,
            category: "3D",
        },
        FileSignature {
            name: "Blender",
            extension: "blend",
            header: &[0x42u8, 0x4C, 0x45, 0x4E, 0x44, 0x45, 0x52],
            footer: None,
            max_size: (2 * GIB) as u64,
            category: "3D",
        },
        FileSignature {
            name: "SketchUp",
            extension: "skp",
            header: &[0xFFu8, 0xFE, 0xFF, 0x0E, 0x53, 0x00, 0x6B, 0x00, 0x65, 0x00, 0x74, 0x00, 0x63, 0x00, 0x68, 0x00, 0x55, 0x00, 0x70, 0x00],
            footer: None,
            max_size: (500 * MIB) as u64,
            category: "3D",
        },
        FileSignature {
            name: "Adobe Illustrator",
            extension: "ai",
            header: &[0x25u8, 0x50, 0x44, 0x46],
            footer: None,
            max_size: (500 * MIB) as u64,
            category: "Design",
        },
        FileSignature {
            name: "Adobe InDesign",
            extension: "indd",
            header: &[0x06u8, 0x06, 0xED, 0xF5, 0xD8, 0x1D, 0x46, 0xE5],
            footer: None,
            max_size: (1 * GIB) as u64,
            category: "Design",
        },
        FileSignature {
            name: "Adobe Premiere",
            extension: "prproj",
            header: &[0x3Cu8, 0x3F, 0x78, 0x6D, 0x6C],
            footer: None,
            max_size: (100 * MIB) as u64,
            category: "Design",
        },
        FileSignature {
            name: "Adobe After Effects",
            extension: "aep",
            header: &[0x00u8, 0x00, 0x00, 0x14, 0x66, 0x74, 0x79, 0x70],
            footer: None,
            max_size: (1 * GIB) as u64,
            category: "Design",
        },
        FileSignature {
            name: "CAB Archive",
            extension: "cab",
            header: &[0x4Du8, 0x53, 0x43, 0x46],
            footer: None,
            max_size: (2 * GIB) as u64,
            category: "Archives",
        },
        FileSignature {
            name: "ISO Image",
            extension: "iso",
            header: &[0x43u8, 0x44, 0x30, 0x30, 0x31],
            footer: None,
            max_size: (10 * GIB) as u64,
            category: "Archives",
        },
        FileSignature {
            name: "DMG Disk Image",
            extension: "dmg",
            header: &[0x78u8, 0x01, 0x73, 0x0D, 0x62, 0x62, 0x60],
            footer: None,
            max_size: (10 * GIB) as u64,
            category: "Archives",
        },
        FileSignature {
            name: "VHD Virtual Disk",
            extension: "vhd",
            header: &[0x63u8, 0x6F, 0x6E, 0x65, 0x63, 0x74, 0x69, 0x78],
            footer: None,
            max_size: (100 * GIB) as u64,
            category: "Archives",
        },
        FileSignature {
            name: "VMDK Virtual Disk",
            extension: "vmdk",
            header: &[0x4Bu8, 0x44, 0x4D],
            footer: None,
            max_size: (100 * GIB) as u64,
            category: "Archives",
        },
        FileSignature {
            name: "Python Script",
            extension: "py",
            header: &[0x23u8, 0x21, 0x2F, 0x75, 0x73, 0x72, 0x2F, 0x62, 0x69, 0x6E, 0x2F, 0x70, 0x79, 0x74, 0x68, 0x6F, 0x6E],
            footer: None,
            max_size: (10 * MIB) as u64,
            category: "Code",
        },
        FileSignature {
            name: "Java Class",
            extension: "class",
            header: &[0xCAu8, 0xFE, 0xBA, 0xBE],
            footer: None,
            max_size: (10 * MIB) as u64,
            category: "Code",
        },
        FileSignature {
            name: "Java JAR",
            extension: "jar",
            header: &[0x50u8, 0x4B, 0x03, 0x04],
            footer: None,
            max_size: (500 * MIB) as u64,
            category: "Code",
        },
        FileSignature {
            name: "Android APK",
            extension: "apk",
            header: &[0x50u8, 0x4B, 0x03, 0x04],
            footer: None,
            max_size: (2 * GIB) as u64,
            category: "Code",
        },
        FileSignature {
            name: "PGP Public Key",
            extension: "asc",
            header: &[0x2Du8, 0x2D, 0x2D, 0x2D, 0x2D, 0x42, 0x45, 0x47, 0x49, 0x4E, 0x20, 0x50, 0x47, 0x50],
            footer: None,
            max_size: (1 * MIB) as u64,
            category: "Security",
        },
        FileSignature {
            name: "PEM Certificate",
            extension: "pem",
            header: &[0x2Du8, 0x2D, 0x2D, 0x2D, 0x2D, 0x42, 0x45, 0x47, 0x49, 0x4E],
            footer: None,
            max_size: (1 * MIB) as u64,
            category: "Security",
        },
        FileSignature {
            name: "X.509 Certificate",
            extension: "der",
            header: &[0x30u8, 0x82],
            footer: None,
            max_size: (1 * MIB) as u64,
            category: "Security",
        },
        FileSignature {
            name: "PKCS#12",
            extension: "p12",
            header: &[0x30u8, 0x82],
            footer: None,
            max_size: (10 * MIB) as u64,
            category: "Security",
        },
        FileSignature {
            name: "Windows Registry",
            extension: "reg",
            header: &[0x57u8, 0x69, 0x6E, 0x64, 0x6F, 0x77, 0x73, 0x20, 0x52, 0x65, 0x67, 0x69, 0x73, 0x74, 0x72, 0x79],
            footer: None,
            max_size: (50 * MIB) as u64,
            category: "System",
        },
    ]
}

/// Builds records 64 to 95 of the catalogue.
fn signatures_part_02() -> (sigs: Vec<FileSignature>)
    ensures
        sigs@ == catalogue_part_02(),
        sigs@.len() == 32,
        forall|i: int| 0 <= i < sigs@.len() ==> well_formed(#[trigger] sigs@[i]),
{
    let sigs = vec![
        FileSignature {
            name: "TrueType Font",
            extension: "ttf",
            header: &[0x00, 0x01, 0x00, 0x00],
            footer: None,
            max_size: 20 * MIB,
            category: "Fonts",
        },
        FileSignature {
            name: "OpenType Font",
            extension: "otf",
            header: &[0x4F, 0x54, 0x54, 0x4F],
            footer: None,
            max_size: 20 * MIB,
            category: "Fonts",
        },
        FileSignature {
            name: "WOFF Font",
            extension: "woff",
            header: &[0x77, 0x4F, 0x46, 0x46],
            footer: None,
            max_size: 10 * MIB,
            category: "Fonts",
        },
        FileSignature {
            name: "WOFF2 Font",
            extension: "woff2",
            header: &[0x77, 0x4F, 0x46, 0x32],
            footer: None,
            max_size: 10 * MIB,
            category: "Fonts",
        },
        FileSignature {
            name: "Microsoft Access MDB",
            extension: "mdb",
            header: &[0x00, 0x01, 0x00, 0x00, 0x53, 0x74, 0x61, 0x6E, 0x64, 0x61, 0x72, 0x64, 0x20, 0x4A, 0x65, 0x74],
            footer: None,
            max_size: 2 * GIB,
            category: "Databases",
        },
        FileSignature {
            name: "Microsoft Access ACCDB",
            extension: "accdb",
            header: &[0x00, 0x01, 0x00, 0x00, 0x53, 0x74, 0x61, 0x6E, 0x64, 0x61, 0x72, 0x64, 0x20, 0x41, 0x43, 0x45],
            footer: None,
            max_size: 2 * GIB,
            category: "Databases",
        },
        FileSignature {
            name: "MySQL Database",
            extension: "myd",
            header: &[0xFE, 0x01],
            footer: None,
            max_size: 10 * GIB,
            category: "Databases",
        },
        FileSignature {
            name: "AutoCAD DWG",
            extension: "dwg",
            header: &[0x41, 0x43, 0x31, 0x30],
            footer: None,
            max_size: 500 * MIB,
            category: "CAD",
        },
        FileSignature {
            name: "AutoCAD DXF",
            extension: "dxf",
            header: &[0x30, 0x0A, 0x53, 0x45, 0x43, 0x54, 0x49, 0x4F, 0x4E],
            footer: None,
            max_size: 200 * MIB,
            category: "CAD",
        },
        FileSignature {
            name: "STL 3D Model",
            extension: "stl",
            header: &[0x73, 0x6F, 0x6C, 0x69, 0x64],
            footer: None,
            max_size: 500 * MIB,
            category: "3D",
        },
        FileSignature {
            name: "OBJ 3D Model",
            extension: "obj",
            header: &[0x23],
            footer: None,
            max_size: 500 * MIB,
            category: "3D",
        },
        FileSignature {
            name: "FBX 3D Model",
            extension: "fbx",
            header: &[0x4B, 0x61, 0x79, 0x64, 0x61, 0x72, 0x61, 0x20, 0x46, 0x42, 0x58],
            footer: None,
            max_size: 1 * GIB,
            category: "3D",
        },
        FileSignature {
            name: "Blender",
            extension: "blend",
            header: &[0x42, 0x4C, 0x45, 0x4E, 0x44, 0x45, 0x52],
            footer: None,
            max_size: 2 * GIB,
            category: "3D",
        },
        FileSignature {
            name: "SketchUp",
            extension: "skp",
            header: &[0xFF, 0xFE, 0xFF, 0x0E, 0x53, 0x00, 0x6B, 0x00, 0x65, 0x00, 0x74, 0x00, 0x63, 0x00, 0x68, 0x00, 0x55, 0x00, 0x70, 0x00],
            footer: None,
            max_size: 500 * MIB,
            category: "3D",
        },
        FileSignature {
            name: "Adobe Illustrator",
            extension: "ai",
            header: &[0x25, 0x50, 0x44, 0x46],
            footer: None,
            max_size: 500 * MIB,
            category: "Design",
        },
        FileSignature {
            name: "Adobe InDesign",
            extension: "indd",
            header: &[0x06, 0x06, 0xED, 0xF5, 0xD8, 0x1D, 0x46, 0xE5],
            footer: None,
            max_size: 1 * GIB,
            category: "Design",
        },
        FileSignature {
            name: "Adobe Premiere",
            extension: "prproj",
            header: &[0x3C, 0x3F, 0x78, 0x6D, 0x6C],
            footer: None,
            max_size: 100 * MIB,
            category: "Design",
        },
        FileSignature {
            name: "Adobe After Effects",
            extension: "aep",
            header: &[0x00, 0x00, 0x00, 0x14, 0x66, 0x74, 0x79, 0x70],
            footer: None,
            max_size: 1 * GIB,
            category: "Design",
        },
        FileSignature {
            name: "CAB Archive",
            extension: "cab",
            header: &[0x4D, 0x53, 0x43, 0x46],
            footer: None,
            max_size: 2 * GIB,
            category: "Archives",
        },
        FileSignature {
            name: "ISO Image",
            extension: "iso",
            header: &[0x43, 0x44, 0x30, 0x30, 0x31],
            footer: None,
            max_size: 10 * GIB,
            category: "Archives",
        },
        FileSignature {
            name: "DMG Disk Image",
            extension: "dmg",
            header: &[0x78, 0x01, 0x73, 0x0D, 0x62, 0x62, 0x60],
            footer: None,
            max_size: 10 * GIB,
            category: "Archives",
        },
        FileSignature {
            name: "VHD Virtual Disk",
            extension: "vhd",
            header: &[0x63, 0x6F, 0x6E, 0x65, 0x63, 0x74, 0x69, 0x78],
            footer: None,
            max_size: 100 * GIB,
            category: "Archives",
        },
        FileSignature {
            name: "VMDK Virtual Disk",
            extension: "vmdk",
            header: &[0x4B, 0x44, 0x4D],
            footer: None,
            max_size: 100 * GIB,
            category: "Archives",
        },
        FileSignature {
            name: "Python Script",
            extension: "py",
            header: &[0x23, 0x21, 0x2F, 0x75, 0x73, 0x72, 0x2F, 0x62, 0x69, 0x6E, 0x2F, 0x70, 0x79, 0x74, 0x68, 0x6F, 0x6E],
            footer: None,
            max_size: 10 * MIB,
            category: "Code",
        },
        FileSignature {
            name: "Java Class",
            extension: "class",
            header: &[0xCA, 0xFE, 0xBA, 0xBE],
            footer: None,
            max_size: 10 * MIB,
            category: "Code",
        },
        FileSignature {
            name: "Java JAR",
            extension: "jar",
            header: &[0x50, 0x4B, 0x03, 0x04],
            footer: None,
            max_size: 500 * MIB,
            category: "Code",
        },
        FileSignature {
            name: "Android APK",
            extension: "apk",
            header: &[0x50, 0x4B, 0x03, 0x04],
            footer: None,
            max_size: 2 * GIB,
            category: "Code",
        },
        FileSignature {
            name: "PGP Public Key",
            extension: "asc",
            header: &[0x2D, 0x2D, 0x2D, 0x2D, 0x2D, 0x42, 0x45, 0x47, 0x49, 0x4E, 0x20, 0x50, 0x47, 0x50],
            footer: None,
            max_size: 1 * MIB,
            category: "Security",
        },
        FileSignature {
            name: "PEM Certificate",
            extension: "pem",
            header: &[0x2D, 0x2D, 0x2D, 0x2D, 0x2D, 0x42, 0x45, 0x47, 0x49, 0x4E],
            footer: None,
            max_size: 1 * MIB,
            category: "Security",
        },
        FileSignature {
            name: "X.509 Certificate",
            extension: "der",
            header: &[0x30, 0x82],
            footer: None,
            max_size: 1 * MIB,
            category: "Security",
        },
        FileSignature {
            name: "PKCS#12",
            extension: "p12",
            header: &[0x30, 0x82],
            footer: None,
            max_size: 10 * MIB,
            category: "Security",
        },
        FileSignature {
            name: "Windows Registry",
            extension: "reg",
            header: &[0x57, 0x69, 0x6E, 0x64, 0x6F, 0x77, 0x73, 0x20, 0x52, 0x65, 0x67, 0x69, 0x73, 0x74, 0x72, 0x79],
            footer: None,
            max_size: 50 * MIB,
            category: "System",
        },
    ];
    assert(sigs@ =~= catalogue_part_02());
    sigs
}

/// Records 96 to 127 of the catalogue.
pub open spec fn catalogue_part_03() -> Seq<FileSignature> {
    seq![
        FileSignature {
            name: "Windows Shortcut",
            extension: "lnk",
            header: &[0x4Cu8, 0x00, 0x00, 0x00, 0x01, 0x14, 0x02, 0x00],
            footer: None,
            max_size: (1 * MIB) as u64,
            category: "System",
        },
        FileSignature {
            name: "Windows Help",
            extension: "hlp",
            header: &[0x3Fu8, 0x5F, 0x03, 0x00],
            footer: None,
            max_size: (50 * MIB) as u64,
            category: "System",
        },
        FileSignature {
            name: "Windows Icon Library",
            extension: "icl",
            header: &[0x00u8, 0x00, 0x01, 0x00],
            footer: None,
            max_size: (10 * MIB) as u64,
            category: "System",
        },
        FileSignature {
            name: "Windows Cursor",
            extension: "cur",
            header: &[0x00u8, 0x00, 0x02, 0x00],
            footer: None,
            max_size: (1 * MIB) as u64,
            category: "System",
        },
        FileSignature {
            name: "SubRip Subtitle",
            extension: "srt",
            header: &[0x31u8, 0x0D, 0x0A, 0x30, 0x30, 0x3A, 0x30, 0x30],
            footer: None,
            max_size: (5 * MIB) as u64,
            category: "Subtitles",
        },
        FileSignature {
            name: "VTT Subtitle",
            extension: "vtt",
            header: &[0x57u8, 0x45, 0x42, 0x56, 0x54, 0x54],
            footer: None,
            max_size: (5 * MIB) as u64,
            category: "Subtitles",
        },
        FileSignature {
            name: "BitTorrent",
            extension: "torrent",
            header: &[0x64u8, 0x38, 0x3A, 0x61, 0x6E, 0x6E, 0x6F, 0x75, 0x6E, 0x63, 0x65],
            footer: None,
            max_size: (1 * MIB) as u64,
            category: "P2P",
        },
        FileSignature {
            name: "VirtualBox VDI",
            extension: "vdi",
            header: &[0x3Cu8, 0x3C, 0x3C, 0x20, 0x4F, 0x72, 0x61, 0x63, 0x6C, 0x65],
            footer: None,
            max_size: (100 * GIB) as u64,
            category: "Disk Images",
        },
        FileSignature {
            name: "QEMU QCOW",
            extension: "qcow",
            header: &[0x51u8, 0x46, 0x49],
            footer: None,
            max_size: (100 * GIB) as u64,
            category: "Disk Images",
        },
        FileSignature {
            name: "Excel XLSX",
            extension: "xlsx",
            header: &[0x50u8, 0x4B, 0x03, 0x04],
            footer: None,
            max_size: (100 * MIB) as u64,
            category: "Documents",
        },
        FileSignature {
            name: "PowerPoint PPTX",
            extension: "pptx",
            header: &[0x50u8, 0x4B, 0x03, 0x04],
            footer: None,
            max_size: (200 * MIB) as u64,
            category: "Documents",
        },
        FileSignature {
            name: "OpenDocument Spreadsheet",
            extension: "ods",
            header: &[0x50u8, 0x4B, 0x03, 0x04],
            footer: None,
            max_size: (100 * MIB) as u64,
            category: "Documents",
        },
        FileSignature {
            name: "OpenDocument Presentation",
            extension: "odp",
            header: &[0x50u8, 0x4B, 0x03, 0x04],
            footer: None,
            max_size: (100 * MIB) as u64,
            category: "Documents",
        },
        FileSignature {
            name: "Apple Pages",
            extension: "pages",
            header: &[0x50u8, 0x4B, 0x03, 0x04],
            footer: None,
            max_size: (100 * MIB) as u64,
            category: "Documents",
        },
        FileSignature {
            name: "Apple Numbers",
            extension: "numbers",
            header: &[0x50u8, 0x4B, 0x03, 0x04],
            footer: None,
            max_size: (100 * MIB) as u64,
            category: "Documents",
        },
        FileSignature {
            name: "Apple Keynote",
            extension: "key",
            header: &[0x50u8, 0x4B, 0x03, 0x04],
            footer: None,
            max_size: (200 * MIB) as u64,
            category: "Documents",
        },
        FileSignature {
            name: "Sony SR2 RAW",
            extension: "sr2",
            header: &[0x49u8, 0x49, 0x2A, 0x00],
            footer: None,
            max_size: (100 * MIB) as u64,
            category: "RAW Photos",
        },
        FileSignature {
            name: "Sony SRF RAW",
            extension: "srf",
            header: &[0x49u8, 0x49, 0x2A, 0x00],
            footer: None,
            max_size: (80 * MIB) as u64,
            category: "RAW Photos",
        },
        FileSignature {
            name: "Kodak DCR RAW",
            extension: "dcr",
            header: &[0x4Du8, 0x4D, 0x00, 0x2A],
            footer: None,
            max_size: (50 * MIB) as u64,
            category: "RAW Photos",
        },
        FileSignature {
            name: "Minolta MRW RAW",
            extension: "mrw",
            header: &[0x00u8, 0x4D, 0x52, 0x4D],
            footer: None,
            max_size: (50 * MIB) as u64,
            category: "RAW Photos",
        },
        FileSignature {
            name: "Samsung SRW RAW",
            extension: "srw",
            header: &[0x49u8,0x49, 0x2A, 0x00],
            footer: None,
            max_size: (80 * MIB) as u64,
            category: "RAW Photos",
        },
        FileSignature {
            name: "Epson ERF RAW",
            extension: "erf",
            header: &[0x49u8, 0x49, 0x2A, 0x00],
            footer: None,
            max_size: (80 * MIB) as u64,
            category: "RAW Photos",
        },
        FileSignature {
            name: "Mamiya MEF RAW",
            extension: "mef",
            header: &[0x4Du8, 0x4D, 0x00, 0x2A],
            footer: None,
            max_size: (100 * MIB) as u64,
            category: "RAW Photos",
        },
        FileSignature {
            name: "Leaf MOS RAW",
            extension: "mos",
            header: &[0x4Du8, 0x4D, 0x00, 0x2A],
            footer: None,
            max_size: (100 * MIB) as u64,
            category: "RAW Photos",
        },
        FileSignature {
            name: "Phase One IIQ RAW",
            extension: "iiq",
            header: &[0x49u8, 0x49, 0x2A, 0x00],
            footer: None,
            max_size: (300 * MIB) as u64,
            category: "RAW Photos",
        },
        FileSignature {
            name: "Hasselblad 3FR RAW",
            extension: "3fr",
            header: &[0x4Du8, 0x4D, 0x00, 0x2A],
            footer: None,
            max_size: (150 * MIB) as u64,
            category: "RAW Photos",
        },
        FileSignature {
            name: "RED R3D RAW",
            extension: "r3d",
            header: &[0x52u8, 0x45, 0x44, 0x31],
            footer: None,
            max_size: (10 * GIB) as u64,
            category: "RAW Photos",
        },
        FileSignature {
            name: "FLV Video",
            extension: "flv",
            header: &[0x46u8, 0x4C, 0x56],
            footer: None,
            max_size: (2 * GIB) as u64,
            category: "Videos",
        },
        FileSignature {
            name: "SWF Flash",
            extension: "swf",
            header: &[0x46u8, 0x57, 0x53],
            footer: None,
            max_size: (100 * MIB) as u64,
            category: "Videos",
        },
        FileSignature {
            name: "Matroska MKV",
            extension: "mkv",
            header: &[0x1Au8, 0x45, 0xDF, 0xA3],
            footer: None,
            max_size: (10 * GIB) as u64,
            category: "Videos",
        },
        FileSignature {
            name: "OGG Video",
            extension: "ogv",
            header: &[0x4Fu8, 0x67, 0x67, 0x53],
            footer: None,
            max_size: (5 * GIB) as u64,
            category: "Videos",
        },
        FileSignature {
            name: "DivX",
            extension: "divx",
            header: &[0x52u8, 0x49, 0x46, 0x46],
            footer: None,
            max_size: (5 * GIB) as u64,
            category: "Videos",
        },
    ]
}

/// Builds records 96 to 127 of the catalogue.
fn signatures_part_03() -> (sigs: Vec<FileSignature>)
    ensures
        sigs@ == catalogue_part_03(),
        sigs@.len() == 32,
        forall|i: int| 0 <= i < sigs@.len() ==> well_formed(#[trigger] sigs@[i]),
{
    let sigs = vec![
        FileSignature {
            name: "Windows Shortcut",
            extension: "lnk",
            header: &[0x4C, 0x00, 0x00, 0x00, 0x01, 0x14, 0x02, 0x00],
            footer: None,
            max_size: 1 * MIB,
            category: "System",
        },
        FileSignature {
            name: "Windows Help",
            extension: "hlp",
            header: &[0x3F, 0x5F, 0x03, 0x00],
            footer: None,
            max_size: 50 * MIB,
            category: "System",
        },
        FileSignature {
            name: "Windows Icon Library",
            extension: "icl",
            header: &[0x00, 0x00, 0x01, 0x00],
            footer: None,
            max_size: 10 * MIB,
            category: "System",
        },
        FileSignature {
            name: "Windows Cursor",
            extension: "cur",
            header: &[0x00, 0x00, 0x02, 0x00],
            footer: None,
            max_size: 1 * MIB,
            category: "System",
        },
        FileSignature {
            name: "SubRip Subtitle",
            extension: "srt",
            header: &[0x31, 0x0D, 0x0A, 0x30, 0x30, 0x3A, 0x30, 0x30],
            footer: None,
            max_size: 5 * MIB,
            category: "Subtitles",
        },
        FileSignature {
            name: "VTT Subtitle",
            extension: "vtt",
            header: &[0x57, 0x45, 0x42, 0x56, 0x54, 0x54],
            footer: None,
            max_size: 5 * MIB,
            category: "Subtitles",
        },
        FileSignature {
            name: "BitTorrent",
            extension: "torrent",
            header: &[0x64, 0x38, 0x3A, 0x61, 0x6E, 0x6E, 0x6F, 0x75, 0x6E, 0x63, 0x65],
            footer: None,
            max_size: 1 * MIB,
            category: "P2P",
        },
        FileSignature {
            name: "VirtualBox VDI",
            extension: "vdi",
            header: &[0x3C, 0x3C, 0x3C, 0x20, 0x4F, 0x72, 0x61, 0x63, 0x6C, 0x65],
            footer: None,
            max_size: 100 * GIB,
            category: "Disk Images",
        },
        FileSignature {
            name: "QEMU QCOW",
            extension: "qcow",
            header: &[0x51, 0x46, 0x49],
            footer: None,
            max_size: 100 * GIB,
            category: "Disk Images",
        },
        FileSignature {
            name: "Excel XLSX",
            extension: "xlsx",
            header: &[0x50, 0x4B, 0x03, 0x04],
            footer: None,
            max_size: 100 * MIB,
            category: "Documents",
        },
        FileSignature {
            name: "PowerPoint PPTX",
            extension: "pptx",
            header: &[0x50, 0x4B, 0x03, 0x04],
            footer: None,
            max_size: 200 * MIB,
            category: "Documents",
        },
        FileSignature {
            name: "OpenDocument Spreadsheet",
            extension: "ods",
            header: &[0x50, 0x4B, 0x03, 0x04],
            footer: None,
            max_size: 100 * MIB,
            category: "Documents",
        },
        FileSignature {
            name: "OpenDocument Presentation",
            extension: "odp",
            header: &[0x50, 0x4B, 0x03, 0x04],
            footer: None,
            max_size: 100 * MIB,
            category: "Documents",
        },
        FileSignature {
            name: "Apple Pages",
            extension: "pages",
            header: &[0x50, 0x4B, 0x03, 0x04],
            footer: None,
            max_size: 100 * MIB,
            category: "Documents",
        },
        FileSignature {
            name: "Apple Numbers",
            extension: "numbers",
            header: &[0x50, 0x4B, 0x03, 0x04],
            footer: None,
            max_size: 100 * MIB,
            category: "Documents",
        },
        FileSignature {
            name: "Apple Keynote",
            extension: "key",
            header: &[0x50, 0x4B, 0x03, 0x04],
            footer: None,
            max_size: 200 * MIB,
            category: "Documents",
        },
        FileSignature {
            name: "Sony SR2 RAW",
            extension: "sr2",
            header: &[0x49, 0x49, 0x2A, 0x00],
            footer: None,
            max_size: 100 * MIB,
            category: "RAW Photos",
        },
        FileSignature {
            name: "Sony SRF RAW",
            extension: "srf",
            header: &[0x49, 0x49, 0x2A, 0x00],
            footer: None,
            max_size: 80 * MIB,
            category: "RAW Photos",
        },
        FileSignature {
            name: "Kodak DCR RAW",
            extension: "dcr",
            header: &[0x4D, 0x4D, 0x00, 0x2A],
            footer: None,
            max_size: 50 * MIB,
            category: "RAW Photos",
        },
        FileSignature {
            name: "Minolta MRW RAW",
            extension: "mrw",
            header: &[0x00, 0x4D, 0x52, 0x4D],
            footer: None,
            max_size: 50 * MIB,
            category: "RAW Photos",
        },
        FileSignature {
            name: "Samsung SRW RAW",
            extension: "srw",
            header: &[0x49,0x49, 0x2A, 0x00],
            footer: None,
            max_size: 80 * MIB,
            category: "RAW Photos",
        },
        FileSignature {
            name: "Epson ERF RAW",
            extension: "erf",
            header: &[0x49, 0x49, 0x2A, 0x00],
            footer: None,
            max_size: 80 * MIB,
            category: "RAW Photos",
        },
        FileSignature {
            name: "Mamiya MEF RAW",
            extension: "mef",
            header: &[0x4D, 0x4D, 0x00, 0x2A],
            footer: None,
            max_size: 100 * MIB,
            category: "RAW Photos",
        },
        FileSignature {
            name: "Leaf MOS RAW",
            extension: "mos",
            header: &[0x4D, 0x4D, 0x00, 0x2A],
            footer: None,
            max_size: 100 * MIB,
            category: "RAW Photos",
        },
        FileSignature {
            name: "Phase One IIQ RAW",
            extension: "iiq",
            header: &[0x49, 0x49, 0x2A, 0x00],
            footer: None,
            max_size: 300 * MIB,
            category: "RAW Photos",
        },
        FileSignature {
            name: "Hasselblad 3FR RAW",
            extension: "3fr",
            header: &[0x4D, 0x4D, 0x00, 0x2A],
            footer: None,
            max_size: 150 * MIB,
            category: "RAW Photos",
        },
        FileSignature {
            name: "RED R3D RAW",
            extension: "r3d",
            header: &[0x52, 0x45, 0x44, 0x31],
            footer: None,
            max_size: 10 * GIB,
            category: "RAW Photos",
        },
        FileSignature {
            name: "FLV Video",
            extension: "flv",
            header: &[0x46, 0x4C, 0x56],
            footer: None,
            max_size: 2 * GIB,
            category: "Videos",
        },
        FileSignature {
            name: "SWF Flash",
            extension: "swf",
            header: &[0x46, 0x57, 0x53],
            footer: None,
            max_size: 100 * MIB,
            category: "Videos",
        },
        FileSignature {
            name: "Matroska MKV",
            extension: "mkv",
            header: &[0x1A, 0x45, 0xDF, 0xA3],
            footer: None,
            max_size: 10 * GIB,
            category: "Videos",
        },
        FileSignature {
            name: "OGG Video",
            extension: "ogv",
            header: &[0x4F, 0x67, 0x67, 0x53],
            footer: None,
            max_size: 5 * GIB,
            category: "Videos",
        },
        FileSignature {
            name: "DivX",
            extension: "divx",
            header: &[0x52, 0x49, 0x46, 0x46],
            footer: None,
            max_size: 5 * GIB,
            category: "Videos",
        },
    ];
    assert(sigs@ =~= catalogue_part_03());
    sigs
}

/// Records 128 to 159 of the catalogue.
pub open spec fn catalogue_part_04() -> Seq<FileSignature> {
    seq![
        FileSignature {
            name: "ASF Video",
            extension: "asf",
            header: &[0x30u8, 0x26, 0xB2, 0x75, 0x8E, 0x66, 0xCF, 0x11],
            footer: None,
            max_size: (5 * GIB) as u64,
            category: "Videos",
        },
        FileSignature {
            name: "MJPEG Video",
            extension: "mjpeg",
            header: &[0xFFu8, 0xD8, 0xFF],
            footer: None,
            max_size: (5 * GIB) as u64,
            category: "Videos",
        },
        FileSignature {
            name: "MTS Video",
            extension: "mts",
            header: &[0x47u8],
            footer: None,
            max_size: (10 * GIB) as u64,
            category: "Videos",
        },
        FileSignature {
            name: "TS Transport Stream",
            extension: "ts",
            header: &[0x47u8, 0x40],
            footer: None,
            max_size: (10 * GIB) as u64,
            category: "Videos",
        },
        FileSignature {
            name: "ProRes Video",
            extension: "prores",
            header: &[0x00u8, 0x00, 0x00, 0x14, 0x66, 0x74, 0x79, 0x70],
            footer: None,
            max_size: (10 * GIB) as u64,
            category: "Videos",
        },
        FileSignature {
            name: "OGG Audio",
            extension: "ogg",
            header: &[0x4Fu8, 0x67, 0x67, 0x53],
            footer: None,
            max_size: (500 * MIB) as u64,
            category: "Audio",
        },
        FileSignature {
            name: "Opus Audio",
            extension: "opus",
            header: &[0x4Fu8, 0x67, 0x67, 0x53],
            footer: None,
            max_size: (200 * MIB) as u64,
            category: "Audio",
        },
        FileSignature {
            name: "DSD Audio",
            extension: "dsd",
            header: &[0x44u8, 0x53, 0x44, 0x20],
            footer: None,
            max_size: (500 * MIB) as u64,
            category: "Audio",
        },
        FileSignature {
            name: "ALAC Audio",
            extension: "m4a",
            header: &[0x00u8, 0x00, 0x00, 0x20, 0x66, 0x74, 0x79, 0x70, 0x4D, 0x34, 0x41],
            footer: None,
            max_size: (200 * MIB) as u64,
            category: "Audio",
        },
        FileSignature {
            name: "TTA Audio",
            extension: "tta",
            header: &[0x54u8, 0x54, 0x41, 0x31],
            footer: None,
            max_size: (300 * MIB) as u64,
            category: "Audio",
        },
        FileSignature {
            name: "WavPack",
            extension: "wv",
            header: &[0x77u8, 0x76, 0x70, 0x6B],
            footer: None,
            max_size: (300 * MIB) as u64,
            category: "Audio",
        },
        FileSignature {
            name: "Shorten Audio",
            extension: "shn",
            header: &[0x61u8, 0x6A, 0x6B, 0x67],
            footer: None,
            max_size: (300 * MIB) as u64,
            category: "Audio",
        },
        FileSignature {
            name: "AU Audio",
            extension: "au",
            header: &[0x2Eu8, 0x73, 0x6E, 0x64],
            footer: None,
            max_size: (100 * MIB) as u64,
            category: "Audio",
        },
        FileSignature {
            name: "VOC Audio",
            extension: "voc",
            header: &[0x43u8, 0x72, 0x65, 0x61, 0x74, 0x69, 0x76, 0x65],
            footer: None,
            max_size: (50 * MIB) as u64,
            category: "Audio",
        },
        FileSignature {
            name: "DSS Audio",
            extension: "dss",
            header: &[0x02u8, 0x64, 0x73, 0x73],
            footer: None,
            max_size: (50 * MIB) as u64,
            category: "Audio",
        },
        FileSignature {
            name: "TAR Archive",
            extension: "tar",
            header: &[0x75u8, 0x73, 0x74, 0x61, 0x72],
            footer: None,
            max_size: (10 * GIB) as u64,
            category: "Archives",
        },
        FileSignature {
            name: "GZIP Archive",
            extension: "gz",
            header: &[0x1Fu8, 0x8B, 0x08],
            footer: None,
            max_size: (5 * GIB) as u64,
            category: "Archives",
        },
        FileSignature {
            name: "BZIP2 Archive",
            extension: "bz2",
            header: &[0x42u8, 0x5A, 0x68],
            footer: None,
            max_size: (5 * GIB) as u64,
            category: "Archives",
        },
        FileSignature {
            name: "XZ Archive",
            extension: "xz",
            header: &[0xFDu8, 0x37, 0x7A, 0x58, 0x5A, 0x00],
            footer: None,
            max_size: (5 * GIB) as u64,
            category: "Archives",
        },
        FileSignature {
            name: "LZH Archive",
            extension: "lzh",
            header: &[0x2Du8, 0x6C, 0x68],
            footer: None,
            max_size: (2 * GIB) as u64,
            category: "Archives",
        },
        FileSignature {
            name: "ARJ Archive",
            extension: "arj",
            header: &[0x60u8, 0xEA],
            footer: None,
            max_size: (2 * GIB) as u64,
            category: "Archives",
        },
        FileSignature {
            name: "ACE Archive",
            extension: "ace",
            header: &[0x2Au8, 0x2A, 0x41, 0x43, 0x45, 0x2A, 0x2A],
            footer: None,
            max_size: (2 * GIB) as u64,
            category: "Archives",
        },
        FileSignature {
            name: "StuffIt Archive",
            extension: "sit",
            header: &[0x53u8, 0x49, 0x54, 0x21],
            footer: None,
            max_size: (2 * GIB) as u64,
            category: "Archives",
        },
        FileSignature {
            name: "ZPAQ Archive",
            extension: "zpaq",
            header: &[0x7Au8, 0x50, 0x51],
            footer: None,
            max_size: (10 * GIB) as u64,
            category: "Archives",
        },
        FileSignature {
            name: "PAK Archive",
            extension: "pak",
            header: &[0x50u8, 0x41, 0x43, 0x4B],
            footer: None,
            max_size: (5 * GIB) as u64,
            category: "Archives",
        },
        FileSignature {
            name: "Linux ELF",
            extension: "elf",
            header: &[0x7Fu8, 0x45, 0x4C, 0x46],
            footer: None,
            max_size: (500 * MIB) as u64,
            category: "Executables",
        },
        FileSignature {
            name: "Mach-O Binary",
            extension: "macho",
            header: &[0xFEu8, 0xED, 0xFA, 0xCE],
            footer: None,
            max_size: (500 * MIB) as u64,
            category: "Executables",
        },
        FileSignature {
            name: "Mach-O 64-bit",
            extension: "macho64",
            header: &[0xFEu8, 0xED, 0xFA, 0xCF],
            footer: None,
            max_size: (500 * MIB) as u64,
            category: "Executables",
        },
        FileSignature {
            name: "Windows Batch",
            extension: "bat",
            header: &[0x40u8, 0x65, 0x63, 0x68, 0x6F],
            footer: None,
            max_size: (1 * MIB) as u64,
            category: "Executables",
        },
        FileSignature {
            name: "PowerShell Script",
            extension: "ps1",
            header: &[0x23u8, 0x20],
            footer: None,
            max_size: (10 * MIB) as u64,
            category: "Executables",
        },
        FileSignature {
            name: "Shell Script",
            extension: "sh",
            header: &[0x23u8, 0x21, 0x2F, 0x62, 0x69, 0x6E, 0x2F, 0x73, 0x68],
            footer: None,
            max_size: (10 * MIB) as u64,
            category: "Executables",
        },
        FileSignature {
            name: "MongoDB BSON",
            extension: "bson",
            header: &[0x00u8, 0x00, 0x00],
            footer: None,
            max_size: (1 * GIB) as u64,
            category: "Databases",
        },
    ]
}

/// Builds records 128 to 159 of the catalogue.
fn signatures_part_04() -> (sigs: Vec<FileSignature>)
    ensures
        sigs@ == catalogue_part_04(),
        sigs@.len() == 32,
        forall|i: int| 0 <= i < sigs@.len() ==> well_formed(#[trigger] sigs@[i]),
{
    let sigs = vec![
        FileSignature {
            name: "ASF Video",
            extension: "asf",
            header: &[0x30, 0x26, 0xB2, 0x75, 0x8E, 0x66, 0xCF, 0x11],
            footer: None,
            max_size: 5 * GIB,
            category: "Videos",
        },
        FileSignature {
            name: "MJPEG Video",
            extension: "mjpeg",
            header: &[0xFF, 0xD8, 0xFF],
            footer: None,
            max_size: 5 * GIB,
            category: "Videos",
        },
        FileSignature {
            name: "MTS Video",
            extension: "mts",
            header: &[0x47],
            footer: None,
            max_size: 10 * GIB,
            category: "Videos",
        },
        FileSignature {
            name: "TS Transport Stream",
            extension: "ts",
            header: &[0x47, 0x40],
            footer: None,
            max_size: 10 * GIB,
            category: "Videos",
        },
        FileSignature {
            name: "ProRes Video",
            extension: "prores",
            header: &[0x00, 0x00, 0x00, 0x14, 0x66, 0x74, 0x79, 0x70],
            footer: None,
            max_size: 10 * GIB,
            category: "Videos",
        },
        FileSignature {
            name: "OGG Audio",
            extension: "ogg",
            header: &[0x4F, 0x67, 0x67, 0x53],
            footer: None,
            max_size: 500 * MIB,
            category: "Audio",
        },
        FileSignature {
            name: "Opus Audio",
            extension: "opus",
            header: &[0x4F, 0x67, 0x67, 0x53],
            footer: None,
            max_size: 200 * MIB,
            category: "Audio",
        },
        FileSignature {
            name: "DSD Audio",
            extension: "dsd",
            header: &[0x44, 0x53, 0x44, 0x20],
            footer: None,
            max_size: 500 * MIB,
            category: "Audio",
        },
        FileSignature {
            name: "ALAC Audio",
            extension: "m4a",
            header: &[0x00, 0x00, 0x00, 0x20, 0x66, 0x74, 0x79, 0x70, 0x4D, 0x34, 0x41],
            footer: None,
            max_size: 200 * MIB,
            category: "Audio",
        },
        FileSignature {
            name: "TTA Audio",
            extension: "tta",
            header: &[0x54, 0x54, 0x41, 0x31],
            footer: None,
            max_size: 300 * MIB,
            category: "Audio",
        },
        FileSignature {
            name: "WavPack",
            extension: "wv",
            header: &[0x77, 0x76, 0x70, 0x6B],
            footer: None,
            max_size: 300 * MIB,
            category: "Audio",
        },
        FileSignature {
            name: "Shorten Audio",
            extension: "shn",
            header: &[0x61, 0x6A, 0x6B, 0x67],
            footer: None,
            max_size: 300 * MIB,
            category: "Audio",
        },
        FileSignature {
            name: "AU Audio",
            extension: "au",
            header: &[0x2E, 0x73, 0x6E, 0x64],
            footer: None,
            max_size: 100 * MIB,
            category: "Audio",
        },
        FileSignature {
            name: "VOC Audio",
            extension: "voc",
            header: &[0x43, 0x72, 0x65, 0x61, 0x74, 0x69, 0x76, 0x65],
            footer: None,
            max_size: 50 * MIB,
            category: "Audio",
        },
        FileSignature {
            name: "DSS Audio",
            extension: "dss",
            header: &[0x02, 0x64, 0x73, 0x73],
            footer: None,
            max_size: 50 * MIB,
            category: "Audio",
        },
        FileSignature {
            name: "TAR Archive",
            extension: "tar",
            header: &[0x75, 0x73, 0x74, 0x61, 0x72],
            footer: None,
            max_size: 10 * GIB,
            category: "Archives",
        },
        FileSignature {
            name: "GZIP Archive",
            extension: "gz",
            header: &[0x1F, 0x8B, 0x08],
            footer: None,
            max_size: 5 * GIB,
            category: "Archives",
        },
        FileSignature {
            name: "BZIP2 Archive",
            extension: "bz2",
            header: &[0x42, 0x5A, 0x68],
            footer: None,
            max_size: 5 * GIB,
            category: "Archives",
        },
        FileSignature {
            name: "XZ Archive",
            extension: "xz",
            header: &[0xFD, 0x37, 0x7A, 0x58, 0x5A, 0x00],
            footer: None,
            max_size: 5 * GIB,
            category: "Archives",
        },
        FileSignature {
            name: "LZH Archive",
            extension: "lzh",
            header: &[0x2D, 0x6C, 0x68],
            footer: None,
            max_size: 2 * GIB,
            category: "Archives",
        },
        FileSignature {
            name: "ARJ Archive",
            extension: "arj",
            header: &[0x60, 0xEA],
            footer: None,
            max_size: 2 * GIB,
            category: "Archives",
        },
        FileSignature {
            name: "ACE Archive",
            extension: "ace",
            header: &[0x2A, 0x2A, 0x41, 0x43, 0x45, 0x2A, 0x2A],
            footer: None,
            max_size: 2 * GIB,
            category: "Archives",
        },
        FileSignature {
            name: "StuffIt Archive",
            extension: "sit",
            header: &[0x53, 0x49, 0x54, 0x21],
            footer: None,
            max_size: 2 * GIB,
            category: "Archives",
        },
        FileSignature {
            name: "ZPAQ Archive",
            extension: "zpaq",
            header: &[0x7A, 0x50, 0x51],
            footer: None,
            max_size: 10 * GIB,
            category: "Archives",
        },
        FileSignature {
            name: "PAK Archive",
            extension: "pak",
            header: &[0x50, 0x41, 0x43, 0x4B],
            footer: None,
            max_size: 5 * GIB,
            category: "Archives",
        },
        FileSignature {
            name: "Linux ELF",
            extension: "elf",
            header: &[0x7F, 0x45, 0x4C, 0x46],
            footer: None,
            max_size: 500 * MIB,
            category: "Executables",
        },
        FileSignature {
            name: "Mach-O Binary",
            extension: "macho",
            header: &[0xFE, 0xED, 0xFA, 0xCE],
            footer: None,
            max_size: 500 * MIB,
            category: "Executables",
        },
        FileSignature {
            name: "Mach-O 64-bit",
            extension: "macho64",
            header: &[0xFE, 0xED, 0xFA, 0xCF],
            footer: None,
            max_size: 500 * MIB,
            category: "Executables",
        },
        FileSignature {
            name: "Windows Batch",
            extension: "bat",
            header: &[0x40, 0x65, 0x63, 0x68, 0x6F],
            footer: None,
            max_size: 1 * MIB,
            category: "Executables",
        },
        FileSignature {
            name: "PowerShell Script",
            extension: "ps1",
            header: &[0x23, 0x20],
            footer: None,
            max_size: 10 * MIB,
            category: "Executables",
        },
        FileSignature {
            name: "Shell Script",
            extension: "sh",
            header: &[0x23, 0x21, 0x2F, 0x62, 0x69, 0x6E, 0x2F, 0x73, 0x68],
            footer: None,
            max_size: 10 * MIB,
            category: "Executables",
        },
        FileSignature {
            name: "MongoDB BSON",
            extension: "bson",
            header: &[0x00, 0x00, 0x00],
            footer: None,
            max_size: 1 * GIB,
            category: "Databases",
        },
    ];
    assert(sigs@ =~= catalogue_part_04());
    sigs
}

/// Records 160 to 191 of the catalogue.
pub open spec fn catalogue_part_05() -> Seq<FileSignature> {
    seq![
        FileSignature {
            name: "dBASE",
            extension: "dbf",
            header: &[0x03u8],
            footer: None,
            max_size: (2 * GIB) as u64,
            category: "Databases",
        },
        FileSignature {
            name: "FoxPro",
            extension: "fpt",
            header: &[0x00u8, 0x00, 0x03, 0x00],
            footer: None,
            max_size: (2 * GIB) as u64,
            category: "Databases",
        },
        FileSignature {
            name: "PostgreSQL Dump",
            extension: "dump",
            header: &[0x50u8, 0x47, 0x44, 0x4D, 0x50],
            footer: None,
            max_size: (10 * GIB) as u64,
            category: "Databases",
        },
        FileSignature {
            name: "Oracle Tablespace",
            extension: "dbf",
            header: &[0x00u8, 0x00, 0x00, 0x00, 0x00, 0x00, 0x00, 0x00, 0x00, 0x00, 0x00, 0x00],
            footer: None,
            max_size: (100 * GIB) as u64,
            category: "Databases",
        },
        FileSignature {
            name: "3DS Max",
            extension: "3ds",
            header: &[0x4Du8, 0x4D],
            footer: None,
            max_size: (500 * MIB) as u64,
            category: "3D",
        },
        FileSignature {
            name: "Collada DAE",
            extension: "dae",
            header: &[0x3Cu8, 0x3F, 0x78, 0x6D, 0x6C],
            footer: None,
            max_size: (500 * MIB) as u64,
            category: "3D",
        },
        FileSignature {
            name: "Cinema 4D",
            extension: "c4d",
            header: &[0x43u8, 0x00, 0x34, 0x00, 0x44, 0x00],
            footer: None,
            max_size: (1 * GIB) as u64,
            category: "3D",
        },
        FileSignature {
            name: "Maya Binary",
            extension: "mb",
            header: &[0x46u8, 0x4F, 0x52, 0x34],
            footer: None,
            max_size: (1 * GIB) as u64,
            category: "3D",
        },
        FileSignature {
            name: "Maya ASCII",
            extension: "ma",
            header: &[0x2Fu8, 0x2F, 0x4D, 0x61, 0x79, 0x61],
            footer: None,
            max_size: (1 * GIB) as u64,
            category: "3D",
        },
        FileSignature {
            name: "LightWave Object",
            extension: "lwo",
            header: &[0x46u8, 0x4F, 0x52, 0x4D],
            footer: None,
            max_size: (500 * MIB) as u64,
            category: "3D",
        },
        FileSignature {
            name: "Modo Mesh",
            extension: "lxo",
            header: &[0x46u8, 0x4F, 0x52, 0x4D],
            footer: None,
            max_size: (500 * MIB) as u64,
            category: "3D",
        },
        FileSignature {
            name: "USD 3D",
            extension: "usd",
            header: &[0x50u8, 0x53, 0x44],
            footer: None,
            max_size: (1 * GIB) as u64,
            category: "3D",
        },
        FileSignature {
            name: "glTF Binary",
            extension: "glb",
            header: &[0x67u8, 0x6C, 0x54, 0x46],
            footer: None,
            max_size: (1 * GIB) as u64,
            category: "3D",
        },
        FileSignature {
            name: "X3D Model",
            extension: "x3d",
            header: &[0x3Cu8, 0x3F, 0x78, 0x6D, 0x6C],
            footer: None,
            max_size: (500 * MIB) as u64,
            category: "3D",
        },
        FileSignature {
            name: "Shapefile",
            extension: "shp",
            header: &[0x00u8, 0x00, 0x27, 0x0A],
            footer: None,
            max_size: (2 * GIB) as u64,
            category: "GIS",
        },
        FileSignature {
            name: "KML",
            extension: "kml",
            header: &[0x3Cu8, 0x3F, 0x78, 0x6D, 0x6C],
            footer: None,
            max_size: (100 * MIB) as u64,
            category: "GIS",
        },
        FileSignature {
            name: "KMZ",
            extension: "kmz",
            header: &[0x50u8, 0x4B, 0x03, 0x04],
            footer: None,
            max_size: (100 * MIB) as u64,
            category: "GIS",
        },
        FileSignature {
            name: "GeoJSON",
            extension: "geojson",
            header: &[0x7Bu8, 0x22, 0x74, 0x79, 0x70, 0x65, 0x22],
            footer: None,
            max_size: (500 * MIB) as u64,
            category: "GIS",
        },
        FileSignature {
            name: "GeoTIFF",
            extension: "tif",
            header: &[0x49u8, 0x49, 0x2A, 0x00],
            footer: None,
            max_size: (1 * GIB) as u64,
            category: "GIS",
        },
        FileSignature {
            name: "MBTiles",
            extension: "mbtiles",
            header: &[0x53u8, 0x51, 0x4C, 0x69, 0x74, 0x65],
            footer: None,
            max_size: (10 * GIB) as u64,
            category: "GIS",
        },
        FileSignature {
            name: "GPX",
            extension: "gpx",
            header: &[0x3Cu8, 0x3F, 0x78, 0x6D, 0x6C],
            footer: None,
            max_size: (50 * MIB) as u64,
            category: "GIS",
        },
        FileSignature {
            name: "Unity Asset Bundle",
            extension: "unity3d",
            header: &[0x55u8, 0x6E, 0x69, 0x74, 0x79, 0x57, 0x65, 0x62],
            footer: None,
            max_size: (1 * GIB) as u64,
            category: "Games",
        },
        FileSignature {
            name: "Unreal Package",
            extension: "upk",
            header: &[0xC1u8, 0x83, 0x2A, 0x9E],
            footer: None,
            max_size: (2 * GIB) as u64,
            category: "Games",
        },
        FileSignature {
            name: "Source Engine BSP",
            extension: "bsp",
            header: &[0x56u8, 0x42, 0x53, 0x50],
            footer: None,
            max_size: (500 * MIB) as u64,
            category: "Games",
        },
        FileSignature {
            name: "Quake PAK",
            extension: "pak",
            header: &[0x50u8, 0x41, 0x43, 0x4B],
            footer: None,
            max_size: (2 * GIB) as u64,
            category: "Games",
        },
        FileSignature {
            name: "WAD Archive",
            extension: "wad",
            header: &[0x49u8, 0x57, 0x41, 0x44],
            footer: None,
            max_size: (500 * MIB) as u64,
            category: "Games",
        },
        FileSignature {
            name: "ROM Image",
            extension: "rom",
            header: &[0x4Eu8, 0x45, 0x53, 0x1A],
            footer: None,
            max_size: (50 * MIB) as u64,
            category: "Games",
        },
        FileSignature {
            name: "Game Boy ROM",
            extension: "gb",
            header: &[0xCEu8, 0xED, 0x66, 0x66],
            footer: None,
            max_size: (10 * MIB) as u64,
            category: "Games",
        },
        FileSignature {
            name: "Nintendo DS ROM",
            extension: "nds",
            header: &[0x2Eu8, 0x00, 0x00, 0xEA],
            footer: None,
            max_size: (500 * MIB) as u64,
            category: "Games",
        },
        FileSignature {
            name: "PSP ISO",
            extension: "cso",
            header: &[0x43u8, 0x49, 0x53, 0x4F],
            footer: None,
            max_size: (5 * GIB) as u64,
            category: "Games",
        },
        FileSignature {
            name: "HDF5",
            extension: "h5",
            header: &[0x89u8, 0x48, 0x44, 0x46, 0x0D, 0x0A, 0x1A, 0x0A],
            footer: None,
            max_size: (10 * GIB) as u64,
            category: "Scientific",
        },
        FileSignature {
            name: "NetCDF",
            extension: "nc",
            header: &[0x43u8, 0x44, 0x46, 0x01],
            footer: None,
            max_size: (10 * GIB) as u64,
            category: "Scientific",
        },
    ]
}

/// Builds records 160 to 191 of the catalogue.
fn signatures_part_05() -> (sigs: Vec<FileSignature>)
    ensures
        sigs@ == catalogue_part_05(),
        sigs@.len() == 32,
        forall|i: int| 0 <= i < sigs@.len() ==> well_formed(#[trigger] sigs@[i]),
{
    let sigs = vec![
        FileSignature {
            name: "dBASE",
            extension: "dbf",
            header: &[0x03],
            footer: None,
            max_size: 2 * GIB,
            category: "Databases",
        },
        FileSignature {
            name: "FoxPro",
            extension: "fpt",
            header: &[0x00, 0x00, 0x03, 0x00],
            footer: None,
            max_size: 2 * GIB,
            category: "Databases",
        },
        FileSignature {
            name: "PostgreSQL Dump",
            extension: "dump",
            header: &[0x50, 0x47, 0x44, 0x4D, 0x50],
            footer: None,
            max_size: 10 * GIB,
            category: "Databases",
        },
        FileSignature {
            name: "Oracle Tablespace",
            extension: "dbf",
            header: &[0x00, 0x00, 0x00, 0x00, 0x00, 0x00, 0x00, 0x00, 0x00, 0x00, 0x00, 0x00],
            footer: None,
            max_size: 100 * GIB,
            category: "Databases",
        },
        FileSignature {
            name: "3DS Max",
            extension: "3ds",
            header: &[0x4D, 0x4D],
            footer: None,
            max_size: 500 * MIB,
            category: "3D",
        },
        FileSignature {
            name: "Collada DAE",
            extension: "dae",
            header: &[0x3C, 0x3F, 0x78, 0x6D, 0x6C],
            footer: None,
            max_size: 500 * MIB,
            category: "3D",
        },
        FileSignature {
            name: "Cinema 4D",
            extension: "c4d",
            header: &[0x43, 0x00, 0x34, 0x00, 0x44, 0x00],
            footer: None,
            max_size: 1 * GIB,
            category: "3D",
        },
        FileSignature {
            name: "Maya Binary",
            extension: "mb",
            header: &[0x46, 0x4F, 0x52, 0x34],
            footer: None,
            max_size: 1 * GIB,
            category: "3D",
        },
        FileSignature {
            name: "Maya ASCII",
            extension: "ma",
            header: &[0x2F, 0x2F, 0x4D, 0x61, 0x79, 0x61],
            footer: None,
            max_size: 1 * GIB,
            category: "3D",
        },
        FileSignature {
            name: "LightWave Object",
            extension: "lwo",
            header: &[0x46, 0x4F, 0x52, 0x4D],
            footer: None,
            max_size: 500 * MIB,
            category: "3D",
        },
        FileSignature {
            name: "Modo Mesh",
            extension: "lxo",
            header: &[0x46, 0x4F, 0x52, 0x4D],
            footer: None,
            max_size: 500 * MIB,
            category: "3D",
        },
        FileSignature {
            name: "USD 3D",
            extension: "usd",
            header: &[0x50, 0x53, 0x44],
            footer: None,
            max_size: 1 * GIB,
            category: "3D",
        },
        FileSignature {
            name: "glTF Binary",
            extension: "glb",
            header: &[0x67, 0x6C, 0x54, 0x46],
            footer: None,
            max_size: 1 * GIB,
            category: "3D",
        },
        FileSignature {
            name: "X3D Model",
            extension: "x3d",
            header: &[0x3C, 0x3F, 0x78, 0x6D, 0x6C],
            footer: None,
            max_size: 500 * MIB,
            category: "3D",
        },
        FileSignature {
            name: "Shapefile",
            extension: "shp",
            header: &[0x00, 0x00, 0x27, 0x0A],
            footer: None,
            max_size: 2 * GIB,
            category: "GIS",
        },
        FileSignature {
            name: "KML",
            extension: "kml",
            header: &[0x3C, 0x3F, 0x78, 0x6D, 0x6C],
            footer: None,
            max_size: 100 * MIB,
            category: "GIS",
        },
        FileSignature {
            name: "KMZ",
            extension: "kmz",
            header: &[0x50, 0x4B, 0x03, 0x04],
            footer: None,
            max_size: 100 * MIB,
            category: "GIS",
        },
        FileSignature {
            name: "GeoJSON",
            extension: "geojson",
            header: &[0x7B, 0x22, 0x74, 0x79, 0x70, 0x65, 0x22],
            footer: None,
            max_size: 500 * MIB,
            category: "GIS",
        },
        FileSignature {
            name: "GeoTIFF",
            extension: "tif",
            header: &[0x49, 0x49, 0x2A, 0x00],
            footer: None,
            max_size: 1 * GIB,
            category: "GIS",
        },
        FileSignature {
            name: "MBTiles",
            extension: "mbtiles",
            header: &[0x53, 0x51, 0x4C, 0x69, 0x74, 0x65],
            footer: None,
            max_size: 10 * GIB,
            category: "GIS",
        },
        FileSignature {
            name: "GPX",
            extension: "gpx",
            header: &[0x3C, 0x3F, 0x78, 0x6D, 0x6C],
            footer: None,
            max_size: 50 * MIB,
            category: "GIS",
        },
        FileSignature {
            name: "Unity Asset Bundle",
            extension: "unity3d",
            header: &[0x55, 0x6E, 0x69, 0x74, 0x79, 0x57, 0x65, 0x62],
            footer: None,
            max_size: 1 * GIB,
            category: "Games",
        },
        FileSignature {
            name: "Unreal Package",
            extension: "upk",
            header: &[0xC1, 0x83, 0x2A, 0x9E],
            footer: None,
            max_size: 2 * GIB,
            category: "Games",
        },
        FileSignature {
            name: "Source Engine BSP",
            extension: "bsp",
            header: &[0x56, 0x42, 0x53, 0x50],
            footer: None,
            max_size: 500 * MIB,
            category: "Games",
        },
        FileSignature {
            name: "Quake PAK",
            extension: "pak",
            header: &[0x50, 0x41, 0x43, 0x4B],
            footer: None,
            max_size: 2 * GIB,
            category: "Games",
        },
        FileSignature {
            name: "WAD Archive",
            extension: "wad",
            header: &[0x49, 0x57, 0x41, 0x44],
            footer: None,
            max_size: 500 * MIB,
            category: "Games",
        },
        FileSignature {
            name: "ROM Image",
            extension: "rom",
            header: &[0x4E, 0x45, 0x53, 0x1A],
            footer: None,
            max_size: 50 * MIB,
            category: "Games",
        },
        FileSignature {
            name: "Game Boy ROM",
            extension: "gb",
            header: &[0xCE, 0xED, 0x66, 0x66],
            footer: None,
            max_size: 10 * MIB,
            category: "Games",
        },
        FileSignature {
            name: "Nintendo DS ROM",
            extension: "nds",
            header: &[0x2E, 0x00, 0x00, 0xEA],
            footer: None,
            max_size: 500 * MIB,
            category: "Games",
        },
        FileSignature {
            name: "PSP ISO",
            extension: "cso",
            header: &[0x43, 0x49, 0x53, 0x4F],
            footer: None,
            max_size: 5 * GIB,
            category: "Games",
        },
        FileSignature {
            name: "HDF5",
            extension: "h5",
            header: &[0x89, 0x48, 0x44, 0x46, 0x0D, 0x0A, 0x1A, 0x0A],
            footer: None,
            max_size: 10 * GIB,
            category: "Scientific",
        },
        FileSignature {
            name: "NetCDF",
            extension: "nc",
            header: &[0x43, 0x44, 0x46, 0x01],
            footer: None,
            max_size: 10 * GIB,
            category: "Scientific",
        },
    ];
    assert(sigs@ =~= catalogue_part_05());
    sigs
}

/// Records 192 to 223 of the catalogue.
pub open spec fn catalogue_part_06() -> Seq<FileSignature> {
    seq![
        FileSignature {
            name: "FITS",
            extension: "fits",
            header: &[0x53u8, 0x49, 0x4D, 0x50, 0x4C, 0x45],
            footer: None,
            max_size: (10 * GIB) as u64,
            category: "Scientific",
        },
        FileSignature {
            name: "DICOM Medical",
            extension: "dcm",
            header: &[0x44u8, 0x49, 0x43, 0x4D],
            footer: None,
            max_size: (2 * GIB) as u64,
            category: "Scientific",
        },
        FileSignature {
            name: "NIfTI Neuroimaging",
            extension: "nii",
            header: &[0x6Eu8, 0x69, 0x31, 0x00],
            footer: None,
            max_size: (5 * GIB) as u64,
            category: "Scientific",
        },
        FileSignature {
            name: "MATLAB",
            extension: "mat",
            header: &[0x4Du8, 0x41, 0x54, 0x4C, 0x41, 0x42],
            footer: None,
            max_size: (2 * GIB) as u64,
            category: "Scientific",
        },
        FileSignature {
            name: "R Data",
            extension: "rdata",
            header: &[0x52u8, 0x44, 0x58, 0x32],
            footer: None,
            max_size: (1 * GIB) as u64,
            category: "Scientific",
        },
        FileSignature {
            name: "SAS Data",
            extension: "sas7bdat",
            header: &[0x00u8, 0x00, 0x00, 0x00, 0x00, 0x00, 0x00, 0x00],
            footer: None,
            max_size: (10 * GIB) as u64,
            category: "Scientific",
        },
        FileSignature {
            name: "SPSS Data",
            extension: "sav",
            header: &[0x24u8, 0x46, 0x4C, 0x32],
            footer: None,
            max_size: (5 * GIB) as u64,
            category: "Scientific",
        },
        FileSignature {
            name: "Stata Data",
            extension: "dta",
            header: &[0x3Cu8, 0x73, 0x74, 0x61, 0x74, 0x61],
            footer: None,
            max_size: (5 * GIB) as u64,
            category: "Scientific",
        },
        FileSignature {
            name: "WebP Image",
            extension: "webp",
            header: &[0x52u8, 0x49, 0x46, 0x46],
            footer: None,
            max_size: (50 * MIB) as u64,
            category: "Images",
        },
        FileSignature {
            name: "DDS Texture",
            extension: "dds",
            header: &[0x44u8, 0x44, 0x53, 0x20],
            footer: None,
            max_size: (100 * MIB) as u64,
            category: "Images",
        },
        FileSignature {
            name: "EXR Image",
            extension: "exr",
            header: &[0x76u8, 0x2F, 0x31, 0x01],
            footer: None,
            max_size: (500 * MIB) as u64,
            category: "Images",
        },
        FileSignature {
            name: "HDR Image",
            extension: "hdr",
            header: &[0x23u8, 0x3F, 0x52, 0x41, 0x44, 0x49, 0x41, 0x4E, 0x43, 0x45],
            footer: None,
            max_size: (100 * MIB) as u64,
            category: "Images",
        },
        FileSignature {
            name: "PCX Image",
            extension: "pcx",
            header: &[0x0Au8, 0x05, 0x01, 0x01],
            footer: None,
            max_size: (50 * MIB) as u64,
            category: "Images",
        },
        FileSignature {
            name: "Krita",
            extension: "kra",
            header: &[0x50u8, 0x4B, 0x03, 0x04],
            footer: None,
            max_size: (500 * MIB) as u64,
            category: "Images",
        },
        FileSignature {
            name: "Affinity Photo",
            extension: "afphoto",
            header: &[0x50u8, 0x4B, 0x03, 0x04],
            footer: None,
            max_size: (1 * GIB) as u64,
            category: "Images",
        },
        FileSignature {
            name: "Affinity Designer",
            extension: "afdesign",
            header: &[0x50u8, 0x4B, 0x03, 0x04],
            footer: None,
            max_size: (500 * MIB) as u64,
            category: "Images",
        },
        FileSignature {
            name: "Paint.NET",
            extension: "pdn",
            header: &[0x50u8, 0x44, 0x4E, 0x33],
            footer: None,
            max_size: (500 * MIB) as u64,
            category: "Images",
        },
        FileSignature {
            name: "Sketch Design",
            extension: "sketch",
            header: &[0x50u8, 0x4B, 0x03, 0x04],
            footer: None,
            max_size: (500 * MIB) as u64,
            category: "Design",
        },
        FileSignature {
            name: "Figma",
            extension: "fig",
            header: &[0x7Bu8, 0x22, 0x64, 0x6F, 0x63, 0x75, 0x6D, 0x65, 0x6E, 0x74],
            footer: None,
            max_size: (100 * MIB) as u64,
            category: "Design",
        },
        FileSignature {
            name: "CorelDRAW",
            extension: "cdr",
            header: &[0x52u8, 0x49, 0x46, 0x46],
            footer: None,
            max_size: (500 * MIB) as u64,
            category: "Design",
        },
        FileSignature {
            name: "AZW3 Kindle",
            extension: "azw3",
            header: &[0x00u8, 0x00, 0x00, 0x00, 0x00, 0x00, 0x00, 0x00, 0x00, 0x00, 0x00, 0x00, 0x00, 0x00, 0x00, 0x00, 0x00, 0x00, 0x00, 0x00, 0x00, 0x00, 0x00, 0x00, 0x00, 0x00, 0x00, 0x00, 0x00, 0x00, 0x00, 0x00, 0x00, 0x00, 0x00, 0x00, 0x00, 0x00, 0x00, 0x00, 0x00, 0x00, 0x00, 0x00, 0x00, 0x00, 0x00, 0x00, 0x00, 0x00, 0x00, 0x00, 0x00, 0x00, 0x00, 0x00, 0x00, 0x00, 0x00, 0x00, 0x42, 0x4F, 0x4F, 0x4B, 0x4D, 0x4F, 0x42, 0x49],
            footer: None,
            max_size: (100 * MIB) as u64,
            category: "Documents",
        },
        FileSignature {
            name: "CBR Comic",
            extension: "cbr",
            header: &[0x52u8, 0x61, 0x72, 0x21],
            footer: None,
            max_size: (200 * MIB) as u64,
            category: "Documents",
        },
        FileSignature {
            name: "CBZ Comic",
            extension: "cbz",
            header: &[0x50u8, 0x4B, 0x03, 0x04],
            footer: None,
            max_size: (200 * MIB) as u64,
            category: "Documents",
        },
        FileSignature {
            name: "FB2 eBook",
            extension: "fb2",
            header: &[0x3Cu8, 0x3F, 0x78, 0x6D, 0x6C],
            footer: None,
            max_size: (50 * MIB) as u64,
            category: "Documents",
        },
        FileSignature {
            name: "LIT eBook",
            extension: "lit",
            header: &[0x49u8, 0x54, 0x4F, 0x4C, 0x49, 0x54, 0x4C, 0x53],
            footer: None,
            max_size: (50 * MIB) as u64,
            category: "Documents",
        },
        FileSignature {
            name: "PRC Palm",
            extension: "prc",
            header: &[0x42u8, 0x4F, 0x4F, 0x4B, 0x4D, 0x4F, 0x42, 0x49],
            footer: None,
            max_size: (50 * MIB) as u64,
            category: "Documents",
        },
        FileSignature {
            name: "JSON",
            extension: "json",
            header: &[0x7Bu8],
            footer: None,
            max_size: (100 * MIB) as u64,
            category: "Data",
        },
        FileSignature {
            name: "YAML",
            extension: "yaml",
            header: &[0x2Du8, 0x2D, 0x2D],
            footer: None,
            max_size: (50 * MIB) as u64,
            category: "Data",
        },
        FileSignature {
            name: "TOML",
            extension: "toml",
            header: &[0x5Bu8],
            footer: None,
            max_size: (10 * MIB) as u64,
            category: "Data",
        },
        FileSignature {
            name: "Protobuf",
            extension: "pb",
            header: &[0x0Au8],
            footer: None,
            max_size: (100 * MIB) as u64,
            category: "Data",
        },
        FileSignature {
            name: "MessagePack",
            extension: "msgpack",
            header: &[0x80u8, 0x00],
            footer: None,
            max_size: (100 * MIB) as u64,
            category: "Data",
        },
        FileSignature {
            name: "Apache Avro",
            extension: "avro",
            header: &[0x4Fu8, 0x62, 0x6A, 0x01],
            footer: None,
            max_size: (1 * GIB) as u64,
            category: "Data",
        },
    ]
}

/// Builds records 192 to 223 of the catalogue.
fn signatures_part_06() -> (sigs: Vec<FileSignature>)
    ensures
        sigs@ == catalogue_part_06(),
        sigs@.len() == 32,
        forall|i: int| 0 <= i < sigs@.len() ==> well_formed(#[trigger] sigs@[i]),
{
    let sigs = vec![
        FileSignature {
            name: "FITS",
            extension: "fits",
            header: &[0x53, 0x49, 0x4D, 0x50, 0x4C, 0x45],
            footer: None,
            max_size: 10 * GIB,
            category: "Scientific",
        },
        FileSignature {
            name: "DICOM Medical",
            extension: "dcm",
            header: &[0x44, 0x49, 0x43, 0x4D],
            footer: None,
            max_size: 2 * GIB,
            category: "Scientific",
        },
        FileSignature {
            name: "NIfTI Neuroimaging",
            extension: "nii",
            header: &[0x6E, 0x69, 0x31, 0x00],
            footer: None,
            max_size: 5 * GIB,
            category: "Scientific",
        },
        FileSignature {
            name: "MATLAB",
            extension: "mat",
            header: &[0x4D, 0x41, 0x54, 0x4C, 0x41, 0x42],
            footer: None,
            max_size: 2 * GIB,
            category: "Scientific",
        },
        FileSignature {
            name: "R Data",
            extension: "rdata",
            header: &[0x52, 0x44, 0x58, 0x32],
            footer: None,
            max_size: 1 * GIB,
            category: "Scientific",
        },
        FileSignature {
            name: "SAS Data",
            extension: "sas7bdat",
            header: &[0x00, 0x00, 0x00, 0x00, 0x00, 0x00, 0x00, 0x00],
            footer: None,
            max_size: 10 * GIB,
            category: "Scientific",
        },
        FileSignature {
            name: "SPSS Data",
            extension: "sav",
            header: &[0x24, 0x46, 0x4C, 0x32],
            footer: None,
            max_size: 5 * GIB,
            category: "Scientific",
        },
        FileSignature {
            name: "Stata Data",
            extension: "dta",
            header: &[0x3C, 0x73, 0x74, 0x61, 0x74, 0x61],
            footer: None,
            max_size: 5 * GIB,
            category: "Scientific",
        },
        FileSignature {
            name: "WebP Image",
            extension: "webp",
            header: &[0x52, 0x49, 0x46, 0x46],
            footer: None,
            max_size: 50 * MIB,
            category: "Images",
        },
        FileSignature {
            name: "DDS Texture",
            extension: "dds",
            header: &[0x44, 0x44, 0x53, 0x20],
            footer: None,
            max_size: 100 * MIB,
            category: "Images",
        },
        FileSignature {
            name: "EXR Image",
            extension: "exr",
            header: &[0x76, 0x2F, 0x31, 0x01],
            footer: None,
            max_size: 500 * MIB,
            category: "Images",
        },
        FileSignature {
            name: "HDR Image",
            extension: "hdr",
            header: &[0x23, 0x3F, 0x52, 0x41, 0x44, 0x49, 0x41, 0x4E, 0x43, 0x45],
            footer: None,
            max_size: 100 * MIB,
            category: "Images",
        },
        FileSignature {
            name: "PCX Image",
            extension: "pcx",
            header: &[0x0A, 0x05, 0x01, 0x01],
            footer: None,
            max_size: 50 * MIB,
            category: "Images",
        },
        FileSignature {
            name: "Krita",
            extension: "kra",
            header: &[0x50, 0x4B, 0x03, 0x04],
            footer: None,
            max_size: 500 * MIB,
            category: "Images",
        },
        FileSignature {
            name: "Affinity Photo",
            extension: "afphoto",
            header: &[0x50, 0x4B, 0x03, 0x04],
            footer: None,
            max_size: 1 * GIB,
            category: "Images",
        },
        FileSignature {
            name: "Affinity Designer",
            extension: "afdesign",
            header: &[0x50, 0x4B, 0x03, 0x04],
            footer: None,
            max_size: 500 * MIB,
            category: "Images",
        },
        FileSignature {
            name: "Paint.NET",
            extension: "pdn",
            header: &[0x50, 0x44, 0x4E, 0x33],
            footer: None,
            max_size: 500 * MIB,
            category: "Images",
        },
        FileSignature {
            name: "Sketch Design",
            extension: "sketch",
            header: &[0x50, 0x4B, 0x03, 0x04],
            footer: None,
            max_size: 500 * MIB,
            category: "Design",
        },
        FileSignature {
            name: "Figma",
            extension: "fig",
            header: &[0x7B, 0x22, 0x64, 0x6F, 0x63, 0x75, 0x6D, 0x65, 0x6E, 0x74],
            footer: None,
            max_size: 100 * MIB,
            category: "Design",
        },
        FileSignature {
            name: "CorelDRAW",
            extension: "cdr",
            header: &[0x52, 0x49, 0x46, 0x46],
            footer: None,
            max_size: 500 * MIB,
            category: "Design",
        },
        FileSignature {
            name: "AZW3 Kindle",
            extension: "azw3",
            header: &[0x00, 0x00, 0x00, 0x00, 0x00, 0x00, 0x00, 0x00, 0x00, 0x00, 0x00, 0x00, 0x00, 0x00, 0x00, 0x00, 0x00, 0x00, 0x00, 0x00, 0x00, 0x00, 0x00, 0x00, 0x00, 0x00, 0x00, 0x00, 0x00, 0x00, 0x00, 0x00, 0x00, 0x00, 0x00, 0x00, 0x00, 0x00, 0x00, 0x00, 0x00, 0x00, 0x00, 0x00, 0x00, 0x00, 0x00, 0x00, 0x00, 0x00, 0x00, 0x00, 0x00, 0x00, 0x00, 0x00, 0x00, 0x00, 0x00, 0x00, 0x42, 0x4F, 0x4F, 0x4B, 0x4D, 0x4F, 0x42, 0x49],
            footer: None,
            max_size: 100 * MIB,
            category: "Documents",
        },
        FileSignature {
            name: "CBR Comic",
            extension: "cbr",
            header: &[0x52, 0x61, 0x72, 0x21],
            footer: None,
            max_size: 200 * MIB,
            category: "Documents",
        },
        FileSignature {
            name: "CBZ Comic",
            extension: "cbz",
            header: &[0x50, 0x4B, 0x03, 0x04],
            footer: None,
            max_size: 200 * MIB,
            category: "Documents",
        },
        FileSignature {
            name: "FB2 eBook",
            extension: "fb2",
            header: &[0x3C, 0x3F, 0x78, 0x6D, 0x6C],
            footer: None,
            max_size: 50 * MIB,
            category: "Documents",
        },
        FileSignature {
            name: "LIT eBook",
            extension: "lit",
            header: &[0x49, 0x54, 0x4F, 0x4C, 0x49, 0x54, 0x4C, 0x53],
            footer: None,
            max_size: 50 * MIB,
            category: "Documents",
        },
        FileSignature {
            name: "PRC Palm",
            extension: "prc",
            header: &[0x42, 0x4F, 0x4F, 0x4B, 0x4D, 0x4F, 0x42, 0x49],
            footer: None,
            max_size: 50 * MIB,
            category: "Documents",
        },
        FileSignature {
            name: "JSON",
            extension: "json",
            header: &[0x7B],
            footer: None,
            max_size: 100 * MIB,
            category: "Data",
        },
        FileSignature {
            name: "YAML",
            extension: "yaml",
            header: &[0x2D, 0x2D, 0x2D],
            footer: None,
            max_size: 50 * MIB,
            category: "Data",
        },
        FileSignature {
            name: "TOML",
            extension: "toml",
            header: &[0x5B],
            footer: None,
            max_size: 10 * MIB,
            category: "Data",
        },
        FileSignature {
            name: "Protobuf",
            extension: "pb",
            header: &[0x0A],
            footer: None,
            max_size: 100 * MIB,
            category: "Data",
        },
        FileSignature {
            name: "MessagePack",
            extension: "msgpack",
            header: &[0x80, 0x00],
            footer: None,
            max_size: 100 * MIB,
            category: "Data",
        },
        FileSignature {
            name: "Apache Avro",
            extension: "avro",
            header: &[0x4F, 0x62, 0x6A, 0x01],
            footer: None,
            max_size: 1 * GIB,
            category: "Data",
        },
    ];
    assert(sigs@ =~= catalogue_part_06());
    sigs
}

/// Records 224 to 255 of the catalogue.
pub open spec fn catalogue_part_07() -> Seq<FileSignature> {
    seq![
        FileSignature {
            name: "Apache Parquet",
            extension: "parquet",
            header: &[0x50u8, 0x41, 0x52, 0x31],
            footer: None,
            max_size: (10 * GIB) as u64,
            category: "Data",
        },
        FileSignature {
            name: "ORC",
            extension: "orc",
            header: &[0x4Fu8, 0x52, 0x43],
            footer: None,
            max_size: (10 * GIB) as u64,
            category: "Data",
        },
        FileSignature {
            name: "Bitcoin Wallet",
            extension: "wallet",
            header: &[0x0Au8, 0x16, 0x6F, 0x72, 0x67],
            footer: None,
            max_size: (100 * MIB) as u64,
            category: "Crypto",
        },
        FileSignature {
            name: "Ethereum Keystore",
            extension: "keystore",
            header: &[0x7Bu8, 0x22, 0x76, 0x65, 0x72, 0x73, 0x69, 0x6F, 0x6E, 0x22],
            footer: None,
            max_size: (1 * MIB) as u64,
            category: "Crypto",
        },
        FileSignature {
            name: "Revit",
            extension: "rvt",
            header: &[0xD0u8, 0xCF, 0x11, 0xE0, 0xA1, 0xB1, 0x1A, 0xE1],
            footer: None,
            max_size: (1 * GIB) as u64,
            category: "CAD",
        },
        FileSignature {
            name: "SolidWorks Part",
            extension: "sldprt",
            header: &[0xD0u8, 0xCF, 0x11, 0xE0],
            footer: None,
            max_size: (500 * MIB) as u64,
            category: "CAD",
        },
        FileSignature {
            name: "SolidWorks Assembly",
            extension: "sldasm",
            header: &[0xD0u8, 0xCF, 0x11, 0xE0],
            footer: None,
            max_size: (1 * GIB) as u64,
            category: "CAD",
        },
        FileSignature {
            name: "CATIA",
            extension: "catpart",
            header: &[0x56u8, 0x35, 0x5F, 0x43, 0x46, 0x56, 0x32],
            footer: None,
            max_size: (500 * MIB) as u64,
            category: "CAD",
        },
        FileSignature {
            name: "Inventor Part",
            extension: "ipt",
            header: &[0xD0u8, 0xCF, 0x11, 0xE0],
            footer: None,
            max_size: (500 * MIB) as u64,
            category: "CAD",
        },
        FileSignature {
            name: "Rhino 3D",
            extension: "3dm",
            header: &[0x33u8, 0x64, 0x4D],
            footer: None,
            max_size: (500 * MIB) as u64,
            category: "CAD",
        },
        FileSignature {
            name: "EOT Font",
            extension: "eot",
            header: &[0x00u8, 0x00, 0x00, 0x00, 0x00, 0x00, 0x00, 0x00, 0x00, 0x00, 0x00, 0x00, 0x00, 0x00, 0x00, 0x00, 0x00, 0x00, 0x00, 0x00, 0x00, 0x00, 0x00, 0x00, 0x00, 0x00, 0x00, 0x00, 0x00, 0x00, 0x00, 0x00, 0x00, 0x00, 0x4C, 0x50],
            footer: None,
            max_size: (10 * MIB) as u64,
            category: "Fonts",
        },
        FileSignature {
            name: "Type 1 Font",
            extension: "pfb",
            header: &[0x80u8, 0x01],
            footer: None,
            max_size: (5 * MIB) as u64,
            category: "Fonts",
        },
        FileSignature {
            name: "Printer Font Metrics",
            extension: "pfm",
            header: &[0x00u8, 0x01],
            footer: None,
            max_size: (1 * MIB) as u64,
            category: "Fonts",
        },
        FileSignature {
            name: "Outlook OST",
            extension: "ost",
            header: &[0x21u8, 0x42, 0x44, 0x4E],
            footer: None,
            max_size: (50 * GIB) as u64,
            category: "Email",
        },
        FileSignature {
            name: "Outlook MSG",
            extension: "msg",
            header: &[0xD0u8, 0xCF, 0x11, 0xE0, 0xA1, 0xB1, 0x1A, 0xE1],
            footer: None,
            max_size: (100 * MIB) as u64,
            category: "Email",
        },
        FileSignature {
            name: "EML Email",
            extension: "eml",
            header: &[0x46u8, 0x72, 0x6F, 0x6D, 0x20, 0x20, 0x20],
            footer: None,
            max_size: (50 * MIB) as u64,
            category: "Email",
        },
        FileSignature {
            name: "vCard",
            extension: "vcf",
            header: &[0x42u8, 0x45, 0x47, 0x49, 0x4E, 0x3A, 0x56, 0x43, 0x41, 0x52, 0x44],
            footer: None,
            max_size: (1 * MIB) as u64,
            category: "Contacts",
        },
        FileSignature {
            name: "iCalendar",
            extension: "ics",
            header: &[0x42u8, 0x45, 0x47, 0x49, 0x4E, 0x3A, 0x56, 0x43, 0x41, 0x4C, 0x45, 0x4E, 0x44, 0x41, 0x52],
            footer: None,
            max_size: (10 * MIB) as u64,
            category: "Calendar",
        },
        FileSignature {
            name: "Windows Prefetch",
            extension: "pf",
            header: &[0x4Du8, 0x41, 0x4D],
            footer: None,
            max_size: (5 * MIB) as u64,
            category: "System",
        },
        FileSignature {
            name: "Windows Event Log",
            extension: "evtx",
            header: &[0x45u8, 0x6C, 0x66, 0x46, 0x69, 0x6C, 0x65],
            footer: None,
            max_size: (500 * MIB) as u64,
            category: "System",
        },
        FileSignature {
            name: "macOS DMG (old)",
            extension: "dmg",
            header: &[0x6Bu8, 0x6F, 0x6C, 0x79],
            footer: None,
            max_size: (10 * GIB) as u64,
            category: "System",
        },
        FileSignature {
            name: "Linux RPM",
            extension: "rpm",
            header: &[0xEDu8, 0xAB, 0xEE, 0xDB],
            footer: None,
            max_size: (1 * GIB) as u64,
            category: "System",
        },
        FileSignature {
            name: "Debian DEB",
            extension: "deb",
            header: &[0x21u8, 0x3C, 0x61, 0x72, 0x63, 0x68, 0x3E],
            footer: None,
            max_size: (500 * MIB) as u64,
            category: "System",
        },
        FileSignature {
            name: "SCORM Package",
            extension: "scorm",
            header: &[0x50u8, 0x4B, 0x03, 0x04],
            footer: None,
            max_size: (1 * GIB) as u64,
            category: "E-Learning",
        },
        FileSignature {
            name: "Articulate Storyline",
            extension: "story",
            header: &[0x50u8, 0x4B, 0x03, 0x04],
            footer: None,
            max_size: (1 * GIB) as u64,
            category: "E-Learning",
        },
        FileSignature {
            name: "Captivate",
            extension: "cptx",
            header: &[0x50u8, 0x4B, 0x03, 0x04],
            footer: None,
            max_size: (500 * MIB) as u64,
            category: "E-Learning",
        },
        FileSignature {
            name: "CHM Help",
            extension: "chm",
            header: &[0x49u8, 0x54, 0x53, 0x46],
            footer: None,
            max_size: (100 * MIB) as u64,
            category: "Documents",
        },
        FileSignature {
            name: "OneNote",
            extension: "one",
            header: &[0xE4u8, 0x52, 0x5C, 0x7B, 0x8C, 0xD8, 0xA7, 0x4D],
            footer: None,
            max_size: (1 * GIB) as u64,
            category: "Documents",
        },
        FileSignature {
            name: "Evernote ENEX",
            extension: "enex",
            header: &[0x3Cu8, 0x3F, 0x78, 0x6D, 0x6C],
            footer: None,
            max_size: (100 * MIB) as u64,
            category: "Documents",
        },
        FileSignature {
            name: "Markdown",
            extension: "md",
            header: &[0x23u8],
            footer: None,
            max_size: (10 * MIB) as u64,
            category: "Documents",
        },
        FileSignature {
            name: "AsciiDoc",
            extension: "adoc",
            header: &[0x3Du8],
            footer: None,
            max_size: (10 * MIB) as u64,
            category: "Documents",
        },
        FileSignature {
            name: "reStructuredText",
            extension: "rst",
            header: &[0x2Eu8, 0x2E],
            footer: None,
            max_size: (10 * MIB) as u64,
            category: "Documents",
        },
    ]
}

/// Builds records 224 to 255 of the catalogue.
fn signatures_part_07() -> (sigs: Vec<FileSignature>)
    ensures
        sigs@ == catalogue_part_07(),
        sigs@.len() == 32,
        forall|i: int| 0 <= i < sigs@.len() ==> well_formed(#[trigger] sigs@[i]),
{
    let sigs = vec![
        FileSignature {
            name: "Apache Parquet",
            extension: "parquet",
            header: &[0x50, 0x41, 0x52, 0x31],
            footer: None,
            max_size: 10 * GIB,
            category: "Data",
        },
        FileSignature {
            name: "ORC",
            extension: "orc",
            header: &[0x4F, 0x52, 0x43],
            footer: None,
            max_size: 10 * GIB,
            category: "Data",
        },
        FileSignature {
            name: "Bitcoin Wallet",
            extension: "wallet",
            header: &[0x0A, 0x16, 0x6F, 0x72, 0x67],
            footer: None,
            max_size: 100 * MIB,
            category: "Crypto",
        },
        FileSignature {
            name: "Ethereum Keystore",
            extension: "keystore",
            header: &[0x7B, 0x22, 0x76, 0x65, 0x72, 0x73, 0x69, 0x6F, 0x6E, 0x22],
            footer: None,
            max_size: 1 * MIB,
            category: "Crypto",
        },
        FileSignature {
            name: "Revit",
            extension: "rvt",
            header: &[0xD0, 0xCF, 0x11, 0xE0, 0xA1, 0xB1, 0x1A, 0xE1],
            footer: None,
            max_size: 1 * GIB,
            category: "CAD",
        },
        FileSignature {
            name: "SolidWorks Part",
            extension: "sldprt",
            header: &[0xD0, 0xCF, 0x11, 0xE0],
            footer: None,
            max_size: 500 * MIB,
            category: "CAD",
        },
        FileSignature {
            name: "SolidWorks Assembly",
            extension: "sldasm",
            header: &[0xD0, 0xCF, 0x11, 0xE0],
            footer: None,
            max_size: 1 * GIB,
            category: "CAD",
        },
        FileSignature {
            name: "CATIA",
            extension: "catpart",
            header: &[0x56, 0x35, 0x5F, 0x43, 0x46, 0x56, 0x32],
            footer: None,
            max_size: 500 * MIB,
            category: "CAD",
        },
        FileSignature {
            name: "Inventor Part",
            extension: "ipt",
            header: &[0xD0, 0xCF, 0x11, 0xE0],
            footer: None,
            max_size: 500 * MIB,
            category: "CAD",
        },
        FileSignature {
            name: "Rhino 3D",
            extension: "3dm",
            header: &[0x33, 0x64, 0x4D],
            footer: None,
            max_size: 500 * MIB,
            category: "CAD",
        },
        FileSignature {
            name: "EOT Font",
            extension: "eot",
            header: &[0x00, 0x00, 0x00, 0x00, 0x00, 0x00, 0x00, 0x00, 0x00, 0x00, 0x00, 0x00, 0x00, 0x00, 0x00, 0x00, 0x00, 0x00, 0x00, 0x00, 0x00, 0x00, 0x00, 0x00, 0x00, 0x00, 0x00, 0x00, 0x00, 0x00, 0x00, 0x00, 0x00, 0x00, 0x4C, 0x50],
            footer: None,
            max_size: 10 * MIB,
            category: "Fonts",
        },
        FileSignature {
            name: "Type 1 Font",
            extension: "pfb",
            header: &[0x80, 0x01],
            footer: None,
            max_size: 5 * MIB,
            category: "Fonts",
        },
        FileSignature {
            name: "Printer Font Metrics",
            extension: "pfm",
            header: &[0x00, 0x01],
            footer: None,
            max_size: 1 * MIB,
            category: "Fonts",
        },
        FileSignature {
            name: "Outlook OST",
            extension: "ost",
            header: &[0x21, 0x42, 0x44, 0x4E],
            footer: None,
            max_size: 50 * GIB,
            category: "Email",
        },
        FileSignature {
            name: "Outlook MSG",
            extension: "msg",
            header: &[0xD0, 0xCF, 0x11, 0xE0, 0xA1, 0xB1, 0x1A, 0xE1],
            footer: None,
            max_size: 100 * MIB,
            category: "Email",
        },
        FileSignature {
            name: "EML Email",
            extension: "eml",
            header: &[0x46, 0x72, 0x6F, 0x6D, 0x20, 0x20, 0x20],
            footer: None,
            max_size: 50 * MIB,
            category: "Email",
        },
        FileSignature {
            name: "vCard",
            extension: "vcf",
            header: &[0x42, 0x45, 0x47, 0x49, 0x4E, 0x3A, 0x56, 0x43, 0x41, 0x52, 0x44],
            footer: None,
            max_size: 1 * MIB,
            category: "Contacts",
        },
        FileSignature {
            name: "iCalendar",
            extension: "ics",
            header: &[0x42, 0x45, 0x47, 0x49, 0x4E, 0x3A, 0x56, 0x43, 0x41, 0x4C, 0x45, 0x4E, 0x44, 0x41, 0x52],
            footer: None,
            max_size: 10 * MIB,
            category: "Calendar",
        },
        FileSignature {
            name: "Windows Prefetch",
            extension: "pf",
            header: &[0x4D, 0x41, 0x4D],
            footer: None,
            max_size: 5 * MIB,
            category: "System",
        },
        FileSignature {
            name: "Windows Event Log",
            extension: "evtx",
            header: &[0x45, 0x6C, 0x66, 0x46, 0x69, 0x6C, 0x65],
            footer: None,
            max_size: 500 * MIB,
            category: "System",
        },
        FileSignature {
            name: "macOS DMG (old)",
            extension: "dmg",
            header: &[0x6B, 0x6F, 0x6C, 0x79],
            footer: None,
            max_size: 10 * GIB,
            category: "System",
        },
        FileSignature {
            name: "Linux RPM",
            extension: "rpm",
            header: &[0xED, 0xAB, 0xEE, 0xDB],
            footer: None,
            max_size: 1 * GIB,
            category: "System",
        },
        FileSignature {
            name: "Debian DEB",
            extension: "deb",
            header: &[0x21, 0x3C, 0x61, 0x72, 0x63, 0x68, 0x3E],
            footer: None,
            max_size: 500 * MIB,
            category: "System",
        },
        FileSignature {
            name: "SCORM Package",
            extension: "scorm",
            header: &[0x50, 0x4B, 0x03, 0x04],
            footer: None,
            max_size: 1 * GIB,
            category: "E-Learning",
        },
        FileSignature {
            name: "Articulate Storyline",
            extension: "story",
            header: &[0x50, 0x4B, 0x03, 0x04],
            footer: None,
            max_size: 1 * GIB,
            category: "E-Learning",
        },
        FileSignature {
            name: "Captivate",
            extension: "cptx",
            header: &[0x50, 0x4B, 0x03, 0x04],
            footer: None,
            max_size: 500 * MIB,
            category: "E-Learning",
        },
        FileSignature {
            name: "CHM Help",
            extension: "chm",
            header: &[0x49, 0x54, 0x53, 0x46],
            footer: None,
            max_size: 100 * MIB,
            category: "Documents",
        },
        FileSignature {
            name: "OneNote",
            extension: "one",
            header: &[0xE4, 0x52, 0x5C, 0x7B, 0x8C, 0xD8, 0xA7, 0x4D],
            footer: None,
            max_size: 1 * GIB,
            category: "Documents",
        },
        FileSignature {
            name: "Evernote ENEX",
            extension: "enex",
            header: &[0x3C, 0x3F, 0x78, 0x6D, 0x6C],
            footer: None,
            max_size: 100 * MIB,
            category: "Documents",
        },
        FileSignature {
            name: "Markdown",
            extension: "md",
            header: &[0x23],
            footer: None,
            max_size: 10 * MIB,
            category: "Documents",
        },
        FileSignature {
            name: "AsciiDoc",
            extension: "adoc",
            header: &[0x3D],
            footer: None,
            max_size: 10 * MIB,
            category: "Documents",
        },
        FileSignature {
            name: "reStructuredText",
            extension: "rst",
            header: &[0x2E, 0x2E],
            footer: None,
            max_size: 10 * MIB,
            category: "Documents",
        },
    ];
    assert(sigs@ =~= catalogue_part_07());
    sigs
}

/// Records 256 to 287 of the catalogue.
pub open spec fn catalogue_part_08() -> Seq<FileSignature> {
    seq![
        FileSignature {
            name: "Org Mode",
            extension: "org",
            header: &[0x23u8, 0x2B, 0x54, 0x49, 0x54, 0x4C, 0x45],
            footer: None,
            max_size: (10 * MIB) as u64,
            category: "Documents",
        },
        FileSignature {
            name: "Quicktime MOV",
            extension: "mov",
            header: &[0x00u8, 0x00, 0x00, 0x14, 0x66, 0x74, 0x79, 0x70],
            footer: None,
            max_size: (10 * GIB) as u64,
            category: "Videos",
        },
        FileSignature {
            name: "MP4 Video Alt",
            extension: "mp4",
            header: &[0x00u8, 0x00, 0x00, 0x18, 0x66, 0x74, 0x79, 0x70, 0x6D, 0x70, 0x34, 0x32],
            footer: None,
            max_size: (10 * GIB) as u64,
            category: "Videos",
        },
        FileSignature {
            name: "M4V Video",
            extension: "m4v",
            header: &[0x00u8, 0x00, 0x00, 0x1C, 0x66, 0x74, 0x79, 0x70, 0x4D, 0x34, 0x56],
            footer: None,
            max_size: (10 * GIB) as u64,
            category: "Videos",
        },
        FileSignature {
            name: "MPEG-4 Part 14",
            extension: "m4p",
            header: &[0x00u8, 0x00, 0x00, 0x20, 0x66, 0x74, 0x79, 0x70, 0x4D, 0x34, 0x50],
            footer: None,
            max_size: (5 * GIB) as u64,
            category: "Videos",
        },
        FileSignature {
            name: "RealMedia",
            extension: "rm",
            header: &[0x2Eu8, 0x52, 0x4D, 0x46],
            footer: None,
            max_size: (2 * GIB) as u64,
            category: "Videos",
        },
        FileSignature {
            name: "RealVideo",
            extension: "rv",
            header: &[0x2Eu8, 0x52, 0x4D, 0x46],
            footer: None,
            max_size: (2 * GIB) as u64,
            category: "Videos",
        },
        FileSignature {
            name: "Ogg Theora",
            extension: "ogm",
            header: &[0x4Fu8, 0x67, 0x67, 0x53],
            footer: None,
            max_size: (5 * GIB) as u64,
            category: "Videos",
        },
        FileSignature {
            name: "VP8 Video",
            extension: "ivf",
            header: &[0x44u8, 0x4B, 0x49, 0x46],
            footer: None,
            max_size: (5 * GIB) as u64,
            category: "Videos",
        },
        FileSignature {
            name: "H.264 Elementary Stream",
            extension: "h264",
            header: &[0x00u8, 0x00, 0x00, 0x01],
            footer: None,
            max_size: (10 * GIB) as u64,
            category: "Videos",
        },
        FileSignature {
            name: "H.265/HEVC Stream",
            extension: "h265",
            header: &[0x00u8, 0x00, 0x00, 0x01],
            footer: None,
            max_size: (10 * GIB) as u64,
            category: "Videos",
        },
        FileSignature {
            name: "Real Audio",
            extension: "ra",
            header: &[0x2Eu8, 0x72, 0x61, 0xFD],
            footer: None,
            max_size: (200 * MIB) as u64,
            category: "Audio",
        },
        FileSignature {
            name: "Adaptive Multi-Rate NB",
            extension: "3ga",
            header: &[0x00u8, 0x00, 0x00, 0x14, 0x66, 0x74, 0x79, 0x70, 0x33, 0x67, 0x70],
            footer: None,
            max_size: (50 * MIB) as u64,
            category: "Audio",
        },
        FileSignature {
            name: "WebM Audio",
            extension: "weba",
            header: &[0x1Au8, 0x45, 0xDF, 0xA3],
            footer: None,
            max_size: (500 * MIB) as u64,
            category: "Audio",
        },
        FileSignature {
            name: "PCM Audio",
            extension: "pcm",
            header: &[0x52u8, 0x49, 0x46, 0x46],
            footer: None,
            max_size: (1 * GIB) as u64,
            category: "Audio",
        },
        FileSignature {
            name: "Sony ATRAC",
            extension: "aa3",
            header: &[0x65u8, 0x61, 0x33],
            footer: None,
            max_size: (100 * MIB) as u64,
            category: "Audio",
        },
        FileSignature {
            name: "DOS Executable",
            extension: "com",
            header: &[0x4Du8, 0x5A],
            footer: None,
            max_size: (64 * KIB) as u64,
            category: "Executables",
        },
        FileSignature {
            name: "Windows Screensaver",
            extension: "scr",
            header: &[0x4Du8, 0x5A],
            footer: None,
            max_size: (50 * MIB) as u64,
            category: "Executables",
        },
        FileSignature {
            name: "Windows Installer",
            extension: "msi",
            header: &[0xD0u8, 0xCF, 0x11, 0xE0, 0xA1, 0xB1, 0x1A, 0xE1],
            footer: None,
            max_size: (5 * GIB) as u64,
            category: "Executables",
        },
        FileSignature {
            name: "Visual Studio Solution",
            extension: "sln",
            header: &[0xEFu8, 0xBB, 0xBF, 0x4D, 0x69, 0x63, 0x72, 0x6F, 0x73, 0x6F, 0x66, 0x74],
            footer: None,
            max_size: (10 * MIB) as u64,
            category: "Code",
        },
        FileSignature {
            name: "Ruby Script",
            extension: "rb",
            header: &[0x23u8, 0x21, 0x2F, 0x75, 0x73, 0x72, 0x2F, 0x62, 0x69, 0x6E, 0x2F, 0x72, 0x75, 0x62, 0x79],
            footer: None,
            max_size: (10 * MIB) as u64,
            category: "Code",
        },
        FileSignature {
            name: "Perl Script",
            extension: "pl",
            header: &[0x23u8, 0x21, 0x2F, 0x75, 0x73, 0x72, 0x2F, 0x62, 0x69, 0x6E, 0x2F, 0x70, 0x65, 0x72, 0x6C],
            footer: None,
            max_size: (10 * MIB) as u64,
            category: "Code",
        },
        FileSignature {
            name: "PHP Script",
            extension: "php",
            header: &[0x3Cu8, 0x3F, 0x70, 0x68, 0x70],
            footer: None,
            max_size: (10 * MIB) as u64,
            category: "Code",
        },
        FileSignature {
            name: "Swift Source",
            extension: "swift",
            header: &[0x69u8, 0x6D, 0x70, 0x6F, 0x72, 0x74],
            footer: None,
            max_size: (10 * MIB) as u64,
            category: "Code",
        },
        FileSignature {
            name: "Go Source",
            extension: "go",
            header: &[0x70u8, 0x61, 0x63, 0x6B, 0x61, 0x67, 0x65],
            footer: None,
            max_size: (10 * MIB) as u64,
            category: "Code",
        },
        FileSignature {
            name: "Rust Source",
            extension: "rs",
            header: &[0x75u8, 0x73, 0x65, 0x20],
            footer: None,
            max_size: (10 * MIB) as u64,
            category: "Code",
        },
        FileSignature {
            name: "TypeScript",
            extension: "ts",
            header: &[0x69u8, 0x6D, 0x70, 0x6F, 0x72, 0x74],
            footer: None,
            max_size: (10 * MIB) as u64,
            category: "Code",
        },
        FileSignature {
            name: "Dart",
            extension: "dart",
            header: &[0x69u8, 0x6D, 0x70, 0x6F, 0x72, 0x74],
            footer: None,
            max_size: (5 * MIB) as u64,
            category: "Code",
        },
        FileSignature {
            name: "Kotlin",
            extension: "kt",
            header: &[0x70u8, 0x61, 0x63, 0x6B, 0x61, 0x67, 0x65],
            footer: None,
            max_size: (5 * MIB) as u64,
            category: "Code",
        },
        FileSignature {
            name: "LZMA Archive",
            extension: "lzma",
            header: &[0x5Du8, 0x00, 0x00],
            footer: None,
            max_size: (5 * GIB) as u64,
            category: "Archives",
        },
        FileSignature {
            name: "LZ4 Archive",
            extension: "lz4",
            header: &[0x04u8, 0x22, 0x4D, 0x18],
            footer: None,
            max_size: (5 * GIB) as u64,
            category: "Archives",
        },
        FileSignature {
            name: "Zstandard",
            extension: "zst",
            header: &[0x28u8, 0xB5, 0x2F, 0xFD],
            footer: None,
            max_size: (5 * GIB) as u64,
            category: "Archives",
        },
    ]
}

/// Builds records 256 to 287 of the catalogue.
fn signatures_part_08() -> (sigs: Vec<FileSignature>)
    ensures
        sigs@ == catalogue_part_08(),
        sigs@.len() == 32,
        forall|i: int| 0 <= i < sigs@.len() ==> well_formed(#[trigger] sigs@[i]),
{
    let sigs = vec![
        FileSignature {
            name: "Org Mode",
            extension: "org",
            header: &[0x23, 0x2B, 0x54, 0x49, 0x54, 0x4C, 0x45],
            footer: None,
            max_size: 10 * MIB,
            category: "Documents",
        },
        FileSignature {
            name: "Quicktime MOV",
            extension: "mov",
            header: &[0x00, 0x00, 0x00, 0x14, 0x66, 0x74, 0x79, 0x70],
            footer: None,
            max_size: 10 * GIB,
            category: "Videos",
        },
        FileSignature {
            name: "MP4 Video Alt",
            extension: "mp4",
            header: &[0x00, 0x00, 0x00, 0x18, 0x66, 0x74, 0x79, 0x70, 0x6D, 0x70, 0x34, 0x32],
            footer: None,
            max_size: 10 * GIB,
            category: "Videos",
        },
        FileSignature {
            name: "M4V Video",
            extension: "m4v",
            header: &[0x00, 0x00, 0x00, 0x1C, 0x66, 0x74, 0x79, 0x70, 0x4D, 0x34, 0x56],
            footer: None,
            max_size: 10 * GIB,
            category: "Videos",
        },
        FileSignature {
            name: "MPEG-4 Part 14",
            extension: "m4p",
            header: &[0x00, 0x00, 0x00, 0x20, 0x66, 0x74, 0x79, 0x70, 0x4D, 0x34, 0x50],
            footer: None,
            max_size: 5 * GIB,
            category: "Videos",
        },
        FileSignature {
            name: "RealMedia",
            extension: "rm",
            header: &[0x2E, 0x52, 0x4D, 0x46],
            footer: None,
            max_size: 2 * GIB,
            category: "Videos",
        },
        FileSignature {
            name: "RealVideo",
            extension: "rv",
            header: &[0x2E, 0x52, 0x4D, 0x46],
            footer: None,
            max_size: 2 * GIB,
            category: "Videos",
        },
        FileSignature {
            name: "Ogg Theora",
            extension: "ogm",
            header: &[0x4F, 0x67, 0x67, 0x53],
            footer: None,
            max_size: 5 * GIB,
            category: "Videos",
        },
        FileSignature {
            name: "VP8 Video",
            extension: "ivf",
            header: &[0x44, 0x4B, 0x49, 0x46],
            footer: None,
            max_size: 5 * GIB,
            category: "Videos",
        },
        FileSignature {
            name: "H.264 Elementary Stream",
            extension: "h264",
            header: &[0x00, 0x00, 0x00, 0x01],
            footer: None,
            max_size: 10 * GIB,
            category: "Videos",
        },
        FileSignature {
            name: "H.265/HEVC Stream",
            extension: "h265",
            header: &[0x00, 0x00, 0x00, 0x01],
            footer: None,
            max_size: 10 * GIB,
            category: "Videos",
        },
        FileSignature {
            name: "Real Audio",
            extension: "ra",
            header: &[0x2E, 0x72, 0x61, 0xFD],
            footer: None,
            max_size: 200 * MIB,
            category: "Audio",
        },
        FileSignature {
            name: "Adaptive Multi-Rate NB",
            extension: "3ga",
            header: &[0x00, 0x00, 0x00, 0x14, 0x66, 0x74, 0x79, 0x70, 0x33, 0x67, 0x70],
            footer: None,
            max_size: 50 * MIB,
            category: "Audio",
        },
        FileSignature {
            name: "WebM Audio",
            extension: "weba",
            header: &[0x1A, 0x45, 0xDF, 0xA3],
            footer: None,
            max_size: 500 * MIB,
            category: "Audio",
        },
        FileSignature {
            name: "PCM Audio",
            extension: "pcm",
            header: &[0x52, 0x49, 0x46, 0x46],
            footer: None,
            max_size: 1 * GIB,
            category: "Audio",
        },
        FileSignature {
            name: "Sony ATRAC",
            extension: "aa3",
            header: &[0x65, 0x61, 0x33],
            footer: None,
            max_size: 100 * MIB,
            category: "Audio",
        },
        FileSignature {
            name: "DOS Executable",
            extension: "com",
            header: &[0x4D, 0x5A],
            footer: None,
            max_size: 64 * KIB,
            category: "Executables",
        },
        FileSignature {
            name: "Windows Screensaver",
            extension: "scr",
            header: &[0x4D, 0x5A],
            footer: None,
            max_size: 50 * MIB,
            category: "Executables",
        },
        FileSignature {
            name: "Windows Installer",
            extension: "msi",
            header: &[0xD0, 0xCF, 0x11, 0xE0, 0xA1, 0xB1, 0x1A, 0xE1],
            footer: None,
            max_size: 5 * GIB,
            category: "Executables",
        },
        FileSignature {
            name: "Visual Studio Solution",
            extension: "sln",
            header: &[0xEF, 0xBB, 0xBF, 0x4D, 0x69, 0x63, 0x72, 0x6F, 0x73, 0x6F, 0x66, 0x74],
            footer: None,
            max_size: 10 * MIB,
            category: "Code",
        },
        FileSignature {
            name: "Ruby Script",
            extension: "rb",
            header: &[0x23, 0x21, 0x2F, 0x75, 0x73, 0x72, 0x2F, 0x62, 0x69, 0x6E, 0x2F, 0x72, 0x75, 0x62, 0x79],
            footer: None,
            max_size: 10 * MIB,
            category: "Code",
        },
        FileSignature {
            name: "Perl Script",
            extension: "pl",
            header: &[0x23, 0x21, 0x2F, 0x75, 0x73, 0x72, 0x2F, 0x62, 0x69, 0x6E, 0x2F, 0x70, 0x65, 0x72, 0x6C],
            footer: None,
            max_size: 10 * MIB,
            category: "Code",
        },
        FileSignature {
            name: "PHP Script",
            extension: "php",
            header: &[0x3C, 0x3F, 0x70, 0x68, 0x70],
            footer: None,
            max_size: 10 * MIB,
            category: "Code",
        },
        FileSignature {
            name: "Swift Source",
            extension: "swift",
            header: &[0x69, 0x6D, 0x70, 0x6F, 0x72, 0x74],
            footer: None,
            max_size: 10 * MIB,
            category: "Code",
        },
        FileSignature {
            name: "Go Source",
            extension: "go",
            header: &[0x70, 0x61, 0x63, 0x6B, 0x61, 0x67, 0x65],
            footer: None,
            max_size: 10 * MIB,
            category: "Code",
        },
        FileSignature {
            name: "Rust Source",
            extension: "rs",
            header: &[0x75, 0x73, 0x65, 0x20],
            footer: None,
            max_size: 10 * MIB,
            category: "Code",
        },
        FileSignature {
            name: "TypeScript",
            extension: "ts",
            header: &[0x69, 0x6D, 0x70, 0x6F, 0x72, 0x74],
            footer: None,
            max_size: 10 * MIB,
            category: "Code",
        },
        FileSignature {
            name: "Dart",
            extension: "dart",
            header: &[0x69, 0x6D, 0x70, 0x6F, 0x72, 0x74],
            footer: None,
            max_size: 5 * MIB,
            category: "Code",
        },
        FileSignature {
            name: "Kotlin",
            extension: "kt",
            header: &[0x70, 0x61, 0x63, 0x6B, 0x61, 0x67, 0x65],
            footer: None,
            max_size: 5 * MIB,
            category: "Code",
        },
        FileSignature {
            name: "LZMA Archive",
            extension: "lzma",
            header: &[0x5D, 0x00, 0x00],
            footer: None,
            max_size: 5 * GIB,
            category: "Archives",
        },
        FileSignature {
            name: "LZ4 Archive",
            extension: "lz4",
            header: &[0x04, 0x22, 0x4D, 0x18],
            footer: None,
            max_size: 5 * GIB,
            category: "Archives",
        },
        FileSignature {
            name: "Zstandard",
            extension: "zst",
            header: &[0x28, 0xB5, 0x2F, 0xFD],
            footer: None,
            max_size: 5 * GIB,
            category: "Archives",
        },
    ];
    assert(sigs@ =~= catalogue_part_08());
    sigs
}

/// Records 288 to 319 of the catalogue.
pub open spec fn catalogue_part_09() -> Seq<FileSignature> {
    seq![
        FileSignature {
            name: "Snappy",
            extension: "sz",
            header: &[0xFFu8, 0x06, 0x00, 0x00, 0x73, 0x4E, 0x61, 0x50, 0x70, 0x59],
            footer: None,
            max_size: (2 * GIB) as u64,
            category: "Archives",
        },
        FileSignature {
            name: "Brotli",
            extension: "br",
            header: &[0xCEu8, 0xB2, 0xCF, 0x81],
            footer: None,
            max_size: (1 * GIB) as u64,
            category: "Archives",
        },
        FileSignature {
            name: "Unix Compress",
            extension: "z",
            header: &[0x1Fu8, 0x9D],
            footer: None,
            max_size: (2 * GIB) as u64,
            category: "Archives",
        },
        FileSignature {
            name: "Pack200",
            extension: "pack",
            header: &[0xCAu8, 0xFE, 0xD0, 0x0D],
            footer: None,
            max_size: (500 * MIB) as u64,
            category: "Archives",
        },
        FileSignature {
            name: "Squashfs",
            extension: "sqsh",
            header: &[0x68u8, 0x73, 0x71, 0x73],
            footer: None,
            max_size: (5 * GIB) as u64,
            category: "Archives",
        },
        FileSignature {
            name: "CPIO Archive",
            extension: "cpio",
            header: &[0x30u8, 0x37, 0x30, 0x37, 0x30, 0x31],
            footer: None,
            max_size: (2 * GIB) as u64,
            category: "Archives",
        },
        FileSignature {
            name: "AR Archive",
            extension: "ar",
            header: &[0x21u8, 0x3C, 0x61, 0x72, 0x63, 0x68, 0x3E],
            footer: None,
            max_size: (1 * GIB) as u64,
            category: "Archives",
        },
        FileSignature {
            name: "JPEG XL",
            extension: "jxl",
            header: &[0x00u8, 0x00, 0x00, 0x0C, 0x4A, 0x58, 0x4C, 0x20],
            footer: None,
            max_size: (100 * MIB) as u64,
            category: "Images",
        },
        FileSignature {
            name: "JPEG-LS",
            extension: "jls",
            header: &[0xFFu8, 0xD8, 0xFF, 0xF7],
            footer: None,
            max_size: (50 * MIB) as u64,
            category: "Images",
        },
        FileSignature {
            name: "PBM Portable Bitmap",
            extension: "pbm",
            header: &[0x50u8, 0x31, 0x0A],
            footer: None,
            max_size: (50 * MIB) as u64,
            category: "Images",
        },
        FileSignature {
            name: "PGM Portable Graymap",
            extension: "pgm",
            header: &[0x50u8, 0x35, 0x0A],
            footer: None,
            max_size: (50 * MIB) as u64,
            category: "Images",
        },
        FileSignature {
            name: "PPM Portable Pixmap",
            extension: "ppm",
            header: &[0x50u8, 0x36, 0x0A],
            footer: None,
            max_size: (100 * MIB) as u64,
            category: "Images",
        },
        FileSignature {
            name: "PAM Portable Arbitrary Map",
            extension: "pam",
            header: &[0x50u8, 0x37, 0x0A],
            footer: None,
            max_size: (100 * MIB) as u64,
            category: "Images",
        },
        FileSignature {
            name: "Radiance RGBE",
            extension: "pic",
            header: &[0x23u8, 0x3F, 0x52, 0x41, 0x44, 0x49, 0x41, 0x4E, 0x43, 0x45],
            footer: None,
            max_size: (100 * MIB) as u64,
            category: "Images",
        },
        FileSignature {
            name: "Truevision TGA",
            extension: "vda",
            header: &[0x00u8, 0x00, 0x0A, 0x00, 0x00],
            footer: None,
            max_size: (50 * MIB) as u64,
            category: "Images",
        },
        FileSignature {
            name: "SGI Image",
            extension: "sgi",
            header: &[0x01u8, 0xDA],
            footer: None,
            max_size: (50 * MIB) as u64,
            category: "Images",
        },
        FileSignature {
            name: "Sun Raster",
            extension: "ras",
            header: &[0x59u8, 0xA6, 0x6A, 0x95],
            footer: None,
            max_size: (50 * MIB) as u64,
            category: "Images",
        },
        FileSignature {
            name: "CALS Raster",
            extension: "cal",
            header: &[0x73u8, 0x72, 0x63, 0x64, 0x6F, 0x63, 0x69, 0x64],
            footer: None,
            max_size: (100 * MIB) as u64,
            category: "Images",
        },
        FileSignature {
            name: "Corel Paintbrush",
            extension: "cpx",
            header: &[0x43u8, 0x50, 0x43, 0x48],
            footer: None,
            max_size: (50 * MIB) as u64,
            category: "Images",
        },
        FileSignature {
            name: "ZSoft Paintbrush",
            extension: "dcx",
            header: &[0xB1u8, 0x68, 0xDE, 0x3A],
            footer: None,
            max_size: (50 * MIB) as u64,
            category: "Images",
        },
        FileSignature {
            name: "Netpbm Format",
            extension: "pnm",
            header: &[0x50u8, 0x34, 0x0A],
            footer: None,
            max_size: (50 * MIB) as u64,
            category: "Images",
        },
        FileSignature {
            name: "Quite OK Image",
            extension: "qoi",
            header: &[0x71u8, 0x6F, 0x69, 0x66],
            footer: None,
            max_size: (100 * MIB) as u64,
            category: "Images",
        },
        FileSignature {
            name: "Adaptive Scalable Texture Compression",
            extension: "astc",
            header: &[0x13u8, 0xAB, 0xA1, 0x5C],
            footer: None,
            max_size: (100 * MIB) as u64,
            category: "Images",
        },
        FileSignature {
            name: "KTX Texture",
            extension: "ktx",
            header: &[0xABu8, 0x4B, 0x54, 0x58, 0x20, 0x31, 0x31],
            footer: None,
            max_size: (100 * MIB) as u64,
            category: "Images",
        },
        FileSignature {
            name: "Basis Universal",
            extension: "basis",
            header: &[0x73u8, 0x42, 0x41, 0x53],
            footer: None,
            max_size: (100 * MIB) as u64,
            category: "Images",
        },
        FileSignature {
            name: "WordPerfect",
            extension: "wpd",
            header: &[0xFFu8, 0x57, 0x50, 0x43],
            footer: None,
            max_size: (100 * MIB) as u64,
            category: "Documents",
        },
        FileSignature {
            name: "Lotus 1-2-3",
            extension: "wk1",
            header: &[0x00u8, 0x00, 0x02, 0x00],
            footer: None,
            max_size: (50 * MIB) as u64,
            category: "Documents",
        },
        FileSignature {
            name: "Quattro Pro",
            extension: "qpw",
            header: &[0x00u8, 0x00, 0x02, 0x00],
            footer: None,
            max_size: (50 * MIB) as u64,
            category: "Documents",
        },
        FileSignature {
            name: "Microsoft Works",
            extension: "wps",
            header: &[0xD0u8, 0xCF, 0x11, 0xE0],
            footer: None,
            max_size: (50 * MIB) as u64,
            category: "Documents",
        },
        FileSignature {
            name: "Microsoft Publisher",
            extension: "pub",
            header: &[0xD0u8, 0xCF, 0x11, 0xE0],
            footer: None,
            max_size: (200 * MIB) as u64,
            category: "Documents",
        },
        FileSignature {
            name: "Microsoft Visio",
            extension: "vsd",
            header: &[0xD0u8, 0xCF, 0x11, 0xE0],
            footer: None,
            max_size: (100 * MIB) as u64,
            category: "Documents",
        },
        FileSignature {
            name: "Microsoft Project",
            extension: "mpp",
            header: &[0xD0u8, 0xCF, 0x11, 0xE0],
            footer: None,
            max_size: (100 * MIB) as u64,
            category: "Documents",
        },
    ]
}

/// Builds records 288 to 319 of the catalogue.
fn signatures_part_09() -> (sigs: Vec<FileSignature>)
    ensures
        sigs@ == catalogue_part_09(),
        sigs@.len() == 32,
        forall|i: int| 0 <= i < sigs@.len() ==> well_formed(#[trigger] sigs@[i]),
{
    let sigs = vec![
        FileSignature {
            name: "Snappy",
            extension: "sz",
            header: &[0xFF, 0x06, 0x00, 0x00, 0x73, 0x4E, 0x61, 0x50, 0x70, 0x59],
            footer: None,
            max_size: 2 * GIB,
            category: "Archives",
        },
        FileSignature {
            name: "Brotli",
            extension: "br",
            header: &[0xCE, 0xB2, 0xCF, 0x81],
            footer: None,
            max_size: 1 * GIB,
            category: "Archives",
        },
        FileSignature {
            name: "Unix Compress",
            extension: "z",
            header: &[0x1F, 0x9D],
            footer: None,
            max_size: 2 * GIB,
            category: "Archives",
        },
        FileSignature {
            name: "Pack200",
            extension: "pack",
            header: &[0xCA, 0xFE, 0xD0, 0x0D],
            footer: None,
            max_size: 500 * MIB,
            category: "Archives",
        },
        FileSignature {
            name: "Squashfs",
            extension: "sqsh",
            header: &[0x68, 0x73, 0x71, 0x73],
            footer: None,
            max_size: 5 * GIB,
            category: "Archives",
        },
        FileSignature {
            name: "CPIO Archive",
            extension: "cpio",
            header: &[0x30, 0x37, 0x30, 0x37, 0x30, 0x31],
            footer: None,
            max_size: 2 * GIB,
            category: "Archives",
        },
        FileSignature {
            name: "AR Archive",
            extension: "ar",
            header: &[0x21, 0x3C, 0x61, 0x72, 0x63, 0x68, 0x3E],
            footer: None,
            max_size: 1 * GIB,
            category: "Archives",
        },
        FileSignature {
            name: "JPEG XL",
            extension: "jxl",
            header: &[0x00, 0x00, 0x00, 0x0C, 0x4A, 0x58, 0x4C, 0x20],
            footer: None,
            max_size: 100 * MIB,
            category: "Images",
        },
        FileSignature {
            name: "JPEG-LS",
            extension: "jls",
            header: &[0xFF, 0xD8, 0xFF, 0xF7],
            footer: None,
            max_size: 50 * MIB,
            category: "Images",
        },
        FileSignature {
            name: "PBM Portable Bitmap",
            extension: "pbm",
            header: &[0x50, 0x31, 0x0A],
            footer: None,
            max_size: 50 * MIB,
            category: "Images",
        },
        FileSignature {
            name: "PGM Portable Graymap",
            extension: "pgm",
            header: &[0x50, 0x35, 0x0A],
            footer: None,
            max_size: 50 * MIB,
            category: "Images",
        },
        FileSignature {
            name: "PPM Portable Pixmap",
            extension: "ppm",
            header: &[0x50, 0x36, 0x0A],
            footer: None,
            max_size: 100 * MIB,
            category: "Images",
        },
        FileSignature {
            name: "PAM Portable Arbitrary Map",
            extension: "pam",
            header: &[0x50, 0x37, 0x0A],
            footer: None,
            max_size: 100 * MIB,
            category: "Images",
        },
        FileSignature {
            name: "Radiance RGBE",
            extension: "pic",
            header: &[0x23, 0x3F, 0x52, 0x41, 0x44, 0x49, 0x41, 0x4E, 0x43, 0x45],
            footer: None,
            max_size: 100 * MIB,
            category: "Images",
        },
        FileSignature {
            name: "Truevision TGA",
            extension: "vda",
            header: &[0x00, 0x00, 0x0A, 0x00, 0x00],
            footer: None,
            max_size: 50 * MIB,
            category: "Images",
        },
        FileSignature {
            name: "SGI Image",
            extension: "sgi",
            header: &[0x01, 0xDA],
            footer: None,
            max_size: 50 * MIB,
            category: "Images",
        },
        FileSignature {
            name: "Sun Raster",
            extension: "ras",
            header: &[0x59, 0xA6, 0x6A, 0x95],
            footer: None,
            max_size: 50 * MIB,
            category: "Images",
        },
        FileSignature {
            name: "CALS Raster",
            extension: "cal",
            header: &[0x73, 0x72, 0x63, 0x64, 0x6F, 0x63, 0x69, 0x64],
            footer: None,
            max_size: 100 * MIB,
            category: "Images",
        },
        FileSignature {
            name: "Corel Paintbrush",
            extension: "cpx",
            header: &[0x43, 0x50, 0x43, 0x48],
            footer: None,
            max_size: 50 * MIB,
            category: "Images",
        },
        FileSignature {
            name: "ZSoft Paintbrush",
            extension: "dcx",
            header: &[0xB1, 0x68, 0xDE, 0x3A],
            footer: None,
            max_size: 50 * MIB,
            category: "Images",
        },
        FileSignature {
            name: "Netpbm Format",
            extension: "pnm",
            header: &[0x50, 0x34, 0x0A],
            footer: None,
            max_size: 50 * MIB,
            category: "Images",
        },
        FileSignature {
            name: "Quite OK Image",
            extension: "qoi",
            header: &[0x71, 0x6F, 0x69, 0x66],
            footer: None,
            max_size: 100 * MIB,
            category: "Images",
        },
        FileSignature {
            name: "Adaptive Scalable Texture Compression",
            extension: "astc",
            header: &[0x13, 0xAB, 0xA1, 0x5C],
            footer: None,
            max_size: 100 * MIB,
            category: "Images",
        },
        FileSignature {
            name: "KTX Texture",
            extension: "ktx",
            header: &[0xAB, 0x4B, 0x54, 0x58, 0x20, 0x31, 0x31],
            footer: None,
            max_size: 100 * MIB,
            category: "Images",
        },
        FileSignature {
            name: "Basis Universal",
            extension: "basis",
            header: &[0x73, 0x42, 0x41, 0x53],
            footer: None,
            max_size: 100 * MIB,
            category: "Images",
        },
        FileSignature {
            name: "WordPerfect",
            extension: "wpd",
            header: &[0xFF, 0x57, 0x50, 0x43],
            footer: None,
            max_size: 100 * MIB,
            category: "Documents",
        },
        FileSignature {
            name: "Lotus 1-2-3",
            extension: "wk1",
            header: &[0x00, 0x00, 0x02, 0x00],
            footer: None,
            max_size: 50 * MIB,
            category: "Documents",
        },
        FileSignature {
            name: "Quattro Pro",
            extension: "qpw",
            header: &[0x00, 0x00, 0x02, 0x00],
            footer: None,
            max_size: 50 * MIB,
            category: "Documents",
        },
        FileSignature {
            name: "Microsoft Works",
            extension: "wps",
            header: &[0xD0, 0xCF, 0x11, 0xE0],
            footer: None,
            max_size: 50 * MIB,
            category: "Documents",
        },
        FileSignature {
            name: "Microsoft Publisher",
            extension: "pub",
            header: &[0xD0, 0xCF, 0x11, 0xE0],
            footer: None,
            max_size: 200 * MIB,
            category: "Documents",
        },
        FileSignature {
            name: "Microsoft Visio",
            extension: "vsd",
            header: &[0xD0, 0xCF, 0x11, 0xE0],
            footer: None,
            max_size: 100 * MIB,
            category: "Documents",
        },
        FileSignature {
            name: "Microsoft Project",
            extension: "mpp",
            header: &[0xD0, 0xCF, 0x11, 0xE0],
            footer: None,
            max_size: 100 * MIB,
            category: "Documents",
        },
    ];
    assert(sigs@ =~= catalogue_part_09());
    sigs
}

/// Records 320 to 351 of the catalogue.
pub open spec fn catalogue_part_10() -> Seq<FileSignature> {
    seq![
        FileSignature {
            name: "OpenOffice Writer",
            extension: "sxw",
            header: &[0x50u8, 0x4B, 0x03, 0x04],
            footer: None,
            max_size: (100 * MIB) as u64,
            category: "Documents",
        },
        FileSignature {
            name: "OpenOffice Calc",
            extension: "sxc",
            header: &[0x50u8, 0x4B, 0x03, 0x04],
            footer: None,
            max_size: (100 * MIB) as u64,
            category: "Documents",
        },
        FileSignature {
            name: "OpenOffice Impress",
            extension: "sxi",
            header: &[0x50u8, 0x4B, 0x03, 0x04],
            footer: None,
            max_size: (100 * MIB) as u64,
            category: "Documents",
        },
        FileSignature {
            name: "StarOffice",
            extension: "sdw",
            header: &[0x50u8, 0x4B, 0x03, 0x04],
            footer: None,
            max_size: (50 * MIB) as u64,
            category: "Documents",
        },
        FileSignature {
            name: "Microsoft Write",
            extension: "wri",
            header: &[0x31u8, 0xBE, 0x00, 0x00],
            footer: None,
            max_size: (10 * MIB) as u64,
            category: "Documents",
        },
        FileSignature {
            name: "Ami Pro",
            extension: "sam",
            header: &[0x5Bu8, 0x76, 0x65, 0x72],
            footer: None,
            max_size: (50 * MIB) as u64,
            category: "Documents",
        },
        FileSignature {
            name: "STEP 3D",
            extension: "stp",
            header: &[0x49u8, 0x53, 0x4F, 0x2D, 0x31, 0x30, 0x33, 0x30, 0x33, 0x2D, 0x32, 0x31],
            footer: None,
            max_size: (500 * MIB) as u64,
            category: "CAD",
        },
        FileSignature {
            name: "IGES",
            extension: "igs",
            header: &[0x53u8, 0x20, 0x20, 0x20, 0x20, 0x20, 0x20, 0x20, 0x20, 0x20, 0x20, 0x20, 0x20, 0x20, 0x20, 0x20, 0x20, 0x20, 0x20, 0x20, 0x20, 0x20, 0x20, 0x20, 0x20, 0x20, 0x20, 0x20, 0x20, 0x20, 0x20, 0x20, 0x20, 0x20, 0x20, 0x20, 0x20, 0x20, 0x20, 0x20, 0x20, 0x20, 0x20, 0x20, 0x20, 0x20, 0x20, 0x20, 0x20, 0x20, 0x20, 0x31, 0x50],
            footer: None,
            max_size: (500 * MIB) as u64,
            category: "CAD",
        },
        FileSignature {
            name: "Parasolid",
            extension: "x_t",
            header: &[0x2Au8, 0x2A, 0x53, 0x43, 0x48, 0x45, 0x4D, 0x41],
            footer: None,
            max_size: (500 * MIB) as u64,
            category: "CAD",
        },
        FileSignature {
            name: "JT Open CAD",
            extension: "jt",
            header: &[0x56u8, 0x65, 0x72, 0x73, 0x69, 0x6F, 0x6E],
            footer: None,
            max_size: (1 * GIB) as u64,
            category: "CAD",
        },
        FileSignature {
            name: "NX Part",
            extension: "prt",
            header: &[0x55u8, 0x6E, 0x69, 0x67, 0x72, 0x61, 0x70, 0x68, 0x69, 0x63, 0x73],
            footer: None,
            max_size: (500 * MIB) as u64,
            category: "CAD",
        },
        FileSignature {
            name: "ACIS SAT",
            extension: "sat",
            header: &[0x34u8, 0x30, 0x30, 0x20, 0x30, 0x20],
            footer: None,
            max_size: (200 * MIB) as u64,
            category: "CAD",
        },
        FileSignature {
            name: "Alembic",
            extension: "abc",
            header: &[0x4Fu8, 0x67, 0x67, 0x53],
            footer: None,
            max_size: (1 * GIB) as u64,
            category: "3D",
        },
        FileSignature {
            name: "PLY 3D",
            extension: "ply",
            header: &[0x70u8, 0x6C, 0x79, 0x0A],
            footer: None,
            max_size: (500 * MIB) as u64,
            category: "3D",
        },
        FileSignature {
            name: "OFF 3D",
            extension: "off",
            header: &[0x4Fu8, 0x46, 0x46, 0x0A],
            footer: None,
            max_size: (200 * MIB) as u64,
            category: "3D",
        },
        FileSignature {
            name: "DirectX X",
            extension: "x",
            header: &[0x78u8, 0x6F, 0x66, 0x20],
            footer: None,
            max_size: (500 * MIB) as u64,
            category: "3D",
        },
        FileSignature {
            name: "AC3D",
            extension: "ac",
            header: &[0x41u8, 0x43, 0x33, 0x44],
            footer: None,
            max_size: (100 * MIB) as u64,
            category: "3D",
        },
        FileSignature {
            name: "Valve Model",
            extension: "mdl",
            header: &[0x49u8, 0x44, 0x53, 0x54],
            footer: None,
            max_size: (100 * MIB) as u64,
            category: "3D",
        },
        FileSignature {
            name: "Quake MD2",
            extension: "md2",
            header: &[0x49u8, 0x44, 0x50, 0x32],
            footer: None,
            max_size: (50 * MIB) as u64,
            category: "3D",
        },
        FileSignature {
            name: "Quake MD3",
            extension: "md3",
            header: &[0x49u8, 0x44, 0x50, 0x33],
            footer: None,
            max_size: (50 * MIB) as u64,
            category: "3D",
        },
        FileSignature {
            name: "Wavefront MTL",
            extension: "mtl",
            header: &[0x23u8, 0x20],
            footer: None,
            max_size: (10 * MIB) as u64,
            category: "3D",
        },
        FileSignature {
            name: "Microsoft SQL Database",
            extension: "mdf",
            header: &[0x01u8, 0x0F, 0x00, 0x00],
            footer: None,
            max_size: (100 * GIB) as u64,
            category: "Databases",
        },
        FileSignature {
            name: "SQL Server Log",
            extension: "ldf",
            header: &[0x01u8, 0x0F, 0x00, 0x00],
            footer: None,
            max_size: (100 * GIB) as u64,
            category: "Databases",
        },
        FileSignature {
            name: "InterBase Database",
            extension: "gdb",
            header: &[0x00u8, 0x00, 0x01, 0x00, 0x00, 0x00, 0x00, 0x00],
            footer: None,
            max_size: (10 * GIB) as u64,
            category: "Databases",
        },
        FileSignature {
            name: "FileMaker Pro",
            extension: "fp7",
            header: &[0x00u8, 0x01, 0x00, 0x00, 0x00, 0x00, 0x04, 0x00],
            footer: None,
            max_size: (5 * GIB) as u64,
            category: "Databases",
        },
        FileSignature {
            name: "Redis Dump",
            extension: "rdb",
            header: &[0x52u8, 0x45, 0x44, 0x49, 0x53],
            footer: None,
            max_size: (10 * GIB) as u64,
            category: "Databases",
        },
        FileSignature {
            name: "LevelDB",
            extension: "ldb",
            header: &[0x6Cu8, 0x65, 0x76, 0x65, 0x6C, 0x64, 0x62],
            footer: None,
            max_size: (10 * GIB) as u64,
            category: "Databases",
        },
        FileSignature {
            name: "Berkeley DB",
            extension: "db",
            header: &[0x00u8, 0x05, 0x31, 0x62],
            footer: None,
            max_size: (10 * GIB) as u64,
            category: "Databases",
        },
        FileSignature {
            name: "Docker Image",
            extension: "dockerimage",
            header: &[0x7Bu8, 0x22, 0x63, 0x6F, 0x6E, 0x66, 0x69, 0x67],
            footer: None,
            max_size: (10 * GIB) as u64,
            category: "Containers",
        },
        FileSignature {
            name: "OCI Image",
            extension: "oci",
            header: &[0x50u8, 0x4B, 0x03, 0x04],
            footer: None,
            max_size: (5 * GIB) as u64,
            category: "Containers",
        },
        FileSignature {
            name: "UEFI Firmware",
            extension: "efi",
            header: &[0x4Du8, 0x5A],
            footer: None,
            max_size: (50 * MIB) as u64,
            category: "Firmware",
        },
        FileSignature {
            name: "BIOS ROM",
            extension: "rom",
            header: &[0x55u8, 0xAA],
            footer: None,
            max_size: (16 * MIB) as u64,
            category: "Firmware",
        },
    ]
}

/// Builds records 320 to 351 of the catalogue.
fn signatures_part_10() -> (sigs: Vec<FileSignature>)
    ensures
        sigs@ == catalogue_part_10(),
        sigs@.len() == 32,
        forall|i: int| 0 <= i < sigs@.len() ==> well_formed(#[trigger] sigs@[i]),
{
    let sigs = vec![
        FileSignature {
            name: "OpenOffice Writer",
            extension: "sxw",
            header: &[0x50, 0x4B, 0x03, 0x04],
            footer: None,
            max_size: 100 * MIB,
            category: "Documents",
        },
        FileSignature {
            name: "OpenOffice Calc",
            extension: "sxc",
            header: &[0x50, 0x4B, 0x03, 0x04],
            footer: None,
            max_size: 100 * MIB,
            category: "Documents",
        },
        FileSignature {
            name: "OpenOffice Impress",
            extension: "sxi",
            header: &[0x50, 0x4B, 0x03, 0x04],
            footer: None,
            max_size: 100 * MIB,
            category: "Documents",
        },
        FileSignature {
            name: "StarOffice",
            extension: "sdw",
            header: &[0x50, 0x4B, 0x03, 0x04],
            footer: None,
            max_size: 50 * MIB,
            category: "Documents",
        },
        FileSignature {
            name: "Microsoft Write",
            extension: "wri",
            header: &[0x31, 0xBE, 0x00, 0x00],
            footer: None,
            max_size: 10 * MIB,
            category: "Documents",
        },
        FileSignature {
            name: "Ami Pro",
            extension: "sam",
            header: &[0x5B, 0x76, 0x65, 0x72],
            footer: None,
            max_size: 50 * MIB,
            category: "Documents",
        },
        FileSignature {
            name: "STEP 3D",
            extension: "stp",
            header: &[0x49, 0x53, 0x4F, 0x2D, 0x31, 0x30, 0x33, 0x30, 0x33, 0x2D, 0x32, 0x31],
            footer: None,
            max_size: 500 * MIB,
            category: "CAD",
        },
        FileSignature {
            name: "IGES",
            extension: "igs",
            header: &[0x53, 0x20, 0x20, 0x20, 0x20, 0x20, 0x20, 0x20, 0x20, 0x20, 0x20, 0x20, 0x20, 0x20, 0x20, 0x20, 0x20, 0x20, 0x20, 0x20, 0x20, 0x20, 0x20, 0x20, 0x20, 0x20, 0x20, 0x20, 0x20, 0x20, 0x20, 0x20, 0x20, 0x20, 0x20, 0x20, 0x20, 0x20, 0x20, 0x20, 0x20, 0x20, 0x20, 0x20, 0x20, 0x20, 0x20, 0x20, 0x20, 0x20, 0x20, 0x31, 0x50],
            footer: None,
            max_size: 500 * MIB,
            category: "CAD",
        },
        FileSignature {
            name: "Parasolid",
            extension: "x_t",
            header: &[0x2A, 0x2A, 0x53, 0x43, 0x48, 0x45, 0x4D, 0x41],
            footer: None,
            max_size: 500 * MIB,
            category: "CAD",
        },
        FileSignature {
            name: "JT Open CAD",
            extension: "jt",
            header: &[0x56, 0x65, 0x72, 0x73, 0x69, 0x6F, 0x6E],
            footer: None,
            max_size: 1 * GIB,
            category: "CAD",
        },
        FileSignature {
            name: "NX Part",
            extension: "prt",
            header: &[0x55, 0x6E, 0x69, 0x67, 0x72, 0x61, 0x70, 0x68, 0x69, 0x63, 0x73],
            footer: None,
            max_size: 500 * MIB,
            category: "CAD",
        },
        FileSignature {
            name: "ACIS SAT",
            extension: "sat",
            header: &[0x34, 0x30, 0x30, 0x20, 0x30, 0x20],
            footer: None,
            max_size: 200 * MIB,
            category: "CAD",
        },
        FileSignature {
            name: "Alembic",
            extension: "abc",
            header: &[0x4F, 0x67, 0x67, 0x53],
            footer: None,
            max_size: 1 * GIB,
            category: "3D",
        },
        FileSignature {
            name: "PLY 3D",
            extension: "ply",
            header: &[0x70, 0x6C, 0x79, 0x0A],
            footer: None,
            max_size: 500 * MIB,
            category: "3D",
        },
        FileSignature {
            name: "OFF 3D",
            extension: "off",
            header: &[0x4F, 0x46, 0x46, 0x0A],
            footer: None,
            max_size: 200 * MIB,
            category: "3D",
        },
        FileSignature {
            name: "DirectX X",
            extension: "x",
            header: &[0x78, 0x6F, 0x66, 0x20],
            footer: None,
            max_size: 500 * MIB,
            category: "3D",
        },
        FileSignature {
            name: "AC3D",
            extension: "ac",
            header: &[0x41, 0x43, 0x33, 0x44],
            footer: None,
            max_size: 100 * MIB,
            category: "3D",
        },
        FileSignature {
            name: "Valve Model",
            extension: "mdl",
            header: &[0x49, 0x44, 0x53, 0x54],
            footer: None,
            max_size: 100 * MIB,
            category: "3D",
        },
        FileSignature {
            name: "Quake MD2",
            extension: "md2",
            header: &[0x49, 0x44, 0x50, 0x32],
            footer: None,
            max_size: 50 * MIB,
            category: "3D",
        },
        FileSignature {
            name: "Quake MD3",
            extension: "md3",
            header: &[0x49, 0x44, 0x50, 0x33],
            footer: None,
            max_size: 50 * MIB,
            category: "3D",
        },
        FileSignature {
            name: "Wavefront MTL",
            extension: "mtl",
            header: &[0x23, 0x20],
            footer: None,
            max_size: 10 * MIB,
            category: "3D",
        },
        FileSignature {
            name: "Microsoft SQL Database",
            extension: "mdf",
            header: &[0x01, 0x0F, 0x00, 0x00],
            footer: None,
            max_size: 100 * GIB,
            category: "Databases",
        },
        FileSignature {
            name: "SQL Server Log",
            extension: "ldf",
            header: &[0x01, 0x0F, 0x00, 0x00],
            footer: None,
            max_size: 100 * GIB,
            category: "Databases",
        },
        FileSignature {
            name: "InterBase Database",
            extension: "gdb",
            header: &[0x00, 0x00, 0x01, 0x00, 0x00, 0x00, 0x00, 0x00],
            footer: None,
            max_size: 10 * GIB,
            category: "Databases",
        },
        FileSignature {
            name: "FileMaker Pro",
            extension: "fp7",
            header: &[0x00, 0x01, 0x00, 0x00, 0x00, 0x00, 0x04, 0x00],
            footer: None,
            max_size: 5 * GIB,
            category: "Databases",
        },
        FileSignature {
            name: "Redis Dump",
            extension: "rdb",
            header: &[0x52, 0x45, 0x44, 0x49, 0x53],
            footer: None,
            max_size: 10 * GIB,
            category: "Databases",
        },
        FileSignature {
            name: "LevelDB",
            extension: "ldb",
            header: &[0x6C, 0x65, 0x76, 0x65, 0x6C, 0x64, 0x62],
            footer: None,
            max_size: 10 * GIB,
            category: "Databases",
        },
        FileSignature {
            name: "Berkeley DB",
            extension: "db",
            header: &[0x00, 0x05, 0x31, 0x62],
            footer: None,
            max_size: 10 * GIB,
            category: "Databases",
        },
        FileSignature {
            name: "Docker Image",
            extension: "dockerimage",
            header: &[0x7B, 0x22, 0x63, 0x6F, 0x6E, 0x66, 0x69, 0x67],
            footer: None,
            max_size: 10 * GIB,
            category: "Containers",
        },
        FileSignature {
            name: "OCI Image",
            extension: "oci",
            header: &[0x50, 0x4B, 0x03, 0x04],
            footer: None,
            max_size: 5 * GIB,
            category: "Containers",
        },
        FileSignature {
            name: "UEFI Firmware",
            extension: "efi",
            header: &[0x4D, 0x5A],
            footer: None,
            max_size: 50 * MIB,
            category: "Firmware",
        },
        FileSignature {
            name: "BIOS ROM",
            extension: "rom",
            header: &[0x55, 0xAA],
            footer: None,
            max_size: 16 * MIB,
            category: "Firmware",
        },
    ];
    assert(sigs@ =~= catalogue_part_10());
    sigs
}

/// Records 352 to 383 of the catalogue.
pub open spec fn catalogue_part_11() -> Seq<FileSignature> {
    seq![
        FileSignature {
            name: "Intel HEX",
            extension: "hex",
            header: &[0x3Au8, 0x31, 0x30],
            footer: None,
            max_size: (10 * MIB) as u64,
            category: "Firmware",
        },
        FileSignature {
            name: "Motorola S-Record",
            extension: "s19",
            header: &[0x53u8, 0x30],
            footer: None,
            max_size: (10 * MIB) as u64,
            category: "Firmware",
        },
        FileSignature {
            name: "Kindle AZW",
            extension: "azw",
            header: &[0x00u8, 0x00, 0x00, 0x00, 0x00, 0x00, 0x00, 0x00, 0x00, 0x00, 0x00, 0x00, 0x00, 0x00, 0x00, 0x00, 0x00, 0x00, 0x00, 0x00, 0x00, 0x00, 0x00, 0x00, 0x00, 0x00, 0x00, 0x00, 0x00, 0x00, 0x00, 0x00, 0x00, 0x00, 0x00, 0x00, 0x00, 0x00, 0x00, 0x00, 0x00, 0x00, 0x00, 0x00, 0x00, 0x00, 0x00, 0x00, 0x00, 0x00, 0x00, 0x00, 0x00, 0x00, 0x00, 0x00, 0x00, 0x00, 0x00, 0x00, 0x54, 0x50, 0x5A],
            footer: None,
            max_size: (100 * MIB) as u64,
            category: "Documents",
        },
        FileSignature {
            name: "iBooks Author",
            extension: "ibooks",
            header: &[0x50u8, 0x4B, 0x03, 0x04],
            footer: None,
            max_size: (500 * MIB) as u64,
            category: "Documents",
        },
        FileSignature {
            name: "TCR eBook",
            extension: "tcr",
            header: &[0x5Au8, 0x42, 0x33],
            footer: None,
            max_size: (20 * MIB) as u64,
            category: "Documents",
        },
        FileSignature {
            name: "PDB Palm Database",
            extension: "pdb",
            header: &[0x00u8, 0x00, 0x00, 0x00, 0x00, 0x00, 0x00, 0x00, 0x00, 0x00, 0x00, 0x00, 0x00, 0x00, 0x00, 0x00, 0x00, 0x00, 0x00, 0x00, 0x00, 0x00, 0x00, 0x00, 0x00, 0x00, 0x00, 0x00, 0x00, 0x00, 0x00, 0x00],
            footer: None,
            max_size: (50 * MIB) as u64,
            category: "Documents",
        },
        FileSignature {
            name: "Bitmap Font",
            extension: "fnt",
            header: &[0x4Du8, 0x5A],
            footer: None,
            max_size: (5 * MIB) as u64,
            category: "Fonts",
        },
        FileSignature {
            name: "X11 Bitmap Distribution Format",
            extension: "bdf",
            header: &[0x53u8, 0x54, 0x41, 0x52, 0x54, 0x46, 0x4F, 0x4E, 0x54],
            footer: None,
            max_size: (5 * MIB) as u64,
            category: "Fonts",
        },
        FileSignature {
            name: "PostScript Type 1",
            extension: "pfa",
            header: &[0x25u8, 0x21, 0x50, 0x53, 0x2D, 0x41, 0x64, 0x6F, 0x62, 0x65, 0x46, 0x6F, 0x6E, 0x74],
            footer: None,
            max_size: (5 * MIB) as u64,
            category: "Fonts",
        },
        FileSignature {
            name: "PCAP Packet Capture",
            extension: "pcap",
            header: &[0xD4u8, 0xC3, 0xB2, 0xA1],
            footer: None,
            max_size: (10 * GIB) as u64,
            category: "Network",
        },
        FileSignature {
            name: "PCAPNG",
            extension: "pcapng",
            header: &[0x0Au8, 0x0D, 0x0D, 0x0A],
            footer: None,
            max_size: (10 * GIB) as u64,
            category: "Network",
        },
        FileSignature {
            name: "Wireshark Capture",
            extension: "snoop",
            header: &[0x73u8, 0x6E, 0x6F, 0x6F, 0x70],
            footer: None,
            max_size: (5 * GIB) as u64,
            category: "Network",
        },
        FileSignature {
            name: "Network Monitor Capture",
            extension: "cap",
            header: &[0x52u8, 0x54, 0x53, 0x53],
            footer: None,
            max_size: (5 * GIB) as u64,
            category: "Network",
        },
        FileSignature {
            name: "Core Dump",
            extension: "core",
            header: &[0x7Fu8, 0x45, 0x4C, 0x46],
            footer: None,
            max_size: (10 * GIB) as u64,
            category: "System",
        },
        FileSignature {
            name: "Windows Minidump",
            extension: "dmp",
            header: &[0x4Du8, 0x44, 0x4D, 0x50, 0x93, 0xA7],
            footer: None,
            max_size: (10 * GIB) as u64,
            category: "System",
        },
        FileSignature {
            name: "Windows Memory Dump",
            extension: "hdmp",
            header: &[0x50u8, 0x41, 0x47, 0x45, 0x44, 0x55],
            footer: None,
            max_size: (100 * GIB) as u64,
            category: "System",
        },
        FileSignature {
            name: "ext2/3/4 Filesystem",
            extension: "ext4",
            header: &[0x53u8, 0xEF],
            footer: None,
            max_size: (100 * GIB) as u64,
            category: "System",
        },
        FileSignature {
            name: "XFS Filesystem",
            extension: "xfs",
            header: &[0x58u8, 0x46, 0x53, 0x42],
            footer: None,
            max_size: (100 * GIB) as u64,
            category: "System",
        },
        FileSignature {
            name: "Btrfs Filesystem",
            extension: "btrfs",
            header: &[0x5Fu8, 0x42, 0x48, 0x52, 0x66, 0x53, 0x5F, 0x4D],
            footer: None,
            max_size: (100 * GIB) as u64,
            category: "System",
        },
        FileSignature {
            name: "ZFS Filesystem",
            extension: "zfs",
            header: &[0x00u8, 0x00, 0x00, 0x00, 0x00, 0xBA, 0xB1, 0x0C],
            footer: None,
            max_size: (100 * GIB) as u64,
            category: "System",
        },
        FileSignature {
            name: "ReiserFS",
            extension: "reiserfs",
            header: &[0x52u8, 0x65, 0x49, 0x73, 0x45, 0x72, 0x46, 0x73],
            footer: None,
            max_size: (100 * GIB) as u64,
            category: "System",
        },
        FileSignature {
            name: "JFS Filesystem",
            extension: "jfs",
            header: &[0x4Au8, 0x46, 0x53, 0x31],
            footer: None,
            max_size: (100 * GIB) as u64,
            category: "System",
        },
        FileSignature {
            name: "F2FS Filesystem",
            extension: "f2fs",
            header: &[0x10u8, 0x20, 0xF5, 0xF2],
            footer: None,
            max_size: (100 * GIB) as u64,
            category: "System",
        },
        FileSignature {
            name: "APFS Filesystem",
            extension: "apfs",
            header: &[0x4Eu8, 0x58, 0x53, 0x42],
            footer: None,
            max_size: (100 * GIB) as u64,
            category: "System",
        },
        FileSignature {
            name: "HFS+ Filesystem",
            extension: "hfsplus",
            header: &[0x48u8, 0x2B, 0x00, 0x04],
            footer: None,
            max_size: (100 * GIB) as u64,
            category: "System",
        },
        FileSignature {
            name: "FAT12 Filesystem",
            extension: "fat12",
            header: &[0xEBu8, 0x3C, 0x90],
            footer: None,
            max_size: (10 * GIB) as u64,
            category: "System",
        },
        FileSignature {
            name: "FAT16 Filesystem",
            extension: "fat16",
            header: &[0xEBu8, 0x52, 0x90],
            footer: None,
            max_size: (50 * GIB) as u64,
            category: "System",
        },
        FileSignature {
            name: "FAT32 Filesystem",
            extension: "fat32",
            header: &[0xEBu8, 0x58, 0x90],
            footer: None,
            max_size: (100 * GIB) as u64,
            category: "System",
        },
        FileSignature {
            name: "exFAT Filesystem",
            extension: "exfat",
            header: &[0xEBu8, 0x76, 0x90],
            footer: None,
            max_size: (100 * GIB) as u64,
            category: "System",
        },
        FileSignature {
            name: "UDF Filesystem",
            extension: "udf",
            header: &[0x00u8, 0x42, 0x45, 0x41, 0x30, 0x31],
            footer: None,
            max_size: (100 * GIB) as u64,
            category: "System",
        },
        FileSignature {
            name: "NTFS MFT",
            extension: "mft",
            header: &[0x46u8, 0x49, 0x4C, 0x45],
            footer: None,
            max_size: (10 * GIB) as u64,
            category: "System",
        },
        FileSignature {
            name: "LUKS Encrypted Volume",
            extension: "luks",
            header: &[0x4Cu8, 0x55, 0x4B, 0x53, 0xBA, 0xBE],
            footer: None,
            max_size: (100 * GIB) as u64,
            category: "Encryption",
        },
    ]
}

/// Builds records 352 to 383 of the catalogue.
fn signatures_part_11() -> (sigs: Vec<FileSignature>)
    ensures
        sigs@ == catalogue_part_11(),
        sigs@.len() == 32,
        forall|i: int| 0 <= i < sigs@.len() ==> well_formed(#[trigger] sigs@[i]),
{
    let sigs = vec![
        FileSignature {
            name: "Intel HEX",
            extension: "hex",
            header: &[0x3A, 0x31, 0x30],
            footer: None,
            max_size: 10 * MIB,
            category: "Firmware",
        },
        FileSignature {
            name: "Motorola S-Record",
            extension: "s19",
            header: &[0x53, 0x30],
            footer: None,
            max_size: 10 * MIB,
            category: "Firmware",
        },
        FileSignature {
            name: "Kindle AZW",
            extension: "azw",
            header: &[0x00, 0x00, 0x00, 0x00, 0x00, 0x00, 0x00, 0x00, 0x00, 0x00, 0x00, 0x00, 0x00, 0x00, 0x00, 0x00, 0x00, 0x00, 0x00, 0x00, 0x00, 0x00, 0x00, 0x00, 0x00, 0x00, 0x00, 0x00, 0x00, 0x00, 0x00, 0x00, 0x00, 0x00, 0x00, 0x00, 0x00, 0x00, 0x00, 0x00, 0x00, 0x00, 0x00, 0x00, 0x00, 0x00, 0x00, 0x00, 0x00, 0x00, 0x00, 0x00, 0x00, 0x00, 0x00, 0x00, 0x00, 0x00, 0x00, 0x00, 0x54, 0x50, 0x5A],
            footer: None,
            max_size: 100 * MIB,
            category: "Documents",
        },
        FileSignature {
            name: "iBooks Author",
            extension: "ibooks",
            header: &[0x50, 0x4B, 0x03, 0x04],
            footer: None,
            max_size: 500 * MIB,
            category: "Documents",
        },
        FileSignature {
            name: "TCR eBook",
            extension: "tcr",
            header: &[0x5A, 0x42, 0x33],
            footer: None,
            max_size: 20 * MIB,
            category: "Documents",
        },
        FileSignature {
            name: "PDB Palm Database",
            extension: "pdb",
            header: &[0x00, 0x00, 0x00, 0x00, 0x00, 0x00, 0x00, 0x00, 0x00, 0x00, 0x00, 0x00, 0x00, 0x00, 0x00, 0x00, 0x00, 0x00, 0x00, 0x00, 0x00, 0x00, 0x00, 0x00, 0x00, 0x00, 0x00, 0x00, 0x00, 0x00, 0x00, 0x00],
            footer: None,
            max_size: 50 * MIB,
            category: "Documents",
        },
        FileSignature {
            name: "Bitmap Font",
            extension: "fnt",
            header: &[0x4D, 0x5A],
            footer: None,
            max_size: 5 * MIB,
            category: "Fonts",
        },
        FileSignature {
            name: "X11 Bitmap Distribution Format",
            extension: "bdf",
            header: &[0x53, 0x54, 0x41, 0x52, 0x54, 0x46, 0x4F, 0x4E, 0x54],
            footer: None,
            max_size: 5 * MIB,
            category: "Fonts",
        },
        FileSignature {
            name: "PostScript Type 1",
            extension: "pfa",
            header: &[0x25, 0x21, 0x50, 0x53, 0x2D, 0x41, 0x64, 0x6F, 0x62, 0x65, 0x46, 0x6F, 0x6E, 0x74],
            footer: None,
            max_size: 5 * MIB,
            category: "Fonts",
        },
        FileSignature {
            name: "PCAP Packet Capture",
            extension: "pcap",
            header: &[0xD4, 0xC3, 0xB2, 0xA1],
            footer: None,
            max_size: 10 * GIB,
            category: "Network",
        },
        FileSignature {
            name: "PCAPNG",
            extension: "pcapng",
            header: &[0x0A, 0x0D, 0x0D, 0x0A],
            footer: None,
            max_size: 10 * GIB,
            category: "Network",
        },
        FileSignature {
            name: "Wireshark Capture",
            extension: "snoop",
            header: &[0x73, 0x6E, 0x6F, 0x6F, 0x70],
            footer: None,
            max_size: 5 * GIB,
            category: "Network",
        },
        FileSignature {
            name: "Network Monitor Capture",
            extension: "cap",
            header: &[0x52, 0x54, 0x53, 0x53],
            footer: None,
            max_size: 5 * GIB,
            category: "Network",
        },
        FileSignature {
            name: "Core Dump",
            extension: "core",
            header: &[0x7F, 0x45, 0x4C, 0x46],
            footer: None,
            max_size: 10 * GIB,
            category: "System",
        },
        FileSignature {
            name: "Windows Minidump",
            extension: "dmp",
            header: &[0x4D, 0x44, 0x4D, 0x50, 0x93, 0xA7],
            footer: None,
            max_size: 10 * GIB,
            category: "System",
        },
        FileSignature {
            name: "Windows Memory Dump",
            extension: "hdmp",
            header: &[0x50, 0x41, 0x47, 0x45, 0x44, 0x55],
            footer: None,
            max_size: 100 * GIB,
            category: "System",
        },
        FileSignature {
            name: "ext2/3/4 Filesystem",
            extension: "ext4",
            header: &[0x53, 0xEF],
            footer: None,
            max_size: 100 * GIB,
            category: "System",
        },
        FileSignature {
            name: "XFS Filesystem",
            extension: "xfs",
            header: &[0x58, 0x46, 0x53, 0x42],
            footer: None,
            max_size: 100 * GIB,
            category: "System",
        },
        FileSignature {
            name: "Btrfs Filesystem",
            extension: "btrfs",
            header: &[0x5F, 0x42, 0x48, 0x52, 0x66, 0x53, 0x5F, 0x4D],
            footer: None,
            max_size: 100 * GIB,
            category: "System",
        },
        FileSignature {
            name: "ZFS Filesystem",
            extension: "zfs",
            header: &[0x00, 0x00, 0x00, 0x00, 0x00, 0xBA, 0xB1, 0x0C],
            footer: None,
            max_size: 100 * GIB,
            category: "System",
        },
        FileSignature {
            name: "ReiserFS",
            extension: "reiserfs",
            header: &[0x52, 0x65, 0x49, 0x73, 0x45, 0x72, 0x46, 0x73],
            footer: None,
            max_size: 100 * GIB,
            category: "System",
        },
        FileSignature {
            name: "JFS Filesystem",
            extension: "jfs",
            header: &[0x4A, 0x46, 0x53, 0x31],
            footer: None,
            max_size: 100 * GIB,
            category: "System",
        },
        FileSignature {
            name: "F2FS Filesystem",
            extension: "f2fs",
            header: &[0x10, 0x20, 0xF5, 0xF2],
            footer: None,
            max_size: 100 * GIB,
            category: "System",
        },
        FileSignature {
            name: "APFS Filesystem",
            extension: "apfs",
            header: &[0x4E, 0x58, 0x53, 0x42],
            footer: None,
            max_size: 100 * GIB,
            category: "System",
        },
        FileSignature {
            name: "HFS+ Filesystem",
            extension: "hfsplus",
            header: &[0x48, 0x2B, 0x00, 0x04],
            footer: None,
            max_size: 100 * GIB,
            category: "System",
        },
        FileSignature {
            name: "FAT12 Filesystem",
            extension: "fat12",
            header: &[0xEB, 0x3C, 0x90],
            footer: None,
            max_size: 10 * GIB,
            category: "System",
        },
        FileSignature {
            name: "FAT16 Filesystem",
            extension: "fat16",
            header: &[0xEB, 0x52, 0x90],
            footer: None,
            max_size: 50 * GIB,
            category: "System",
        },
        FileSignature {
            name: "FAT32 Filesystem",
            extension: "fat32",
            header: &[0xEB, 0x58, 0x90],
            footer: None,
            max_size: 100 * GIB,
            category: "System",
        },
        FileSignature {
            name: "exFAT Filesystem",
            extension: "exfat",
            header: &[0xEB, 0x76, 0x90],
            footer: None,
            max_size: 100 * GIB,
            category: "System",
        },
        FileSignature {
            name: "UDF Filesystem",
            extension: "udf",
            header: &[0x00, 0x42, 0x45, 0x41, 0x30, 0x31],
            footer: None,
            max_size: 100 * GIB,
            category: "System",
        },
        FileSignature {
            name: "NTFS MFT",
            extension: "mft",
            header: &[0x46, 0x49, 0x4C, 0x45],
            footer: None,
            max_size: 10 * GIB,
            category: "System",
        },
        FileSignature {
            name: "LUKS Encrypted Volume",
            extension: "luks",
            header: &[0x4C, 0x55, 0x4B, 0x53, 0xBA, 0xBE],
            footer: None,
            max_size: 100 * GIB,
            category: "Encryption",
        },
    ];
    assert(sigs@ =~= catalogue_part_11());
    sigs
}

/// Records 384 to 415 of the catalogue.
pub open spec fn catalogue_part_12() -> Seq<FileSignature> {
    seq![
        FileSignature {
            name: "VeraCrypt Volume",
            extension: "vc",
            header: &[0x56u8, 0x45, 0x52, 0x41],
            footer: None,
            max_size: (100 * GIB) as u64,
            category: "Encryption",
        },
        FileSignature {
            name: "TrueCrypt Volume",
            extension: "tc",
            header: &[0x54u8, 0x52, 0x55, 0x45],
            footer: None,
            max_size: (100 * GIB) as u64,
            category: "Encryption",
        },
        FileSignature {
            name: "BitLocker Volume",
            extension: "bde",
            header: &[0x2Du8, 0x46, 0x56, 0x45, 0x2D, 0x46, 0x53, 0x2D],
            footer: None,
            max_size: (100 * GIB) as u64,
            category: "Encryption",
        },
        FileSignature {
            name: "PGP Encrypted Message",
            extension: "pgp",
            header: &[0x2Du8, 0x2D, 0x2D, 0x2D, 0x2D, 0x42, 0x45, 0x47, 0x49, 0x4E, 0x20, 0x50, 0x47, 0x50],
            footer: None,
            max_size: (100 * MIB) as u64,
            category: "Encryption",
        },
        FileSignature {
            name: "GnuPG Keyring",
            extension: "gpg",
            header: &[0x99u8, 0x01],
            footer: None,
            max_size: (10 * MIB) as u64,
            category: "Encryption",
        },
        FileSignature {
            name: "SSH Private Key",
            extension: "pem",
            header: &[0x2Du8, 0x2D, 0x2D, 0x2D, 0x2D, 0x42, 0x45, 0x47, 0x49, 0x4E, 0x20, 0x4F, 0x50, 0x45, 0x4E, 0x53, 0x53, 0x48],
            footer: None,
            max_size: (10 * KIB) as u64,
            category: "Security",
        },
        FileSignature {
            name: "Java Keystore",
            extension: "jks",
            header: &[0xFEu8, 0xED, 0xFE, 0xED],
            footer: None,
            max_size: (10 * MIB) as u64,
            category: "Security",
        },
        FileSignature {
            name: "PKCS#7 Certificate",
            extension: "p7b",
            header: &[0x30u8, 0x82],
            footer: None,
            max_size: (1 * MIB) as u64,
            category: "Security",
        },
        FileSignature {
            name: "Acronis True Image",
            extension: "tib",
            header: &[0xB4u8, 0x6E, 0x68, 0x44],
            footer: None,
            max_size: (100 * GIB) as u64,
            category: "Backup",
        },
        FileSignature {
            name: "Macrium Reflect",
            extension: "mrimg",
            header: &[0x4Du8, 0x52, 0x49, 0x4D, 0x47],
            footer: None,
            max_size: (100 * GIB) as u64,
            category: "Backup",
        },
        FileSignature {
            name: "Veeam Backup",
            extension: "vbk",
            header: &[0x56u8, 0x45, 0x45, 0x41, 0x4D],
            footer: None,
            max_size: (100 * GIB) as u64,
            category: "Backup",
        },
        FileSignature {
            name: "Norton Ghost",
            extension: "gho",
            header: &[0xFEu8, 0xEF, 0x00, 0x00],
            footer: None,
            max_size: (100 * GIB) as u64,
            category: "Backup",
        },
        FileSignature {
            name: "Windows Backup",
            extension: "bkf",
            header: &[0x54u8, 0x41, 0x50, 0x45],
            footer: None,
            max_size: (50 * GIB) as u64,
            category: "Backup",
        },
        FileSignature {
            name: "EnCase Evidence File",
            extension: "e01",
            header: &[0x45u8, 0x56, 0x46, 0x09, 0x0D, 0x0A, 0xFF, 0x00],
            footer: None,
            max_size: (100 * GIB) as u64,
            category: "Forensics",
        },
        FileSignature {
            name: "FTK Imager",
            extension: "ad1",
            header: &[0x41u8, 0x44, 0x31, 0x00],
            footer: None,
            max_size: (100 * GIB) as u64,
            category: "Forensics",
        },
        FileSignature {
            name: "AFF Forensic Format",
            extension: "aff",
            header: &[0x41u8, 0x46, 0x46, 0x00],
            footer: None,
            max_size: (100 * GIB) as u64,
            category: "Forensics",
        },
        FileSignature {
            name: "Raw DD Image",
            extension: "dd",
            header: &[0x00u8, 0x00],
            footer: None,
            max_size: (100 * GIB) as u64,
            category: "Forensics",
        },
        FileSignature {
            name: "PKZIP Multi-Volume",
            extension: "z01",
            header: &[0x50u8, 0x4B, 0x07, 0x08],
            footer: None,
            max_size: (10 * GIB) as u64,
            category: "Archives",
        },
        FileSignature {
            name: "Split RAR Archive",
            extension: "r00",
            header: &[0x52u8, 0x61, 0x72, 0x21, 0x1A, 0x07, 0x01],
            footer: None,
            max_size: (5 * GIB) as u64,
            category: "Archives",
        },
        FileSignature {
            name: "PAR2 Recovery",
            extension: "par2",
            header: &[0x50u8, 0x41, 0x52, 0x32],
            footer: None,
            max_size: (1 * GIB) as u64,
            category: "Archives",
        },
        FileSignature {
            name: "UUEncode",
            extension: "uue",
            header: &[0x62u8, 0x65, 0x67, 0x69, 0x6E, 0x20],
            footer: None,
            max_size: (100 * MIB) as u64,
            category: "Archives",
        },
        FileSignature {
            name: "mbox Format",
            extension: "mbox",
            header: &[0x46u8, 0x72, 0x6F, 0x6D, 0x20],
            footer: None,
            max_size: (5 * GIB) as u64,
            category: "Email",
        },
        FileSignature {
            name: "MIME Message",
            extension: "mime",
            header: &[0x2Du8, 0x2D, 0x2D, 0x2D, 0x2D, 0x2D],
            footer: None,
            max_size: (100 * MIB) as u64,
            category: "Email",
        },
        FileSignature {
            name: "TNEF Attachment",
            extension: "dat",
            header: &[0x78u8, 0x9F, 0x3E, 0x22],
            footer: None,
            max_size: (100 * MIB) as u64,
            category: "Email",
        },
        FileSignature {
            name: "S/MIME Message",
            extension: "p7m",
            header: &[0x30u8, 0x82],
            footer: None,
            max_size: (100 * MIB) as u64,
            category: "Email",
        },
        FileSignature {
            name: "LLVM Bitcode",
            extension: "bc",
            header: &[0x42u8, 0x43, 0xC0, 0xDE],
            footer: None,
            max_size: (100 * MIB) as u64,
            category: "Code",
        },
        FileSignature {
            name: "WebAssembly Binary",
            extension: "wasm",
            header: &[0x00u8, 0x61, 0x73, 0x6D],
            footer: None,
            max_size: (100 * MIB) as u64,
            category: "Code",
        },
        FileSignature {
            name: "Jupyter Notebook",
            extension: "ipynb",
            header: &[0x7Bu8, 0x0A, 0x20, 0x22, 0x63, 0x65, 0x6C, 0x6C, 0x73, 0x22],
            footer: None,
            max_size: (100 * MIB) as u64,
            category: "Code",
        },
        FileSignature {
            name: "NuGet Package",
            extension: "nupkg",
            header: &[0x50u8, 0x4B, 0x03, 0x04],
            footer: None,
            max_size: (500 * MIB) as u64,
            category: "Code",
        },
        FileSignature {
            name: "Python Wheel",
            extension: "whl",
            header: &[0x50u8, 0x4B, 0x03, 0x04],
            footer: None,
            max_size: (500 * MIB) as u64,
            category: "Code",
        },
        FileSignature {
            name: "Python Egg",
            extension: "egg",
            header: &[0x50u8, 0x4B, 0x03, 0x04],
            footer: None,
            max_size: (100 * MIB) as u64,
            category: "Code",
        },
        FileSignature {
            name: "RubyGem Package",
            extension: "gem",
            header: &[0x1Fu8, 0x8B, 0x08],
            footer: None,
            max_size: (100 * MIB) as u64,
            category: "Code",
        },
    ]
}

/// Builds records 384 to 415 of the catalogue.
fn signatures_part_12() -> (sigs: Vec<FileSignature>)
    ensures
        sigs@ == catalogue_part_12(),
        sigs@.len() == 32,
        forall|i: int| 0 <= i < sigs@.len() ==> well_formed(#[trigger] sigs@[i]),
{
    let sigs = vec![
        FileSignature {
            name: "VeraCrypt Volume",
            extension: "vc",
            header: &[0x56, 0x45, 0x52, 0x41],
            footer: None,
            max_size: 100 * GIB,
            category: "Encryption",
        },
        FileSignature {
            name: "TrueCrypt Volume",
            extension: "tc",
            header: &[0x54, 0x52, 0x55, 0x45],
            footer: None,
            max_size: 100 * GIB,
            category: "Encryption",
        },
        FileSignature {
            name: "BitLocker Volume",
            extension: "bde",
            header: &[0x2D, 0x46, 0x56, 0x45, 0x2D, 0x46, 0x53, 0x2D],
            footer: None,
            max_size: 100 * GIB,
            category: "Encryption",
        },
        FileSignature {
            name: "PGP Encrypted Message",
            extension: "pgp",
            header: &[0x2D, 0x2D, 0x2D, 0x2D, 0x2D, 0x42, 0x45, 0x47, 0x49, 0x4E, 0x20, 0x50, 0x47, 0x50],
            footer: None,
            max_size: 100 * MIB,
            category: "Encryption",
        },
        FileSignature {
            name: "GnuPG Keyring",
            extension: "gpg",
            header: &[0x99, 0x01],
            footer: None,
            max_size: 10 * MIB,
            category: "Encryption",
        },
        FileSignature {
            name: "SSH Private Key",
            extension: "pem",
            header: &[0x2D, 0x2D, 0x2D, 0x2D, 0x2D, 0x42, 0x45, 0x47, 0x49, 0x4E, 0x20, 0x4F, 0x50, 0x45, 0x4E, 0x53, 0x53, 0x48],
            footer: None,
            max_size: 10 * KIB,
            category: "Security",
        },
        FileSignature {
            name: "Java Keystore",
            extension: "jks",
            header: &[0xFE, 0xED, 0xFE, 0xED],
            footer: None,
            max_size: 10 * MIB,
            category: "Security",
        },
        FileSignature {
            name: "PKCS#7 Certificate",
            extension: "p7b",
            header: &[0x30, 0x82],
            footer: None,
            max_size: 1 * MIB,
            category: "Security",
        },
        FileSignature {
            name: "Acronis True Image",
            extension: "tib",
            header: &[0xB4, 0x6E, 0x68, 0x44],
            footer: None,
            max_size: 100 * GIB,
            category: "Backup",
        },
        FileSignature {
            name: "Macrium Reflect",
            extension: "mrimg",
            header: &[0x4D, 0x52, 0x49, 0x4D, 0x47],
            footer: None,
            max_size: 100 * GIB,
            category: "Backup",
        },
        FileSignature {
            name: "Veeam Backup",
            extension: "vbk",
            header: &[0x56, 0x45, 0x45, 0x41, 0x4D],
            footer: None,
            max_size: 100 * GIB,
            category: "Backup",
        },
        FileSignature {
            name: "Norton Ghost",
            extension: "gho",
            header: &[0xFE, 0xEF, 0x00, 0x00],
            footer: None,
            max_size: 100 * GIB,
            category: "Backup",
        },
        FileSignature {
            name: "Windows Backup",
            extension: "bkf",
            header: &[0x54, 0x41, 0x50, 0x45],
            footer: None,
            max_size: 50 * GIB,
            category: "Backup",
        },
        FileSignature {
            name: "EnCase Evidence File",
            extension: "e01",
            header: &[0x45, 0x56, 0x46, 0x09, 0x0D, 0x0A, 0xFF, 0x00],
            footer: None,
            max_size: 100 * GIB,
            category: "Forensics",
        },
        FileSignature {
            name: "FTK Imager",
            extension: "ad1",
            header: &[0x41, 0x44, 0x31, 0x00],
            footer: None,
            max_size: 100 * GIB,
            category: "Forensics",
        },
        FileSignature {
            name: "AFF Forensic Format",
            extension: "aff",
            header: &[0x41, 0x46, 0x46, 0x00],
            footer: None,
            max_size: 100 * GIB,
            category: "Forensics",
        },
        FileSignature {
            name: "Raw DD Image",
            extension: "dd",
            header: &[0x00, 0x00],
            footer: None,
            max_size: 100 * GIB,
            category: "Forensics",
        },
        FileSignature {
            name: "PKZIP Multi-Volume",
            extension: "z01",
            header: &[0x50, 0x4B, 0x07, 0x08],
            footer: None,
            max_size: 10 * GIB,
            category: "Archives",
        },
        FileSignature {
            name: "Split RAR Archive",
            extension: "r00",
            header: &[0x52, 0x61, 0x72, 0x21, 0x1A, 0x07, 0x01],
            footer: None,
            max_size: 5 * GIB,
            category: "Archives",
        },
        FileSignature {
            name: "PAR2 Recovery",
            extension: "par2",
            header: &[0x50, 0x41, 0x52, 0x32],
            footer: None,
            max_size: 1 * GIB,
            category: "Archives",
        },
        FileSignature {
            name: "UUEncode",
            extension: "uue",
            header: &[0x62, 0x65, 0x67, 0x69, 0x6E, 0x20],
            footer: None,
            max_size: 100 * MIB,
            category: "Archives",
        },
        FileSignature {
            name: "mbox Format",
            extension: "mbox",
            header: &[0x46, 0x72, 0x6F, 0x6D, 0x20],
            footer: None,
            max_size: 5 * GIB,
            category: "Email",
        },
        FileSignature {
            name: "MIME Message",
            extension: "mime",
            header: &[0x2D, 0x2D, 0x2D, 0x2D, 0x2D, 0x2D],
            footer: None,
            max_size: 100 * MIB,
            category: "Email",
        },
        FileSignature {
            name: "TNEF Attachment",
            extension: "dat",
            header: &[0x78, 0x9F, 0x3E, 0x22],
            footer: None,
            max_size: 100 * MIB,
            category: "Email",
        },
        FileSignature {
            name: "S/MIME Message",
            extension: "p7m",
            header: &[0x30, 0x82],
            footer: None,
            max_size: 100 * MIB,
            category: "Email",
        },
        FileSignature {
            name: "LLVM Bitcode",
            extension: "bc",
            header: &[0x42, 0x43, 0xC0, 0xDE],
            footer: None,
            max_size: 100 * MIB,
            category: "Code",
        },
        FileSignature {
            name: "WebAssembly Binary",
            extension: "wasm",
            header: &[0x00, 0x61, 0x73, 0x6D],
            footer: None,
            max_size: 100 * MIB,
            category: "Code",
        },
        FileSignature {
            name: "Jupyter Notebook",
            extension: "ipynb",
            header: &[0x7B, 0x0A, 0x20, 0x22, 0x63, 0x65, 0x6C, 0x6C, 0x73, 0x22],
            footer: None,
            max_size: 100 * MIB,
            category: "Code",
        },
        FileSignature {
            name: "NuGet Package",
            extension: "nupkg",
            header: &[0x50, 0x4B, 0x03, 0x04],
            footer: None,
            max_size: 500 * MIB,
            category: "Code",
        },
        FileSignature {
            name: "Python Wheel",
            extension: "whl",
            header: &[0x50, 0x4B, 0x03, 0x04],
            footer: None,
            max_size: 500 * MIB,
            category: "Code",
        },
        FileSignature {
            name: "Python Egg",
            extension: "egg",
            header: &[0x50, 0x4B, 0x03, 0x04],
            footer: None,
            max_size: 100 * MIB,
            category: "Code",
        },
        FileSignature {
            name: "RubyGem Package",
            extension: "gem",
            header: &[0x1F, 0x8B, 0x08],
            footer: None,
            max_size: 100 * MIB,
            category: "Code",
        },
    ];
    assert(sigs@ =~= catalogue_part_12());
    sigs
}

/// Records 416 to 447 of the catalogue.
pub open spec fn catalogue_part_13() -> Seq<FileSignature> {
    seq![
        FileSignature {
            name: "iOS App Package",
            extension: "ipa",
            header: &[0x50u8, 0x4B, 0x03, 0x04],
            footer: None,
            max_size: (5 * GIB) as u64,
            category: "Executables",
        },
        FileSignature {
            name: "Android App Bundle",
            extension: "aab",
            header: &[0x50u8, 0x4B, 0x03, 0x04],
            footer: None,
            max_size: (2 * GIB) as u64,
            category: "Executables",
        },
        FileSignature {
            name: "MSIX Package",
            extension: "msix",
            header: &[0x50u8, 0x4B, 0x03, 0x04],
            footer: None,
            max_size: (5 * GIB) as u64,
            category: "Executables",
        },
        FileSignature {
            name: "Chrome Extension",
            extension: "crx",
            header: &[0x43u8, 0x72, 0x32, 0x34],
            footer: None,
            max_size: (100 * MIB) as u64,
            category: "Executables",
        },
        FileSignature {
            name: "Firefox Extension",
            extension: "xpi",
            header: &[0x50u8, 0x4B, 0x03, 0x04],
            footer: None,
            max_size: (100 * MIB) as u64,
            category: "Executables",
        },
        FileSignature {
            name: "Web App Archive",
            extension: "war",
            header: &[0x50u8, 0x4B, 0x03, 0x04],
            footer: None,
            max_size: (500 * MIB) as u64,
            category: "Executables",
        },
        FileSignature {
            name: "Windows Driver",
            extension: "sys",
            header: &[0x4Du8, 0x5A],
            footer: None,
            max_size: (50 * MIB) as u64,
            category: "Executables",
        },
        FileSignature {
            name: "Linux Kernel Module",
            extension: "ko",
            header: &[0x7Fu8, 0x45, 0x4C, 0x46],
            footer: None,
            max_size: (50 * MIB) as u64,
            category: "Executables",
        },
        FileSignature {
            name: "ActiveX Control",
            extension: "ocx",
            header: &[0x4Du8, 0x5A],
            footer: None,
            max_size: (50 * MIB) as u64,
            category: "Executables",
        },
        FileSignature {
            name: "COM Component",
            extension: "cpl",
            header: &[0x4Du8, 0x5A],
            footer: None,
            max_size: (20 * MIB) as u64,
            category: "Executables",
        },
        FileSignature {
            name: "PCAP Network Capture",
            extension: "pcap",
            header: &[0xD4u8, 0xC3, 0xB2, 0xA1],
            footer: None,
            max_size: (10 * GIB) as u64,
            category: "Network",
        },
        FileSignature {
            name: "PCAPNG Capture",
            extension: "pcapng",
            header: &[0x0Au8, 0x0D, 0x0D, 0x0A],
            footer: None,
            max_size: (10 * GIB) as u64,
            category: "Network",
        },
        FileSignature {
            name: "RDP Session File",
            extension: "rdp",
            header: &[0x73u8, 0x63, 0x72, 0x65, 0x65, 0x6E, 0x20, 0x6D, 0x6F, 0x64, 0x65],
            footer: None,
            max_size: (100 * KIB) as u64,
            category: "Network",
        },
        FileSignature {
            name: "VNC Session",
            extension: "vnc",
            header: &[0x52u8, 0x46, 0x42, 0x20],
            footer: None,
            max_size: (10 * KIB) as u64,
            category: "Network",
        },
        FileSignature {
            name: "R Markdown",
            extension: "rmd",
            header: &[0x2Du8, 0x2D, 0x2D, 0x0A, 0x74, 0x69, 0x74, 0x6C, 0x65],
            footer: None,
            max_size: (10 * MIB) as u64,
            category: "Documents",
        },
        FileSignature {
            name: "Quarto Document",
            extension: "qmd",
            header: &[0x2Du8, 0x2D, 0x2D, 0x0A, 0x74, 0x69, 0x74, 0x6C, 0x65],
            footer: None,
            max_size: (10 * MIB) as u64,
            category: "Documents",
        },
        FileSignature {
            name: "Windows Hibernation",
            extension: "hiberfil",
            header: &[0x68u8, 0x69, 0x62, 0x72],
            footer: None,
            max_size: (100 * GIB) as u64,
            category: "System",
        },
        FileSignature {
            name: "Windows Page File",
            extension: "pagefile",
            header: &[0x00u8, 0x00, 0x00, 0x00],
            footer: None,
            max_size: (100 * GIB) as u64,
            category: "System",
        },
        FileSignature {
            name: "Linux Swap",
            extension: "swap",
            header: &[0x53u8, 0x57, 0x41, 0x50, 0x53, 0x50, 0x41, 0x43, 0x45, 0x32],
            footer: None,
            max_size: (100 * GIB) as u64,
            category: "System",
        },
        FileSignature {
            name: "VMware VMDK",
            extension: "vmdk",
            header: &[0x4Bu8, 0x44, 0x4D],
            footer: None,
            max_size: (100 * GIB) as u64,
            category: "Disk Images",
        },
        FileSignature {
            name: "VirtualBox VDI",
            extension: "vdi",
            header: &[0x3Cu8, 0x3C, 0x3C, 0x20, 0x4F, 0x72, 0x61, 0x63, 0x6C, 0x65],
            footer: None,
            max_size: (100 * GIB) as u64,
            category: "Disk Images",
        },
        FileSignature {
            name: "QEMU QCOW2",
            extension: "qcow2",
            header: &[0x51u8, 0x46, 0x49, 0xFB],
            footer: None,
            max_size: (100 * GIB) as u64,
            category: "Disk Images",
        },
        FileSignature {
            name: "Docker Image",
            extension: "docker",
            header: &[0x7Bu8, 0x22, 0x61, 0x75, 0x74, 0x68, 0x73, 0x22],
            footer: None,
            max_size: (10 * GIB) as u64,
            category: "Containers",
        },
        FileSignature {
            name: "X11 Authority",
            extension: "xauth",
            header: &[0x01u8, 0x00],
            footer: None,
            max_size: (100 * KIB) as u64,
            category: "Security",
        },
        FileSignature {
            name: "Kerberos Ticket",
            extension: "ccache",
            header: &[0x05u8, 0x04],
            footer: None,
            max_size: (1 * MIB) as u64,
            category: "Security",
        },
        FileSignature {
            name: "AWS Credentials",
            extension: "credentials",
            header: &[0x5Bu8, 0x64, 0x65, 0x66, 0x61, 0x75, 0x6C, 0x74, 0x5D],
            footer: None,
            max_size: (100 * KIB) as u64,
            category: "Security",
        },
        FileSignature {
            name: "SSH Public Key",
            extension: "pub",
            header: &[0x73u8, 0x73, 0x68, 0x2D],
            footer: None,
            max_size: (10 * KIB) as u64,
            category: "Security",
        },
        FileSignature {
            name: "LDAP Data",
            extension: "ldif",
            header: &[0x76u8, 0x65, 0x72, 0x73, 0x69, 0x6F, 0x6E, 0x3A],
            footer: None,
            max_size: (100 * MIB) as u64,
            category: "Data",
        },
        FileSignature {
            name: "vCard Contact",
            extension: "vcf",
            header: &[0x42u8, 0x45, 0x47, 0x49, 0x4E, 0x3A, 0x56, 0x43, 0x41, 0x52, 0x44],
            footer: None,
            max_size: (1 * MIB) as u64,
            category: "Contacts",
        },
        FileSignature {
            name: "iCalendar",
            extension: "ics",
            header: &[0x42u8, 0x45, 0x47, 0x49, 0x4E, 0x3A, 0x56, 0x43, 0x41, 0x4C, 0x45, 0x4E, 0x44, 0x41, 0x52],
            footer: None,
            max_size: (10 * MIB) as u64,
            category: "Calendar",
        },
        FileSignature {
            name: "Outlook OST File",
            extension: "ost",
            header: &[0x21u8, 0x42, 0x44, 0x4E],
            footer: None,
            max_size: (50 * GIB) as u64,
            category: "Email",
        },
        FileSignature {
            name: "Outlook MSG File",
            extension: "msg",
            header: &[0xD0u8, 0xCF, 0x11, 0xE0, 0xA1, 0xB1, 0x1A, 0xE1],
            footer: None,
            max_size: (100 * MIB) as u64,
            category: "Email",
        },
    ]
}

/// Builds records 416 to 447 of the catalogue.
fn signatures_part_13() -> (sigs: Vec<FileSignature>)
    ensures
        sigs@ == catalogue_part_13(),
        sigs@.len() == 32,
        forall|i: int| 0 <= i < sigs@.len() ==> well_formed(#[trigger] sigs@[i]),
{
    let sigs = vec![
        FileSignature {
            name: "iOS App Package",
            extension: "ipa",
            header: &[0x50, 0x4B, 0x03, 0x04],
            footer: None,
            max_size: 5 * GIB,
            category: "Executables",
        },
        FileSignature {
            name: "Android App Bundle",
            extension: "aab",
            header: &[0x50, 0x4B, 0x03, 0x04],
            footer: None,
            max_size: 2 * GIB,
            category: "Executables",
        },
        FileSignature {
            name: "MSIX Package",
            extension: "msix",
            header: &[0x50, 0x4B, 0x03, 0x04],
            footer: None,
            max_size: 5 * GIB,
            category: "Executables",
        },
        FileSignature {
            name: "Chrome Extension",
            extension: "crx",
            header: &[0x43, 0x72, 0x32, 0x34],
            footer: None,
            max_size: 100 * MIB,
            category: "Executables",
        },
        FileSignature {
            name: "Firefox Extension",
            extension: "xpi",
            header: &[0x50, 0x4B, 0x03, 0x04],
            footer: None,
            max_size: 100 * MIB,
            category: "Executables",
        },
        FileSignature {
            name: "Web App Archive",
            extension: "war",
            header: &[0x50, 0x4B, 0x03, 0x04],
            footer: None,
            max_size: 500 * MIB,
            category: "Executables",
        },
        FileSignature {
            name: "Windows Driver",
            extension: "sys",
            header: &[0x4D, 0x5A],
            footer: None,
            max_size: 50 * MIB,
            category: "Executables",
        },
        FileSignature {
            name: "Linux Kernel Module",
            extension: "ko",
            header: &[0x7F, 0x45, 0x4C, 0x46],
            footer: None,
            max_size: 50 * MIB,
            category: "Executables",
        },
        FileSignature {
            name: "ActiveX Control",
            extension: "ocx",
            header: &[0x4D, 0x5A],
            footer: None,
            max_size: 50 * MIB,
            category: "Executables",
        },
        FileSignature {
            name: "COM Component",
            extension: "cpl",
            header: &[0x4D, 0x5A],
            footer: None,
            max_size: 20 * MIB,
            category: "Executables",
        },
        FileSignature {
            name: "PCAP Network Capture",
            extension: "pcap",
            header: &[0xD4, 0xC3, 0xB2, 0xA1],
            footer: None,
            max_size: 10 * GIB,
            category: "Network",
        },
        FileSignature {
            name: "PCAPNG Capture",
            extension: "pcapng",
            header: &[0x0A, 0x0D, 0x0D, 0x0A],
            footer: None,
            max_size: 10 * GIB,
            category: "Network",
        },
        FileSignature {
            name: "RDP Session File",
            extension: "rdp",
            header: &[0x73, 0x63, 0x72, 0x65, 0x65, 0x6E, 0x20, 0x6D, 0x6F, 0x64, 0x65],
            footer: None,
            max_size: 100 * KIB,
            category: "Network",
        },
        FileSignature {
            name: "VNC Session",
            extension: "vnc",
            header: &[0x52, 0x46, 0x42, 0x20],
            footer: None,
            max_size: 10 * KIB,
            category: "Network",
        },
        FileSignature {
            name: "R Markdown",
            extension: "rmd",
            header: &[0x2D, 0x2D, 0x2D, 0x0A, 0x74, 0x69, 0x74, 0x6C, 0x65],
            footer: None,
            max_size: 10 * MIB,
            category: "Documents",
        },
        FileSignature {
            name: "Quarto Document",
            extension: "qmd",
            header: &[0x2D, 0x2D, 0x2D, 0x0A, 0x74, 0x69, 0x74, 0x6C, 0x65],
            footer: None,
            max_size: 10 * MIB,
            category: "Documents",
        },
        FileSignature {
            name: "Windows Hibernation",
            extension: "hiberfil",
            header: &[0x68, 0x69, 0x62, 0x72],
            footer: None,
            max_size: 100 * GIB,
            category: "System",
        },
        FileSignature {
            name: "Windows Page File",
            extension: "pagefile",
            header: &[0x00, 0x00, 0x00, 0x00],
            footer: None,
            max_size: 100 * GIB,
            category: "System",
        },
        FileSignature {
            name: "Linux Swap",
            extension: "swap",
            header: &[0x53, 0x57, 0x41, 0x50, 0x53, 0x50, 0x41, 0x43, 0x45, 0x32],
            footer: None,
            max_size: 100 * GIB,
            category: "System",
        },
        FileSignature {
            name: "VMware VMDK",
            extension: "vmdk",
            header: &[0x4B, 0x44, 0x4D],
            footer: None,
            max_size: 100 * GIB,
            category: "Disk Images",
        },
        FileSignature {
            name: "VirtualBox VDI",
            extension: "vdi",
            header: &[0x3C, 0x3C, 0x3C, 0x20, 0x4F, 0x72, 0x61, 0x63, 0x6C, 0x65],
            footer: None,
            max_size: 100 * GIB,
            category: "Disk Images",
        },
        FileSignature {
            name: "QEMU QCOW2",
            extension: "qcow2",
            header: &[0x51, 0x46, 0x49, 0xFB],
            footer: None,
            max_size: 100 * GIB,
            category: "Disk Images",
        },
        FileSignature {
            name: "Docker Image",
            extension: "docker",
            header: &[0x7B, 0x22, 0x61, 0x75, 0x74, 0x68, 0x73, 0x22],
            footer: None,
            max_size: 10 * GIB,
            category: "Containers",
        },
        FileSignature {
            name: "X11 Authority",
            extension: "xauth",
            header: &[0x01, 0x00],
            footer: None,
            max_size: 100 * KIB,
            category: "Security",
        },
        FileSignature {
            name: "Kerberos Ticket",
            extension: "ccache",
            header: &[0x05, 0x04],
            footer: None,
            max_size: 1 * MIB,
            category: "Security",
        },
        FileSignature {
            name: "AWS Credentials",
            extension: "credentials",
            header: &[0x5B, 0x64, 0x65, 0x66, 0x61, 0x75, 0x6C, 0x74, 0x5D],
            footer: None,
            max_size: 100 * KIB,
            category: "Security",
        },
        FileSignature {
            name: "SSH Public Key",
            extension: "pub",
            header: &[0x73, 0x73, 0x68, 0x2D],
            footer: None,
            max_size: 10 * KIB,
            category: "Security",
        },
        FileSignature {
            name: "LDAP Data",
            extension: "ldif",
            header: &[0x76, 0x65, 0x72, 0x73, 0x69, 0x6F, 0x6E, 0x3A],
            footer: None,
            max_size: 100 * MIB,
            category: "Data",
        },
        FileSignature {
            name: "vCard Contact",
            extension: "vcf",
            header: &[0x42, 0x45, 0x47, 0x49, 0x4E, 0x3A, 0x56, 0x43, 0x41, 0x52, 0x44],
            footer: None,
            max_size: 1 * MIB,
            category: "Contacts",
        },
        FileSignature {
            name: "iCalendar",
            extension: "ics",
            header: &[0x42, 0x45, 0x47, 0x49, 0x4E, 0x3A, 0x56, 0x43, 0x41, 0x4C, 0x45, 0x4E, 0x44, 0x41, 0x52],
            footer: None,
            max_size: 10 * MIB,
            category: "Calendar",
        },
        FileSignature {
            name: "Outlook OST File",
            extension: "ost",
            header: &[0x21, 0x42, 0x44, 0x4E],
            footer: None,
            max_size: 50 * GIB,
            category: "Email",
        },
        FileSignature {
            name: "Outlook MSG File",
            extension: "msg",
            header: &[0xD0, 0xCF, 0x11, 0xE0, 0xA1, 0xB1, 0x1A, 0xE1],
            footer: None,
            max_size: 100 * MIB,
            category: "Email",
        },
    ];
    assert(sigs@ =~= catalogue_part_13());
    sigs
}

/// Records 448 to 479 of the catalogue.
pub open spec fn catalogue_part_14() -> Seq<FileSignature> {
    seq![
        FileSignature {
            name: "EML Email",
            extension: "eml",
            header: &[0x46u8, 0x72, 0x6F, 0x6D],
            footer: None,
            max_size: (100 * MIB) as u64,
            category: "Email",
        },
        FileSignature {
            name: "Thunderbird MBOX",
            extension: "mbox",
            header: &[0x46u8, 0x72, 0x6F, 0x6D, 0x20, 0x2D],
            footer: None,
            max_size: (10 * GIB) as u64,
            category: "Email",
        },
        FileSignature {
            name: "Windows Prefetch",
            extension: "pf",
            header: &[0x53u8, 0x43, 0x43, 0x41],
            footer: None,
            max_size: (1 * MIB) as u64,
            category: "System",
        },
        FileSignature {
            name: "Windows Event Log",
            extension: "evtx",
            header: &[0x45u8, 0x6C, 0x66, 0x46, 0x69, 0x6C, 0x65],
            footer: None,
            max_size: (1 * GIB) as u64,
            category: "System",
        },
        FileSignature {
            name: "Windows Registry Hive",
            extension: "dat",
            header: &[0x72u8, 0x65, 0x67, 0x66],
            footer: None,
            max_size: (1 * GIB) as u64,
            category: "System",
        },
        FileSignature {
            name: "Windows Shortcut",
            extension: "lnk",
            header: &[0x4Cu8, 0x00, 0x00, 0x00, 0x01, 0x14, 0x02],
            footer: None,
            max_size: (1 * MIB) as u64,
            category: "System",
        },
        FileSignature {
            name: "Virtual Machine Snapshot",
            extension: "vmsn",
            header: &[0xD0u8, 0xBE, 0xD0, 0xBE],
            footer: None,
            max_size: (50 * GIB) as u64,
            category: "Disk Images",
        },
        FileSignature {
            name: "Hyper-V Disk",
            extension: "vhd",
            header: &[0x63u8, 0x6F, 0x6E, 0x65, 0x63, 0x74, 0x69, 0x78],
            footer: None,
            max_size: (100 * GIB) as u64,
            category: "Disk Images",
        },
        FileSignature {
            name: "Hyper-V VHDX",
            extension: "vhdx",
            header: &[0x76u8, 0x68, 0x64, 0x78, 0x66, 0x69, 0x6C, 0x65],
            footer: None,
            max_size: (100 * GIB) as u64,
            category: "Disk Images",
        },
        FileSignature {
            name: "Parallels Disk",
            extension: "hdd",
            header: &[0x57u8, 0x69, 0x74, 0x68, 0x6F, 0x75, 0x74, 0x20, 0x66, 0x72, 0x65, 0x65],
            footer: None,
            max_size: (100 * GIB) as u64,
            category: "Disk Images",
        },
        FileSignature {
            name: "Apple Disk Image",
            extension: "dmg",
            header: &[0x78u8, 0x01, 0x73, 0x0D, 0x62, 0x62, 0x60],
            footer: None,
            max_size: (100 * GIB) as u64,
            category: "Disk Images",
        },
        FileSignature {
            name: "Toast Disk Image",
            extension: "toast",
            header: &[0x45u8, 0x52, 0x02, 0x00, 0x00, 0x00],
            footer: None,
            max_size: (10 * GIB) as u64,
            category: "Disk Images",
        },
        FileSignature {
            name: "eCryptfs Encrypted",
            extension: "ecryptfs",
            header: &[0x3Au8, 0xFE, 0x00, 0x00],
            footer: None,
            max_size: (100 * GIB) as u64,
            category: "Encryption",
        },
        FileSignature {
            name: "FileVault Encrypted",
            extension: "sparsebundle",
            header: &[0x00u8, 0x05, 0x16, 0x07, 0x00, 0x02, 0x00, 0x00],
            footer: None,
            max_size: (100 * GIB) as u64,
            category: "Encryption",
        },
        FileSignature {
            name: "GnuPG Public Key",
            extension: "asc",
            header: &[0x2Du8, 0x2D, 0x2D, 0x2D, 0x2D, 0x42, 0x45, 0x47, 0x49, 0x4E],
            footer: None,
            max_size: (100 * KIB) as u64,
            category: "Security",
        },
        FileSignature {
            name: "OpenSSL Certificate",
            extension: "crt",
            header: &[0x2Du8, 0x2D, 0x2D, 0x2D, 0x2D, 0x42, 0x45, 0x47, 0x49, 0x4E, 0x20, 0x43, 0x45, 0x52, 0x54],
            footer: None,
            max_size: (1 * MIB) as u64,
            category: "Security",
        },
        FileSignature {
            name: "JWT Token",
            extension: "jwt",
            header: &[0x65u8, 0x79, 0x4A],
            footer: None,
            max_size: (100 * KIB) as u64,
            category: "Security",
        },
        FileSignature {
            name: "OAuth Token",
            extension: "oauth",
            header: &[0x7Bu8, 0x22, 0x61, 0x63, 0x63, 0x65, 0x73, 0x73, 0x5F, 0x74, 0x6F, 0x6B, 0x65, 0x6E],
            footer: None,
            max_size: (10 * KIB) as u64,
            category: "Security",
        },
        FileSignature {
            name: "SAML Metadata",
            extension: "saml",
            header: &[0x3Cu8, 0x6D, 0x64, 0x3A, 0x45, 0x6E, 0x74, 0x69, 0x74, 0x79, 0x44, 0x65, 0x73, 0x63],
            footer: None,
            max_size: (1 * MIB) as u64,
            category: "Security",
        },
        FileSignature {
            name: "API Key File",
            extension: "apikey",
            header: &[0x42u8, 0x45, 0x41, 0x52, 0x45, 0x52],
            footer: None,
            max_size: (10 * KIB) as u64,
            category: "Security",
        },
        FileSignature {
            name: "Kubernetes Config",
            extension: "kubeconfig",
            header: &[0x61u8, 0x70, 0x69, 0x56, 0x65, 0x72, 0x73, 0x69, 0x6F, 0x6E],
            footer: None,
            max_size: (1 * MIB) as u64,
            category: "Security",
        },
        FileSignature {
            name: "Docker Compose",
            extension: "docker-compose",
            header: &[0x76u8, 0x65, 0x72, 0x73, 0x69, 0x6F, 0x6E, 0x3A],
            footer: None,
            max_size: (1 * MIB) as u64,
            category: "Containers",
        },
        FileSignature {
            name: "Terraform State",
            extension: "tfstate",
            header: &[0x7Bu8, 0x0A, 0x20, 0x20, 0x22, 0x76, 0x65, 0x72, 0x73, 0x69, 0x6F, 0x6E],
            footer: None,
            max_size: (100 * MIB) as u64,
            category: "Code",
        },
        FileSignature {
            name: "Ansible Playbook",
            extension: "ansible",
            header: &[0x2Du8, 0x2D, 0x2D, 0x0A],
            footer: None,
            max_size: (10 * MIB) as u64,
            category: "Code",
        },
        FileSignature {
            name: "Git Pack File",
            extension: "pack",
            header: &[0x50u8, 0x41, 0x43, 0x4B],
            footer: None,
            max_size: (10 * GIB) as u64,
            category: "Code",
        },
        FileSignature {
            name: "Git Index",
            extension: "idx",
            header: &[0xFFu8, 0x74, 0x4F, 0x63],
            footer: None,
            max_size: (100 * MIB) as u64,
            category: "Code",
        },
        FileSignature {
            name: "Subversion DB",
            extension: "svn-base",
            header: &[0x53u8, 0x51, 0x4C, 0x69, 0x74, 0x65],
            footer: None,
            max_size: (1 * GIB) as u64,
            category: "Code",
        },
        FileSignature {
            name: "Mercurial Store",
            extension: "hg",
            header: &[0x00u8, 0x01, 0x00, 0x01],
            footer: None,
            max_size: (1 * GIB) as u64,
            category: "Code",
        },
        FileSignature {
            name: "CVS Repository",
            extension: "cvs",
            header: &[0x43u8, 0x56, 0x53, 0x20, 0x52, 0x65, 0x70, 0x6F],
            footer: None,
            max_size: (1 * GIB) as u64,
            category: "Code",
        },
        FileSignature {
            name: "Perforce Depot",
            extension: "p4d",
            header: &[0x00u8, 0x00, 0x01, 0x00],
            footer: None,
            max_size: (10 * GIB) as u64,
            category: "Code",
        },
        FileSignature {
            name: "TFS Workspace",
            extension: "tfs",
            header: &[0x54u8, 0x46, 0x53, 0x57, 0x4F, 0x52, 0x4B],
            footer: None,
            max_size: (1 * GIB) as u64,
            category: "Code",
        },
        FileSignature {
            name: "NPM Shrinkwrap",
            extension: "npm-shrinkwrap",
            header: &[0x7Bu8, 0x0A, 0x20, 0x20, 0x22, 0x6E, 0x61, 0x6D, 0x65],
            footer: None,
            max_size: (10 * MIB) as u64,
            category: "Code",
        },
    ]
}

/// Builds records 448 to 479 of the catalogue.
fn signatures_part_14() -> (sigs: Vec<FileSignature>)
    ensures
        sigs@ == catalogue_part_14(),
        sigs@.len() == 32,
        forall|i: int| 0 <= i < sigs@.len() ==> well_formed(#[trigger] sigs@[i]),
{
    let sigs = vec![
        FileSignature {
            name: "EML Email",
            extension: "eml",
            header: &[0x46, 0x72, 0x6F, 0x6D],
            footer: None,
            max_size: 100 * MIB,
            category: "Email",
        },
        FileSignature {
            name: "Thunderbird MBOX",
            extension: "mbox",
            header: &[0x46, 0x72, 0x6F, 0x6D, 0x20, 0x2D],
            footer: None,
            max_size: 10 * GIB,
            category: "Email",
        },
        FileSignature {
            name: "Windows Prefetch",
            extension: "pf",
            header: &[0x53, 0x43, 0x43, 0x41],
            footer: None,
            max_size: 1 * MIB,
            category: "System",
        },
        FileSignature {
            name: "Windows Event Log",
            extension: "evtx",
            header: &[0x45, 0x6C, 0x66, 0x46, 0x69, 0x6C, 0x65],
            footer: None,
            max_size: 1 * GIB,
            category: "System",
        },
        FileSignature {
            name: "Windows Registry Hive",
            extension: "dat",
            header: &[0x72, 0x65, 0x67, 0x66],
            footer: None,
            max_size: 1 * GIB,
            category: "System",
        },
        FileSignature {
            name: "Windows Shortcut",
            extension: "lnk",
            header: &[0x4C, 0x00, 0x00, 0x00, 0x01, 0x14, 0x02],
            footer: None,
            max_size: 1 * MIB,
            category: "System",
        },
        FileSignature {
            name: "Virtual Machine Snapshot",
            extension: "vmsn",
            header: &[0xD0, 0xBE, 0xD0, 0xBE],
            footer: None,
            max_size: 50 * GIB,
            category: "Disk Images",
        },
        FileSignature {
            name: "Hyper-V Disk",
            extension: "vhd",
            header: &[0x63, 0x6F, 0x6E, 0x65, 0x63, 0x74, 0x69, 0x78],
            footer: None,
            max_size: 100 * GIB,
            category: "Disk Images",
        },
        FileSignature {
            name: "Hyper-V VHDX",
            extension: "vhdx",
            header: &[0x76, 0x68, 0x64, 0x78, 0x66, 0x69, 0x6C, 0x65],
            footer: None,
            max_size: 100 * GIB,
            category: "Disk Images",
        },
        FileSignature {
            name: "Parallels Disk",
            extension: "hdd",
            header: &[0x57, 0x69, 0x74, 0x68, 0x6F, 0x75, 0x74, 0x20, 0x66, 0x72, 0x65, 0x65],
            footer: None,
            max_size: 100 * GIB,
            category: "Disk Images",
        },
        FileSignature {
            name: "Apple Disk Image",
            extension: "dmg",
            header: &[0x78, 0x01, 0x73, 0x0D, 0x62, 0x62, 0x60],
            footer: None,
            max_size: 100 * GIB,
            category: "Disk Images",
        },
        FileSignature {
            name: "Toast Disk Image",
            extension: "toast",
            header: &[0x45, 0x52, 0x02, 0x00, 0x00, 0x00],
            footer: None,
            max_size: 10 * GIB,
            category: "Disk Images",
        },
        FileSignature {
            name: "eCryptfs Encrypted",
            extension: "ecryptfs",
            header: &[0x3A, 0xFE, 0x00, 0x00],
            footer: None,
            max_size: 100 * GIB,
            category: "Encryption",
        },
        FileSignature {
            name: "FileVault Encrypted",
            extension: "sparsebundle",
            header: &[0x00, 0x05, 0x16, 0x07, 0x00, 0x02, 0x00, 0x00],
            footer: None,
            max_size: 100 * GIB,
            category: "Encryption",
        },
        FileSignature {
            name: "GnuPG Public Key",
            extension: "asc",
            header: &[0x2D, 0x2D, 0x2D, 0x2D, 0x2D, 0x42, 0x45, 0x47, 0x49, 0x4E],
            footer: None,
            max_size: 100 * KIB,
            category: "Security",
        },
        FileSignature {
            name: "OpenSSL Certificate",
            extension: "crt",
            header: &[0x2D, 0x2D, 0x2D, 0x2D, 0x2D, 0x42, 0x45, 0x47, 0x49, 0x4E, 0x20, 0x43, 0x45, 0x52, 0x54],
            footer: None,
            max_size: 1 * MIB,
            category: "Security",
        },
        FileSignature {
            name: "JWT Token",
            extension: "jwt",
            header: &[0x65, 0x79, 0x4A],
            footer: None,
            max_size: 100 * KIB,
            category: "Security",
        },
        FileSignature {
            name: "OAuth Token",
            extension: "oauth",
            header: &[0x7B, 0x22, 0x61, 0x63, 0x63, 0x65, 0x73, 0x73, 0x5F, 0x74, 0x6F, 0x6B, 0x65, 0x6E],
            footer: None,
            max_size: 10 * KIB,
            category: "Security",
        },
        FileSignature {
            name: "SAML Metadata",
            extension: "saml",
            header: &[0x3C, 0x6D, 0x64, 0x3A, 0x45, 0x6E, 0x74, 0x69, 0x74, 0x79, 0x44, 0x65, 0x73, 0x63],
            footer: None,
            max_size: 1 * MIB,
            category: "Security",
        },
        FileSignature {
            name: "API Key File",
            extension: "apikey",
            header: &[0x42, 0x45, 0x41, 0x52, 0x45, 0x52],
            footer: None,
            max_size: 10 * KIB,
            category: "Security",
        },
        FileSignature {
            name: "Kubernetes Config",
            extension: "kubeconfig",
            header: &[0x61, 0x70, 0x69, 0x56, 0x65, 0x72, 0x73, 0x69, 0x6F, 0x6E],
            footer: None,
            max_size: 1 * MIB,
            category: "Security",
        },
        FileSignature {
            name: "Docker Compose",
            extension: "docker-compose",
            header: &[0x76, 0x65, 0x72, 0x73, 0x69, 0x6F, 0x6E, 0x3A],
            footer: None,
            max_size: 1 * MIB,
            category: "Containers",
        },
        FileSignature {
            name: "Terraform State",
            extension: "tfstate",
            header: &[0x7B, 0x0A, 0x20, 0x20, 0x22, 0x76, 0x65, 0x72, 0x73, 0x69, 0x6F, 0x6E],
            footer: None,
            max_size: 100 * MIB,
            category: "Code",
        },
        FileSignature {
            name: "Ansible Playbook",
            extension: "ansible",
            header: &[0x2D, 0x2D, 0x2D, 0x0A],
            footer: None,
            max_size: 10 * MIB,
            category: "Code",
        },
        FileSignature {
            name: "Git Pack File",
            extension: "pack",
            header: &[0x50, 0x41, 0x43, 0x4B],
            footer: None,
            max_size: 10 * GIB,
            category: "Code",
        },
        FileSignature {
            name: "Git Index",
            extension: "idx",
            header: &[0xFF, 0x74, 0x4F, 0x63],
            footer: None,
            max_size: 100 * MIB,
            category: "Code",
        },
        FileSignature {
            name: "Subversion DB",
            extension: "svn-base",
            header: &[0x53, 0x51, 0x4C, 0x69, 0x74, 0x65],
            footer: None,
            max_size: 1 * GIB,
            category: "Code",
        },
        FileSignature {
            name: "Mercurial Store",
            extension: "hg",
            header: &[0x00, 0x01, 0x00, 0x01],
            footer: None,
            max_size: 1 * GIB,
            category: "Code",
        },
        FileSignature {
            name: "CVS Repository",
            extension: "cvs",
            header: &[0x43, 0x56, 0x53, 0x20, 0x52, 0x65, 0x70, 0x6F],
            footer: None,
            max_size: 1 * GIB,
            category: "Code",
        },
        FileSignature {
            name: "Perforce Depot",
            extension: "p4d",
            header: &[0x00, 0x00, 0x01, 0x00],
            footer: None,
            max_size: 10 * GIB,
            category: "Code",
        },
        FileSignature {
            name: "TFS Workspace",
            extension: "tfs",
            header: &[0x54, 0x46, 0x53, 0x57, 0x4F, 0x52, 0x4B],
            footer: None,
            max_size: 1 * GIB,
            category: "Code",
        },
        FileSignature {
            name: "NPM Shrinkwrap",
            extension: "npm-shrinkwrap",
            header: &[0x7B, 0x0A, 0x20, 0x20, 0x22, 0x6E, 0x61, 0x6D, 0x65],
            footer: None,
            max_size: 10 * MIB,
            category: "Code",
        },
    ];
    assert(sigs@ =~= catalogue_part_14());
    sigs
}

/// Records 480 to 502 of the catalogue.
pub open spec fn catalogue_part_15() -> Seq<FileSignature> {
    seq![
        FileSignature {
            name: "Yarn Lock",
            extension: "yarn.lock",
            header: &[0x23u8, 0x20, 0x54, 0x48, 0x49, 0x53],
            footer: None,
            max_size: (10 * MIB) as u64,
            category: "Code",
        },
        FileSignature {
            name: "Composer Lock",
            extension: "composer.lock",
            header: &[0x7Bu8, 0x0A, 0x20, 0x20, 0x20, 0x20, 0x22, 0x5F, 0x72, 0x65, 0x61, 0x64, 0x6D, 0x65],
            footer: None,
            max_size: (10 * MIB) as u64,
            category: "Code",
        },
        FileSignature {
            name: "Pipfile Lock",
            extension: "Pipfile.lock",
            header: &[0x7Bu8, 0x0A, 0x20, 0x20, 0x20, 0x20, 0x22, 0x5F, 0x6D, 0x65, 0x74, 0x61],
            footer: None,
            max_size: (10 * MIB) as u64,
            category: "Code",
        },
        FileSignature {
            name: "Poetry Lock",
            extension: "poetry.lock",
            header: &[0x23u8, 0x20, 0x54, 0x68, 0x69, 0x73, 0x20, 0x66, 0x69, 0x6C, 0x65],
            footer: None,
            max_size: (10 * MIB) as u64,
            category: "Code",
        },
        FileSignature {
            name: "Gradle Wrapper",
            extension: "gradle-wrapper",
            header: &[0x64u8, 0x69, 0x73, 0x74, 0x72, 0x69, 0x62, 0x75, 0x74, 0x69, 0x6F, 0x6E],
            footer: None,
            max_size: (1 * MIB) as u64,
            category: "Code",
        },
        FileSignature {
            name: "Maven Settings",
            extension: "settings.xml",
            header: &[0x3Cu8, 0x73, 0x65, 0x74, 0x74, 0x69, 0x6E, 0x67, 0x73],
            footer: None,
            max_size: (1 * MIB) as u64,
            category: "Code",
        },
        FileSignature {
            name: "Cargo Lock",
            extension: "Cargo.lock",
            header: &[0x23u8, 0x20, 0x54, 0x68, 0x69, 0x73, 0x20, 0x66, 0x69, 0x6C, 0x65],
            footer: None,
            max_size: (10 * MIB) as u64,
            category: "Code",
        },
        FileSignature {
            name: "Go Sum",
            extension: "go.sum",
            header: &[0x67u8, 0x6F, 0x6C, 0x61, 0x6E, 0x67, 0x2E, 0x6F, 0x72, 0x67],
            footer: None,
            max_size: (10 * MIB) as u64,
            category: "Code",
        },
        FileSignature {
            name: "Gemfile Lock",
            extension: "Gemfile.lock",
            header: &[0x47u8, 0x45, 0x4D, 0x0A, 0x20, 0x20, 0x72, 0x65, 0x6D, 0x6F, 0x74, 0x65],
            footer: None,
            max_size: (10 * MIB) as u64,
            category: "Code",
        },
        FileSignature {
            name: "Bundle Config",
            extension: "bundleconfig",
            header: &[0x2Du8, 0x2D, 0x2D, 0x0A, 0x42, 0x55, 0x4E, 0x44, 0x4C, 0x45],
            footer: None,
            max_size: (1 * MIB) as u64,
            category: "Code",
        },
        FileSignature {
            name: "Stack YAML",
            extension: "stack.yaml",
            header: &[0x72u8, 0x65, 0x73, 0x6F, 0x6C, 0x76, 0x65, 0x72],
            footer: None,
            max_size: (1 * MIB) as u64,
            category: "Code",
        },
        FileSignature {
            name: "Cabal Project",
            extension: "cabal",
            header: &[0x6Eu8, 0x61, 0x6D, 0x65, 0x3A],
            footer: None,
            max_size: (1 * MIB) as u64,
            category: "Code",
        },
        FileSignature {
            name: "Mix Lock",
            extension: "mix.lock",
            header: &[0x25u8, 0x7B, 0x22],
            footer: None,
            max_size: (10 * MIB) as u64,
            category: "Code",
        },
        FileSignature {
            name: "Rebar Lock",
            extension: "rebar.lock",
            header: &[0x7Bu8, 0x22, 0x31, 0x2E, 0x31, 0x2E, 0x30, 0x22],
            footer: None,
            max_size: (10 * MIB) as u64,
            category: "Code",
        },
        FileSignature {
            name: "Pub Lock",
            extension: "pubspec.lock",
            header: &[0x23u8, 0x20, 0x47, 0x65, 0x6E, 0x65, 0x72, 0x61, 0x74, 0x65, 0x64],
            footer: None,
            max_size: (10 * MIB) as u64,
            category: "Code",
        },
        FileSignature {
            name: "Swift Package",
            extension: "Package.resolved",
            header: &[0x7Bu8, 0x0A, 0x20, 0x20, 0x22, 0x6F, 0x62, 0x6A, 0x65, 0x63, 0x74],
            footer: None,
            max_size: (10 * MIB) as u64,
            category: "Code",
        },
        FileSignature {
            name: "CocoaPods Lock",
            extension: "Podfile.lock",
            header: &[0x50u8, 0x4F, 0x44, 0x53, 0x3A, 0x0A],
            footer: None,
            max_size: (10 * MIB) as u64,
            category: "Code",
        },
        FileSignature {
            name: "Carthage Resolved",
            extension: "Cartfile.resolved",
            header: &[0x67u8, 0x69, 0x74, 0x68, 0x75, 0x62],
            footer: None,
            max_size: (1 * MIB) as u64,
            category: "Code",
        },
        FileSignature {
            name: "NuGet Config",
            extension: "nuget.config",
            header: &[0x3Cu8, 0x3F, 0x78, 0x6D, 0x6C],
            footer: None,
            max_size: (1 * MIB) as u64,
            category: "Code",
        },
        FileSignature {
            name: "MSBuild Targets",
            extension: "targets",
            header: &[0x3Cu8, 0x50, 0x72, 0x6F, 0x6A, 0x65, 0x63, 0x74],
            footer: None,
            max_size: (10 * MIB) as u64,
            category: "Code",
        },
        FileSignature {
            name: "Ant Build",
            extension: "build.xml",
            header: &[0x3Cu8, 0x70, 0x72, 0x6F, 0x6A, 0x65, 0x63, 0x74],
            footer: None,
            max_size: (10 * MIB) as u64,
            category: "Code",
        },
        FileSignature {
            name: "CMake Cache",
            extension: "CMakeCache.txt",
            header: &[0x23u8, 0x20, 0x54, 0x68, 0x69, 0x73, 0x20, 0x69, 0x73],
            footer: None,
            max_size: (10 * MIB) as u64,
            category: "Code",
        },
        FileSignature {
            name: "Ninja Build Log",
            extension: "ninja_log",
            header: &[0x23u8, 0x20, 0x6E, 0x69, 0x6E, 0x6A, 0x61, 0x20, 0x6C, 0x6F, 0x67],
            footer: None,
            max_size: (100 * MIB) as u64,
            category: "Code",
        },
    ]
}

/// Builds records 480 to 502 of the catalogue.
fn signatures_part_15() -> (sigs: Vec<FileSignature>)
    ensures
        sigs@ == catalogue_part_15(),
        sigs@.len() == 23,
        forall|i: int| 0 <= i < sigs@.len() ==> well_formed(#[trigger] sigs@[i]),
{
    let sigs = vec![
        FileSignature {
            name: "Yarn Lock",
            extension: "yarn.lock",
            header: &[0x23, 0x20, 0x54, 0x48, 0x49, 0x53],
            footer: None,
            max_size: 10 * MIB,
            category: "Code",
        },
        FileSignature {
            name: "Composer Lock",
            extension: "composer.lock",
            header: &[0x7B, 0x0A, 0x20, 0x20, 0x20, 0x20, 0x22, 0x5F, 0x72, 0x65, 0x61, 0x64, 0x6D, 0x65],
            footer: None,
            max_size: 10 * MIB,
            category: "Code",
        },
        FileSignature {
            name: "Pipfile Lock",
            extension: "Pipfile.lock",
            header: &[0x7B, 0x0A, 0x20, 0x20, 0x20, 0x20, 0x22, 0x5F, 0x6D, 0x65, 0x74, 0x61],
            footer: None,
            max_size: 10 * MIB,
            category: "Code",
        },
        FileSignature {
            name: "Poetry Lock",
            extension: "poetry.lock",
            header: &[0x23, 0x20, 0x54, 0x68, 0x69, 0x73, 0x20, 0x66, 0x69, 0x6C, 0x65],
            footer: None,
            max_size: 10 * MIB,
            category: "Code",
        },
        FileSignature {
            name: "Gradle Wrapper",
            extension: "gradle-wrapper",
            header: &[0x64, 0x69, 0x73, 0x74, 0x72, 0x69, 0x62, 0x75, 0x74, 0x69, 0x6F, 0x6E],
            footer: None,
            max_size: 1 * MIB,
            category: "Code",
        },
        FileSignature {
            name: "Maven Settings",
            extension: "settings.xml",
            header: &[0x3C, 0x73, 0x65, 0x74, 0x74, 0x69, 0x6E, 0x67, 0x73],
            footer: None,
            max_size: 1 * MIB,
            category: "Code",
        },
        FileSignature {
            name: "Cargo Lock",
            extension: "Cargo.lock",
            header: &[0x23, 0x20, 0x54, 0x68, 0x69, 0x73, 0x20, 0x66, 0x69, 0x6C, 0x65],
            footer: None,
            max_size: 10 * MIB,
            category: "Code",
        },
        FileSignature {
            name: "Go Sum",
            extension: "go.sum",
            header: &[0x67, 0x6F, 0x6C, 0x61, 0x6E, 0x67, 0x2E, 0x6F, 0x72, 0x67],
            footer: None,
            max_size: 10 * MIB,
            category: "Code",
        },
        FileSignature {
            name: "Gemfile Lock",
            extension: "Gemfile.lock",
            header: &[0x47, 0x45, 0x4D, 0x0A, 0x20, 0x20, 0x72, 0x65, 0x6D, 0x6F, 0x74, 0x65],
            footer: None,
            max_size: 10 * MIB,
            category: "Code",
        },
        FileSignature {
            name: "Bundle Config",
            extension: "bundleconfig",
            header: &[0x2D, 0x2D, 0x2D, 0x0A, 0x42, 0x55, 0x4E, 0x44, 0x4C, 0x45],
            footer: None,
            max_size: 1 * MIB,
            category: "Code",
        },
        FileSignature {
            name: "Stack YAML",
            extension: "stack.yaml",
            header: &[0x72, 0x65, 0x73, 0x6F, 0x6C, 0x76, 0x65, 0x72],
            footer: None,
            max_size: 1 * MIB,
            category: "Code",
        },
        FileSignature {
            name: "Cabal Project",
            extension: "cabal",
            header: &[0x6E, 0x61, 0x6D, 0x65, 0x3A],
            footer: None,
            max_size: 1 * MIB,
            category: "Code",
        },
        FileSignature {
            name: "Mix Lock",
            extension: "mix.lock",
            header: &[0x25, 0x7B, 0x22],
            footer: None,
            max_size: 10 * MIB,
            category: "Code",
        },
        FileSignature {
            name: "Rebar Lock",
            extension: "rebar.lock",
            header: &[0x7B, 0x22, 0x31, 0x2E, 0x31, 0x2E, 0x30, 0x22],
            footer: None,
            max_size: 10 * MIB,
            category: "Code",
        },
        FileSignature {
            name: "Pub Lock",
            extension: "pubspec.lock",
            header: &[0x23, 0x20, 0x47, 0x65, 0x6E, 0x65, 0x72, 0x61, 0x74, 0x65, 0x64],
            footer: None,
            max_size: 10 * MIB,
            category: "Code",
        },
        FileSignature {
            name: "Swift Package",
            extension: "Package.resolved",
            header: &[0x7B, 0x0A, 0x20, 0x20, 0x22, 0x6F, 0x62, 0x6A, 0x65, 0x63, 0x74],
            footer: None,
            max_size: 10 * MIB,
            category: "Code",
        },
        FileSignature {
            name: "CocoaPods Lock",
            extension: "Podfile.lock",
            header: &[0x50, 0x4F, 0x44, 0x53, 0x3A, 0x0A],
            footer: None,
            max_size: 10 * MIB,
            category: "Code",
        },
        FileSignature {
            name: "Carthage Resolved",
            extension: "Cartfile.resolved",
            header: &[0x67, 0x69, 0x74, 0x68, 0x75, 0x62],
            footer: None,
            max_size: 1 * MIB,
            category: "Code",
        },
        FileSignature {
            name: "NuGet Config",
            extension: "nuget.config",
            header: &[0x3C, 0x3F, 0x78, 0x6D, 0x6C],
            footer: None,
            max_size: 1 * MIB,
            category: "Code",
        },
        FileSignature {
            name: "MSBuild Targets",
            extension: "targets",
            header: &[0x3C, 0x50, 0x72, 0x6F, 0x6A, 0x65, 0x63, 0x74],
            footer: None,
            max_size: 10 * MIB,
            category: "Code",
        },
        FileSignature {
            name: "Ant Build",
            extension: "build.xml",
            header: &[0x3C, 0x70, 0x72, 0x6F, 0x6A, 0x65, 0x63, 0x74],
            footer: None,
            max_size: 10 * MIB,
            category: "Code",
        },
        FileSignature {
            name: "CMake Cache",
            extension: "CMakeCache.txt",
            header: &[0x23, 0x20, 0x54, 0x68, 0x69, 0x73, 0x20, 0x69, 0x73],
            footer: None,
            max_size: 10 * MIB,
            category: "Code",
        },
        FileSignature {
            name: "Ninja Build Log",
            extension: "ninja_log",
            header: &[0x23, 0x20, 0x6E, 0x69, 0x6E, 0x6A, 0x61, 0x20, 0x6C, 0x6F, 0x67],
            footer: None,
            max_size: 100 * MIB,
            category: "Code",
        },
    ];
    assert(sigs@ =~= catalogue_part_15());
    sigs
}

/// The catalogue: one record for each known file format, in a fixed order.
pub open spec fn catalogue() -> Seq<FileSignature> {
    catalogue_part_00() + catalogue_part_01() + catalogue_part_02() + catalogue_part_03() + catalogue_part_04() + catalogue_part_05() + catalogue_part_06() + catalogue_part_07() + catalogue_part_08() + catalogue_part_09() + catalogue_part_10() + catalogue_part_11() + catalogue_part_12() + catalogue_part_13() + catalogue_part_14() + catalogue_part_15()
}

/// Builds the catalogue.
pub fn get_signatures() -> (sigs: Vec<FileSignature>)
    ensures
        sigs@ == catalogue(),
        sigs@.len() == CATALOGUE_LEN,
        forall|i: int| 0 <= i < sigs@.len() ==> well_formed(#[trigger] sigs@[i]),
{
    let mut sigs: Vec<FileSignature> = signatures_part_00();
    let mut part = signatures_part_01();
    sigs.append(&mut part);
    let mut part = signatures_part_02();
    sigs.append(&mut part);
    let mut part = signatures_part_03();
    sigs.append(&mut part);
    let mut part = signatures_part_04();
    sigs.append(&mut part);
    let mut part = signatures_part_05();
    sigs.append(&mut part);
    let mut part = signatures_part_06();
    sigs.append(&mut part);
    let mut part = signatures_part_07();
    sigs.append(&mut part);
    let mut part = signatures_part_08();
    sigs.append(&mut part);
    let mut part = signatures_part_09();
    sigs.append(&mut part);
    let mut part = signatures_part_10();
    sigs.append(&mut part);
    let mut part = signatures_part_11();
    sigs.append(&mut part);
    let mut part = signatures_part_12();
    sigs.append(&mut part);
    let mut part = signatures_part_13();
    sigs.append(&mut part);
    let mut part = signatures_part_14();
    sigs.append(&mut part);
    let mut part = signatures_part_15();
    sigs.append(&mut part);
    sigs
}

} // verus!
