use ntfs_recovery::validation::{
    check_structure, count_keyword_matches, count_keywords_in, describe_corruption,
    detect_corruption, find_corruption, find_footer, find_footer_from, is_among,
    validate_carved_file, Corruption,
};

fn pdf(total: usize) -> Vec<u8> {
    let mut data = vec![b'.'; total];
    let head = b"%PDF-1.7\n1 0 obj\n<< >>\nendobj\n2 0 obj\n<< >>\nendobj\n";
    data[..head.len()].copy_from_slice(head);
    let xref_at = total - 200;
    data[xref_at..xref_at + 4].copy_from_slice(b"xref");
    let trailer = format!("startxref\r\n{}\r\n%%EOF\n", xref_at);
    let at = total - trailer.len();
    data[at..].copy_from_slice(trailer.as_bytes());
    data
}

fn zip(total: usize) -> Vec<u8> {
    let mut data = vec![0x33u8; total];
    data[..4].copy_from_slice(&[0x50, 0x4B, 0x03, 0x04]);
    data[total - 22..total - 18].copy_from_slice(&[0x50, 0x4B, 0x05, 0x06]);
    data
}

fn png(total: usize) -> Vec<u8> {
    let mut data = vec![0x44u8; total];
    data[..8].copy_from_slice(&[0x89, 0x50, 0x4E, 0x47, 0x0D, 0x0A, 0x1A, 0x0A]);
    data[total - 8..total - 4].copy_from_slice(b"IEND");
    data
}

fn jpeg(total: usize) -> Vec<u8> {
    let mut data = vec![0x11u8; total];
    data[..4].copy_from_slice(&[0xFF, 0xD8, 0xFF, 0xE0]);
    data[total - 2] = 0xFF;
    data[total - 1] = 0xD9;
    data
}

const EXTENSIONS: [&str; 40] = [
    "jpg", "jpeg", "png", "gif", "bmp", "webp", "tiff", "tif", "pdf", "doc", "xls", "ppt", "docx",
    "xlsx", "pptx", "odt", "ods", "odp", "zip", "rar", "7z", "gz", "mp3", "mp4", "m4a", "m4v",
    "mov", "flac", "ogg", "wav", "avi", "mkv", "webm", "exe", "dll", "jar", "heic", "", "xyz",
    "PDF",
];

#[test]
fn wiped_data_is_rejected_for_every_extension() {
    let zeros = vec![0u8; 4096];
    for ext in EXTENSIONS {
        assert_eq!(find_corruption(&zeros, ext), Some(Corruption::AllZeros), "{}", ext);
        assert!(detect_corruption(&zeros, ext).is_some());
    }
    for ext in ["txt", "csv", "json", "rs"] {
        assert_eq!(find_corruption(&zeros, ext), Some(Corruption::AllZeros));
    }
    // zeros beyond the first four kibibytes do not save the file
    let mut late = vec![0u8; 8192];
    late[4096] = 1;
    assert_eq!(find_corruption(&late, "bin"), Some(Corruption::AllZeros));
    // one byte among the first 4096 does
    let mut early = vec![0u8; 8192];
    early[4095] = 1;
    assert_eq!(find_corruption(&early, "bin"), None);
}

#[test]
fn eight_bytes_or_fewer_are_too_small() {
    assert_eq!(find_corruption(&[], "txt"), Some(Corruption::TooSmall));
    assert_eq!(find_corruption(b"12345678", "txt"), Some(Corruption::TooSmall));
    assert_eq!(find_corruption(b"123456789", "txt"), None);
    assert_eq!(
        detect_corruption(b"1234", "txt"),
        Some("File is too small to be valid".to_string())
    );
}

#[test]
fn wrong_header_is_rejected_except_for_compressed_formats() {
    let noise = vec![0x77u8; 4096];
    for ext in ["gif", "bmp", "tiff", "tif", "doc", "xls", "ppt", "odt", "ods", "odp", "exe", "dll"] {
        assert_eq!(find_corruption(&noise, ext), Some(Corruption::HeaderMismatch), "{}", ext);
    }
    for ext in ["rar", "7z", "gz", "mp3", "mp4", "m4a", "mov", "flac", "ogg", "avi", "mkv", "webm", "webp"] {
        assert_eq!(find_corruption(&noise, ext), None, "{}", ext);
    }
    // formats that are neither compressed nor known
    assert_eq!(find_corruption(&noise, "xyz"), None);
    assert_eq!(find_corruption(&noise, ""), None);
    // compressed, but without the structure of its format
    assert_eq!(find_corruption(&noise, "zip"), Some(Corruption::HeaderMismatch));
    // wav and m4v are not among the compressed formats
    assert_eq!(find_corruption(&noise, "wav"), Some(Corruption::HeaderMismatch));
    assert_eq!(find_corruption(&noise, "m4v"), Some(Corruption::HeaderMismatch));
}

#[test]
fn right_headers_are_accepted() {
    let with = |head: &[u8]| {
        let mut data = vec![0x77u8; 4096];
        data[..head.len()].copy_from_slice(head);
        data
    };
    assert_eq!(find_corruption(&with(b"GIF89a"), "gif"), None);
    assert_eq!(find_corruption(&with(b"BM"), "bmp"), None);
    assert_eq!(find_corruption(&with(b"RIFF\0\0\0\0WEBP"), "webp"), None);
    assert_eq!(find_corruption(&with(b"RIFF\0\0\0\0WAVE"), "wav"), None);
    assert_eq!(find_corruption(&with(b"RIFF\0\0\0\0AVI "), "wav"), Some(Corruption::HeaderMismatch));
    assert_eq!(find_corruption(&with(&[0x49, 0x49, 0x2A, 0x00]), "tiff"), None);
    assert_eq!(find_corruption(&with(&[0x4D, 0x4D, 0x00, 0x2A]), "tif"), None);
    assert_eq!(find_corruption(&with(&[0xD0, 0xCF, 0x11, 0xE0]), "xls"), None);
    assert_eq!(find_corruption(&with(b"MZ"), "exe"), None);
    assert_eq!(find_corruption(&with(b"\0\0\0\x18moov"), "m4v"), None);
}

#[test]
fn message_names_the_format_in_uppercase() {
    let noise = vec![0x77u8; 4096];
    assert_eq!(
        detect_corruption(&noise, "gif"),
        Some(
            "File header does not match expected GIF format - data may be overwritten or encrypted"
                .to_string()
        )
    );
    assert_eq!(detect_corruption(&noise, "xyz"), None);
    assert_eq!(
        describe_corruption(Corruption::AllZeros, "x"),
        "File data is all zeros - clusters have been wiped"
    );
}

#[test]
fn text_needs_seven_printable_bytes_in_ten() {
    let mut text = vec![b'a'; 300];
    assert_eq!(find_corruption(&text, "txt"), None);
    // 77 of the first 256 bytes are control bytes: 179 of 256 is 69 in a hundred
    for b in text.iter_mut().take(77) {
        *b = 0x01;
    }
    assert_eq!(find_corruption(&text, "txt"), Some(Corruption::HeaderMismatch));
    // one fewer: 180 of 256 is 70 in a hundred
    text[0] = b'\n';
    assert_eq!(find_corruption(&text, "txt"), None);
    // bytes of multi-byte characters count as text
    let mut utf8 = vec![0xC3u8; 300];
    utf8[299] = 0;
    assert_eq!(find_corruption(&utf8, "json"), None);
}

#[test]
fn well_formed_pdf_is_accepted() {
    assert_eq!(find_corruption(&pdf(5000), "pdf"), None);
    assert!(validate_carved_file(&pdf(5000), "PDF"));
    assert_eq!(check_structure(&pdf(5000), "PDF"), None);
}

#[test]
fn pdf_from_wrong_clusters_is_rejected() {
    // a true header, then bytes of other files
    let mut data: Vec<u8> = (0..500 * 1024).map(|i: u32| (i.wrapping_mul(2_654_435_761) >> 24) as u8 | 1).collect();
    data[..9].copy_from_slice(b"%PDF-1.4\n");
    assert_eq!(find_corruption(&data, "pdf"), Some(Corruption::PdfNoEof));
    assert_eq!(
        detect_corruption(&data, "pdf"),
        Some("PDF has no %%EOF marker in its last 2 KB".to_string())
    );
    assert!(!validate_carved_file(&data, "pdf"));
}

#[test]
fn pdf_faults_are_told_apart() {
    let good = pdf(5000);
    let mut no_header = good.clone();
    no_header[0] = b'#';
    assert_eq!(check_structure(&no_header, "pdf"), Some(Corruption::HeaderMismatch));
    assert_eq!(check_structure(&good[..99], "pdf"), Some(Corruption::PdfNoEof));
    assert_eq!(check_structure(b"%PDF", "pdf"), Some(Corruption::HeaderMismatch));
    // a short file with all that a PDF needs
    let small = b"%PDF-1.4\n1 0 obj\n2 0 obj\nxref\nstartxref\n25\n%%EOF";
    assert!(small.len() < 100);
    assert_eq!(&small[25..29], b"xref");
    assert_eq!(check_structure(small, "pdf"), None);

    // %%EOF more than two kibibytes before the end
    let mut far = good.clone();
    far.extend(vec![b' '; 2048]);
    assert_eq!(check_structure(&far, "pdf"), Some(Corruption::PdfNoEof));

    let mut no_start = good.clone();
    let at = good.len() - 23;
    assert_eq!(&good[at..at + 9], b"startxref");
    no_start[at] = b'S';
    assert_eq!(check_structure(&no_start, "pdf"), Some(Corruption::PdfNoStartxref));

    // the offset is no number
    let mut no_number = good.clone();
    no_number[at + 11] = b'x';
    assert_eq!(check_structure(&no_number, "pdf"), Some(Corruption::PdfBadXrefOffset));

    // the offset lies behind the end of the file
    let mut beyond = good.clone();
    beyond[at + 11..at + 15].copy_from_slice(b"9999");
    assert_eq!(check_structure(&beyond, "pdf"), Some(Corruption::PdfBadXrefOffset));

    // nothing stands where the offset points
    let mut nothing = good.clone();
    nothing[4800] = b'y';
    assert_eq!(check_structure(&nothing, "pdf"), Some(Corruption::PdfNoXref));

    // one object only
    let mut one = good.clone();
    one[33] = b'_';
    assert_eq!(check_structure(&one, "pdf"), Some(Corruption::PdfTooFewObjects));
}

#[test]
fn pdf_offset_may_point_at_an_object_or_a_stream() {
    let mut data = pdf(5000);
    data[4800..4804].copy_from_slice(b"obj ");
    assert_eq!(check_structure(&data, "pdf"), None);
    data[4800..4804].copy_from_slice(b"XRef");
    assert_eq!(check_structure(&data, "pdf"), None);
    data[4800..4804].copy_from_slice(b"Xref");
    assert_eq!(check_structure(&data, "pdf"), Some(Corruption::PdfNoXref));
}

#[test]
fn zip_png_and_jpeg_are_checked_at_both_ends() {
    assert_eq!(find_corruption(&zip(5000), "docx"), None);
    assert_eq!(find_corruption(&zip(5000), "jar"), None);
    let mut no_end = zip(5000);
    no_end[5000 - 22] = 0;
    assert_eq!(find_corruption(&no_end, "xlsx"), Some(Corruption::ZipNoDirectoryEnd));
    let mut far = zip(5000);
    far.extend(vec![0x33u8; 256]);
    assert_eq!(find_corruption(&far, "zip"), Some(Corruption::ZipNoDirectoryEnd));
    assert_eq!(check_structure(&zip(29), "zip"), None);
    assert_eq!(check_structure(&zip(29)[..28], "zip"), None);
    assert_eq!(check_structure(&[0x50, 0x4B, 0x03], "zip"), Some(Corruption::HeaderMismatch));
    assert_eq!(check_structure(b"IEND", "png"), None);
    assert_eq!(check_structure(b"IEN", "png"), Some(Corruption::PngNoEnd));
    assert_eq!(check_structure(&[0xFF, 0xD8, 0xFF, 0xD9], "jpg"), None);
    assert_eq!(check_structure(&[0xFF, 0xD8, 0xFF], "jpg"), Some(Corruption::JpegNoEnd));

    assert_eq!(find_corruption(&png(5000), "png"), None);
    let mut cut = png(5000);
    cut.extend(vec![0x44u8; 32]);
    assert_eq!(find_corruption(&cut, "png"), Some(Corruption::PngNoEnd));

    assert_eq!(find_corruption(&jpeg(5000), "jpg"), None);
    assert_eq!(find_corruption(&jpeg(5000), "jpeg"), None);
    let mut open = jpeg(5000);
    open[4999] = 0xD8;
    assert_eq!(find_corruption(&open, "jpg"), Some(Corruption::JpegNoEnd));
    let mut headless = jpeg(5000);
    headless[1] = 0;
    assert_eq!(find_corruption(&headless, "jpg"), Some(Corruption::HeaderMismatch));
}

#[test]
fn carved_files_of_unknown_formats_pass() {
    assert!(validate_carved_file(&[1, 2, 3], "bin"));
    assert!(validate_carved_file(&[], "mp3"));
    assert!(!validate_carved_file(&[], "png"));
    assert!(validate_carved_file(&png(100), "PNG"));
    assert!(validate_carved_file(&jpeg(100), "Jpg"));
}

#[test]
fn keywords_are_counted_in_lowercase_text() {
    let keywords = vec!["annual".to_string(), "report".to_string(), "2023".to_string()];
    assert_eq!(count_keyword_matches(b"The ANNUAL Report of 2022", &keywords), 2);
    assert_eq!(count_keyword_matches(b"", &keywords), 0);
    assert_eq!(count_keyword_matches(b"annual report 2023", &[]), 0);
    // invalid bytes become replacement characters and part what stands around them
    assert_eq!(count_keyword_matches(b"ann\xFFual REPORT", &keywords), 1);
    // only the first hundred kibibytes are read
    let mut late = vec![b' '; 100 * 1024];
    late.extend_from_slice(b"report");
    assert_eq!(count_keyword_matches(&late, &keywords), 0);
    late[100 * 1024 - 6..100 * 1024].copy_from_slice(b"REPORT");
    assert_eq!(count_keyword_matches(&late, &keywords), 1);
    let text: Vec<char> = "annual 2023".chars().collect();
    assert_eq!(count_keywords_in(&text, &keywords), 2);
}

#[test]
fn footer_is_found_at_its_last_occurrence() {
    let data = b"ab%%EOFcd%%EOFef";
    assert_eq!(find_footer(data, b"%%EOF"), Some(9));
    assert_eq!(find_footer_from(data, b"%%EOF", 9), Some(9));
    assert_eq!(find_footer_from(data, b"%%EOF", 10), None);
    assert_eq!(find_footer_from(data, b"%%EOF", 16), None);
    assert_eq!(find_footer(b"%%EO", b"%%EOF"), None);
    assert_eq!(find_footer(b"%%EOF", b"%%EOF"), Some(0));
    assert_eq!(find_footer(b"abc", b""), Some(3));
    assert_eq!(find_footer(b"", b""), None);
}

#[test]
fn lists_of_extensions_are_searched_exactly() {
    assert!(is_among("zip", &["rar", "zip"]));
    assert!(!is_among("ZIP", &["rar", "zip"]));
    assert!(!is_among("zip", &[]));
    assert!(!is_among("zi", &["zip"]));
}
