use ntfs_recovery::file_carver::{
    build_signature_lookup, carve_sector, count_by_category, estimate_file_size,
    estimate_mp4_size, get_signature_stats, index_signatures, validate_signature, FileSignature,
};
use ntfs_recovery::signature_catalogue::get_signatures;

fn sig(extension: &'static str, header: &'static [u8], footer: Option<&'static [u8]>, max_size: u64) -> FileSignature {
    FileSignature { name: "Test Format", extension, header, footer, max_size, category: "Tests" }
}

fn jpeg(total: usize) -> Vec<u8> {
    let mut data = vec![0x11u8; total];
    data[..11].copy_from_slice(&[0xFF, 0xD8, 0xFF, 0xE0, 0x00, 0x10, b'J', b'F', b'I', b'F', 0x00]);
    data[total - 2] = 0xFF;
    data[total - 1] = 0xD9;
    data
}

fn atom(size: u32, kind: &[u8; 4], total: usize) -> Vec<u8> {
    let mut a = vec![0u8; total];
    a[..4].copy_from_slice(&size.to_be_bytes());
    a[4..8].copy_from_slice(kind);
    a
}

#[test]
fn catalogue_has_its_records_and_they_are_well_formed() {
    let sigs = get_signatures();
    assert_eq!(sigs.len(), 503);
    for s in &sigs {
        assert!(!s.header.is_empty());
        assert!(s.max_size >= 10 * 1024);
        if let Some(f) = s.footer {
            assert!(!f.is_empty());
        }
    }
    assert_eq!(sigs[0].extension, "jpg");
    assert_eq!(sigs[0].header, &[0xFF, 0xD8, 0xFF]);
    assert_eq!(sigs[0].footer, Some(&[0xFFu8, 0xD9][..]));
    assert_eq!(sigs[1].extension, "png");
}

#[test]
fn index_holds_every_record_under_its_prefix() {
    let sigs = get_signatures();
    let lookup = build_signature_lookup();
    for s in &sigs {
        if s.header.len() >= 2 {
            let key = u16::from_le_bytes([s.header[0], s.header[1]]);
            let list = lookup.get(&key).unwrap();
            assert!(list.iter().any(|x| x.name == s.name && x.extension == s.extension && x.header == s.header));
        }
    }
    let indexed: usize = lookup.values().map(|l| l.len()).sum();
    assert_eq!(indexed, sigs.iter().filter(|s| s.header.len() >= 2).count());
}

#[test]
fn index_keeps_catalogue_order_and_leaves_short_headers_out() {
    let sigs = vec![
        sig("one", &[0x41, 0x42, 0x01], None, 1 << 20),
        sig("short", &[0x41], None, 1 << 20),
        sig("two", &[0x41, 0x42, 0x02], None, 1 << 20),
        sig("other", &[0x42, 0x41], None, 1 << 20),
    ];
    let lookup = index_signatures(&sigs);
    assert_eq!(lookup.len(), 2);
    let list = &lookup[&0x4241];
    assert_eq!(list.len(), 2);
    assert_eq!(list[0].extension, "one");
    assert_eq!(list[1].extension, "two");
    assert_eq!(lookup[&0x4142][0].extension, "other");
}

#[test]
fn statistics_count_the_records_of_each_category() {
    let sigs = vec![
        FileSignature { name: "a", extension: "a", header: &[1, 2], footer: None, max_size: 1, category: "Images" },
        FileSignature { name: "b", extension: "b", header: &[1, 2], footer: None, max_size: 1, category: "Audio" },
        FileSignature { name: "c", extension: "c", header: &[1, 2], footer: None, max_size: 1, category: "Images" },
    ];
    assert_eq!(
        count_by_category(&sigs),
        vec![("Images".to_string(), 2), ("Audio".to_string(), 1)]
    );
    let stats = get_signature_stats();
    let total: usize = stats.iter().map(|s| s.1).sum();
    assert_eq!(total, 503);
    assert_eq!(stats.iter().find(|s| s.0 == "Code").unwrap().1, 54);
    assert_eq!(stats.len(), 33);
}

#[test]
fn jpeg_is_rated_by_its_markers() {
    let s = sig("jpg", &[0xFF, 0xD8, 0xFF], Some(&[0xFF, 0xD9]), 1 << 20);
    assert_eq!(validate_signature(&s, &jpeg(100)), 98);
    let mut exif = jpeg(100);
    exif[6..10].copy_from_slice(b"Exif");
    assert_eq!(validate_signature(&s, &exif), 98);
    let mut plain = jpeg(100);
    plain[6] = b'X';
    assert_eq!(validate_signature(&s, &plain), 90);
    // the third byte is all that the lower rating asks for
    assert_eq!(validate_signature(&s, &[0xFF, 0xD8, 0xFF]), 90);
    assert_eq!(validate_signature(&s, &[0xFF, 0xD8]), 70);
    assert_eq!(validate_signature(&s, &[0xFF, 0xD8, 0x00, 0x00]), 70);
    // the literal may end the buffer
    assert_eq!(validate_signature(&s, &jpeg(100)[..10]), 98);
    assert_eq!(validate_signature(&s, &jpeg(100)[..9]), 90);
}

#[test]
fn other_formats_are_rated_by_their_structure() {
    let png = sig("png", &[0x89, 0x50], None, 1 << 20);
    let mut data = vec![0u8; 32];
    data[12..16].copy_from_slice(b"IHDR");
    assert_eq!(validate_signature(&png, &data), 98);
    assert_eq!(validate_signature(&png, &data[..16]), 98);
    assert_eq!(validate_signature(&png, &data[..15]), 70);

    let pdf = sig("pdf", &[0x25, 0x50], None, 1 << 20);
    assert_eq!(validate_signature(&pdf, b"%PDF-1.4\n"), 95);
    assert_eq!(validate_signature(&pdf, b"%PDF-x.4\n"), 70);
    assert_eq!(validate_signature(&pdf, b"%PDF-1"), 95);
    assert_eq!(validate_signature(&pdf, b"%PDF-"), 70);

    let mp3 = sig("mp3", &[0x49, 0x44], None, 1 << 20);
    assert_eq!(validate_signature(&mp3, b"ID3\x03"), 95);
    assert_eq!(validate_signature(&mp3, &[0xFF, 0xFB, 0x90, 0x00]), 85);
    assert_eq!(validate_signature(&mp3, &[0xFF, 0x1B, 0x90, 0x00]), 70);
    assert_eq!(validate_signature(&mp3, b"ID3"), 95);
    assert_eq!(validate_signature(&mp3, &[0xFF, 0xFB]), 85);
    assert_eq!(validate_signature(&mp3, &[0xFF]), 70);

    let exe = sig("exe", &[0x4D, 0x5A], None, 1 << 20);
    let mut pe = vec![0u8; 200];
    pe[0] = b'M';
    pe[1] = b'Z';
    pe[60] = 128;
    pe[128..132].copy_from_slice(b"PE\0\0");
    assert_eq!(validate_signature(&exe, &pe), 95);
    // the mark may end the buffer
    assert_eq!(validate_signature(&exe, &pe[..132]), 95);
    assert_eq!(validate_signature(&exe, &pe[..131]), 70);
    pe[130] = 1;
    assert_eq!(validate_signature(&exe, &pe), 70);

    let unknown = sig("xyz", &[1, 2], None, 1 << 20);
    assert_eq!(validate_signature(&unknown, &[1, 2, 3]), 70);
}

#[test]
fn zip_is_rated_by_the_name_of_its_first_entry() {
    let zip = sig("docx", &[0x50, 0x4B, 0x03, 0x04], None, 1 << 20);
    let entry = |name: &[u8]| {
        let mut data = vec![0u8; 30];
        data[..4].copy_from_slice(&[0x50, 0x4B, 0x03, 0x04]);
        data[26..28].copy_from_slice(&(name.len() as u16).to_le_bytes());
        data.extend_from_slice(name);
        data.extend_from_slice(&[0u8; 8]);
        data
    };
    assert_eq!(validate_signature(&zip, &entry(b"[Content_Types].xml")), 98);
    assert_eq!(validate_signature(&zip, &entry(b"word/document.xml")), 98);
    assert_eq!(validate_signature(&zip, &entry(b"readme.txt")), 90);
    assert_eq!(validate_signature(&zip, &entry(b"")), 70);
    let mut huge = entry(b"readme.txt");
    huge[18..22].copy_from_slice(&1_000_000_000u32.to_le_bytes());
    assert_eq!(validate_signature(&zip, &huge), 70);
}

#[test]
fn mp4_is_rated_by_box_size_and_brand() {
    let mp4 = sig("mp4", &[0x66, 0x74], None, 1 << 30);
    let mut data = vec![0u8; 32];
    data[..4].copy_from_slice(&24u32.to_be_bytes());
    data[4..8].copy_from_slice(b"ftyp");
    data[8..12].copy_from_slice(b"isom");
    assert_eq!(validate_signature(&mp4, &data), 98);
    data[8..12].copy_from_slice(b"dash");
    assert_eq!(validate_signature(&mp4, &data), 95);
    data[..4].copy_from_slice(&2000u32.to_be_bytes());
    assert_eq!(validate_signature(&mp4, &data), 40);
    assert_eq!(validate_signature(&mp4, &data[..16]), 40);
}

#[test]
fn mp4_size_is_the_end_of_the_last_atom() {
    let mut file = atom(24, b"ftyp", 24);
    file.extend(atom(1000, b"moov", 1000));
    file.extend(atom(5000, b"mdat", 100));
    assert_eq!(estimate_mp4_size(&file), 6024);
    // no atom at all: fewer bytes than a header has
    assert_eq!(estimate_mp4_size(&[0u8; 7]), 50 * 1024 * 1024);
    assert_eq!(estimate_mp4_size(&[]), 50 * 1024 * 1024);
    // a header that ends the buffer is read: its size of zero runs to the end of the file
    assert_eq!(estimate_mp4_size(&[0u8; 8]), 100 * 1024 * 1024);
    // so is the header of a second atom that ends the buffer
    let mut flush = atom(24, b"ftyp", 24);
    flush.extend_from_slice(&[0, 0, 4, 0]);
    flush.extend_from_slice(b"moov");
    assert_eq!(estimate_mp4_size(&flush), 24 + 1024);
    assert_eq!(estimate_mp4_size(&flush[..31]), 24);
    assert_eq!(estimate_mp4_size(&atom(4, b"free", 64)), 50 * 1024 * 1024);
    // an atom that runs to the end of the file
    let mut open = atom(24, b"ftyp", 24);
    open.extend(atom(0, b"mdat", 64));
    assert_eq!(estimate_mp4_size(&open), 100 * 1024 * 1024);
    // a 64-bit size
    let mut wide = atom(1, b"mdat", 64);
    wide[8..16].copy_from_slice(&(3u64 << 32).to_be_bytes());
    assert_eq!(estimate_mp4_size(&wide), 3 << 32);
    // an atom beyond the ten mebibytes of headers ends the walk
    let mut far = atom(11 * 1024 * 1024, b"mdat", 64);
    far.extend(vec![0u8; 16]);
    assert_eq!(estimate_mp4_size(&far), 11 * 1024 * 1024);
}

#[test]
fn size_is_estimated_by_footer_then_format_then_default() {
    let jpg = sig("jpg", &[0xFF, 0xD8, 0xFF], Some(&[0xFF, 0xD9]), 1 << 20);
    let mut buffer = jpeg(5000);
    buffer.push(0);
    assert_eq!(estimate_file_size(&jpg, &buffer), 5000);
    // a footer that ends with the buffer counts
    assert_eq!(estimate_file_size(&jpg, &jpeg(5000)), 5000);
    let mut flush = vec![0xFF, 0xD8, 0xFF, 0xE0];
    flush.extend(vec![0u8; 1020]);
    flush.extend_from_slice(&[0xFF, 0xD9]);
    let catalogued = FileSignature {
        name: "JPEG Image",
        extension: "jpg",
        header: &[0xFF, 0xD8, 0xFF],
        footer: Some(&[0xFF, 0xD9]),
        max_size: 52_428_800,
        category: "Images",
    };
    assert_eq!(estimate_file_size(&catalogued, &flush), 1026);
    // a footer that ends at the cap of the format counts, one behind it does not
    let exact = sig("jpg", &[0xFF, 0xD8, 0xFF], Some(&[0xFF, 0xD9]), 5000);
    assert_eq!(estimate_file_size(&exact, &buffer), 5000);
    let tight = sig("jpg", &[0xFF, 0xD8, 0xFF], Some(&[0xFF, 0xD9]), 4999);
    assert_eq!(estimate_file_size(&tight, &buffer), 500 * 1024);
    // a footer of no bytes is no footer
    let none = sig("jpg", &[0xFF, 0xD8, 0xFF], Some(&[]), 1 << 20);
    assert_eq!(estimate_file_size(&none, &buffer), 500 * 1024);
    // nor does a footer beyond the cap of the format
    let small = sig("jpg", &[0xFF, 0xD8, 0xFF], Some(&[0xFF, 0xD9]), 100);
    assert_eq!(estimate_file_size(&small, &buffer), 500 * 1024);
    // the first footer behind the header ends the file
    buffer[10] = 0xFF;
    buffer[11] = 0xD9;
    assert_eq!(estimate_file_size(&jpg, &buffer), 12);

    let bmp = sig("bmp", &[0x42, 0x4D], None, 1 << 20);
    let mut image = vec![0u8; 64];
    image[2..6].copy_from_slice(&70_000u32.to_le_bytes());
    assert_eq!(estimate_file_size(&bmp, &image), 70_000);
    image[2..6].copy_from_slice(&(1u32 << 20).to_le_bytes());
    assert_eq!(estimate_file_size(&bmp, &image), 1024 * 1024);

    assert_eq!(estimate_file_size(&sig("gif", &[1, 2], None, 1), &[1, 2]), 100 * 1024);
    assert_eq!(estimate_file_size(&sig("pdf", &[1, 2], None, 1), &[1, 2]), 1024 * 1024);
    assert_eq!(estimate_file_size(&sig("mp3", &[1, 2], None, 1), &[1, 2]), 5 * 1024 * 1024);
    assert_eq!(estimate_file_size(&sig("doc", &[1, 2], None, 1), &[1, 2]), 200 * 1024);
    assert_eq!(estimate_file_size(&sig("xyz", &[1, 2], None, 1), &[1, 2]), 1024 * 1024);
}

#[test]
fn png_size_is_the_end_of_the_iend_chunk() {
    let png = sig("png", &[0x89, 0x50, 0x4E, 0x47, 0x0D, 0x0A, 0x1A, 0x0A], None, 1 << 20);
    let mut data = vec![0x89, 0x50, 0x4E, 0x47, 0x0D, 0x0A, 0x1A, 0x0A];
    let chunk = |kind: &[u8; 4], len: usize| {
        let mut c = Vec::new();
        c.extend_from_slice(&(len as u32).to_be_bytes());
        c.extend_from_slice(kind);
        c.extend(vec![0x22u8; len + 4]);
        c
    };
    data.extend(chunk(b"IHDR", 13));
    data.extend(chunk(b"IDAT", 2000));
    data.extend(chunk(b"IEND", 0));
    let end = data.len() as u64;
    data.extend(vec![0u8; 64]);
    assert_eq!(estimate_file_size(&png, &data), end);
    assert_eq!(estimate_file_size(&png, &data[..2000]), 300 * 1024);
}

#[test]
fn zip_size_is_the_end_of_the_last_directory_record() {
    let zip = sig("zip", &[0x50, 0x4B, 0x03, 0x04], None, 1 << 30);
    let mut data = vec![0x33u8; 4000];
    data[..4].copy_from_slice(&[0x50, 0x4B, 0x03, 0x04]);
    data[1000..1004].copy_from_slice(&[0x50, 0x4B, 0x05, 0x06]);
    data[3000..3004].copy_from_slice(&[0x50, 0x4B, 0x05, 0x06]);
    data[3020..3022].copy_from_slice(&7u16.to_le_bytes());
    data[3990..3994].copy_from_slice(&[0x50, 0x4B, 0x05, 0x06]);
    assert_eq!(estimate_file_size(&zip, &data), 3029);
    assert_eq!(estimate_file_size(&zip, &data[..900]), 1024 * 1024);
}

#[test]
fn jpeg_is_carved_with_its_size_and_confidence() {
    let mut buffer = vec![0u8; 8192];
    let file = jpeg(3000);
    buffer[1000..4000].copy_from_slice(&file);
    let lookup = build_signature_lookup();
    let carved = carve_sector(&buffer, 16, &lookup);
    assert_eq!(carved.len(), 1);
    assert_eq!(carved[0].sector_offset, 16);
    assert_eq!(carved[0].byte_offset, 1000);
    assert_eq!(carved[0].estimated_size, 3000);
    assert_eq!(carved[0].extension, "jpg");
    assert_eq!(carved[0].file_type, "JPEG Image");
    assert_eq!(carved[0].category, "Images");
    assert_eq!(carved[0].confidence, 98);
    assert_eq!(carved[0].header_match, "ffd8ffe000104a464946001111111111");
}

#[test]
fn carved_jpeg_across_a_chunk_boundary() {
    let mut buffer = vec![0u8; 12 * 1024 * 1024];
    let file = jpeg(200 * 1024);
    buffer[0x3FFFFE..0x3FFFFE + file.len()].copy_from_slice(&file);
    let lookup = build_signature_lookup();
    let carved = carve_sector(&buffer, 0, &lookup);
    assert_eq!(carved.len(), 1);
    assert_eq!(carved[0].byte_offset, 0x3FFFFE);
    assert_eq!(carved[0].estimated_size, 200 * 1024);
    assert!(carved[0].confidence >= 90);
}

#[test]
fn mp4_is_carved_by_its_ftyp_box() {
    let mut buffer = vec![0u8; 4096];
    let mut file = atom(24, b"ftyp", 24);
    file[8..12].copy_from_slice(b"mp42");
    file.extend(atom(2000, b"moov", 2000));
    // what follows is no atom: it is smaller than its own header
    file.extend(atom(4, b"junk", 8));
    buffer[500..500 + file.len()].copy_from_slice(&file);
    let lookup = build_signature_lookup();
    let carved = carve_sector(&buffer, 2, &lookup);
    assert_eq!(carved.len(), 1);
    assert_eq!(carved[0].byte_offset, 500);
    assert_eq!(carved[0].extension, "mp4");
    assert_eq!(carved[0].file_type, "MP4 Video");
    assert_eq!(carved[0].category, "Videos");
    assert_eq!(carved[0].confidence, 95);
    assert_eq!(carved[0].estimated_size, 2024);
    assert_eq!(carved[0].header_match, "00000018667479706d70343200000000");
}

#[test]
fn mp4_below_the_least_plausible_size_is_dropped() {
    // a 24-byte ftyp box, then an atom of size 5: the file ends after 24 bytes
    let mut file = atom(24, b"ftyp", 24);
    file[8..12].copy_from_slice(b"isom");
    file.extend_from_slice(&[0, 0, 0, 5]);
    file.extend(vec![0x33u8; 60]);
    let mut buffer = vec![0u8; 4096];
    buffer[500..500 + file.len()].copy_from_slice(&file);
    assert!(carve_sector(&buffer, 0, &build_signature_lookup()).is_empty());
    // an ftyp box that starts 21 bytes before the end has no second atom
    let mut late = vec![0u8; 1021];
    let mut tail = atom(16, b"ftyp", 21);
    tail[8..12].copy_from_slice(b"isom");
    late.extend(tail);
    assert!(carve_sector(&late, 0, &build_signature_lookup()).is_empty());
    // atoms of 1024 bytes in all are enough
    let mut enough = atom(24, b"ftyp", 24);
    enough[8..12].copy_from_slice(b"isom");
    enough.extend(atom(1000, b"moov", 1000));
    enough.extend(atom(4, b"junk", 8));
    let mut room = vec![0u8; 4096];
    room[500..500 + enough.len()].copy_from_slice(&enough);
    let carved = carve_sector(&room, 0, &build_signature_lookup());
    assert_eq!(carved.len(), 1);
    assert_eq!(carved[0].estimated_size, 1024);
    assert_eq!(carved[0].header_match, "000000186674797069736f6d00000000");
}

#[test]
fn small_buffers_and_small_files_give_nothing() {
    let lookup = build_signature_lookup();
    assert!(carve_sector(&jpeg(31), 0, &lookup).is_empty());
    // a JPEG of 600 bytes is below the least plausible size
    let mut buffer = vec![0u8; 4096];
    buffer[100..700].copy_from_slice(&jpeg(600));
    assert!(carve_sector(&buffer, 0, &lookup).is_empty());
    // a header in the last 32 bytes is not looked at
    let mut late = vec![0u8; 4096];
    late[4070..4081].copy_from_slice(&jpeg(11));
    assert!(carve_sector(&late, 0, &lookup).is_empty());
}

#[test]
fn no_two_finds_share_an_offset() {
    let mut buffer = vec![0u8; 64 * 1024];
    for k in 0..8usize {
        let at = 1000 + k * 5000;
        buffer[at..at + 3000].copy_from_slice(&jpeg(3000));
    }
    // an MP4 whose box also looks like the start of other formats
    let mut file = atom(24, b"ftyp", 24);
    file[8..12].copy_from_slice(b"isom");
    file.extend(atom(2000, b"moov", 2000));
    buffer[50_000..50_000 + file.len()].copy_from_slice(&file);
    let carved = carve_sector(&buffer, 7, &build_signature_lookup());
    assert_eq!(carved.len(), 9);
    for a in 0..carved.len() {
        for b in a + 1..carved.len() {
            assert_ne!(
                carved[a].sector_offset * 512 + carved[a].byte_offset,
                carved[b].sector_offset * 512 + carved[b].byte_offset
            );
        }
    }
    assert_eq!(carved[0].extension, "mp4");
}

#[test]
fn png_is_carved_by_its_header_and_chunks() {
    let mut file = vec![0x89, 0x50, 0x4E, 0x47, 0x0D, 0x0A, 0x1A, 0x0A];
    let chunk = |kind: &[u8; 4], len: usize| {
        let mut c = Vec::new();
        c.extend_from_slice(&(len as u32).to_be_bytes());
        c.extend_from_slice(kind);
        c.extend(vec![0x22u8; len + 4]);
        c
    };
    file.extend(chunk(b"IHDR", 13));
    file.extend(chunk(b"IDAT", 2000));
    file.extend(chunk(b"IEND", 0));
    let mut buffer = vec![0u8; 8192];
    buffer[512..512 + file.len()].copy_from_slice(&file);
    let carved = carve_sector(&buffer, 4, &build_signature_lookup());
    assert!(!carved.is_empty());
    assert_eq!(carved[0].extension, "png");
    assert_eq!(carved[0].byte_offset, 512);
    assert_eq!(carved[0].sector_offset, 4);
    assert_eq!(carved[0].confidence, 98);
    assert!(carved[0].estimated_size >= 1024);
}

#[test]
fn pdf_is_carved_by_its_header_and_footer() {
    let mut file = b"%PDF-1.4\n".to_vec();
    file.extend(vec![b'x'; 3000]);
    file.extend_from_slice(b"\n%%EOF");
    let mut buffer = vec![0u8; 8192];
    buffer[..file.len()].copy_from_slice(&file);
    let carved = carve_sector(&buffer, 0, &build_signature_lookup());
    assert!(!carved.is_empty());
    assert_eq!(carved[0].extension, "pdf");
    assert_eq!(carved[0].byte_offset, 0);
    assert_eq!(carved[0].confidence, 95);
    assert_eq!(carved[0].estimated_size, file.len() as u64);
}

#[test]
fn bare_headers_are_too_short_to_be_carved() {
    let lookup = build_signature_lookup();
    let jpeg_header = vec![0xFF, 0xD8, 0xFF, 0xE0, 0x00, 0x10, 0x4A, 0x46, 0x49, 0x46];
    assert!(carve_sector(&jpeg_header, 0, &lookup).is_empty());
    let png_header = vec![0x89, 0x50, 0x4E, 0x47, 0x0D, 0x0A, 0x1A, 0x0A];
    assert!(carve_sector(&png_header, 0, &lookup).is_empty());
    let pdf_header = b"%PDF-1.4".to_vec();
    assert!(carve_sector(&pdf_header, 0, &lookup).is_empty());
    // the same headers at the front of a buffer that is long enough
    for (header, extension) in [(jpeg_header, "jpg"), (pdf_header, "pdf")] {
        let mut buffer = vec![0u8; 64];
        buffer[..header.len()].copy_from_slice(&header);
        let carved = carve_sector(&buffer, 0, &lookup);
        assert!(!carved.is_empty());
        assert_eq!(carved[0].extension, extension);
    }
}

#[test]
fn index_holds_each_indexable_record_once() {
    let sigs = get_signatures();
    let lookup = build_signature_lookup();
    let indexable = sigs.iter().filter(|s| s.header.len() >= 2).count();
    let listed: usize = lookup.values().map(|list| list.len()).sum();
    assert_eq!(listed, indexable);
    for (key, list) in lookup.iter() {
        assert!(!list.is_empty());
        for e in list {
            assert!(e.header.len() >= 2);
            assert_eq!(u16::from_le_bytes([e.header[0], e.header[1]]), *key);
        }
    }
    let jpeg_list = &lookup[&0xD8FF];
    assert!(jpeg_list.iter().any(|e| e.extension == "jpg" && e.header == [0xFF, 0xD8, 0xFF]));
}

#[test]
fn formats_give_their_own_size() {
    // a PNG whose last chunk ends the buffer
    let png = sig("png", &[0x89, 0x50, 0x4E, 0x47, 0x0D, 0x0A, 0x1A, 0x0A], None, 1 << 20);
    let mut data = vec![0x89, 0x50, 0x4E, 0x47, 0x0D, 0x0A, 0x1A, 0x0A];
    let chunk = |kind: &[u8; 4], len: usize| {
        let mut c = Vec::new();
        c.extend_from_slice(&(len as u32).to_be_bytes());
        c.extend_from_slice(kind);
        c.extend(vec![0x22u8; len + 4]);
        c
    };
    data.extend(chunk(b"IHDR", 13));
    data.extend(chunk(b"IDAT", 2000));
    data.extend(chunk(b"IEND", 0));
    assert_eq!(estimate_file_size(&png, &data), data.len() as u64);
    assert_eq!(estimate_file_size(&png, &data[..data.len() - 1]), 300 * 1024);
    // a bitmap names its size in its header
    let bmp = sig("bmp", &[0x42, 0x4D], None, 5000);
    assert_eq!(estimate_file_size(&bmp, &[0x42, 0x4D, 0x88, 0x13, 0, 0]), 5000);
    assert_eq!(estimate_file_size(&bmp, &[0x42, 0x4D, 0x89, 0x13, 0, 0]), 1024 * 1024);
    assert_eq!(estimate_file_size(&bmp, &[0x42, 0x4D, 0x88, 0x13, 0]), 1024 * 1024);
    // a film is sized by its atoms: an atom of size zero runs to the end of the file
    let mov = sig("mov", &[0, 0, 0, 0x14, 0x66, 0x74, 0x79, 0x70], None, 1 << 30);
    let mut open = atom(20, b"ftyp", 20);
    open.extend(atom(0, b"mdat", 64));
    assert_eq!(estimate_file_size(&mov, &open), 100 * 1024 * 1024);
    let mut whole = atom(20, b"ftyp", 20);
    whole.extend(atom(3000, b"moov", 3000));
    whole.extend(atom(4, b"junk", 8));
    assert_eq!(estimate_file_size(&mov, &whole), 3020);
    // atoms of more than the cap of the format give no size
    let tight = sig("mov", &[0, 0, 0, 0x14, 0x66, 0x74, 0x79, 0x70], None, 3019);
    assert_eq!(estimate_file_size(&tight, &whole), 1024 * 1024);
    let exact = sig("mov", &[0, 0, 0, 0x14, 0x66, 0x74, 0x79, 0x70], None, 3020);
    assert_eq!(estimate_file_size(&exact, &whole), 3020);
}

#[test]
fn film_is_found_in_a_buffer_of_fewer_than_32_bytes() {
    let mut buffer = atom(16, b"ftyp", 16);
    buffer[8..12].copy_from_slice(b"isom");
    buffer.extend_from_slice(&5000u32.to_be_bytes());
    buffer.extend_from_slice(b"mdat");
    buffer.extend_from_slice(&[0u8; 4]);
    assert_eq!(buffer.len(), 28);
    let carved = carve_sector(&buffer, 3, &build_signature_lookup());
    assert_eq!(carved.len(), 1);
    assert_eq!(carved[0].extension, "mp4");
    assert_eq!(carved[0].byte_offset, 0);
    assert_eq!(carved[0].estimated_size, 5016);
    assert_eq!(carved[0].header_match, "000000106674797069736f6d00000000");
    // no start has more than twenty bytes behind it
    assert!(carve_sector(&buffer[..20], 3, &build_signature_lookup()).is_empty());
}
