use ntfs_recovery::error::RecoveryError;
use ntfs_recovery::filesystem_recovery_engine::RecoverableFileFS;
use ntfs_recovery::recovery_strategies::{
    carving_result, consider_candidate, header_lead, next_piece, search_piece, skip_piece,
    start_volume_scan, CarveSearch, VolumeScan,
};

fn wanted(name: &str) -> RecoverableFileFS {
    RecoverableFileFS {
        id: "fs_mft_12".to_string(),
        name: name.to_string(),
        path: format!("C:\\Docs\\{}", name),
        size: 4000,
        extension: "pdf".to_string(),
        category: "Documents".to_string(),
        file_type: "pdf".to_string(),
        modified: String::new(),
        created: String::new(),
        is_deleted: true,
        recovery_chance: 20,
        source: "mft".to_string(),
        cluster_offset: None,
        data_runs: None,
    }
}

#[test]
fn search_starts_at_the_front_of_the_volume() {
    let scan = start_volume_scan();
    assert_eq!(scan.scan_offset, 0);
    assert_eq!(scan.scanned, 0);
    assert_eq!(scan.candidates, 0);
    assert!(scan.tail.is_empty());
    assert_eq!(next_piece(&scan, false, false, 4096), Ok(Some(0)));
    assert_eq!(next_piece(&scan, true, false, 4096), Ok(None));
    assert_eq!(next_piece(&scan, false, false, 0), Ok(None));
    assert_eq!(next_piece(&scan, false, true, 4096), Err(RecoveryError::Cancelled));
    assert_eq!(next_piece(&scan, true, true, 4096), Err(RecoveryError::Cancelled));
}

#[test]
fn search_ends_at_its_caps() {
    let at = |scan_offset: u64, scanned: u64, candidates: u32| VolumeScan {
        scan_offset,
        scanned,
        candidates,
        tail: Vec::new(),
    };
    assert_eq!(next_piece(&at(8 * 1024 * 1024, 8 * 1024 * 1024, 3), false, false, 4096), Ok(Some(2048)));
    assert_eq!(next_piece(&at(4097, 4097, 0), false, false, 4096), Ok(Some(1)));
    assert_eq!(next_piece(&at(0, 8 * 1024 * 1024 * 1024, 0), false, false, 4096), Ok(None));
    assert_eq!(next_piece(&at(0, 8 * 1024 * 1024 * 1024 - 1, 49), false, false, 4096), Ok(Some(0)));
    assert_eq!(next_piece(&at(0, 0, 50), false, false, 4096), Ok(None));
}

#[test]
fn unreadable_piece_is_passed_over() {
    let mut scan = start_volume_scan();
    scan.tail = vec![1, 2, 3];
    scan.candidates = 4;
    skip_piece(&mut scan);
    assert_eq!(scan.scan_offset, 4 * 1024 * 1024);
    assert_eq!(scan.scanned, 4 * 1024 * 1024);
    assert_eq!(scan.candidates, 4);
    assert_eq!(scan.tail, vec![1, 2, 3]);
    scan.scan_offset = u64::MAX - 5;
    skip_piece(&mut scan);
    assert_eq!(scan.scan_offset, u64::MAX);
    assert_eq!(scan.scanned, 8 * 1024 * 1024);
}

#[test]
fn headers_of_a_piece_give_the_starts_of_files() {
    let mut chunk = vec![0u8; 1000];
    chunk[10..15].copy_from_slice(b"%PDF-");
    chunk[500..505].copy_from_slice(b"%PDF-");
    let mut scan = start_volume_scan();
    let starts = search_piece(&mut scan, &chunk, b"%PDF-", 0);
    assert_eq!(starts, vec![10, 500]);
    assert_eq!(scan.candidates, 2);
    assert_eq!(scan.scan_offset, 1000);
    assert_eq!(scan.scanned, 1000);
    assert_eq!(scan.tail, chunk[992..].to_vec());
}

#[test]
fn header_across_two_pieces_is_found() {
    let mut first = vec![0u8; 1000];
    first[997..1000].copy_from_slice(b"%PD");
    let mut second = vec![0u8; 1000];
    second[0..2].copy_from_slice(b"F-");
    second[300..305].copy_from_slice(b"%PDF-");
    let mut scan = start_volume_scan();
    assert_eq!(search_piece(&mut scan, &first, b"%PDF-", 0), Vec::<u64>::new());
    assert_eq!(scan.tail.len(), 8);
    let starts = search_piece(&mut scan, &second, b"%PDF-", 0);
    assert_eq!(starts, vec![997, 1300]);
    assert_eq!(scan.candidates, 2);
    assert_eq!(scan.scan_offset, 2000);
}

#[test]
fn tail_is_as_long_as_a_long_header() {
    let header = b"0123456789AB";
    let mut scan = start_volume_scan();
    let chunk: Vec<u8> = (0..100u8).collect();
    search_piece(&mut scan, &chunk, header, 0);
    assert_eq!(scan.tail, chunk[88..].to_vec());
    // the tail is the end of all that was searched, however short the piece
    search_piece(&mut scan, &[1, 2, 3], header, 0);
    let mut expected = chunk[91..].to_vec();
    expected.extend_from_slice(&[1, 2, 3]);
    assert_eq!(scan.tail, expected);
    assert_eq!(scan.scan_offset, 103);
    // a first piece shorter than the overlap is kept whole
    let mut short = start_volume_scan();
    search_piece(&mut short, &[7, 8, 9], b"%PDF-", 0);
    assert_eq!(short.tail, vec![7, 8, 9]);
}

#[test]
fn header_at_the_end_of_a_piece_is_found_once() {
    // a header that ends with the piece
    let mut first = vec![0u8; 1000];
    first[995..1000].copy_from_slice(b"%PDF-");
    // a short header that lies wholly inside the tail of eight bytes
    first[500..503].copy_from_slice(b"ID3");
    let mut scan = start_volume_scan();
    assert_eq!(search_piece(&mut scan, &first, b"%PDF-", 0), vec![995]);
    assert_eq!(scan.candidates, 1);
    // the next piece does not find it again in the tail
    let mut second = vec![0u8; 1000];
    second[10..15].copy_from_slice(b"%PDF-");
    assert_eq!(search_piece(&mut scan, &second, b"%PDF-", 0), vec![1010]);
    assert_eq!(scan.candidates, 2);

    let mut music = vec![0u8; 1000];
    music[994..997].copy_from_slice(b"ID3");
    let mut scan = start_volume_scan();
    assert_eq!(search_piece(&mut scan, &music, b"ID3", 0), vec![994]);
    let mut next = vec![0u8; 1000];
    next[0..3].copy_from_slice(b"ID3");
    assert_eq!(search_piece(&mut scan, &next, b"ID3", 0), vec![1000]);
    assert_eq!(scan.candidates, 2);
    // a header across the boundary, two bytes in the tail and one in the piece
    let mut left = vec![0u8; 100];
    left[98..100].copy_from_slice(b"ID");
    let mut right = vec![0u8; 100];
    right[0] = b'3';
    let mut scan = start_volume_scan();
    assert!(search_piece(&mut scan, &left, b"ID3", 0).is_empty());
    assert_eq!(search_piece(&mut scan, &right, b"ID3", 0), vec![98]);
    // the last piece of the volume may end with a header
    let mut last = vec![0u8; 5];
    last[2..5].copy_from_slice(b"ID3");
    assert_eq!(search_piece(&mut scan, &last, b"ID3", 0), vec![202]);
}

#[test]
fn mp4_starts_four_bytes_before_its_header() {
    assert_eq!(header_lead("mp4"), 4);
    assert_eq!(header_lead("pdf"), 0);
    assert_eq!(header_lead("MP4"), 0);
    assert_eq!(header_lead(""), 0);
    let mut chunk = vec![0u8; 200];
    chunk[2..6].copy_from_slice(b"ftyp");
    chunk[104..108].copy_from_slice(b"ftyp");
    let mut scan = start_volume_scan();
    scan.scan_offset = 4096;
    let starts = search_piece(&mut scan, &chunk, b"ftyp", 4);
    // the first stands too near the front to have its four bytes
    assert_eq!(starts, vec![4096 + 100]);
    assert_eq!(scan.candidates, 1);
}

#[test]
fn no_more_than_fifty_matches_are_looked_at() {
    let mut chunk = vec![0u8; 1000];
    for k in 0..60 {
        chunk[10 * k..10 * k + 3].copy_from_slice(b"ID3");
    }
    let mut scan = start_volume_scan();
    scan.candidates = 45;
    let starts = search_piece(&mut scan, &chunk, b"ID3", 0);
    assert_eq!(starts, vec![0, 10, 20, 30, 40]);
    assert_eq!(scan.candidates, 50);
    assert_eq!(next_piece(&scan, false, false, 4096), Ok(None));
    let more = search_piece(&mut scan, &chunk, b"ID3", 0);
    assert!(more.is_empty());
    assert_eq!(scan.candidates, 50);
    assert_eq!(scan.scan_offset, 2000);
}

#[test]
fn start_that_lies_in_front_of_the_volume_is_left_out() {
    // a header of the MP4 family that ends behind a tail which does not reach
    // back far enough: the file would start in front of the volume
    let mut scan = start_volume_scan();
    scan.tail = b"xxft".to_vec();
    let mut chunk = vec![0u8; 64];
    chunk[0..2].copy_from_slice(b"yp");
    chunk[24..28].copy_from_slice(b"ftyp");
    scan.scan_offset = 1;
    let starts = search_piece(&mut scan, &chunk, b"ftyp", 4);
    // the first match lies at byte -1 of the volume, its file at byte -5
    assert_eq!(starts, vec![1 + 24 - 4]);
    assert_eq!(scan.candidates, 1);
}

#[test]
fn carving_is_reported_with_the_keywords_that_matched() {
    let file = wanted("annual report.pdf");
    let keywords = vec!["annual".to_string(), "report".to_string()];
    let mut scan = start_volume_scan();
    scan.scanned = 3 * 1024 * 1024 + 17;
    scan.candidates = 7;
    let mut search = CarveSearch { best: None, best_score: 0 };
    let none = carving_result(&file, "pdf", "D:\\out.pdf", &search, keywords.len(), &scan);
    assert!(!none.success);
    assert_eq!(none.bytes_recovered, 0);
    assert_eq!(none.source_path, "C:\\Docs\\annual report.pdf");
    assert_eq!(none.destination_path, "D:\\out.pdf");
    assert_eq!(
        none.message,
        "File carving could not find .pdf file matching 'annual report.pdf' on the volume (3 MB scanned, 7 candidates checked). Data may have been overwritten."
    );
    let mut text = vec![b' '; 2000];
    text[..10].copy_from_slice(b"the report");
    assert!(!consider_candidate(&mut search, text, "txt", &keywords));
    let some = carving_result(&file, "txt", "D:\\out.txt", &search, keywords.len(), &scan);
    assert!(some.success);
    assert_eq!(some.bytes_recovered, 2000);
    assert_eq!(some.message, "Recovered 2000 bytes via file carving (keyword match: 1/2)");
    let plain = CarveSearch { best: Some(vec![1u8; 1500]), best_score: 0 };
    let kept = carving_result(&file, "bin", "D:\\out.bin", &plain, 0, &scan);
    assert!(kept.success);
    assert_eq!(kept.bytes_recovered, 1500);
    assert_eq!(kept.message, "Recovered 1500 bytes via file carving (signature-based recovery)");
}
