use ntfs_recovery::bitlocker::BitLockerStatus;
use ntfs_recovery::data_runs::DataRun;
use ntfs_recovery::error::RecoveryError;
use ntfs_recovery::file_carver::build_signature_lookup;
use ntfs_recovery::filesystem_recovery_engine::{FileSystemScanResult, RecoverableFileFS};
use ntfs_recovery::recovery_engine::{
    carve_chunk, carved_recovery_result, check_start, filesystem_scan_plan,
    filesystem_scan_result,
    fs_offers_to_recoverable,
    fs_to_recoverable, lost_runs_result, next_carve_read, raw_scan_result, raw_scan_total,
    start_carve_scan, table_recovery_result, RecoverableFile, ScanMode,
};
use ntfs_recovery::recovery_strategies::{judge_reassembly, Reassembly, Verdict};
use ntfs_recovery::validation::Corruption;

fn status() -> BitLockerStatus {
    BitLockerStatus {
        drive: "C:".to_string(),
        is_encrypted: true,
        is_locked: false,
        protection_status: "Protection On".to_string(),
        encryption_percentage: 100,
        encryption_method: "XTS-AES 128".to_string(),
    }
}

fn fs_offer(record: u64, name: &str, size: u64) -> RecoverableFileFS {
    RecoverableFileFS {
        id: format!("fs_mft_{}", record),
        name: name.to_string(),
        path: format!("C:\\{}", name),
        size,
        extension: "txt".to_string(),
        category: "Text Files".to_string(),
        file_type: "txt".to_string(),
        modified: "m".to_string(),
        created: "c".to_string(),
        is_deleted: true,
        recovery_chance: 45,
        source: "mft".to_string(),
        cluster_offset: Some(3),
        data_runs: Some(vec![DataRun { cluster_offset: 3, cluster_count: 1 }]),
    }
}

fn offer(name: &str, extension: &str, size: u64) -> RecoverableFile {
    let mut file = fs_to_recoverable(fs_offer(1, name, size));
    file.extension = extension.to_string();
    file.difficulty = "hard".to_string();
    file
}

fn jpeg(total: usize) -> Vec<u8> {
    let mut data = vec![0x11u8; total];
    data[..11].copy_from_slice(&[0xFF, 0xD8, 0xFF, 0xE0, 0x00, 0x10, b'J', b'F', b'I', b'F', 0x00]);
    data[total - 2] = 0xFF;
    data[total - 1] = 0xD9;
    data
}

#[test]
fn carver_passes_over_the_volume_piece_by_piece() {
    let lookup = build_signature_lookup();
    let mut scan = start_carve_scan(20_000, None);
    assert_eq!(scan.limit, 20_000);
    assert_eq!(next_carve_read(&scan, false), Ok(Some(0)));
    let mut first = vec![0u8; 16384];
    first[1000..4000].copy_from_slice(&jpeg(3000));
    first[9000..11000].copy_from_slice(&jpeg(2000));
    carve_chunk(&mut scan, "D", &first, &lookup);
    assert_eq!(scan.sector, 8192);
    assert_eq!(scan.found.len(), 2);
    assert_eq!(scan.found[0].id, "carved_1");
    assert_eq!(scan.found[0].name, "Recovered_1.jpg");
    assert_eq!(scan.found[0].path, "D:\\[Carved]\\sector_0_1.jpg");
    assert_eq!(scan.found[0].sector_offset, Some(1000));
    assert_eq!(scan.found[1].id, "carved_2");
    assert_eq!(scan.found[1].sector_offset, Some(9000));
    assert_eq!(next_carve_read(&scan, false), Ok(Some(8192)));
    let mut second = vec![0u8; 8192];
    second[512..3512].copy_from_slice(&jpeg(3000));
    carve_chunk(&mut scan, "D", &second, &lookup);
    assert_eq!(scan.sector, 16384);
    assert_eq!(scan.found.len(), 3);
    assert_eq!(scan.found[2].id, "carved_3");
    assert_eq!(scan.found[2].path, "D:\\[Carved]\\sector_8192_3.jpg");
    assert_eq!(scan.found[2].sector_offset, Some(8192 * 512 + 512));
    carve_chunk(&mut scan, "D", &[], &lookup);
    assert_eq!(scan.sector, 24576);
    assert_eq!(scan.found.len(), 3);
    assert_eq!(next_carve_read(&scan, false), Ok(None));
}

#[test]
fn carver_stops_at_the_limit_that_was_asked_for() {
    let scan = start_carve_scan(1_000_000, Some(0));
    assert_eq!(next_carve_read(&scan, false), Ok(None));
    let scan = start_carve_scan(0, None);
    assert_eq!(scan.limit, 50_000_000);
    let mut scan = start_carve_scan(u64::MAX, Some(9000));
    assert_eq!(scan.limit, 9000);
    scan.sector = 8999;
    assert_eq!(next_carve_read(&scan, false), Ok(Some(8999)));
    scan.sector = 9000;
    assert_eq!(next_carve_read(&scan, false), Ok(None));
    assert_eq!(next_carve_read(&scan, true), Err(RecoveryError::Cancelled));
    scan.sector = 0;
    assert_eq!(next_carve_read(&scan, true), Err(RecoveryError::Cancelled));
}

#[test]
fn quick_scan_is_reported() {
    let files = vec![offer("a.txt", "txt", 100), offer("b.txt", "txt", 200)];
    let orphans = vec![offer("c.txt", "txt", 50)];
    assert_eq!(raw_scan_total(&files, &orphans, &Vec::new()), 350);
    let result = raw_scan_result("C", false, status(), files, orphans, Vec::new(), 1000, 0, "350 bytes", 12);
    assert!(result.success);
    assert!(!result.requires_admin);
    assert_eq!(result.scan_mode, "Quick");
    assert_eq!(result.drive, "C");
    assert_eq!(result.message, "Quick scan complete. Found 2 deleted files, 1 orphan records (350 bytes recoverable).");
    assert_eq!(result.total_files, 3);
    assert_eq!(result.total_recoverable_size, 350);
    assert_eq!(result.mft_entries.len(), 2);
    assert_eq!(result.mft_entries[1].name, "b.txt");
    assert_eq!(result.orphan_files.len(), 1);
    assert_eq!(result.orphan_records_found, 1);
    assert!(result.carved_files.is_empty());
    assert_eq!(result.mft_records_scanned, 1000);
    assert_eq!(result.sectors_scanned, 0);
    assert_eq!(result.scan_duration_ms, 12);
    assert_eq!(result.bitlocker_status.map(|s| s.encryption_method), Some("XTS-AES 128".to_string()));
}

#[test]
fn deep_scan_is_reported() {
    let files = vec![offer("a.txt", "txt", 100)];
    let mut large = offer("d.bin", "bin", 7);
    large.recoverable_bytes = u64::MAX - 50;
    let carved = vec![large, offer("e.bin", "bin", 7)];
    assert_eq!(raw_scan_total(&files, &Vec::new(), &carved), u64::MAX);
    let result =
        raw_scan_result("E", true, status(), files, Vec::new(), carved, 500_000, 16384, "16.00 EB", 99);
    assert_eq!(result.scan_mode, "Deep");
    assert_eq!(
        result.message,
        "Deep scan complete. Found 1 MFT files, 0 orphan records, 2 carved files. Total: 16.00 EB recoverable."
    );
    assert_eq!(result.total_files, 3);
    assert_eq!(result.total_recoverable_size, u64::MAX);
    assert_eq!(result.carved_files.len(), 2);
    assert_eq!(result.carved_files[1].name, "e.bin");
    assert_eq!(result.sectors_scanned, 16384);
    assert_eq!(result.mft_records_scanned, 500_000);
}

#[test]
fn offers_keep_their_order_when_they_are_carried_over() {
    let offers = vec![fs_offer(9, "a.txt", 1), fs_offer(4, "b.txt", 2), fs_offer(7, "c.txt", 3)];
    let turned = fs_offers_to_recoverable(offers);
    let ids: Vec<&str> = turned.iter().map(|f| f.id.as_str()).collect();
    assert_eq!(ids, vec!["fs_mft_9", "fs_mft_4", "fs_mft_7"]);
    assert_eq!(turned[2].recoverable_bytes, 3);
    assert_eq!(turned[0].difficulty, "easy");
    assert!(fs_offers_to_recoverable(Vec::new()).is_empty());
}

#[test]
fn scan_through_the_file_system_is_reported_as_a_scan() {
    let found = FileSystemScanResult {
        success: true,
        message: "Found 2 files".to_string(),
        scan_mode: "mft".to_string(),
        drive: "C".to_string(),
        bitlocker_status: Some(status()),
        mft_entries: vec![fs_offer(9, "a.txt", 10), fs_offer(4, "b.txt", 20)],
        total_files: 2,
        total_recoverable_size: 30,
        scan_duration_ms: 44,
        mft_records_scanned: 5000,
        requires_admin: false,
    };
    let result = filesystem_scan_result(found);
    assert!(result.success);
    assert!(result.requires_admin);
    assert_eq!(result.message, "Found 2 files (FileSystem Mode - Decrypted)");
    assert_eq!(result.scan_mode, "FileSystem");
    assert_eq!(result.drive, "C");
    assert_eq!(result.mft_entries.len(), 2);
    assert_eq!(result.mft_entries[0].id, "fs_mft_9");
    assert_eq!(result.mft_entries[1].id, "fs_mft_4");
    assert!(result.carved_files.is_empty());
    assert!(result.orphan_files.is_empty());
    assert_eq!(result.total_files, 2);
    assert_eq!(result.total_recoverable_size, 30);
    assert_eq!(result.scan_duration_ms, 44);
    assert_eq!(result.mft_records_scanned, 5000);
    assert_eq!(result.sectors_scanned, 0);
    assert_eq!(result.orphan_records_found, 0);
    assert!(result.bitlocker_status.is_some());
}

#[test]
fn offer_without_runs_cannot_be_read() {
    let result = lost_runs_result(&offer("plan.doc", "doc", 900), "D:\\out\\plan.doc");
    assert!(!result.success);
    assert_eq!(result.bytes_recovered, 0);
    assert_eq!(result.source_path, "C:\\plan.doc");
    assert_eq!(result.destination_path, "D:\\out\\plan.doc");
    assert_eq!(
        result.message,
        "File 'plan.doc' cannot be recovered. The file's cluster information has been lost. Recovery difficulty: hard. Try deep scan for file carving."
    );
}

#[test]
fn reassembly_of_a_table_offer_is_reported() {
    let file = offer("notes.txt", "txt", 5000);
    let text: Vec<u8> = b"plain words ".iter().cycle().take(5000).copied().collect();
    let whole = Reassembly { data: text.clone(), bytes_remaining: 0, failed_runs: 0, successful_runs: 2 };
    let verdict = judge_reassembly(&whole, "txt");
    assert_eq!(verdict, Verdict::Complete);
    let result = table_recovery_result(&file, "txt", "D:\\notes.txt", &whole, verdict);
    assert!(result.success);
    assert_eq!(result.bytes_recovered, 5000);
    assert_eq!(result.message, "Successfully recovered 5000 bytes");
    assert_eq!(result.source_path, "C:\\notes.txt");
    assert_eq!(result.destination_path, "D:\\notes.txt");

    let partly = Reassembly { data: text, bytes_remaining: 0, failed_runs: 1, successful_runs: 2 };
    let verdict = judge_reassembly(&partly, "txt");
    assert_eq!(verdict, Verdict::Partial);
    let result = table_recovery_result(&file, "txt", "D:\\notes.txt", &partly, verdict);
    assert!(result.success);
    assert_eq!(result.message, "Partially recovered 5000 of 5000 bytes. 2 run(s) succeeded, 1 failed.");

    let wiped = Reassembly { data: vec![0u8; 4096], bytes_remaining: 0, failed_runs: 0, successful_runs: 1 };
    let verdict = judge_reassembly(&wiped, "txt");
    assert_eq!(verdict, Verdict::Rejected(Corruption::AllZeros));
    let result = table_recovery_result(&file, "txt", "D:\\notes.txt", &wiped, verdict);
    assert!(!result.success);
    assert_eq!(result.bytes_recovered, 0);
    assert_eq!(
        result.message,
        "Recovery failed for 'notes.txt': File data is all zeros - clusters have been wiped. The file's disk clusters have likely been overwritten by new data."
    );

    let empty = Reassembly { data: Vec::new(), bytes_remaining: 5000, failed_runs: 0, successful_runs: 0 };
    let verdict = judge_reassembly(&empty, "txt");
    assert_eq!(verdict, Verdict::Nothing);
    let result = table_recovery_result(&file, "txt", "D:\\notes.txt", &empty, verdict);
    assert!(!result.success);
    assert_eq!(
        result.message,
        "Could not recover 'notes.txt'. All cluster reads failed - the file data may have been overwritten."
    );
}

#[test]
fn carved_bytes_are_checked_before_they_are_written() {
    let picture = offer("Recovered_1.jpg", "JPG", 3000);
    let good = carved_recovery_result(&picture, "D:\\r.jpg", &jpeg(3000));
    assert!(good.success);
    assert_eq!(good.bytes_recovered, 3000);
    assert_eq!(good.message, "Successfully recovered 3000 bytes. File appears intact.");
    assert_eq!(good.source_path, "C:\\Recovered_1.jpg");
    assert_eq!(good.destination_path, "D:\\r.jpg");

    let mut cut = jpeg(3000);
    cut[2999] = 0;
    let bad = carved_recovery_result(&picture, "D:\\r.jpg", &cut);
    assert!(!bad.success);
    assert_eq!(bad.bytes_recovered, 0);
    assert_eq!(bad.message, "Recovery failed for 'Recovered_1.jpg': JPEG has no end-of-image marker at its end");

    let wiped = carved_recovery_result(&picture, "D:\\r.jpg", &vec![0u8; 4096]);
    assert!(!wiped.success);
    assert_eq!(
        wiped.message,
        "Recovery failed for 'Recovered_1.jpg': File data is all zeros - clusters have been wiped"
    );

    let tiny = carved_recovery_result(&picture, "D:\\r.jpg", &[0xFF, 0xD8, 0xFF]);
    assert!(!tiny.success);
    assert_eq!(tiny.message, "Recovery failed for 'Recovered_1.jpg': File is too small to be valid");
}

#[test]
fn carved_bytes_with_a_doubtful_header_are_written_with_a_warning() {
    // a compressed format is not refused for its header, so the look at
    // the header has the last word
    let movie = offer("Recovered_2.mp4", "mp4", 2000);
    let data = vec![0x55u8; 2000];
    let result = carved_recovery_result(&movie, "D:\\r.mp4", &data);
    assert!(result.success);
    assert_eq!(result.bytes_recovered, 2000);
    assert_eq!(
        result.message,
        "Recovered 2000 bytes (Header mismatch - file may be damaged). The file may be partially corrupted."
    );
}

#[test]
fn engine_does_not_start_without_privileges_or_on_a_locked_volume() {
    assert_eq!(check_start("C", true, false), Ok(()));
    assert_eq!(
        check_start("C", false, false),
        Err("Administrator privileges required. Please run as Administrator.".to_string())
    );
    // missing privileges are told first
    assert_eq!(
        check_start("C", false, true),
        Err("Administrator privileges required. Please run as Administrator.".to_string())
    );
    assert_eq!(
        check_start("E", true, true),
        Err("Drive E is BitLocker encrypted and locked. Please unlock it first.".to_string())
    );
}

#[test]
fn scan_through_the_file_system_is_quick_or_deep() {
    assert_eq!(filesystem_scan_plan("quick"), (ScanMode::Quick, 10_000));
    assert_eq!(filesystem_scan_plan("deep"), (ScanMode::Deep, 50_000));
    assert_eq!(filesystem_scan_plan("Quick"), (ScanMode::Deep, 50_000));
    assert_eq!(filesystem_scan_plan(""), (ScanMode::Deep, 50_000));
}
