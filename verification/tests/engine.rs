use ntfs_recovery::bitlocker::BitLockerStatus;
use ntfs_recovery::data_runs::DataRun;
use ntfs_recovery::error::RecoveryError;
use ntfs_recovery::file_carver::CarvedFile;
use ntfs_recovery::filesystem_recovery_engine::RecoverableFileFS;
use ntfs_recovery::ntfs_parser::MftEntry;
use ntfs_recovery::recovery_engine::{
    analyze_recovery_possibility, calculate_recovery_chance, carve_sector_limit,
    carved_to_recoverable, categorize_extension, collect_directories, collect_offers,
    decide_scan, difficulty_name, entry_to_recoverable, estimate_file_age, fs_to_recoverable,
    get_file_type_name, parse_scan_mode, perform_scan, raw_scan_records, recoverable_bytes_of,
    recovery_route, sum_recoverable, validate_recovered_data, FileFragment, RawScan,
    RecoveryDifficulty, RecoveryRoute, RecoveryScanResult, ScanMode,
};

fn put_u16(buf: &mut [u8], at: usize, v: u16) {
    buf[at..at + 2].copy_from_slice(&v.to_le_bytes());
}

fn put_u32(buf: &mut [u8], at: usize, v: u32) {
    buf[at..at + 4].copy_from_slice(&v.to_le_bytes());
}

fn put_u64(buf: &mut [u8], at: usize, v: u64) {
    buf[at..at + 8].copy_from_slice(&v.to_le_bytes());
}

fn record(in_use: bool, is_directory: bool, parent: u64, name: &str, content: usize) -> Vec<u8> {
    let units: Vec<u16> = name.encode_utf16().collect();
    let mut r = vec![0u8; 1024];
    r[0..4].copy_from_slice(b"FILE");
    put_u16(&mut r, 4, 48);
    put_u16(&mut r, 6, 1);
    put_u16(&mut r, 0x14, 56);
    put_u16(&mut r, 0x16, (if in_use { 1 } else { 0 }) | (if is_directory { 2 } else { 0 }));
    let at = 56;
    let len = (24 + 66 + 2 * units.len() + 7) / 8 * 8;
    put_u32(&mut r, at, 0x30);
    put_u32(&mut r, at + 4, len as u32);
    put_u16(&mut r, at + 20, 24);
    put_u64(&mut r, at + 24, parent);
    r[at + 24 + 64] = units.len() as u8;
    r[at + 24 + 65] = 1;
    for (i, u) in units.iter().enumerate() {
        put_u16(&mut r, at + 24 + 66 + 2 * i, *u);
    }
    let data = at + len;
    put_u32(&mut r, data, 0x80);
    put_u32(&mut r, data + 4, 24 + 8);
    put_u32(&mut r, data + 16, content as u32);
    put_u16(&mut r, data + 20, 24);
    put_u32(&mut r, data + 32, 0xFFFF_FFFF);
    r
}

fn entry(size: u64, runs: Vec<DataRun>) -> MftEntry {
    MftEntry {
        record_number: 42,
        file_name: "Report.PDF".to_string(),
        parent_record: 5,
        file_size: size,
        allocated_size: size,
        created_time: 1_672_531_200,
        modified_time: 1_672_531_200,
        accessed_time: 0,
        is_deleted: true,
        is_directory: false,
        is_in_use: false,
        data_runs: runs,
        extension: "pdf".to_string(),
    }
}

fn status() -> BitLockerStatus {
    BitLockerStatus {
        drive: "C:".to_string(),
        is_encrypted: false,
        is_locked: false,
        protection_status: "Protection Off".to_string(),
        encryption_percentage: 0,
        encryption_method: "None".to_string(),
    }
}

fn scan_result(message: &str) -> RecoveryScanResult {
    RecoveryScanResult {
        success: true,
        message: message.to_string(),
        scan_mode: "Quick".to_string(),
        drive: "C".to_string(),
        bitlocker_status: None,
        mft_entries: Vec::new(),
        carved_files: Vec::new(),
        orphan_files: Vec::new(),
        total_files: 0,
        total_recoverable_size: 0,
        scan_duration_ms: 5,
        sectors_scanned: 0,
        mft_records_scanned: 9,
        orphan_records_found: 0,
        requires_admin: false,
    }
}

#[test]
fn chance_of_an_entry_is_the_mean_quality_of_its_runs() {
    let stored = DataRun { cluster_offset: 100, cluster_count: 2 };
    let sparse = DataRun { cluster_offset: 0, cluster_count: 3 };
    let (chance, difficulty, fragments) = analyze_recovery_possibility(&entry(9000, vec![stored, sparse, stored]), 4096);
    assert_eq!(chance, 60);
    assert_eq!(difficulty, RecoveryDifficulty::Moderate);
    assert_eq!(
        fragments,
        vec![
            FileFragment { offset: 0, size: 8192, cluster: 100, is_readable: true, data_quality: 85 },
            FileFragment { offset: 12288, size: 12288, cluster: 0, is_readable: false, data_quality: 10 },
            FileFragment { offset: 16384, size: 8192, cluster: 100, is_readable: true, data_quality: 85 },
        ]
    );
    let (chance, difficulty, _) = analyze_recovery_possibility(&entry(9000, vec![stored]), 4096);
    assert_eq!((chance, difficulty), (85, RecoveryDifficulty::Easy));
    let (chance, difficulty, _) = analyze_recovery_possibility(&entry(9000, vec![sparse, sparse, stored]), 4096);
    assert_eq!((chance, difficulty), (35, RecoveryDifficulty::Hard));
    let (chance, difficulty, _) = analyze_recovery_possibility(&entry(9000, vec![sparse]), 4096);
    assert_eq!((chance, difficulty), (10, RecoveryDifficulty::VeryHard));
}

#[test]
fn entries_without_runs_may_lie_in_their_record() {
    let (chance, difficulty, fragments) = analyze_recovery_possibility(&entry(700, vec![]), 4096);
    assert_eq!((chance, difficulty), (50, RecoveryDifficulty::Moderate));
    assert_eq!(
        fragments,
        vec![FileFragment { offset: 0, size: 700, cluster: 0, is_readable: true, data_quality: 50 }]
    );
    for size in [0, 701, 5000] {
        let (chance, difficulty, fragments) = analyze_recovery_possibility(&entry(size, vec![]), 4096);
        assert_eq!((chance, difficulty), (5, RecoveryDifficulty::VeryHard));
        assert!(fragments.is_empty());
    }
    let huge = DataRun { cluster_offset: 1, cluster_count: u64::MAX };
    let (_, _, fragments) = analyze_recovery_possibility(&entry(1, vec![huge, huge]), 4096);
    assert_eq!(fragments[1].size, u64::MAX);
    assert_eq!(fragments[1].offset, u64::MAX);
}

#[test]
fn basic_chance_and_recoverable_share() {
    assert_eq!(calculate_recovery_chance(&entry(5000, vec![])), 20);
    assert_eq!(calculate_recovery_chance(&entry(700, vec![])), 25);
    assert_eq!(calculate_recovery_chance(&entry(701, vec![])), 20);
    assert_eq!(calculate_recovery_chance(&entry(5000, vec![DataRun { cluster_offset: 9, cluster_count: 1 }])), 90);
    assert_eq!(calculate_recovery_chance(&entry(100, vec![DataRun { cluster_offset: 9, cluster_count: 1 }])), 95);
    assert_eq!(calculate_recovery_chance(&entry(5000, vec![DataRun { cluster_offset: 0, cluster_count: 1 }])), 80);
    assert_eq!(recoverable_bytes_of(1000, 51), 1000);
    assert_eq!(recoverable_bytes_of(1000, 50), 500);
    assert_eq!(recoverable_bytes_of(1001, 35), 350);
    assert_eq!(recoverable_bytes_of(1000, 21), 210);
    assert_eq!(recoverable_bytes_of(1000, 20), 0);
    assert_eq!(recoverable_bytes_of(u64::MAX, 50), u64::MAX / 2);
}

#[test]
fn age_is_told_in_words() {
    let now = 1_700_000_000;
    let day = 86_400;
    assert_eq!(estimate_file_age(now, now), "Today");
    assert_eq!(estimate_file_age(now - day + 1, now), "Today");
    assert_eq!(estimate_file_age(now - day, now), "Yesterday");
    assert_eq!(estimate_file_age(now - 2 * day, now), "This week");
    assert_eq!(estimate_file_age(now - 7 * day, now), "This week");
    assert_eq!(estimate_file_age(now - 8 * day, now), "This month");
    assert_eq!(estimate_file_age(now - 30 * day, now), "This month");
    assert_eq!(estimate_file_age(now - 31 * day, now), "1-3 months ago");
    assert_eq!(estimate_file_age(now - 91 * day, now), "3-6 months ago");
    assert_eq!(estimate_file_age(now - 181 * day, now), "6-12 months ago");
    assert_eq!(estimate_file_age(now - 366 * day, now), "1-2 years ago");
    assert_eq!(estimate_file_age(now - 730 * day, now), "1-2 years ago");
    assert_eq!(estimate_file_age(now - 731 * day, now), "2 years ago");
    assert_eq!(estimate_file_age(now - 4000 * day, now), "10 years ago");
    assert_eq!(estimate_file_age(0, now), "Unknown age");
    assert_eq!(estimate_file_age(-5, now), "Unknown age");
    assert_eq!(estimate_file_age(now + 1, now), "Unknown age");
    assert_eq!(estimate_file_age(1, i64::MAX), "292471208677 years ago");
}

#[test]
fn categories_and_type_names_are_case_blind() {
    assert_eq!(categorize_extension("JPG"), "Images");
    assert_eq!(categorize_extension("m4v"), "Videos");
    assert_eq!(categorize_extension("Mp3"), "Audio");
    assert_eq!(categorize_extension("pdf"), "Documents");
    assert_eq!(categorize_extension("7Z"), "Archives");
    assert_eq!(categorize_extension("ps1"), "Executables");
    assert_eq!(categorize_extension("json"), "Web");
    assert_eq!(categorize_extension("psd"), "Design");
    assert_eq!(categorize_extension("sqlite"), "Databases");
    assert_eq!(categorize_extension("xyz"), "Other");
    assert_eq!(get_file_type_name("JPEG"), "JPEG Image");
    assert_eq!(get_file_type_name("docx"), "Word Document");
    assert_eq!(get_file_type_name("xls"), "Excel Spreadsheet");
    assert_eq!(get_file_type_name("exe"), "Windows Executable");
    assert_eq!(get_file_type_name("tar"), "TAR File");
    assert_eq!(get_file_type_name(""), " File");
    assert_eq!(difficulty_name(RecoveryDifficulty::VeryHard), "very_hard");
    assert_eq!(difficulty_name(RecoveryDifficulty::Easy), "easy");
}

#[test]
fn recovered_bytes_are_checked_by_their_header() {
    let check = |data: &[u8], ext: &str| {
        let r = validate_recovered_data(data, ext);
        (r.is_valid, r.details)
    };
    assert_eq!(check(&[0xFF, 0xD8, 0xFF, 0xE0], "JPG"), (true, "Header validated".to_string()));
    assert_eq!(check(b"GIF87a", "gif"), (true, "Header validated".to_string()));
    assert_eq!(check(b"PK\x03\x04", "docx"), (true, "Header validated".to_string()));
    assert_eq!(check(b"\0\0\0\x18ftypisom", "mov"), (true, "Header validated".to_string()));
    assert_eq!(check(b"\0\0\0\x18ftyp", "mov"), (true, "Header validated".to_string()));
    assert_eq!(check(b"\0\0\0\x18fty", "mov"), (false, "Header mismatch - file may be damaged".to_string()));
    assert_eq!(check(b"ID3", "mp3"), (true, "Header validated".to_string()));
    assert_eq!(check(b"anything", "xyz"), (true, "Header validated".to_string()));
    assert_eq!(check(b"%PDX", "pdf"), (false, "Header mismatch - file may be damaged".to_string()));
    assert_eq!(check(b"", "xyz"), (false, "Empty file".to_string()));
}

#[test]
fn deleted_entry_becomes_an_offer_of_the_raw_scan() {
    let scan = RawScan { drive_letter: "C".to_string(), cluster_size: 4096, current_time: 1_672_531_200 + 3 * 86_400 };
    let file = entry_to_recoverable(&scan, &entry(9000, vec![DataRun { cluster_offset: 100, cluster_count: 3 }]), false);
    assert_eq!(file.id, "mft_42");
    assert_eq!(file.name, "Report.PDF");
    assert_eq!(file.path, "C:\\[Deleted]\\Report.PDF");
    assert_eq!(file.size, 9000);
    assert_eq!(file.extension, "pdf");
    assert_eq!(file.category, "Documents");
    assert_eq!(file.file_type, "PDF Document");
    assert_eq!(file.modified, "2023-01-01 00:00:00");
    assert!(file.is_deleted);
    assert_eq!(file.recovery_chance, 85);
    assert_eq!(file.source, "mft");
    assert_eq!(file.sector_offset, None);
    assert_eq!(file.cluster_offset, Some(100));
    assert_eq!(file.data_runs, Some(vec![DataRun { cluster_offset: 100, cluster_count: 3 }]));
    assert_eq!(file.fragments.as_ref().unwrap().len(), 1);
    assert!(!file.partial_recovery);
    assert_eq!(file.recoverable_bytes, 9000);
    assert_eq!(file.difficulty, "easy");
    assert_eq!(file.age_estimate, "This week");
    let orphan = entry_to_recoverable(&scan, &entry(9000, vec![]), true);
    assert_eq!(orphan.source, "mft_orphan");
    assert_eq!(orphan.recovery_chance, 5);
    assert!(orphan.partial_recovery);
    assert_eq!(orphan.recoverable_bytes, 0);
    assert_eq!(orphan.difficulty, "very_hard");
}

#[test]
fn raw_scan_sorts_offers_and_tells_orphans_apart() {
    let mut table = Vec::new();
    table.extend(record(true, true, 5, "Users", 0)); // 0: a directory
    table.extend(record(false, false, 0, "big.bin", 5000)); // 1: deleted, in no directory
    table.extend(record(false, false, 0, "small.txt", 100)); // 2: deleted, may lie in its record
    table.extend(record(false, false, 7, "lost.txt", 100)); // 3: deleted, parent unknown
    table.extend(record(true, false, 0, "live.txt", 100)); // 4: in use
    table.extend(record(false, false, 0, "$Deleted", 100)); // 5: a system file
    table.extend(record(false, true, 0, "old dir", 0)); // 6: a deleted directory
    table.extend(vec![0u8; 1024]); // 7: no record
    table.extend(record(false, false, 6, "child.txt", 200)); // 8: deleted, in a deleted directory
    let directories = collect_directories(&table, 1024);
    let mut expected = std::collections::HashSet::new();
    expected.insert(0u64);
    expected.insert(6u64);
    assert_eq!(directories, expected);
    let scan = RawScan { drive_letter: "C".to_string(), cluster_size: 4096, current_time: 1_700_000_000 };
    let files = collect_offers(&scan, &table, 1024, &directories, false);
    let names: Vec<&str> = files.iter().map(|f| f.name.as_str()).collect();
    assert_eq!(names, vec!["small.txt", "child.txt", "big.bin"]);
    assert_eq!(files[0].id, "mft_2");
    assert_eq!(files[2].recovery_chance, 5);
    let orphans = collect_offers(&scan, &table, 1024, &directories, true);
    let names: Vec<&str> = orphans.iter().map(|f| f.name.as_str()).collect();
    assert_eq!(names, vec!["lost.txt"]);
    assert_eq!(orphans[0].source, "mft_orphan");
    assert_eq!(raw_scan_records(false), 100_000);
    assert_eq!(raw_scan_records(true), 500_000);
}

#[test]
fn carved_finds_become_offers() {
    let find = CarvedFile {
        sector_offset: 8192,
        byte_offset: 1000,
        estimated_size: 3000,
        file_type: "JPEG Image".to_string(),
        extension: "jpg".to_string(),
        category: "Images".to_string(),
        confidence: 78,
        header_match: "ffd8ffe0".to_string(),
    };
    let file = carved_to_recoverable("D", &find, 17);
    assert_eq!(file.id, "carved_17");
    assert_eq!(file.name, "Recovered_17.jpg");
    assert_eq!(file.path, "D:\\[Carved]\\sector_8192_17.jpg");
    assert_eq!(file.size, 3000);
    assert_eq!(file.recovery_chance, 78);
    assert_eq!(file.source, "carved");
    assert_eq!(file.sector_offset, Some(8192 * 512 + 1000));
    assert!(file.partial_recovery);
    assert_eq!(file.recoverable_bytes, 3000);
    assert_eq!(file.difficulty, "moderate");
    assert_eq!(file.modified, "Unknown");
    assert_eq!(file.age_estimate, "Unknown");
    let sure = carved_to_recoverable("D", &CarvedFile { confidence: 98, sector_offset: u64::MAX, ..find }, 1);
    assert_eq!(sure.difficulty, "easy");
    assert!(!sure.partial_recovery);
    assert_eq!(sure.sector_offset, None);
    assert_eq!(carve_sector_limit(1000, None), 1000);
    assert_eq!(carve_sector_limit(1000, Some(10)), 10);
    assert_eq!(carve_sector_limit(1000, Some(5000)), 1000);
    assert_eq!(carve_sector_limit(0, None), 50_000_000);
    assert_eq!(carve_sector_limit(u64::MAX, None), 100_000_000);
}

#[test]
fn sources_lead_to_their_route() {
    for source in ["mft", "mft_orphan", "usn", "USN", "mft_filesystem"] {
        assert_eq!(recovery_route(source), Some(RecoveryRoute::Table));
    }
    assert_eq!(recovery_route("carved"), Some(RecoveryRoute::Carved));
    assert_eq!(recovery_route("slack"), Some(RecoveryRoute::Carved));
    assert_eq!(recovery_route("vss"), None);
    assert_eq!(recovery_route(""), None);
}

#[test]
fn scan_is_refused_without_privileges_or_on_a_locked_volume() {
    assert_eq!(parse_scan_mode("QUICK"), Some(ScanMode::Quick));
    assert_eq!(parse_scan_mode("Deep"), Some(ScanMode::Deep));
    assert_eq!(parse_scan_mode("full"), None);
    assert_eq!(decide_scan(false, true, None), Err(RecoveryError::PermissionDenied));
    assert_eq!(decide_scan(true, true, Some(ScanMode::Quick)), Err(RecoveryError::VolumeLocked));
    assert_eq!(decide_scan(true, false, None), Err(RecoveryError::Unsupported));
    assert_eq!(decide_scan(true, false, Some(ScanMode::Deep)), Ok(ScanMode::Deep));

    let refused = perform_scan("C:", "quick", Err(RecoveryError::PermissionDenied), status(), None);
    assert!(!refused.success);
    assert!(refused.requires_admin);
    assert_eq!(refused.message, "Administrator privileges required. Please run as Administrator.");
    assert_eq!(refused.scan_mode, "quick");
    assert_eq!(refused.drive, "C:");
    assert!(refused.bitlocker_status.is_some());
    let locked = perform_scan("C:", "quick", Err(RecoveryError::VolumeLocked), status(), None);
    assert!(!locked.requires_admin);
    assert_eq!(
        locked.message,
        "Drive is BitLocker encrypted and locked. Please unlock with password or recovery key."
    );
    let unknown = perform_scan("C:", "full", Err(RecoveryError::Unsupported), status(), None);
    assert_eq!(unknown.message, "Unknown scan mode: full");
    let other = perform_scan("C:", "quick", Err(RecoveryError::Io), status(), None);
    assert_eq!(other.message, "The scan was refused");
    assert!(!other.success);
}

#[test]
fn scan_that_ran_gives_its_result_or_its_error() {
    let done = perform_scan("C:", "quick", Ok(ScanMode::Quick), status(), Some(Ok(scan_result("3 files"))));
    assert!(done.success);
    assert_eq!(done.message, "3 files");
    assert_eq!(done.mft_records_scanned, 9);
    let failed = perform_scan("C:", "deep", Ok(ScanMode::Deep), status(), Some(Err("disk gone".to_string())));
    assert!(!failed.success);
    assert_eq!(failed.message, "disk gone");
    assert_eq!(failed.scan_mode, "Deep");
    let idle = perform_scan("C:", "deep", Ok(ScanMode::Deep), status(), None);
    assert!(!idle.success);
    assert_eq!(idle.message, "The scan did not run");
    assert_eq!(idle.scan_mode, "Deep");
}

#[test]
fn offers_of_the_file_system_scan_are_carried_over() {
    let fs = RecoverableFileFS {
        id: "fs_mft_9".to_string(),
        name: "a.txt".to_string(),
        path: "C:\\a.txt".to_string(),
        size: 77,
        extension: "txt".to_string(),
        category: "Text Files".to_string(),
        file_type: "txt".to_string(),
        modified: "m".to_string(),
        created: "c".to_string(),
        is_deleted: true,
        recovery_chance: 45,
        source: "mft".to_string(),
        cluster_offset: Some(3),
        data_runs: Some(vec![DataRun { cluster_offset: 3, cluster_count: 1 }]),
    };
    let file = fs_to_recoverable(fs);
    assert_eq!(file.id, "fs_mft_9");
    assert_eq!(file.size, 77);
    assert_eq!(file.recoverable_bytes, 77);
    assert_eq!(file.cluster_offset, Some(3));
    assert_eq!(file.data_runs, Some(vec![DataRun { cluster_offset: 3, cluster_count: 1 }]));
    assert_eq!(file.sector_offset, None);
    assert_eq!(file.fragments, None);
    assert!(!file.partial_recovery);
    assert_eq!(file.difficulty, "easy");
    assert_eq!(file.age_estimate, "unknown");
    let mut other = file.clone();
    other.recoverable_bytes = u64::MAX;
    assert_eq!(sum_recoverable(&vec![file.clone(), file.clone()]), 154);
    assert_eq!(sum_recoverable(&vec![file, other]), u64::MAX);
    assert_eq!(sum_recoverable(&vec![]), 0);
}
