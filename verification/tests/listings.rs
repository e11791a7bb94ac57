use ntfs_recovery::bitlocker::{
    percentage_fields,
    extract_encryption_method, get_bitlocker_status, lock_outcome, tool_drive, unlock_outcome,
};
use ntfs_recovery::disk_reader::{choose_disk_size, next_chunk_sectors};
use ntfs_recovery::filesystem_disk_reader::{check_filesystem_access, mft_file_path};
use ntfs_recovery::text::{
    chars_contain, chars_find, chars_of, chars_rfind, decimal_string, drive_letter, parse_number,
    signed_decimal_string, split_lines, take_piece_after, text_eq, trim, trim_end_char,
    trim_start_char,
};
use ntfs_recovery::vss::{
    enumerate_snapshots, get_snapshot_count, list_files_in_snapshot, listing_argument,
    newest_first, normalize_drive, parse_vssadmin_output, parse_windows_date, read_enumeration,
    remove_all, snapshot_file_path, snapshot_search_path, FoundFile, ProcessOutput, VssSnapshot,
};

const LISTING: &str = "vssadmin 1.1 - Volume Shadow Copy Service administrative command-line tool\r\n\
(C) Copyright 2001-2013 Microsoft Corp.\r\n\
\r\n\
Contents of shadow copy set ID: {aaaa-bbbb}\r\n\
   Contained 1 shadow copies at creation time: 04-02-2026 12:14:02\r\n\
      Shadow Copy ID: {1111-2222}\r\n\
         Original Volume: (C:)\\\\?\\Volume{abcd}\\\r\n\
         Shadow Copy Volume: \\\\?\\GLOBALROOT\\Device\\HarddiskVolumeShadowCopy1\r\n\
         Originating Machine: PC\r\n\
\r\n\
Contents of shadow copy set ID: {cccc-dddd}\r\n\
   Contained 1 shadow copies at creation time: 5/15/2025 2:30:45 PM\r\n\
      Shadow Copy ID: {3333-4444}\r\n\
         Shadow Copy Volume: \\\\?\\GLOBALROOT\\Device\\HarddiskVolumeShadowCopy2\r\n\
         Creation Time: not a date\r\n";

const REPORT: &str = "BitLocker Drive Encryption: Configuration Tool version 10.0.19041\n\
Volume C: [OS]\n\
    Size:                 237.87 GB\n\
    BitLocker Version:    2.0\n\
    Conversion Status:    Fully Encrypted\n\
    Percentage Encrypted: 100.0%\n\
    Encryption Method:    XTS-AES 128\n\
    Protection Status:    Protection On\n\
    Lock Status:          Unlocked\n";

fn output(success: bool, stdout: &str, stderr: &str, exit_code: Option<i32>) -> ProcessOutput {
    ProcessOutput { success, exit_code, stdout: stdout.to_string(), stderr: stderr.to_string() }
}

fn snapshot(id: &str, device: &str) -> VssSnapshot {
    VssSnapshot {
        id: id.to_string(),
        volume_path: String::new(),
        original_volume: "C:".to_string(),
        created: "2026-02-04T12:14:02+00:00".to_string(),
        device_object: device.to_string(),
        available: true,
    }
}

#[test]
fn test_enumerate_snapshots() {
    let result = enumerate_snapshots("C:", Err("VSS is only available on Windows".to_string()));
    assert!(result.success || result.error.is_some());
    assert!(!result.success);
    assert!(result.snapshots.is_empty());
    assert_eq!(result.error, Some("VSS is only available on Windows".to_string()));
    assert_eq!(get_snapshot_count(&result), 0);
}

#[test]
fn listing_of_shadow_copies_is_read() {
    let snapshots = parse_vssadmin_output(LISTING, "C:");
    assert_eq!(snapshots.len(), 2);
    assert_eq!(snapshots[0].id, "{1111-2222}");
    assert_eq!(snapshots[0].volume_path, "(C:)\\\\?\\Volume{abcd}\\");
    assert_eq!(snapshots[0].original_volume, "C:");
    assert_eq!(snapshots[0].created, "2026-02-04T12:14:02+00:00");
    assert_eq!(snapshots[0].device_object, "\\\\?\\GLOBALROOT\\Device\\HarddiskVolumeShadowCopy1");
    assert!(snapshots[0].available);
    assert_eq!(snapshots[1].id, "{3333-4444}");
    assert_eq!(snapshots[1].volume_path, "");
    // the line of the creation time comes last and is no date: it stands as it is
    assert_eq!(snapshots[1].created, "not a date");
    assert_eq!(snapshots[1].device_object, "\\\\?\\GLOBALROOT\\Device\\HarddiskVolumeShadowCopy2");
    assert!(parse_vssadmin_output("", "C:").is_empty());
    assert!(parse_vssadmin_output("Original Volume: x\nShadow Copy Volume: y\n", "C:").is_empty());
}

#[test]
fn dates_of_a_listing_are_read_by_the_first_pattern_that_fits() {
    assert_eq!(parse_windows_date("04-02-2026 12:14:02"), "2026-02-04T12:14:02+00:00");
    // no thirteenth month: month first
    assert_eq!(parse_windows_date("04-13-2026 12:14:02"), "2026-04-13T12:14:02+00:00");
    assert_eq!(parse_windows_date("2025-05-15 14:30:45"), "2025-05-15T14:30:45+00:00");
    assert_eq!(parse_windows_date("5/15/2025 2:30:45 PM"), "2025-05-15T14:30:45+00:00");
    assert_eq!(parse_windows_date("15/5/2025 2:30:45 AM"), "2025-05-15T02:30:45+00:00");
    assert_eq!(parse_windows_date("5/15/2025 14:30:45"), "2025-05-15T14:30:45+00:00");
    assert_eq!(parse_windows_date("15/5/2025 14:30:45"), "2025-05-15T14:30:45+00:00");
    assert_eq!(parse_windows_date("yesterday"), "yesterday");
    assert_eq!(parse_windows_date(""), "");
}

#[test]
fn run_of_the_tool_is_read() {
    let list = read_enumeration("C:\\", &output(true, LISTING, "", Some(0))).unwrap();
    assert_eq!(list.len(), 2);
    assert_eq!(list[0].original_volume, "C:");
    let result = enumerate_snapshots("C:", Ok(output(true, LISTING, "", Some(0))));
    assert!(result.success);
    assert_eq!(result.error, None);
    assert_eq!(get_snapshot_count(&result), 2);
    let none = enumerate_snapshots("C:", Ok(output(true, "No items found that satisfy the query.", "", Some(0))));
    assert!(none.success);
    assert_eq!(get_snapshot_count(&none), 0);
    assert!(read_enumeration("C:", &output(true, "No shadow copies", "", None)).unwrap().is_empty());
}

#[test]
fn failures_of_the_tool_are_explained() {
    let error = |stdout: &str, stderr: &str, code: Option<i32>| {
        read_enumeration("C:", &output(false, stdout, stderr, code)).unwrap_err()
    };
    assert_eq!(error("out", "  boom \n", Some(1)), "vssadmin failed: boom");
    assert_eq!(error(" out ", "", Some(1)), "vssadmin failed: out");
    assert_eq!(error("", "", Some(-3)), "vssadmin failed: Exit code: -3");
    assert_eq!(error("", "", None), "vssadmin failed: Exit code: -1");
    assert_eq!(
        error("", "'vssadmin' is not recognized as a command", Some(1)),
        "VSS is not available on this system. Details: 'vssadmin' is not recognized as a command"
    );
    assert_eq!(
        error("", "Error: Access is denied.", Some(1)),
        "Access denied. Please run RecoverPro as Administrator. Details: Error: Access is denied."
    );
    assert_eq!(
        error("The service is not started.", "", Some(1)),
        "Volume Shadow Copy service is not running. Start it from Services (services.msc). Details: The service is not started."
    );
    let result = enumerate_snapshots("C", Ok(output(true, LISTING, "", Some(0))));
    assert!(!result.success);
    assert_eq!(result.error, Some("Invalid drive letter format: C".to_string()));
}

#[test]
fn drives_are_named_to_the_tool() {
    assert_eq!(normalize_drive("C:"), Ok("C:".to_string()));
    assert_eq!(normalize_drive("C:\\\\"), Ok("C:".to_string()));
    assert_eq!(normalize_drive("C\\"), Ok("C".to_string()));
    assert_eq!(normalize_drive("C"), Err("Invalid drive letter format: C".to_string()));
    assert_eq!(normalize_drive(""), Err("Invalid drive letter format: ".to_string()));
    assert_eq!(listing_argument("C:"), "/for=C:\\");
}

#[test]
fn files_in_a_copy_are_looked_for_under_its_device() {
    let copy = snapshot("{1}", "\\\\?\\GLOBALROOT\\Device\\HarddiskVolumeShadowCopy1");
    assert_eq!(
        snapshot_search_path(&copy, None),
        Ok("\\\\?\\GLOBALROOT\\Device\\HarddiskVolumeShadowCopy1\\".to_string())
    );
    assert_eq!(
        snapshot_search_path(&copy, Some("\\\\Users\\alice")),
        Ok("\\\\?\\GLOBALROOT\\Device\\HarddiskVolumeShadowCopy1\\Users\\alice".to_string())
    );
    let slashed = snapshot("{1}", "X:\\");
    assert_eq!(snapshot_search_path(&slashed, Some("a")), Ok("X:\\a".to_string()));
    let empty = snapshot("{1}", "");
    assert_eq!(snapshot_search_path(&empty, None), Err("Invalid snapshot device object".to_string()));
    let found = vec![
        FoundFile { path: "path one".to_string(), name: "name one".to_string(), size: 5, modified: "modified one".to_string() },
        FoundFile { path: "path two".to_string(), name: "name two".to_string(), size: 6, modified: String::new() },
    ];
    let files = list_files_in_snapshot(&copy, found);
    assert_eq!(files.len(), 2);
    assert_eq!((files[0].path.as_str(), files[0].name.as_str(), files[0].size), ("path one", "name one", 5));
    assert_eq!(files[1].modified, "");
    assert_eq!(files[1].snapshot_id, "{1}");
    assert_eq!(files[1].snapshot_date, "2026-02-04T12:14:02+00:00");
}

#[test]
fn copies_are_tried_newest_first() {
    let copies = vec![snapshot("old", "a"), snapshot("mid", "b"), snapshot("new", "c")];
    let order: Vec<String> = newest_first(copies).into_iter().map(|s| s.id).collect();
    assert_eq!(order, vec!["new", "mid", "old"]);
    assert!(newest_first(vec![]).is_empty());
    assert_eq!(
        snapshot_file_path("\\\\?\\GLOBALROOT\\Device\\HarddiskVolumeShadowCopy12", "C:\\Users\\alice\\report.docx"),
        Some((
            "C:\\__vss_temp_HarddiskVolumeShadowCopy12".to_string(),
            "C:\\__vss_temp_HarddiskVolumeShadowCopy12\\Users\\alice\\report.docx".to_string()
        ))
    );
    assert_eq!(
        snapshot_file_path("HarddiskVolumeShadowCopy1\\HarddiskVolumeShadowCopy2", "relative\\a.txt").unwrap().1,
        "C:\\__vss_temp_HarddiskVolumeShadowCopy2\\relative\\a.txt"
    );
    assert_eq!(snapshot_file_path("\\\\?\\Device\\Harddisk1", "C:\\a.txt"), None);
    assert_eq!(snapshot_file_path("HarddiskVolumeShadowCopy", "C:\\").unwrap().1, "C:\\__vss_temp_HarddiskVolumeShadowCopy\\C:\\");
}

#[test]
fn state_of_bitlocker_is_read_from_the_report() {
    let status = get_bitlocker_status("c:\\", Some((REPORT, "")), 100);
    assert_eq!(status.drive, "c:");
    assert!(status.is_encrypted);
    assert!(!status.is_locked);
    assert_eq!(status.protection_status, "Protection On");
    assert_eq!(status.encryption_percentage, 100);
    assert_eq!(status.encryption_method, "XTS-AES 128");

    let locked = REPORT.replace("Unlocked", "Locked").replace("Protection On", "Protection Off");
    let status = get_bitlocker_status("C", Some((&locked, "")), 100);
    assert!(status.is_locked);
    assert_eq!(status.protection_status, "Protection Off");
    assert!(get_bitlocker_status("C", Some((REPORT, "ERROR: The volume is LOCKED")), 100).is_locked);

    let never = REPORT.replace("2.0", "None   ").replace("Protection On", "");
    let status = get_bitlocker_status("C", Some((&never, "")), 100);
    assert!(!status.is_encrypted);
    assert_eq!(status.protection_status, "Unknown");
    let decrypted = REPORT.replace("Fully Encrypted", "Fully Decrypted");
    assert!(!get_bitlocker_status("C", Some((&decrypted, "")), 100).is_encrypted);
    assert!(!get_bitlocker_status("C", Some((REPORT, "")), 0).is_encrypted);
}

#[test]
fn state_of_bitlocker_is_unknown_without_a_report() {
    for report in [None, Some(("", "x")), Some((" \r\n\t ", "locked"))] {
        let status = get_bitlocker_status("C:", report, 50);
        assert_eq!(status.drive, "C:");
        assert!(!status.is_encrypted);
        assert!(!status.is_locked);
        assert_eq!(status.protection_status, "Unable to determine");
        assert_eq!(status.encryption_percentage, 0);
        assert_eq!(status.encryption_method, "Unknown");
    }
    assert_eq!(extract_encryption_method("no such line"), "Unknown");
    assert_eq!(extract_encryption_method("x\n Encryption Method: AES: 256 \n"), "AES");
    assert_eq!(tool_drive("D:\\"), "D:");
}

#[test]
fn locking_and_unlocking_are_reported() {
    let ok = unlock_outcome("C:\\", "successfully", true, "", "");
    assert!(ok.success);
    assert_eq!(ok.message, "Drive C: unlocked successfully");
    let told = unlock_outcome("C", "with recovery key", false, "Volume successfully unlocked.", "");
    assert!(told.success);
    assert_eq!(told.message, "Drive C: unlocked with recovery key");
    let failed = unlock_outcome("C", "successfully", false, "", "  wrong password \n");
    assert!(!failed.success);
    assert_eq!(failed.message, "Failed to unlock: wrong password");
    assert_eq!(lock_outcome("C:", true, "").message, "Drive C: locked successfully");
    assert_eq!(lock_outcome("C:", false, " busy ").message, "Failed to lock: busy");
    assert!(!lock_outcome("C:", false, " busy ").success);
}

#[test]
fn size_of_a_disk_is_the_first_that_is_known() {
    assert_eq!(choose_disk_size(Some(100), Some(200), Some(300)), Some(100));
    assert_eq!(choose_disk_size(Some(0), Some(200), Some(300)), Some(200));
    assert_eq!(choose_disk_size(None, None, Some(300)), Some(300));
    assert_eq!(choose_disk_size(None, Some(0), Some(0)), None);
    assert_eq!(next_chunk_sectors(10_000, 0, 4 * 1024 * 1024), 8192);
    assert_eq!(next_chunk_sectors(10_000, 8192, 4 * 1024 * 1024), 1808);
    assert_eq!(next_chunk_sectors(10_000, 10_000, 4 * 1024 * 1024), 0);
    assert_eq!(mft_file_path("C:\\"), "C:\\$MFT");
    assert_eq!(check_filesystem_access(true, true), Ok(true));
    assert_eq!(check_filesystem_access(true, false), Ok(false));
    assert_eq!(check_filesystem_access(false, true), Ok(false));
}

#[test]
fn texts_are_cut_and_searched() {
    assert_eq!(trim("  a b \t\r\n"), "a b");
    assert_eq!(trim("\u{a0}x\u{2003}"), "x");
    assert_eq!(trim(" \n "), "");
    assert_eq!(trim(""), "");
    assert_eq!(trim_end_char("C:\\\\", '\\'), "C:");
    assert_eq!(trim_end_char("\\\\", '\\'), "");
    assert_eq!(trim_start_char("\\\\a\\", '\\'), "a\\");
    assert_eq!(drive_letter("C:\\"), "C");
    assert_eq!(drive_letter("C\\:"), "C\\");
    assert_eq!(split_lines("a\r\nb\n\nc\r"), vec!["a", "b", "", "c\r"]);
    assert_eq!(split_lines("a\n"), vec!["a"]);
    assert_eq!(split_lines("\n"), vec![""]);
    assert_eq!(split_lines(""), Vec::<String>::new());
    assert_eq!(remove_all("xxabxabx", "ab"), "xxxx");
    assert_eq!(remove_all("aaa", "aa"), "a");
    assert_eq!(remove_all("abc", ""), "abc");
    assert_eq!(take_piece_after("a: b: c", ":"), Some(" b"));
    assert_eq!(take_piece_after("a: b", ": "), Some("b"));
    assert_eq!(take_piece_after("abc", ":"), None);
    assert_eq!(take_piece_after("abc:", ":"), Some(""));
    assert!(text_eq("\u{e4}b", "\u{e4}b"));
    assert!(!text_eq("ab", "abc"));
    assert!(!text_eq("ab", "aB"));
    let s = chars_of("hello world");
    assert_eq!(s.len(), 11);
    assert!(chars_contain(&s, &chars_of("o w")));
    assert!(chars_contain(&s, &[]));
    assert!(!chars_contain(&s, &chars_of("worlds")));
    assert_eq!(chars_find(&s, &chars_of("o"), 5), Some(7));
    assert_eq!(chars_rfind(&s, 'o'), Some(7));
    assert_eq!(chars_rfind(&s, 'x'), None);
}

#[test]
fn numbers_are_written_and_read_in_decimal() {
    assert_eq!(decimal_string(0), "0");
    assert_eq!(decimal_string(9), "9");
    assert_eq!(decimal_string(10), "10");
    assert_eq!(decimal_string(1_234_567_890), "1234567890");
    assert_eq!(decimal_string(u64::MAX), "18446744073709551615");
    assert_eq!(signed_decimal_string(-1), "-1");
    assert_eq!(signed_decimal_string(i32::MIN), "-2147483648");
    assert_eq!(signed_decimal_string(i32::MAX), "2147483647");
    assert_eq!(signed_decimal_string(0), "0");
    let digits = chars_of("ab123");
    assert_eq!(parse_number(&digits, 2), Some(123));
    assert_eq!(parse_number(&digits, 1), None);
    assert_eq!(parse_number(&digits, 5), None);
}

#[test]
fn nothing_is_left_to_read_behind_the_end() {
    assert_eq!(next_chunk_sectors(10_000, 10_001, 4 * 1024 * 1024), 0);
    assert_eq!(next_chunk_sectors(0, u64::MAX, 4096), 0);
    assert_eq!(next_chunk_sectors(100, 0, 0), 0);
    assert_eq!(next_chunk_sectors(100, 0, 511), 0);
    assert_eq!(next_chunk_sectors(100, 99, 512), 1);
}

#[test]
fn piece_after_an_empty_mark_is_empty() {
    assert_eq!(take_piece_after("abc", ""), Some(""));
    assert_eq!(take_piece_after("", ""), Some(""));
    assert_eq!(take_piece_after("", ":"), None);
}

#[test]
fn percentages_of_the_report_are_taken_out_in_order() {
    let report = "Volume C: [OS]\r\n    Size:                 475.2 GB\r\n    Percentage Encrypted: 87.5%\r\n    Encryption Method:    XTS-AES 128\r\n";
    assert_eq!(percentage_fields(report), vec!["87.5".to_string()]);
    let several = "Percentage Encrypted: n/a %\nother\n  Percentage Encrypted:100 %% \nx Percentage Encrypted: 12:30%";
    assert_eq!(
        percentage_fields(several),
        vec!["n/a".to_string(), "100".to_string(), "12".to_string()]
    );
    assert_eq!(percentage_fields("Percentage Encrypted:"), vec![String::new()]);
    assert_eq!(percentage_fields("Percentage Encrypted"), Vec::<String>::new());
    assert_eq!(percentage_fields(""), Vec::<String>::new());
    // a colon in front of the label cuts the field short
    assert_eq!(percentage_fields("a:b Percentage Encrypted: 5%"), vec!["b Percentage Encrypted".to_string()]);
}
