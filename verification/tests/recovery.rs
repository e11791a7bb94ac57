use ntfs_recovery::data_runs::{parse_data_runs, DataRun};
use ntfs_recovery::error::RecoveryError;
use ntfs_recovery::filesystem_recovery_engine::RecoverableFileFS;
use ntfs_recovery::recovery_strategies::{
    absorb_read, absorb_zeros, base_name_of, cancelled_result, candidate_offset,
    carve_continues, carve_read_continues, carve_read_start, carve_size_limit, carving_outcome,
    copied_result, exhausted_result, pipeline_result, resident_failure_result,
    CARVE_CHUNK_CLUSTERS, CARVE_CLUSTER_SIZE,
    consider_candidate, extend_carved, extract_filename_from_record, extract_keywords,
    find_carving_signature, find_header, get_carving_signatures, info_names_target,
    is_info_file_for, judge_reassembly, keep_carved, next_strategy, outcome_of,
    parse_recycle_info, plan_run, reassembly_result, recover_resident_file, sibling_name,
    start_carved, start_reassembly, strategy_applies, verdict_error, CarveSearch, Outcome,
    ResidentFailure, RunPlan, Strategy, Verdict,
};
use ntfs_recovery::validation::Corruption;

fn put_u16(buf: &mut [u8], at: usize, v: u16) {
    buf[at..at + 2].copy_from_slice(&v.to_le_bytes());
}

fn put_u32(buf: &mut [u8], at: usize, v: u32) {
    buf[at..at + 4].copy_from_slice(&v.to_le_bytes());
}

fn put_u64(buf: &mut [u8], at: usize, v: u64) {
    buf[at..at + 8].copy_from_slice(&v.to_le_bytes());
}

fn file(name: &str, path: &str, size: u64, deleted: bool, runs: Option<Vec<DataRun>>) -> RecoverableFileFS {
    RecoverableFileFS {
        id: "fs_mft_77".to_string(),
        name: name.to_string(),
        path: path.to_string(),
        size,
        extension: String::new(),
        category: String::new(),
        file_type: String::new(),
        modified: String::new(),
        created: String::new(),
        is_deleted: deleted,
        recovery_chance: 50,
        source: "mft".to_string(),
        cluster_offset: None,
        data_runs: runs,
    }
}

fn name_record(name: &str, content: &[u8]) -> Vec<u8> {
    let units: Vec<u16> = name.encode_utf16().collect();
    let mut r = vec![0u8; 1024];
    r[0..4].copy_from_slice(b"FILE");
    put_u16(&mut r, 4, 48);
    put_u16(&mut r, 6, 1);
    put_u16(&mut r, 0x14, 56);
    let at = 56;
    let len = (24 + 66 + 2 * units.len() + 7) / 8 * 8;
    put_u32(&mut r, at, 0x30);
    put_u32(&mut r, at + 4, len as u32);
    put_u16(&mut r, at + 20, 24);
    put_u64(&mut r, at + 24, 5);
    r[at + 24 + 64] = units.len() as u8;
    r[at + 24 + 65] = 1;
    for (i, u) in units.iter().enumerate() {
        put_u16(&mut r, at + 24 + 66 + 2 * i, *u);
    }
    let data = at + len;
    let data_len = (24 + content.len() + 7) / 8 * 8 + 8;
    put_u32(&mut r, data, 0x80);
    put_u32(&mut r, data + 4, data_len as u32);
    put_u32(&mut r, data + 16, content.len() as u32);
    put_u16(&mut r, data + 20, 24);
    r[data + 24..data + 24 + content.len()].copy_from_slice(content);
    put_u32(&mut r, data + data_len, 0xFFFF_FFFF);
    r
}

/// A volume of 4096-byte clusters, staged in memory.
fn read_clusters(volume: &[u8], cluster_offset: u64, cluster_count: u64) -> Option<Vec<u8>> {
    let start = cluster_offset as usize * 4096;
    let end = start + cluster_count as usize * 4096;
    if end <= volume.len() {
        Some(volume[start..end].to_vec())
    } else {
        None
    }
}

fn reassemble(volume: &[u8], runs: &[DataRun], size: u64) -> ntfs_recovery::recovery_strategies::Reassembly {
    let mut state = start_reassembly(size).unwrap();
    for run in runs {
        match plan_run(&state, run, 4096, false).unwrap() {
            RunPlan::Finished => break,
            RunPlan::Zeros(_) => absorb_zeros(&mut state, run, 4096),
            RunPlan::Read { cluster_offset, cluster_count } => {
                let read = read_clusters(volume, cluster_offset, cluster_count);
                absorb_read(&mut state, run, 4096, read.as_deref());
            }
        }
    }
    state
}

fn recycle_info_v2(size: u64, path: &str) -> Vec<u8> {
    let units: Vec<u16> = path.encode_utf16().chain(std::iter::once(0)).collect();
    let mut data = vec![0u8; 28];
    put_u64(&mut data, 0, 2);
    put_u64(&mut data, 8, size);
    put_u32(&mut data, 24, units.len() as u32);
    for u in units {
        data.extend_from_slice(&u.to_le_bytes());
    }
    data
}

#[test]
fn strategies_are_tried_in_order_until_one_succeeds() {
    let runs = Some(vec![DataRun { cluster_offset: 10, cluster_count: 2 }]);
    let live = file("a.txt", "C:\\a.txt", 500, false, runs.clone());
    assert_eq!(next_strategy(None, &live), Some(Strategy::LiveCopy));
    assert_eq!(next_strategy(Some((Strategy::LiveCopy, Outcome::Failed)), &live), Some(Strategy::ClusterReassembly));
    assert_eq!(next_strategy(Some((Strategy::ClusterReassembly, Outcome::Failed)), &live), Some(Strategy::ResidentExtraction));
    assert_eq!(next_strategy(Some((Strategy::ResidentExtraction, Outcome::Failed)), &live), Some(Strategy::RecycleBin));
    assert_eq!(next_strategy(Some((Strategy::RecycleBin, Outcome::Failed)), &live), Some(Strategy::ShadowCopy));
    assert_eq!(next_strategy(Some((Strategy::ShadowCopy, Outcome::Failed)), &live), Some(Strategy::Carving));
    assert_eq!(next_strategy(Some((Strategy::Carving, Outcome::Failed)), &live), None);
    for s in [Strategy::LiveCopy, Strategy::ClusterReassembly, Strategy::Carving] {
        assert_eq!(next_strategy(Some((s, Outcome::Recovered)), &live), None);
    }
}

#[test]
fn corrupt_bytes_end_the_recovery() {
    let runs = Some(vec![DataRun { cluster_offset: 10, cluster_count: 2 }]);
    let f = file("a.pdf", "C:\\a.pdf", 500_000, true, runs);
    for s in [Strategy::ClusterReassembly, Strategy::ResidentExtraction, Strategy::Carving] {
        assert_eq!(next_strategy(Some((s, Outcome::Corrupt)), &f), None);
    }
}

#[test]
fn deleted_files_are_not_copied_from_their_old_path() {
    let runs = Some(vec![DataRun { cluster_offset: 10, cluster_count: 2 }]);
    let deleted = file("a.docx", "C:\\Users\\a\\a.docx", 5000, true, runs.clone());
    assert!(!strategy_applies(Strategy::LiveCopy, &deleted));
    assert_eq!(next_strategy(None, &deleted), Some(Strategy::ClusterReassembly));
    let recycled = file("$RABC.docx", "C:\\$Recycle.Bin\\S-1\\$RABC.docx", 5000, true, runs);
    assert!(strategy_applies(Strategy::LiveCopy, &recycled));
    assert_eq!(next_strategy(None, &recycled), Some(Strategy::LiveCopy));
}

#[test]
fn strategies_that_cannot_apply_are_passed_over() {
    // no runs, too large for the record
    let f = file("a.docx", "C:\\a.docx", 5000, true, None);
    assert_eq!(next_strategy(None, &f), Some(Strategy::RecycleBin));
    // no runs, small enough for the record
    let small = file("a.txt", "C:\\a.txt", 700, true, Some(vec![]));
    assert_eq!(next_strategy(None, &small), Some(Strategy::ResidentExtraction));
    let over = file("a.txt", "C:\\a.txt", 701, true, None);
    assert!(!strategy_applies(Strategy::ResidentExtraction, &over));
    let mut carved = file("a.txt", "C:\\a.txt", 14, true, None);
    carved.id = "carved_1".to_string();
    assert!(!strategy_applies(Strategy::ResidentExtraction, &carved));
    let empty = file("a.txt", "C:\\a.txt", 0, true, Some(vec![DataRun { cluster_offset: 1, cluster_count: 1 }]));
    assert!(!strategy_applies(Strategy::ClusterReassembly, &empty));
    assert!(!strategy_applies(Strategy::ResidentExtraction, &empty));
}

#[test]
fn cancelled_recovery_plans_nothing_and_tries_nothing_more() {
    let state = start_reassembly(9000).unwrap();
    let run = DataRun { cluster_offset: 10, cluster_count: 2 };
    assert_eq!(plan_run(&state, &run, 4096, true), Err(RecoveryError::Cancelled));
    let done = start_reassembly(0).unwrap();
    assert_eq!(plan_run(&done, &run, 4096, true), Err(RecoveryError::Cancelled));
    let f = file("a.txt", "C:\\a.txt", 10, false, None);
    for s in [Strategy::LiveCopy, Strategy::ClusterReassembly, Strategy::Carving] {
        assert_eq!(next_strategy(Some((s, Outcome::Cancelled)), &f), None);
    }
    let told = cancelled_result(&f, "D:\\a.txt");
    assert!(!told.success);
    assert_eq!(told.bytes_recovered, 0);
    assert_eq!(told.source_path, "C:\\a.txt");
    assert_eq!(told.destination_path, "D:\\a.txt");
    assert_eq!(told.message, "Recovery of 'a.txt' was cancelled. Nothing was written.");
}

#[test]
fn runs_are_planned_by_what_is_still_to_come() {
    let state = start_reassembly(9000).unwrap();
    let run = DataRun { cluster_offset: 10, cluster_count: 2 };
    assert_eq!(plan_run(&state, &run, 4096, false), Ok(RunPlan::Read { cluster_offset: 10, cluster_count: 2 }));
    let long = DataRun { cluster_offset: 10, cluster_count: 50 };
    assert_eq!(plan_run(&state, &long, 4096, false), Ok(RunPlan::Read { cluster_offset: 10, cluster_count: 3 }));
    let sparse = DataRun { cluster_offset: 0, cluster_count: 1 };
    assert_eq!(plan_run(&state, &sparse, 4096, false), Ok(RunPlan::Zeros(4096)));
    let negative = DataRun { cluster_offset: -4, cluster_count: 100 };
    assert_eq!(plan_run(&state, &negative, 4096, false), Ok(RunPlan::Zeros(9000)));
    assert_eq!(plan_run(&state, &run, 0, false), Ok(RunPlan::Finished));
    let exact = start_reassembly(8192).unwrap();
    assert_eq!(plan_run(&exact, &long, 4096, false), Ok(RunPlan::Read { cluster_offset: 10, cluster_count: 2 }));
    let done = start_reassembly(0).unwrap();
    assert_eq!(plan_run(&done, &run, 4096, false), Ok(RunPlan::Finished));
    let huge = DataRun { cluster_offset: 0, cluster_count: u64::MAX };
    assert_eq!(plan_run(&state, &huge, 4096, false), Ok(RunPlan::Zeros(9000)));
}

#[test]
fn deleted_png_with_two_runs_is_reassembled() {
    // runs (count 2, delta +10), (count 1, delta +5); real size 9000
    let runs = parse_data_runs(&[0x11, 0x02, 0x0A, 0x11, 0x01, 0x05, 0x00]);
    let mut png = vec![0x5Au8; 9000];
    png[..8].copy_from_slice(&[0x89, 0x50, 0x4E, 0x47, 0x0D, 0x0A, 0x1A, 0x0A]);
    png[8988..8992].copy_from_slice(&0u32.to_be_bytes());
    png[8992..8996].copy_from_slice(b"IEND");
    png[8996..9000].copy_from_slice(&[0xAE, 0x42, 0x60, 0x82]);
    let mut volume = vec![0xEEu8; 16 * 4096];
    volume[10 * 4096..12 * 4096].copy_from_slice(&png[..8192]);
    volume[15 * 4096..15 * 4096 + 808].copy_from_slice(&png[8192..]);
    let state = reassemble(&volume, &runs, 9000);
    assert_eq!(state.data, png);
    assert_eq!(state.bytes_remaining, 0);
    assert_eq!((state.successful_runs, state.failed_runs), (2, 0));
    assert_eq!(judge_reassembly(&state, "png"), Verdict::Complete);
    let f = file("img.png", "C:\\img.png", 9000, true, Some(runs));
    let result = reassembly_result(&f, "png", "D:\\out\\img.png", &state, Verdict::Complete);
    assert!(result.success);
    assert_eq!(result.bytes_recovered, 9000);
    assert_eq!(result.message, "Successfully recovered 9000 bytes");
    assert_eq!(result.source_path, "C:\\img.png");
    assert_eq!(result.destination_path, "D:\\out\\img.png");
}

#[test]
fn failed_and_sparse_runs_become_zeros() {
    let runs = vec![
        DataRun { cluster_offset: 1, cluster_count: 1 },
        DataRun { cluster_offset: 0, cluster_count: 1 },
        DataRun { cluster_offset: 1000, cluster_count: 1 },
        DataRun { cluster_offset: 2, cluster_count: 4 },
    ];
    let mut volume = vec![0u8; 4 * 4096];
    for (i, b) in volume.iter_mut().enumerate() {
        *b = (i / 4096) as u8 + 1;
    }
    let state = reassemble(&volume, &runs, 4 * 4096 - 10);
    assert_eq!(state.data.len(), 4 * 4096 - 10);
    assert!(state.data[..4096].iter().all(|b| *b == 2));
    assert!(state.data[4096..3 * 4096].iter().all(|b| *b == 0));
    assert!(state.data[3 * 4096..].iter().all(|b| *b == 3));
    assert_eq!((state.successful_runs, state.failed_runs), (2, 1));
    assert_eq!(judge_reassembly(&state, "bin"), Verdict::Partial);
    let f = file("a.bin", "C:\\a.bin", 4 * 4096 - 10, true, Some(runs));
    let result = reassembly_result(&f, "bin", "out", &state, Verdict::Partial);
    assert!(result.success);
    assert_eq!(
        result.message,
        "Partially recovered 16374 of 16374 bytes. 2 run(s) succeeded, 1 failed."
    );
}

#[test]
fn pdf_recovered_from_wrong_clusters_is_rejected() {
    // 500 KB at clusters 1000..1125: a header and then bytes of other files
    let runs = vec![DataRun { cluster_offset: 1000, cluster_count: 125 }];
    let mut volume = vec![0u8; 1125 * 4096];
    for (i, b) in volume[1000 * 4096..].iter_mut().enumerate() {
        *b = ((i as u32).wrapping_mul(2_654_435_761) >> 24) as u8 | 1;
    }
    volume[1000 * 4096..1000 * 4096 + 9].copy_from_slice(b"%PDF-1.4\n");
    let state = reassemble(&volume, &runs, 500 * 1024);
    assert_eq!(state.data.len(), 500 * 1024);
    let verdict = judge_reassembly(&state, "pdf");
    assert_eq!(verdict, Verdict::Rejected(Corruption::PdfNoEof));
    let f = file("thesis.pdf", "C:\\thesis.pdf", 500 * 1024, true, Some(runs));
    let result = reassembly_result(&f, "pdf", "D:\\thesis.pdf", &state, verdict);
    assert!(!result.success);
    assert_eq!(result.bytes_recovered, 0);
    assert_eq!(
        result.message,
        "Recovery failed for 'thesis.pdf': PDF has no %%EOF marker in its last 2 KB. The file's disk clusters have likely been overwritten by new data."
    );
    assert_eq!(next_strategy(Some((Strategy::ClusterReassembly, Outcome::Corrupt)), &f), None);
}

#[test]
fn nothing_read_is_no_recovery() {
    let state = start_reassembly(0).unwrap();
    assert_eq!(judge_reassembly(&state, "txt"), Verdict::Nothing);
    let f = file("a.txt", "C:\\a.txt", 0, true, None);
    let result = reassembly_result(&f, "txt", "out", &state, Verdict::Nothing);
    assert!(!result.success);
    assert_eq!(
        result.message,
        "Could not recover 'a.txt'. All cluster reads failed - the file data may have been overwritten."
    );
}

#[test]
fn resident_recovery_checks_the_name_first() {
    let record = name_record("Notes.txt", b"Hello, world!\n");
    assert_eq!(recover_resident_file(&record, "notes.TXT", 14), Ok(b"Hello, world!\n".to_vec()));
    assert_eq!(recover_resident_file(&record, "other.txt", 14), Err(ResidentFailure::SlotReused));
    assert_eq!(recover_resident_file(&[0u8; 1024], "notes.txt", 14), Err(ResidentFailure::NoRecord));
    // only files of 700 bytes or fewer lie in their record
    assert_eq!(recover_resident_file(&record, "notes.txt", 700), Ok(b"Hello, world!\n".to_vec()));
    assert_eq!(recover_resident_file(&record, "notes.txt", 701), Err(ResidentFailure::TooLarge));
    assert_eq!(recover_resident_file(&record, "notes.txt", 0), Err(ResidentFailure::NoContent));
    let large = resident_failure_result(&file("big.bin", "C:\\big.bin", 5000, true, None), ResidentFailure::TooLarge, "D:\\big.bin");
    assert_eq!(large.message, "'big.bin' is too large to lie inside its MFT record");
    let empty = name_record("notes.txt", b"");
    assert_eq!(recover_resident_file(&empty, "notes.txt", 14), Err(ResidentFailure::NoContent));
    assert_eq!(extract_filename_from_record(&record), Some("Notes.txt".to_string()));
    assert_eq!(extract_filename_from_record(&[0u8; 1024]), None);
}

#[test]
fn recycle_bin_round_trip() {
    let info = recycle_info_v2(12345, "C:\\Users\\alice\\report.docx");
    assert!(is_info_file_for("$IABCD.docx", "report.docx"));
    let parsed = parse_recycle_info(&info).unwrap();
    assert_eq!(parsed.version, 2);
    assert_eq!(parsed.file_size, 12345);
    assert_eq!(parsed.deleted_at, 0);
    assert_eq!(parsed.original_path, "C:\\Users\\alice\\report.docx");
    assert!(info_names_target(&parsed, "report.docx"));
    assert!(info_names_target(&parsed, "REPORT.DOCX"));
    assert!(!info_names_target(&parsed, "other.docx"));
    assert_eq!(sibling_name("$IABCD.docx"), "$RABCD.docx");
}

#[test]
fn recycle_metadata_of_both_versions_is_read() {
    // version 1: a path field of 520 bytes from offset 24 on
    let mut v1 = vec![0u8; 544];
    put_u64(&mut v1, 0, 1);
    put_u64(&mut v1, 8, 77);
    put_u64(&mut v1, 16, 132_224_352_000_000_000);
    for (i, u) in "D:\\old\\a.txt".encode_utf16().enumerate() {
        put_u16(&mut v1, 24 + 2 * i, u);
    }
    let parsed = parse_recycle_info(&v1).unwrap();
    assert_eq!(parsed.version, 1);
    assert_eq!(parsed.file_size, 77);
    assert_eq!(parsed.deleted_at, 132_224_352_000_000_000);
    assert_eq!(parsed.original_path, "D:\\old\\a.txt");
    // a short file of version 1 gives what it has
    let short = parse_recycle_info(&v1[..31]).unwrap();
    assert_eq!(short.original_path, "D:\\");
    assert!(parse_recycle_info(&v1[..27]).is_none());
    // version 2 with a path that does not lie inside the file
    let v2 = recycle_info_v2(1, "C:\\a.txt");
    assert!(parse_recycle_info(&v2[..v2.len() - 1]).is_none());
    assert!(parse_recycle_info(&v2).is_some());
}

#[test]
fn recycle_candidates_are_told_by_name_and_extension() {
    assert!(is_info_file_for("$IABCD.DOCX", "report.docx"));
    assert!(!is_info_file_for("$RABCD.docx", "report.docx"));
    assert!(!is_info_file_for("$IABCD.xlsx", "report.docx"));
    assert!(is_info_file_for("$IABCD.xlsx", "README"));
    assert!(!is_info_file_for("$IABCD", "report.docx"));
    assert_eq!(base_name_of("C:\\Users\\alice\\report.docx"), "report.docx");
    assert_eq!(base_name_of("a/b\\c/d.txt"), "d.txt");
    assert_eq!(base_name_of("plain"), "plain");
    assert_eq!(base_name_of("dir\\"), "");
}

#[test]
fn carving_signatures_are_found_by_extension() {
    let sigs = get_carving_signatures();
    assert_eq!(sigs.len(), 8);
    let pdf = find_carving_signature(&sigs, "pdf").unwrap();
    assert_eq!(pdf.header, b"%PDF-");
    assert_eq!(pdf.footer, Some(&b"%%EOF"[..]));
    assert_eq!(pdf.max_size, 500 * 1024 * 1024);
    let mp4 = find_carving_signature(&sigs, "mp4").unwrap();
    assert_eq!(mp4.header, b"ftyp");
    assert_eq!(mp4.max_size, 2 * 1024 * 1024 * 1024);
    assert!(find_carving_signature(&sigs, "gif").is_none());
    assert!(find_carving_signature(&sigs, "PDF").is_none());
    assert_eq!(carve_size_limit(1000, 5000), 1200);
    assert_eq!(carve_size_limit(0, 5000), 5000);
    assert_eq!(carve_size_limit(u64::MAX, 5000), u64::MAX);
    assert_eq!(carve_size_limit(9, 5000), 10);
}

#[test]
fn keywords_come_from_the_stem_of_the_name() {
    assert_eq!(extract_keywords("Annual_Report-2023 (final).v2.PDF"), vec!["annual", "report", "2023", "final"]);
    assert_eq!(extract_keywords("ab_cd.txt"), Vec::<String>::new());
    // a name without a dot is its own stem
    assert_eq!(extract_keywords("README"), vec!["readme"]);
    assert_eq!(extract_keywords("my notes"), vec!["notes"]);
    assert_eq!(extract_keywords("archive.tar.gz"), vec!["archive", "tar"]);
    // two letters of two bytes each are long enough
    assert_eq!(extract_keywords("\u{c4}\u{d6}.txt"), vec!["\u{e4}\u{f6}"]);
    assert_eq!(extract_keywords(".hidden"), Vec::<String>::new());
}

#[test]
fn headers_are_found_in_a_chunk() {
    let mut chunk = vec![0u8; 100];
    chunk[10..15].copy_from_slice(b"%PDF-");
    chunk[50..55].copy_from_slice(b"%PDF-");
    chunk[95..100].copy_from_slice(b"%PDF-");
    assert_eq!(find_header(&chunk, b"%PDF-", 0, 0), Some(10));
    assert_eq!(find_header(&chunk, b"%PDF-", 11, 0), Some(50));
    // a header that ends with the chunk is found
    assert_eq!(find_header(&chunk, b"%PDF-", 51, 0), Some(95));
    assert_eq!(find_header(&chunk, b"%PDF-", 96, 0), None);
    assert_eq!(find_header(&chunk[..99], b"%PDF-", 51, 0), None);
    // a header of no bytes stands nowhere
    assert_eq!(find_header(&chunk, b"", 0, 0), None);
    assert_eq!(find_header(&chunk, b"%PDF-", 0, 20), Some(50));
    assert_eq!(find_header(&chunk[..4], b"%PDF-", 0, 0), None);
    assert_eq!(candidate_offset(4_194_304, 10, 8), Some(4_194_306));
    assert_eq!(candidate_offset(0, 3, 8), None);
    assert_eq!(candidate_offset(u64::MAX, 9, 8), None);
    assert_eq!(start_carved(b"abcdef", 2), Some(b"cdef".to_vec()));
    assert_eq!(start_carved(b"abcdef", 6), None);
}

#[test]
fn best_candidate_is_the_one_with_most_keywords() {
    let keywords = vec!["annual".to_string(), "report".to_string()];
    let text = |words: &str| {
        let mut data = vec![b' '; 2000];
        data[..words.len()].copy_from_slice(words.as_bytes());
        data
    };
    let mut search = CarveSearch { best: None, best_score: 0 };
    // the first plausible file is kept though it holds no keyword
    assert!(!consider_candidate(&mut search, text("nothing here"), "txt", &keywords));
    assert_eq!(search.best, Some(text("nothing here")));
    assert_eq!(search.best_score, 0);
    // another without a keyword does not take its place
    assert!(!consider_candidate(&mut search, text("nothing there"), "txt", &keywords));
    assert_eq!(search.best, Some(text("nothing here")));
    assert!(!consider_candidate(&mut search, text("the report"), "txt", &keywords));
    assert_eq!(search.best_score, 1);
    let first = search.best.clone();
    assert_eq!(first, Some(text("the report")));
    // a tie does not take the place of the first
    assert!(!consider_candidate(&mut search, text("annual"), "txt", &keywords));
    assert_eq!(search.best, first);
    // too small, or without the structure of its format
    assert!(!consider_candidate(&mut search, b"annual report".to_vec(), "txt", &keywords));
    assert!(!consider_candidate(&mut search, text("annual report"), "PNG", &keywords));
    assert_eq!(search.best, first);
    assert!(consider_candidate(&mut search, text("Annual REPORT"), "txt", &keywords));
    assert_eq!(search.best_score, 2);
    assert_eq!(search.best, Some(text("Annual REPORT")));
}

#[test]
fn without_keywords_the_first_plausible_file_is_kept() {
    let mut search = CarveSearch { best: None, best_score: 0 };
    assert!(!consider_candidate(&mut search, vec![1u8; 1023], "bin", &[]));
    assert!(search.best.is_none());
    assert!(!consider_candidate(&mut search, vec![1u8; 1024], "bin", &[]));
    assert!(!consider_candidate(&mut search, vec![2u8; 1024], "bin", &[]));
    assert_eq!(search.best, Some(vec![1u8; 1024]));
    assert!(carve_continues(0, 0));
    assert!(!carve_continues(8 * 1024 * 1024 * 1024, 0));
    assert!(!carve_continues(0, 50));
    assert!(carve_continues(8 * 1024 * 1024 * 1024 - 1, 49));
}

#[test]
fn carved_bytes_end_with_the_footer() {
    let mut data = b"%PDF-1.4 body".to_vec();
    assert!(!extend_carved(&mut data, b" more body", Some(b"%%EOF")));
    assert_eq!(data, b"%PDF-1.4 body more body");
    // the footer lies across the boundary of two pieces
    assert!(!extend_carved(&mut data, b" %%E", Some(b"%%EOF")));
    assert!(extend_carved(&mut data, b"OF trailing", Some(b"%%EOF")));
    assert_eq!(data, b"%PDF-1.4 body more body %%EOF");
    let mut plain = b"abc".to_vec();
    assert!(!extend_carved(&mut plain, b"%%EOF", None));
    assert_eq!(plain, b"abc%%EOF");
    assert!(keep_carved(10, false, false));
    assert!(keep_carved(10, true, true));
    assert!(keep_carved(1024, true, false));
    assert!(!keep_carved(1023, true, false));
}

#[test]
fn verdicts_have_their_outcome_and_error() {
    assert_eq!(outcome_of(Verdict::Complete), Outcome::Recovered);
    assert_eq!(outcome_of(Verdict::Partial), Outcome::Recovered);
    assert_eq!(outcome_of(Verdict::Rejected(Corruption::AllZeros)), Outcome::Corrupt);
    assert_eq!(outcome_of(Verdict::Nothing), Outcome::Failed);
    assert_eq!(verdict_error(Verdict::Complete), None);
    assert_eq!(verdict_error(Verdict::Partial), None);
    assert_eq!(verdict_error(Verdict::Rejected(Corruption::JpegNoEnd)), Some(RecoveryError::CorruptOutput));
    assert_eq!(verdict_error(Verdict::Nothing), Some(RecoveryError::Io));
    assert_eq!(sibling_name("$"), "$R");
}

#[test]
fn copies_are_reported_with_the_way_that_found_them() {
    let f = file("report.docx", "C:\\Users\\alice\\report.docx", 12345, true, None);
    let live = copied_result(&f, Strategy::LiveCopy, 12345, "", "D:\\out.docx");
    assert!(live.success);
    assert_eq!(live.bytes_recovered, 12345);
    assert_eq!(live.source_path, "C:\\Users\\alice\\report.docx");
    assert_eq!(live.destination_path, "D:\\out.docx");
    assert_eq!(live.message, "Recovered 12345 bytes via direct copy (auto-decrypted)");
    let inline = copied_result(&f, Strategy::ResidentExtraction, 14, "", "D:\\out.docx");
    assert_eq!(inline.message, "Recovered 14 bytes from resident MFT data");
    let bin = copied_result(&f, Strategy::RecycleBin, 12345, "C:\\Users\\alice\\old\\report.docx", "D:\\out.docx");
    assert!(bin.success);
    assert_eq!(bin.source_path, "C:\\Users\\alice\\old\\report.docx");
    assert_eq!(
        bin.message,
        "Recovered 12345 bytes from Recycle Bin (original: C:\\Users\\alice\\old\\report.docx)"
    );
    let shadow = copied_result(&f, Strategy::ShadowCopy, 0, "ignored", "D:\\out.docx");
    assert_eq!(shadow.source_path, "C:\\Users\\alice\\report.docx");
    assert_eq!(shadow.message, "Recovered 0 bytes from Volume Shadow Copy (Previous Version)");
    let other = copied_result(&f, Strategy::Carving, u64::MAX, "", "D:\\out.docx");
    assert_eq!(other.message, "Recovered 18446744073709551615 bytes");
}

#[test]
fn failures_name_the_file_and_tell_what_became_of_it() {
    let f = file("notes.txt", "C:\\notes.txt", 14, true, None);
    let reused = resident_failure_result(&f, ResidentFailure::SlotReused, "D:\\notes.txt");
    assert!(!reused.success);
    assert_eq!(reused.bytes_recovered, 0);
    assert_eq!(reused.source_path, "C:\\notes.txt");
    assert_eq!(reused.destination_path, "D:\\notes.txt");
    assert_eq!(reused.message, "MFT record reused: the slot of 'notes.txt' now belongs to another file");
    for failure in [ResidentFailure::NoRecord, ResidentFailure::NoContent] {
        let none = resident_failure_result(&f, failure, "D:\\notes.txt");
        assert!(!none.success);
        assert_eq!(none.message, "No resident data of 'notes.txt' found in its MFT record");
    }
    let lost = exhausted_result(&f, "D:\\notes.txt");
    assert!(!lost.success);
    assert_eq!(lost.bytes_recovered, 0);
    assert_eq!(lost.source_path, "C:\\notes.txt");
    assert_eq!(
        lost.message,
        "'notes.txt' cannot be recovered - file data has been overwritten or is no longer accessible on disk"
    );
}

#[test]
fn reassembly_never_holds_more_than_the_file() {
    let size = 10_000u64;
    let mut state = start_reassembly(size).unwrap();
    let runs = [
        DataRun { cluster_offset: 10, cluster_count: 1 },
        DataRun { cluster_offset: 0, cluster_count: 1 },
        DataRun { cluster_offset: 30, cluster_count: 1 },
        DataRun { cluster_offset: 40, cluster_count: 5 },
    ];
    let reads: [Option<Vec<u8>>; 4] = [Some(vec![1u8; 4096]), None, None, Some(vec![2u8; 20_480])];
    for (run, read) in runs.iter().zip(reads.iter()) {
        match plan_run(&state, run, 4096, false).unwrap() {
            RunPlan::Finished => break,
            RunPlan::Zeros(_) => absorb_zeros(&mut state, run, 4096),
            RunPlan::Read { .. } => absorb_read(&mut state, run, 4096, read.as_deref()),
        }
        assert_eq!(state.data.len() as u64 + state.bytes_remaining as u64, size);
    }
    assert_eq!(state.data.len(), 10_000);
    assert_eq!(state.bytes_remaining, 0);
    assert_eq!(state.successful_runs, 1);
    assert_eq!(state.failed_runs, 1);
    assert_eq!(&state.data[..4096], &vec![1u8; 4096][..]);
    assert_eq!(&state.data[4096..], &vec![0u8; 10_000 - 4096][..]);
}

#[test]
fn name_is_read_from_a_record_of_any_size() {
    let name_attr = |name: &str, namespace: u8| {
        let units: Vec<u16> = name.encode_utf16().collect();
        let len = (24 + 66 + 2 * units.len() + 7) / 8 * 8;
        let mut a = vec![0u8; len];
        put_u32(&mut a, 0, 0x30);
        put_u32(&mut a, 4, len as u32);
        put_u16(&mut a, 20, 24);
        put_u64(&mut a, 24, 5);
        a[24 + 64] = units.len() as u8;
        a[24 + 65] = namespace;
        for (i, u) in units.iter().enumerate() {
            put_u16(&mut a, 24 + 66 + 2 * i, *u);
        }
        a
    };
    let record = |attrs: &[Vec<u8>]| {
        let mut r = vec![0u8; 56];
        r[0..4].copy_from_slice(b"FILE");
        put_u16(&mut r, 4, 48);
        put_u16(&mut r, 6, 1);
        put_u16(&mut r, 0x14, 56);
        for a in attrs {
            r.extend_from_slice(a);
        }
        r.extend_from_slice(&0xFFFF_FFFFu32.to_le_bytes());
        r.extend_from_slice(&[0u8; 4]);
        r
    };
    let dos = name_attr("REPORT~1.DOC", 2);
    let win = name_attr("report of the year.docx", 1);
    let both = record(&[dos.clone(), win.clone()]);
    assert!(both.len() < 1024);
    assert_eq!(extract_filename_from_record(&both), Some("report of the year.docx".to_string()));
    let turned = record(&[win, dos.clone()]);
    assert_eq!(extract_filename_from_record(&turned), Some("report of the year.docx".to_string()));
    let alone = record(&[dos]);
    assert_eq!(extract_filename_from_record(&alone), Some("REPORT~1.DOC".to_string()));
    assert_eq!(extract_filename_from_record(&alone[..55]), None);
    let mut other = alone.clone();
    other[0] = b'B';
    assert_eq!(extract_filename_from_record(&other), None);
}

#[test]
fn without_a_keyword_match_the_first_plausible_file_is_written() {
    let keywords = vec!["annual".to_string(), "report".to_string()];
    let mut search = CarveSearch { best: None, best_score: 0 };
    assert!(!consider_candidate(&mut search, vec![b'a'; 1023], "txt", &keywords));
    assert!(search.best.is_none());
    assert!(!consider_candidate(&mut search, vec![b'a'; 1500], "txt", &keywords));
    assert!(!consider_candidate(&mut search, vec![b'b'; 1500], "txt", &keywords));
    assert_eq!(search.best, Some(vec![b'a'; 1500]));
    assert_eq!(search.best_score, 0);
}

#[test]
fn pipeline_ends_with_the_last_result_that_did_not_simply_fail() {
    let f = file("notes.txt", "C:\\notes.txt", 14, true, None);
    let made = copied_result(&f, Strategy::ResidentExtraction, 14, "", "D:\\notes.txt");
    let kept = pipeline_result(&f, "D:\\notes.txt", Some((Outcome::Recovered, made.clone())));
    assert!(kept.success);
    assert_eq!(kept.message, made.message);
    let stopped = cancelled_result(&f, "D:\\notes.txt");
    let kept = pipeline_result(&f, "D:\\notes.txt", Some((Outcome::Cancelled, stopped.clone())));
    assert_eq!(kept.message, stopped.message);
    let refused = resident_failure_result(&f, ResidentFailure::SlotReused, "D:\\notes.txt");
    let kept = pipeline_result(&f, "D:\\notes.txt", Some((Outcome::Corrupt, refused.clone())));
    assert_eq!(kept.message, refused.message);
    // a last attempt that gave nothing, or no attempt at all
    let lost = exhausted_result(&f, "D:\\notes.txt");
    let ended = pipeline_result(&f, "D:\\notes.txt", Some((Outcome::Failed, refused)));
    assert_eq!(ended.message, lost.message);
    assert!(!ended.success);
    assert_eq!(pipeline_result(&f, "D:\\notes.txt", None).message, lost.message);
}

#[test]
fn carved_file_is_read_until_footer_or_size() {
    assert!(carve_read_continues(0, 1, false));
    assert!(carve_read_continues(999, 1000, false));
    assert!(!carve_read_continues(1000, 1000, false));
    assert!(!carve_read_continues(10, 1000, true));
    assert!(!carve_read_continues(0, 0, false));
    assert_eq!(carve_read_start(0), (0, 0));
    assert_eq!(carve_read_start(4095), (0, 4095));
    assert_eq!(carve_read_start(4096 * 7 + 12), (7, 12));
    assert_eq!(CARVE_CLUSTER_SIZE, 4096);
    assert_eq!(CARVE_CHUNK_CLUSTERS, 1024);
    let mut search = CarveSearch { best: None, best_score: 0 };
    assert_eq!(carving_outcome(&search), Outcome::Failed);
    search.best = Some(vec![1u8; 2000]);
    assert_eq!(carving_outcome(&search), Outcome::Recovered);
}

#[test]
fn carved_candidates_are_judged_by_the_whole_validator() {
    let mut search = CarveSearch { best: None, best_score: 0 };
    // wiped bytes
    assert!(!consider_candidate(&mut search, vec![0u8; 5000], "bin", &[]));
    assert!(search.best.is_none());
    // bytes that do not start as their format does
    let mut fake = vec![0x41u8; 5000];
    fake[4998] = 0xFF;
    fake[4999] = 0xD9;
    assert!(!consider_candidate(&mut search, fake, "gif", &[]));
    assert!(search.best.is_none());
    let mut gif = vec![0x41u8; 5000];
    gif[..6].copy_from_slice(b"GIF89a");
    assert!(!consider_candidate(&mut search, gif.clone(), "GIF", &[]));
    assert_eq!(search.best, Some(gif));
}
