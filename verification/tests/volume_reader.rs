use ntfs_recovery::data_runs::DataRun;
use ntfs_recovery::disk_reader::{
    check_disk_access_permissions, get_volume_path, sector_byte_offset, total_sectors,
    volume_device_path,
};
use ntfs_recovery::error::RecoveryError;
use ntfs_recovery::filesystem_disk_reader::{
    build_mft_data_run_map, check_record_reply, cluster_span, first_strategy,
    get_mft_total_records, locate_record, mft_byte_offset, next_strategy, parse_usn_batch,
    record_offset, record_request, usn_next_start, MftExtent, ReadStrategy,
};
use ntfs_recovery::ntfs_parser::NtfsBootSector;

fn put_u16(buf: &mut [u8], at: usize, v: u16) {
    buf[at..at + 2].copy_from_slice(&v.to_le_bytes());
}

fn put_u32(buf: &mut [u8], at: usize, v: u32) {
    buf[at..at + 4].copy_from_slice(&v.to_le_bytes());
}

fn put_u64(buf: &mut [u8], at: usize, v: u64) {
    buf[at..at + 8].copy_from_slice(&v.to_le_bytes());
}

/// Record 0 of a table: an unnamed data stream of `real_size` bytes with
/// the given run list, behind a named stream that must be passed over.
fn record_zero(real_size: u64, runs: &[u8]) -> Vec<u8> {
    let mut r = vec![0u8; 1024];
    r[0..4].copy_from_slice(b"FILE");
    put_u16(&mut r, 0x14, 56);
    // a named, non-resident data stream of 72 bytes
    put_u32(&mut r, 56, 0x80);
    put_u32(&mut r, 60, 72);
    r[64] = 1;
    r[65] = 3;
    put_u16(&mut r, 56 + 32, 64);
    r[56 + 64] = 0x11;
    r[56 + 65] = 0x01;
    r[56 + 66] = 0x63;
    // the unnamed stream
    let at = 128;
    put_u32(&mut r, at, 0x80);
    put_u32(&mut r, at + 4, 96);
    r[at + 8] = 1;
    put_u16(&mut r, at + 32, 64);
    put_u64(&mut r, at + 0x30, real_size);
    r[at + 64..at + 64 + runs.len()].copy_from_slice(runs);
    put_u32(&mut r, at + 96, 0xFFFF_FFFF);
    r
}

fn reply_for(reference: u64, record: &[u8]) -> Vec<u8> {
    let mut reply = Vec::new();
    reply.extend_from_slice(&reference.to_le_bytes());
    reply.extend_from_slice(&(record.len() as u32).to_le_bytes());
    reply.extend_from_slice(record);
    reply
}

fn usn_record(file_ref: u64, parent_ref: u64, ticks: i64, reason: u32, attributes: u32, name: &str) -> Vec<u8> {
    let units: Vec<u16> = name.encode_utf16().collect();
    let len = (60 + 2 * units.len() + 7) / 8 * 8;
    let mut r = vec![0u8; len];
    put_u32(&mut r, 0, len as u32);
    put_u16(&mut r, 4, 2);
    put_u64(&mut r, 8, file_ref);
    put_u64(&mut r, 16, parent_ref);
    put_u64(&mut r, 32, ticks as u64);
    put_u32(&mut r, 40, reason);
    put_u32(&mut r, 52, attributes);
    put_u16(&mut r, 56, (2 * units.len()) as u16);
    put_u16(&mut r, 58, 60);
    for (i, u) in units.iter().enumerate() {
        put_u16(&mut r, 60 + 2 * i, *u);
    }
    r
}

#[test]
fn test_volume_path() {
    assert_eq!(get_volume_path("C:"), "\\\\.\\C:");
    assert_eq!(get_volume_path("C:\\"), "\\\\.\\C:");
    assert_eq!(get_volume_path("D"), "\\\\.\\D:");
}

#[test]
fn volume_path_has_the_letter_in_uppercase() {
    assert_eq!(get_volume_path("e:\\\\"), "\\\\.\\E:");
    assert_eq!(volume_device_path("e::\\"), "\\\\.\\e:");
    assert_eq!(get_volume_path(""), "\\\\.\\:");
}

#[test]
fn access_is_judged_by_the_message_of_the_failure() {
    assert_eq!(check_disk_access_permissions(None), Ok(true));
    let privileges = Err("Administrator privileges required for raw disk access".to_string());
    assert_eq!(
        check_disk_access_permissions(Some("Failed to open: Access is denied. (os error 5)".to_string())),
        privileges
    );
    assert_eq!(
        check_disk_access_permissions(Some("permission denied".to_string())),
        privileges
    );
    assert_eq!(
        check_disk_access_permissions(Some("no such device".to_string())),
        Err("no such device".to_string())
    );
}

#[test]
fn sectors_have_512_bytes() {
    assert_eq!(total_sectors(1_000_000), 1953);
    assert_eq!(sector_byte_offset(3), Some(1536));
    assert_eq!(sector_byte_offset(u64::MAX / 512 + 1), None);
}

#[test]
fn strategies_are_tried_in_order() {
    assert_eq!(first_strategy(true), ReadStrategy::OpenedMftFile);
    assert_eq!(first_strategy(false), ReadStrategy::Fsctl);
    assert_eq!(next_strategy(ReadStrategy::OpenedMftFile), Some(ReadStrategy::Fsctl));
    assert_eq!(next_strategy(ReadStrategy::Fsctl), Some(ReadStrategy::DataRunMap));
    assert_eq!(next_strategy(ReadStrategy::DataRunMap), Some(ReadStrategy::NaiveOffset));
    assert_eq!(next_strategy(ReadStrategy::NaiveOffset), None);
}

#[test]
fn offsets_are_products_that_must_fit() {
    assert_eq!(record_offset(0, 1234, 1024), Some(1_263_616));
    assert_eq!(record_offset(4096, 2, 1024), Some(6144));
    assert_eq!(record_offset(1, u64::MAX, 1), None);
    assert_eq!(record_offset(0, u64::MAX, 2), None);
    let boot = NtfsBootSector {
        bytes_per_sector: 512,
        sectors_per_cluster: 8,
        mft_cluster: 786_432,
        mft_record_size: 1024,
        cluster_size: 4096,
    };
    assert_eq!(mft_byte_offset(&boot), Some(3_221_225_472));
    assert_eq!(cluster_span(10, 2, 4096), Some((40_960, 8192)));
    assert_eq!(cluster_span(u64::MAX, 2, 4096), None);
}

#[test]
fn reply_with_another_record_is_a_freed_slot() {
    let record = vec![0x5Au8; 1024];
    // asked for 1234, the system answers with 1235
    let reply = reply_for(1235 | (3u64 << 48), &record);
    assert_eq!(check_record_reply(&reply, 1234, 1024), Err(RecoveryError::FreedSlot));
    for k in [1u64, 2, 1000] {
        let reply = reply_for(1234 + k, &record);
        assert_eq!(check_record_reply(&reply, 1234, 1024), Err(RecoveryError::FreedSlot));
        let reply = reply_for(1234 - k, &record);
        assert_eq!(check_record_reply(&reply, 1234, 1024), Err(RecoveryError::FreedSlot));
    }
}

#[test]
fn reply_with_the_record_gives_it() {
    let record: Vec<u8> = (0..1024).map(|i| (i % 251) as u8).collect();
    // the sequence number in the high 16 bits does not count
    let reply = reply_for(1234 | (9u64 << 48), &record);
    assert_eq!(check_record_reply(&reply, 1234, 1024), Ok(record.clone()));
    // a record longer than the record size is cut
    assert_eq!(check_record_reply(&reply, 1234, 512), Ok(record[..512].to_vec()));
}

#[test]
fn short_reply_is_an_io_error() {
    let record = vec![1u8; 16];
    let reply = reply_for(7, &record);
    assert_eq!(check_record_reply(&reply[..11], 7, 1024), Err(RecoveryError::Io));
    assert_eq!(check_record_reply(&reply[..20], 7, 1024), Err(RecoveryError::Io));
    assert_eq!(check_record_reply(&reply, 7, 1024), Ok(record));
}

#[test]
fn extent_map_is_built_from_record_zero() {
    // 100 clusters at 1000, a sparse run of 5, 50 clusters at 5000
    let runs = [0x21u8, 100, 0xE8, 0x03, 0x01, 5, 0x22, 50, 0x00, 0xA0, 0x0F, 0x00];
    let record = record_zero(150 * 4096, &runs);
    assert_eq!(
        build_mft_data_run_map(&record),
        Ok(vec![
            MftExtent { physical_cluster: 1000, cluster_count: 100 },
            MftExtent { physical_cluster: 5000, cluster_count: 50 },
        ])
    );
    assert_eq!(get_mft_total_records(&record, 1024), Some(600));
    assert_eq!(get_mft_total_records(&record, 0), None);
}

#[test]
fn extent_map_needs_a_record_with_an_unnamed_stream() {
    let mut record = record_zero(4096, &[0x11, 1, 1, 0]);
    record[128 + 9] = 2; // the stream gets a name
    assert_eq!(build_mft_data_run_map(&record), Err(RecoveryError::ParseError));
    assert_eq!(get_mft_total_records(&record, 1024), None);
    let mut no_mark = record_zero(4096, &[0x11, 1, 1, 0]);
    no_mark[0] = 0;
    assert_eq!(build_mft_data_run_map(&no_mark), Err(RecoveryError::ParseError));
    let mut outside = record_zero(4096, &[0x11, 1, 1, 0]);
    put_u16(&mut outside, 128 + 32, 97);
    assert_eq!(build_mft_data_run_map(&outside), Err(RecoveryError::ParseError));
}

#[test]
fn records_are_located_through_the_extents() {
    let extents = vec![
        MftExtent { physical_cluster: 1000, cluster_count: 100 },
        MftExtent { physical_cluster: 5000, cluster_count: 50 },
    ];
    // four records to a cluster
    assert_eq!(locate_record(&extents, 0, 1024, 4096), Ok(1000 * 4096));
    assert_eq!(locate_record(&extents, 1, 1024, 4096), Ok(1000 * 4096 + 1024));
    assert_eq!(locate_record(&extents, 399, 1024, 4096), Ok(1099 * 4096 + 3072));
    assert_eq!(locate_record(&extents, 400, 1024, 4096), Ok(5000 * 4096));
    assert_eq!(locate_record(&extents, 1234 - 800, 1024, 4096), Ok(5008 * 4096 + 2048));
    assert_eq!(locate_record(&extents, 599, 1024, 4096), Ok(5049 * 4096 + 3072));
    assert_eq!(locate_record(&extents, 600, 1024, 4096), Err(RecoveryError::OutOfRange));
    assert_eq!(locate_record(&extents, 0, 1024, 0), Err(RecoveryError::OutOfRange));
    assert_eq!(locate_record(&extents, u64::MAX, 1024, 4096), Err(RecoveryError::OutOfRange));
    assert_eq!(locate_record(&vec![], 0, 1024, 4096), Err(RecoveryError::OutOfRange));
}

#[test]
fn every_covered_record_has_one_place_and_places_grow_inside_an_extent() {
    // windows of logical clusters: 0..3, 3..5, 5..6
    let extents = vec![
        MftExtent { physical_cluster: 70, cluster_count: 3 },
        MftExtent { physical_cluster: 10, cluster_count: 2 },
        MftExtent { physical_cluster: 40, cluster_count: 1 },
    ];
    let record_size = 1024u64;
    let cluster_size = 2048u64;
    let covered = 6 * cluster_size / record_size;
    let extent_of = |n: u64| if n < 6 { 0usize } else if n < 10 { 1 } else { 2 };
    let mut last: Option<(u64, u64)> = None;
    for n in 0..covered + 4 {
        let place = locate_record(&extents, n, record_size, cluster_size);
        if n < covered {
            let place = place.unwrap();
            if let Some((m, p)) = last {
                let length = extents[extent_of(n)].cluster_count * cluster_size;
                if extent_of(m) == extent_of(n) && m * record_size / length == n * record_size / length {
                    assert_eq!(place, p + record_size);
                }
            }
            last = Some((n, place));
        } else {
            assert_eq!(place, Err(RecoveryError::OutOfRange));
        }
    }
    // the first window starts at zero: the volume follows the table
    assert_eq!(locate_record(&extents, 0, record_size, cluster_size), Ok(70 * 2048));
    assert_eq!(locate_record(&extents, 5, record_size, cluster_size), Ok(70 * 2048 + 5 * 1024));
    // the second window starts at cluster 3, no multiple of its two
    // clusters: the logical byte is taken modulo 4096
    assert_eq!(locate_record(&extents, 6, record_size, cluster_size), Ok(10 * 2048 + 2048));
    assert_eq!(locate_record(&extents, 7, record_size, cluster_size), Ok(10 * 2048 + 3072));
    assert_eq!(locate_record(&extents, 8, record_size, cluster_size), Ok(10 * 2048));
    assert_eq!(locate_record(&extents, 9, record_size, cluster_size), Ok(10 * 2048 + 1024));
    // the third window starts at cluster 5, a multiple of its one cluster
    assert_eq!(locate_record(&extents, 10, record_size, cluster_size), Ok(40 * 2048));
    assert_eq!(locate_record(&extents, 11, record_size, cluster_size), Ok(40 * 2048 + 1024));
}

#[test]
fn extent_longer_than_64_bits_of_bytes_is_read_from_its_start() {
    let extents = vec![MftExtent { physical_cluster: 2, cluster_count: u64::MAX }];
    assert_eq!(locate_record(&extents, 3, 1024, 4096), Ok(2 * 4096 + 3 * 1024));
    let far = vec![MftExtent { physical_cluster: u64::MAX, cluster_count: 8 }];
    assert_eq!(locate_record(&far, 0, 1024, 4096), Err(RecoveryError::OutOfRange));
    let edge = vec![MftExtent { physical_cluster: u64::MAX / 4096, cluster_count: 8 }];
    assert_eq!(locate_record(&edge, 0, 1024, 4096), Ok(u64::MAX / 4096 * 4096));
    assert_eq!(locate_record(&edge, 3, 1024, 4096), Ok(u64::MAX / 4096 * 4096 + 3072));
    assert_eq!(locate_record(&edge, 4, 1024, 4096), Err(RecoveryError::OutOfRange));
}

#[test]
fn journal_batch_gives_the_deletions_of_files() {
    let ticks_2023: i64 = 133_170_048_000_000_000;
    let mut reply = Vec::new();
    reply.extend_from_slice(&5000i64.to_le_bytes());
    reply.extend(usn_record(77 | (2 << 48), 5 | (1 << 48), ticks_2023, 0x200, 0x20, "gone.txt"));
    reply.extend(usn_record(78, 5, ticks_2023, 0x100, 0x20, "renamed.txt"));
    reply.extend(usn_record(79, 5, ticks_2023, 0x8000_0200, 0x10, "old dir"));
    reply.extend(usn_record(80, 77, 0, 0x200, 0x20, "late.doc"));
    // the walk needs more than 64 bytes after the start of a record
    reply.extend(vec![0u8; 8]);
    let batch = parse_usn_batch(&reply).unwrap();
    assert_eq!(batch.next_usn, 5000);
    assert_eq!(batch.records_read, 4);
    assert_eq!(batch.deleted.len(), 2);
    assert_eq!(batch.deleted[0].file_name, "gone.txt");
    assert_eq!(batch.deleted[0].mft_record, 77);
    assert_eq!(batch.deleted[0].parent_mft_record, 5);
    assert_eq!(batch.deleted[0].timestamp, 1_672_531_200);
    assert_eq!(batch.deleted[0].reason, 0x200);
    assert_eq!(batch.deleted[0].file_attributes, 0x20);
    assert_eq!(batch.deleted[1].file_name, "late.doc");
    assert_eq!(batch.deleted[1].timestamp, 0);
    assert!(parse_usn_batch(&reply[..7]).is_none());
    let empty = parse_usn_batch(&reply[..8]).unwrap();
    assert_eq!(empty.records_read, 0);
    assert!(empty.deleted.is_empty());
}

#[test]
fn journal_timestamp_before_1970_rounds_towards_zero() {
    let mut reply = Vec::new();
    reply.extend_from_slice(&1i64.to_le_bytes());
    // fifteen million ticks before 1970: one and a half seconds
    reply.extend(usn_record(9, 5, 116_444_736_000_000_000 - 15_000_000, 0x200, 0, "a.txt"));
    reply.extend(vec![0u8; 8]);
    let batch = parse_usn_batch(&reply).unwrap();
    assert_eq!(batch.deleted[0].timestamp, -1);
}

#[test]
fn journal_scan_ends_when_the_cursor_stalls_or_the_limit_is_passed() {
    assert_eq!(usn_next_start(100, 200, 0), Some(200));
    assert_eq!(usn_next_start(100, 100, 0), None);
    assert_eq!(usn_next_start(100, 50, 0), None);
    assert_eq!(usn_next_start(100, 200, 10_000_000), Some(200));
    assert_eq!(usn_next_start(100, 200, 10_000_001), None);
}

#[test]
fn run_and_extent_types_compare_by_their_fields() {
    assert_eq!(
        DataRun { cluster_offset: 1, cluster_count: 2 },
        DataRun { cluster_offset: 1, cluster_count: 2 }
    );
    assert_ne!(
        MftExtent { physical_cluster: 1, cluster_count: 2 },
        MftExtent { physical_cluster: 2, cluster_count: 2 }
    );
}

#[test]
fn freed_slot_is_read_through_the_extent_map() {
    // The table: 1000 clusters at cluster 500, then 1000 at cluster 9000.
    let runs = [0x22u8, 0xE8, 0x03, 0xF4, 0x01, 0x22, 0xE8, 0x03, 0x34, 0x21, 0x00];
    let zero = record_zero(2000 * 4096, &runs);
    let extents = build_mft_data_run_map(&zero).unwrap();
    assert_eq!(
        extents,
        vec![
            MftExtent { physical_cluster: 500, cluster_count: 1000 },
            MftExtent { physical_cluster: 9000, cluster_count: 1000 },
        ]
    );
    // Asked for record 1234, the system answers with record 1235.
    let other = vec![0xAAu8; 1024];
    let reply = reply_for(1235, &other);
    assert_eq!(check_record_reply(&reply, 1234, 1024), Err(RecoveryError::FreedSlot));
    assert_eq!(next_strategy(ReadStrategy::Fsctl), Some(ReadStrategy::DataRunMap));
    // The record lies in cluster 308 of the table, which is cluster 808 of the volume.
    let place = locate_record(&extents, 1234, 1024, 4096).unwrap();
    assert_eq!(place, 808 * 4096 + 2048);
    let mut volume = vec![0u8; 810 * 4096];
    for (i, b) in volume[place as usize..place as usize + 1024].iter_mut().enumerate() {
        *b = (i % 199) as u8;
    }
    let (start, len) = cluster_span(808, 1, 4096).unwrap();
    let cluster = &volume[start as usize..start as usize + len];
    let record = &cluster[2048..3072];
    assert_eq!(record, &volume[place as usize..place as usize + 1024]);
    assert_eq!(record[198], 198);
    // A record of the second extent.
    assert_eq!(locate_record(&extents, 4000, 1024, 4096), Ok(9000 * 4096));
}

#[test]
fn freed_slot_falls_back_to_the_extent_map() {
    // the table: 1000 clusters at cluster 2000, four records to a cluster
    let runs = [0x22u8, 0xE8, 0x03, 0xD0, 0x07, 0x00];
    let zero = record_zero(1000 * 4096, &runs);
    let wanted: Vec<u8> = (0..1024).map(|i| (i % 253) as u8).collect();
    let neighbour = vec![0xEEu8; 1024];
    // the volume, as far as the test reads it
    let volume_read = |offset: u64, len: usize| -> Option<Vec<u8>> {
        let place = 2000 * 4096 + 1234 * 1024;
        if offset == place && len == 1024 {
            Some(wanted.clone())
        } else {
            None
        }
    };
    // the system answers a request for 1234 with 1235
    let lookup = |number: u64| -> Vec<u8> {
        if number == 0 {
            reply_for(0, &zero)
        } else {
            reply_for(1235, &neighbour)
        }
    };

    let mut tried = Vec::new();
    let mut strategy = first_strategy(false);
    let record = loop {
        tried.push(strategy);
        let attempt: Result<Vec<u8>, RecoveryError> = match strategy {
            ReadStrategy::Fsctl => {
                let request = record_request(1234);
                let number = u64::from_le_bytes(request.clone().try_into().unwrap());
                check_record_reply(&lookup(number), 1234, 1024)
            }
            ReadStrategy::DataRunMap => check_record_reply(&lookup(0), 0, 1024)
                .and_then(|zero| build_mft_data_run_map(&zero))
                .and_then(|extents| locate_record(&extents, 1234, 1024, 4096))
                .and_then(|place| volume_read(place, 1024).ok_or(RecoveryError::Io)),
            _ => Err(RecoveryError::Io),
        };
        match attempt {
            Ok(record) => break Some(record),
            Err(error) => {
                if strategy == ReadStrategy::Fsctl {
                    assert_eq!(error, RecoveryError::FreedSlot);
                }
                match next_strategy(strategy) {
                    Some(next) => strategy = next,
                    None => break None,
                }
            }
        }
    };
    assert_eq!(tried, vec![ReadStrategy::Fsctl, ReadStrategy::DataRunMap]);
    assert_eq!(record, Some(wanted.clone()));
}

#[test]
fn last_record_of_a_reply_is_read_though_it_is_short() {
    // a deleted file with a name of two letters: 60 bytes and the name, 64 in all
    let last = usn_record(77, 5, 133_170_048_000_000_000, 0x200, 0x20, "ab");
    assert_eq!(last.len(), 64);
    let first = usn_record(76, 5, 133_170_048_000_000_000, 0x200, 0x20, "notes.txt");
    let mut reply = 4096i64.to_le_bytes().to_vec();
    reply.extend_from_slice(&first);
    reply.extend_from_slice(&last);
    let batch = parse_usn_batch(&reply).unwrap();
    assert_eq!(batch.records_read, 2);
    let names: Vec<&str> = batch.deleted.iter().map(|d| d.file_name.as_str()).collect();
    assert_eq!(names, vec!["notes.txt", "ab"]);
    assert_eq!(batch.deleted[1].mft_record, 77);
    // the reply holds that one record only
    let mut alone = 4096i64.to_le_bytes().to_vec();
    alone.extend_from_slice(&last);
    let batch = parse_usn_batch(&alone).unwrap();
    assert_eq!(batch.records_read, 1);
    assert_eq!(batch.deleted.len(), 1);
    assert_eq!(batch.deleted[0].file_name, "ab");
    // a record cut inside its fixed part is not read
    let batch = parse_usn_batch(&alone[..8 + 59]).unwrap();
    assert_eq!(batch.records_read, 0);
    assert!(batch.deleted.is_empty());
}

#[test]
fn every_covered_record_lies_wholly_inside_its_extent() {
    let extents = vec![
        MftExtent { physical_cluster: 70, cluster_count: 3 },
        MftExtent { physical_cluster: 10, cluster_count: 2 },
        MftExtent { physical_cluster: 40, cluster_count: 1 },
    ];
    let (record_size, cluster_size) = (1024u64, 2048u64);
    let windows = [(0u64, 3u64), (3, 5), (5, 6)];
    for n in 0..12u64 {
        let place = locate_record(&extents, n, record_size, cluster_size).unwrap();
        let cluster = n * record_size / cluster_size;
        let k = windows.iter().position(|w| w.0 <= cluster && cluster < w.1).unwrap();
        let start = extents[k].physical_cluster * cluster_size;
        let end = (extents[k].physical_cluster + extents[k].cluster_count) * cluster_size;
        assert!(start <= place && place + record_size <= end, "record {}", n);
    }
    assert_eq!(locate_record(&extents, 12, record_size, cluster_size), Err(RecoveryError::OutOfRange));
}
