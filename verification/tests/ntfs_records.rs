use ntfs_recovery::bytes::{read_be_u32, read_le_i64, read_le_u16, read_le_u32, read_le_u48, read_le_u64};
use ntfs_recovery::data_runs::{parse_data_runs, read_sint, read_uint, DataRun};
use ntfs_recovery::fixup::apply_fixup;
use ntfs_recovery::error::RecoveryError;
use ntfs_recovery::ntfs_parser::{
    file_extension, parse_boot_sector, parse_data_attr, parse_file_name_attr, parse_mft_record,
    parse_standard_info, read_geometry, scan_mft_for_deleted, unix_from_filetime, NtfsBootSector,
};

fn put_u16(buf: &mut [u8], at: usize, v: u16) {
    buf[at..at + 2].copy_from_slice(&v.to_le_bytes());
}

fn put_u32(buf: &mut [u8], at: usize, v: u32) {
    buf[at..at + 4].copy_from_slice(&v.to_le_bytes());
}

fn put_u64(buf: &mut [u8], at: usize, v: u64) {
    buf[at..at + 8].copy_from_slice(&v.to_le_bytes());
}

fn padded(len: usize) -> usize {
    (len + 7) / 8 * 8
}

fn standard_info_attr(created: u64, modified: u64, accessed: u64) -> Vec<u8> {
    let mut a = vec![0u8; 72];
    put_u32(&mut a, 0, 0x10);
    put_u32(&mut a, 4, 72);
    put_u32(&mut a, 16, 48);
    put_u16(&mut a, 20, 24);
    put_u64(&mut a, 24, created);
    put_u64(&mut a, 32, modified);
    put_u64(&mut a, 48, accessed);
    a
}

fn file_name_attr(parent: u64, name: &str, namespace: u8, real_size: u64, allocated: u64) -> Vec<u8> {
    let units: Vec<u16> = name.encode_utf16().collect();
    let content = 66 + 2 * units.len();
    let mut a = vec![0u8; padded(24 + content)];
    let len = a.len() as u32;
    put_u32(&mut a, 0, 0x30);
    put_u32(&mut a, 4, len);
    put_u32(&mut a, 16, content as u32);
    put_u16(&mut a, 20, 24);
    put_u64(&mut a, 24, parent | (7u64 << 48));
    put_u64(&mut a, 24 + 40, allocated);
    put_u64(&mut a, 24 + 48, real_size);
    a[24 + 64] = units.len() as u8;
    a[24 + 65] = namespace;
    for (i, u) in units.iter().enumerate() {
        put_u16(&mut a, 24 + 66 + 2 * i, *u);
    }
    a
}

fn resident_data_attr(content: &[u8], stream_name_len: u8) -> Vec<u8> {
    let mut a = vec![0u8; padded(24 + content.len())];
    let len = a.len() as u32;
    put_u32(&mut a, 0, 0x80);
    put_u32(&mut a, 4, len);
    a[9] = stream_name_len;
    put_u32(&mut a, 16, content.len() as u32);
    put_u16(&mut a, 20, 24);
    a[24..24 + content.len()].copy_from_slice(content);
    a
}

fn nonresident_data_attr(real_size: u64, runs: &[u8], stream_name_len: u8) -> Vec<u8> {
    let mut a = vec![0u8; padded(64 + runs.len() + 1)];
    let len = a.len() as u32;
    put_u32(&mut a, 0, 0x80);
    put_u32(&mut a, 4, len);
    a[8] = 1;
    a[9] = stream_name_len;
    put_u16(&mut a, 32, 64);
    put_u64(&mut a, 48, real_size);
    a[64..64 + runs.len()].copy_from_slice(runs);
    a
}

fn build_record(in_use: bool, is_directory: bool, attrs: &[Vec<u8>]) -> Vec<u8> {
    let mut r = vec![0u8; 1024];
    r[0..4].copy_from_slice(b"FILE");
    put_u16(&mut r, 4, 48);
    put_u16(&mut r, 6, 3);
    put_u16(&mut r, 0x14, 56);
    let flags = (if in_use { 1 } else { 0 }) | (if is_directory { 2 } else { 0 });
    put_u16(&mut r, 0x16, flags);
    let mut at = 56;
    for a in attrs {
        r[at..at + a.len()].copy_from_slice(a);
        at += a.len();
    }
    put_u32(&mut r, at, 0xFFFF_FFFF);
    // Protect the sector tails as the file system does.
    put_u16(&mut r, 48, 0xBEEF);
    for i in 1..3usize {
        let tail = 512 * i - 2;
        let saved = [r[tail], r[tail + 1]];
        r[48 + 2 * i] = saved[0];
        r[48 + 2 * i + 1] = saved[1];
        put_u16(&mut r, tail, 0xBEEF);
    }
    r
}

const JAN_2023: u64 = 133_170_048_000_000_000;

#[test]
fn test_filetime_conversion() {
    // Windows FILETIME for 2020-01-01 00:00:00 UTC
    let ft: i64 = 132224352000000000;
    let unix = (ft / 10_000_000) - 11_644_473_600;
    assert!(unix > 0);
    assert_eq!(unix_from_filetime(ft), unix);
}

#[test]
fn filetime_of_2023_is_1672531200() {
    assert_eq!(unix_from_filetime(JAN_2023 as i64), 1_672_531_200);
    assert_eq!(unix_from_filetime(0), 0);
    assert_eq!(unix_from_filetime(-5), 0);
    assert_eq!(unix_from_filetime(1), -11_644_473_600);
}

#[test]
fn integers_are_read_in_their_byte_order() {
    let data = [0x01u8, 0x02, 0x03, 0x04, 0x05, 0x06, 0x07, 0x08, 0xFF];
    assert_eq!(read_le_u16(&data, 0), 0x0201);
    assert_eq!(read_le_u32(&data, 1), 0x0504_0302);
    assert_eq!(read_le_u48(&data, 0), 0x0605_0403_0201);
    assert_eq!(read_le_u64(&data, 0), 0x0807_0605_0403_0201);
    assert_eq!(read_be_u32(&data, 0), 0x0102_0304);
    let minus_two = [0xFEu8, 0xFF, 0xFF, 0xFF, 0xFF, 0xFF, 0xFF, 0xFF];
    assert_eq!(read_le_i64(&minus_two, 0), -2);
}

#[test]
fn variable_width_numbers_are_sign_extended() {
    let data = [0x34u8, 0x12, 0x80, 0xFF, 0x7F];
    assert_eq!(read_uint(&data, 0, 2), 0x1234);
    assert_eq!(read_uint(&data, 0, 0), 0);
    assert_eq!(read_sint(&data, 2, 1), -128);
    assert_eq!(read_sint(&data, 2, 2), -128);
    assert_eq!(read_sint(&data, 3, 2), 0x7FFF);
    assert_eq!(read_sint(&data, 0, 0), 0);
    let full = [0xFFu8; 8];
    assert_eq!(read_sint(&full, 0, 8), -1);
    assert_eq!(read_uint(&full, 0, 8), u64::MAX);
}

#[test]
fn data_runs_decode_to_absolute_clusters() {
    // (count 2, delta +10), (count 1, delta +5), end
    let list = [0x11u8, 0x02, 0x0A, 0x11, 0x01, 0x05, 0x00, 0x11, 0x09, 0x09];
    let runs = parse_data_runs(&list);
    assert_eq!(
        runs,
        vec![
            DataRun { cluster_offset: 10, cluster_count: 2 },
            DataRun { cluster_offset: 15, cluster_count: 1 },
        ]
    );
}

#[test]
fn data_run_round_trip_on_chosen_runs() {
    // count 0x1234 in two bytes, delta -3 in one byte; count 7 in one byte,
    // delta 100000 in three bytes; a sparse run of 9 clusters.
    let mut list = vec![0x12u8, 0x34, 0x12, 0xFD];
    list.extend_from_slice(&[0x31, 0x07, 0xA0, 0x86, 0x01]);
    list.extend_from_slice(&[0x01, 0x09]);
    list.push(0);
    let runs = parse_data_runs(&list);
    assert_eq!(
        runs,
        vec![
            DataRun { cluster_offset: -3, cluster_count: 0x1234 },
            DataRun { cluster_offset: 99_997, cluster_count: 7 },
            DataRun { cluster_offset: 0, cluster_count: 9 },
        ]
    );
}

#[test]
fn data_runs_stop_at_a_truncated_or_oversized_entry() {
    assert_eq!(parse_data_runs(&[]), vec![]);
    assert_eq!(parse_data_runs(&[0x00, 0x11, 0x01, 0x01]), vec![]);
    // the second entry announces four bytes and has two
    let cut = [0x11u8, 0x01, 0x01, 0x22, 0x01, 0x01];
    assert_eq!(parse_data_runs(&cut), vec![DataRun { cluster_offset: 1, cluster_count: 1 }]);
    // a count of nine bytes cannot be held
    let wide = [0x19u8, 1, 1, 1, 1, 1, 1, 1, 1, 1, 1, 0];
    assert_eq!(parse_data_runs(&wide), vec![]);
}

#[test]
fn data_runs_stop_where_the_cluster_leaves_64_bits() {
    // delta i64::MAX, then delta +1
    let mut list = vec![0x81u8, 0x01];
    list.extend_from_slice(&i64::MAX.to_le_bytes());
    list.extend_from_slice(&[0x11, 0x01, 0x01, 0x00]);
    let runs = parse_data_runs(&list);
    assert_eq!(runs, vec![DataRun { cluster_offset: i64::MAX, cluster_count: 1 }]);
}

#[test]
fn fixup_puts_the_saved_bytes_back() {
    let mut record = vec![0x11u8; 1024];
    // array of three slots at offset 48: marker AB CD, slots 01 02 and 03 04
    record[48..54].copy_from_slice(&[0xAB, 0xCD, 0x01, 0x02, 0x03, 0x04]);
    record[510] = 0xAB;
    record[511] = 0xCD;
    record[1022] = 0xAB;
    record[1023] = 0xCD;
    let before = record.clone();
    apply_fixup(&mut record, 48, 3);
    assert_eq!(&record[510..512], &[0x01, 0x02]);
    assert_eq!(&record[1022..1024], &[0x03, 0x04]);
    for i in 0..1024 {
        if i != 510 && i != 511 && i != 1022 && i != 1023 {
            assert_eq!(record[i], before[i]);
        }
    }
    let once = record.clone();
    apply_fixup(&mut record, 48, 3);
    assert_eq!(record, once);
}

#[test]
fn fixup_skips_a_sector_whose_tail_is_not_the_marker() {
    let mut record = vec![0x11u8; 1024];
    record[48..54].copy_from_slice(&[0xAB, 0xCD, 0x01, 0x02, 0x03, 0x04]);
    record[1022] = 0xAB;
    record[1023] = 0xCD;
    apply_fixup(&mut record, 48, 3);
    assert_eq!(&record[510..512], &[0x11, 0x11]);
    assert_eq!(&record[1022..1024], &[0x03, 0x04]);
}

#[test]
fn fixup_leaves_a_record_that_cannot_hold_the_array() {
    let mut record = vec![0x22u8; 64];
    let before = record.clone();
    apply_fixup(&mut record, 60, 3);
    assert_eq!(record, before);
    apply_fixup(&mut record, usize::MAX, usize::MAX);
    assert_eq!(record, before);
}

#[test]
fn boot_sector_gives_the_geometry() {
    let mut sector = vec![0u8; 512];
    sector[3..7].copy_from_slice(b"NTFS");
    put_u16(&mut sector, 0x0B, 512);
    sector[0x0D] = 8;
    put_u64(&mut sector, 0x30, 786_432);
    sector[0x40] = 0xF6; // -10: records of 1024 bytes
    assert_eq!(
        parse_boot_sector(&sector),
        Some(NtfsBootSector {
            bytes_per_sector: 512,
            sectors_per_cluster: 8,
            mft_cluster: 786_432,
            mft_record_size: 1024,
            cluster_size: 4096,
        })
    );
    sector[0x40] = 2; // two clusters
    assert_eq!(parse_boot_sector(&sector).unwrap().mft_record_size, 8192);
    sector[0x40] = 0;
    assert_eq!(parse_boot_sector(&sector).unwrap().mft_record_size, 1);
}

#[test]
fn boot_sector_is_refused_without_the_mark_or_when_short() {
    let mut sector = vec![0u8; 512];
    assert_eq!(parse_boot_sector(&sector), None);
    sector[3..7].copy_from_slice(b"NTFS");
    assert!(parse_boot_sector(&sector).is_some());
    assert_eq!(parse_boot_sector(&sector[..511]), None);
    sector[0x40] = 0xE0; // -32: two to the 32 does not fit
    assert_eq!(parse_boot_sector(&sector), None);
    sector[0x40] = 0xE1; // -31
    assert_eq!(parse_boot_sector(&sector).unwrap().mft_record_size, 1 << 31);
}

#[test]
fn standard_information_gives_three_times() {
    let attr = standard_info_attr(JAN_2023, JAN_2023 + 10_000_000, 0);
    assert_eq!(parse_standard_info(&attr), Some((1_672_531_200, 1_672_531_201, 0)));
    // the three times are all that is asked for
    assert_eq!(parse_standard_info(&attr[..56]), Some((1_672_531_200, 1_672_531_201, 0)));
    assert_eq!(parse_standard_info(&attr[..55]), None);
    let mut non_resident = attr.clone();
    non_resident[8] = 1;
    assert_eq!(parse_standard_info(&non_resident), None);
    let mut far = attr.clone();
    put_u16(&mut far, 20, 41);
    assert_eq!(parse_standard_info(&far), None);
}

#[test]
fn file_name_attribute_is_decoded() {
    let attr = file_name_attr(5, "Report.DOCX", 1, 1234, 4096);
    let name = parse_file_name_attr(&attr).unwrap();
    assert_eq!(name.name, "Report.DOCX");
    assert_eq!(name.parent_record, 5);
    assert_eq!(name.real_size, 1234);
    assert_eq!(name.allocated_size, 4096);
    assert_eq!(name.namespace, 1);
    assert!(parse_file_name_attr(&attr[..80]).is_none());
    let mut long = attr.clone();
    long[24 + 64] = 200;
    assert!(parse_file_name_attr(&long).is_none());
}

#[test]
fn data_attribute_gives_size_and_runs() {
    let resident = resident_data_attr(b"Hello, world!\n", 0);
    assert_eq!(parse_data_attr(&resident), Some((14, vec![])));
    let stored = nonresident_data_attr(9000, &[0x11, 0x02, 0x0A, 0x11, 0x01, 0x05, 0x00], 0);
    assert_eq!(
        parse_data_attr(&stored),
        Some((
            9000,
            vec![
                DataRun { cluster_offset: 10, cluster_count: 2 },
                DataRun { cluster_offset: 15, cluster_count: 1 },
            ]
        ))
    );
    let mut outside = stored.clone();
    put_u16(&mut outside, 32, 5000);
    assert_eq!(parse_data_attr(&outside), None);
    assert_eq!(parse_data_attr(&stored[..20]), None);
}

#[test]
fn deleted_resident_text_file_is_parsed() {
    let record = build_record(
        false,
        false,
        &[
            standard_info_attr(JAN_2023, JAN_2023, JAN_2023),
            file_name_attr(5, "notes.txt", 1, 0, 0),
            resident_data_attr(b"Hello, world!\n", 0),
        ],
    );
    let entry = parse_mft_record(&record, 77).unwrap();
    assert_eq!(entry.record_number, 77);
    assert_eq!(entry.file_name, "notes.txt");
    assert_eq!(entry.parent_record, 5);
    assert_eq!(entry.file_size, 14);
    assert_eq!(entry.modified_time, 1_672_531_200);
    assert_eq!(entry.created_time, 1_672_531_200);
    assert!(entry.is_deleted);
    assert!(!entry.is_in_use);
    assert!(!entry.is_directory);
    assert!(entry.data_runs.is_empty());
    assert_eq!(entry.extension, "txt");
}

#[test]
fn record_without_the_mark_is_no_entry() {
    let mut record = build_record(true, false, &[file_name_attr(5, "a.txt", 1, 1, 1)]);
    assert!(parse_mft_record(&record, 0).is_some());
    record[0] = b'B';
    assert!(parse_mft_record(&record, 0).is_none());
    // a buffer that cannot hold the header of a record
    let short = build_record(true, false, &[]);
    assert!(parse_mft_record(&short[..55], 0).is_none());
    assert!(parse_mft_record(&[], 0).is_none());
}

#[test]
fn records_of_any_size_are_read() {
    let dos = file_name_attr(5, "LONGFI~1.TXT", 2, 10, 16);
    let long = file_name_attr(5, "long file name.txt", 1, 10, 16);
    let record = build_record(false, false, &[dos.clone(), long.clone()]);
    let used = 56 + dos.len() + long.len() + 8;
    assert!(used < 512);
    let entry = parse_mft_record(&record[..512], 9).unwrap();
    assert_eq!(entry.file_name, "long file name.txt");
    assert_eq!(entry.record_number, 9);
    assert!(entry.is_deleted);
    let entry = parse_mft_record(&record[..used], 9).unwrap();
    assert_eq!(entry.file_name, "long file name.txt");
    // the header alone is a record without a name
    let bare = parse_mft_record(&record[..56], 0).unwrap();
    assert_eq!(bare.file_name, "");
}

#[test]
fn long_name_wins_over_dos_name_in_either_order() {
    let dos = file_name_attr(5, "LONGFI~1.TXT", 2, 10, 16);
    let long = file_name_attr(9, "long file name.txt", 1, 20, 32);
    let first = build_record(true, false, &[dos.clone(), long.clone()]);
    let entry = parse_mft_record(&first, 1).unwrap();
    assert_eq!(entry.file_name, "long file name.txt");
    assert_eq!(entry.parent_record, 9);
    let second = build_record(true, false, &[long, dos]);
    let entry = parse_mft_record(&second, 1).unwrap();
    assert_eq!(entry.file_name, "long file name.txt");
    assert_eq!(entry.parent_record, 9);
}

#[test]
fn dos_name_is_used_where_it_is_the_only_one() {
    let record = build_record(true, false, &[file_name_attr(5, "ONLY~1.TXT", 2, 10, 16)]);
    let entry = parse_mft_record(&record, 1).unwrap();
    assert_eq!(entry.file_name, "ONLY~1.TXT");
    assert_eq!(entry.extension, "txt");
    assert_eq!(entry.file_size, 10);
}

#[test]
fn longest_name_outside_dos_is_kept() {
    let short = file_name_attr(5, "a.txt", 3, 0, 0);
    let long = file_name_attr(6, "abcdef.txt", 1, 0, 0);
    let same = file_name_attr(7, "ABCDEF.txt", 1, 0, 0);
    let record = build_record(true, false, &[short, long, same]);
    let entry = parse_mft_record(&record, 1).unwrap();
    assert_eq!(entry.file_name, "abcdef.txt");
    assert_eq!(entry.parent_record, 6);
}

#[test]
fn named_streams_do_not_count_for_size_or_runs() {
    let record = build_record(
        true,
        false,
        &[
            file_name_attr(5, "a.bin", 1, 0, 0),
            nonresident_data_attr(5000, &[0x11, 0x02, 0x0A, 0x00], 4),
            resident_data_attr(b"abc", 0),
        ],
    );
    let entry = parse_mft_record(&record, 1).unwrap();
    assert_eq!(entry.file_size, 3);
    assert!(entry.data_runs.is_empty());
}

#[test]
fn fixup_is_applied_before_attributes_are_read() {
    // A name so long that it runs across the tail of the first sector.
    let name: String = std::iter::repeat('x').take(230).collect();
    let record = build_record(true, false, &[file_name_attr(5, &name, 1, 0, 0)]);
    assert_eq!(&record[510..512], &[0xEF, 0xBE]);
    let entry = parse_mft_record(&record, 1).unwrap();
    assert_eq!(entry.file_name, name);
}

#[test]
fn extension_is_lowercase_and_at_most_ten_bytes() {
    assert_eq!(file_extension("Photo.JPG"), "jpg");
    assert_eq!(file_extension("archive.tar.GZ"), "gz");
    assert_eq!(file_extension("README"), "");
    assert_eq!(file_extension("name.abcdefghijk"), "");
    assert_eq!(file_extension("name.abcdefghij"), "abcdefghij");
    assert_eq!(file_extension("trailing."), "");
}

#[test]
fn table_scan_keeps_deleted_user_files() {
    let mut table = Vec::new();
    table.extend(build_record(true, false, &[file_name_attr(5, "live.txt", 1, 1, 1)]));
    table.extend(build_record(false, false, &[file_name_attr(5, "gone.txt", 1, 1, 1)]));
    table.extend(build_record(false, false, &[file_name_attr(5, "$Secure", 1, 1, 1)]));
    table.extend(vec![0u8; 1024]);
    table.extend(build_record(false, false, &[]));
    table.extend(build_record(false, true, &[file_name_attr(5, "old dir", 1, 0, 0)]));
    table.extend(vec![0x46u8; 100]);
    let boot = NtfsBootSector {
        bytes_per_sector: 512,
        sectors_per_cluster: 8,
        mft_cluster: 4,
        mft_record_size: 1024,
        cluster_size: 4096,
    };
    let found = scan_mft_for_deleted(&table, &boot);
    let names: Vec<&str> = found.iter().map(|e| e.file_name.as_str()).collect();
    assert_eq!(names, vec!["gone.txt", "old dir"]);
    assert_eq!(found[0].record_number, 1);
    assert_eq!(found[1].record_number, 5);
    let none = NtfsBootSector { mft_record_size: 0, ..boot };
    assert!(scan_mft_for_deleted(&table, &none).is_empty());
}

#[test]
fn geometry_is_read_or_the_volume_is_not_ntfs() {
    let mut sector = vec![0u8; 512];
    assert_eq!(read_geometry(&sector), Err(RecoveryError::NotNtfs));
    sector[3..7].copy_from_slice(b"NTFS");
    put_u16(&mut sector, 0x0B, 4096);
    sector[0x0D] = 1;
    sector[0x40] = 0xF4;
    assert_eq!(read_geometry(&sector).unwrap().cluster_size, 4096);
    assert_eq!(read_geometry(&sector).unwrap().mft_record_size, 4096);
    assert_eq!(read_geometry(&sector[..100]), Err(RecoveryError::NotNtfs));
    sector[0x40] = 0x80;
    assert_eq!(read_geometry(&sector), Err(RecoveryError::ParseError));
}

#[test]
fn fixup_array_may_lie_in_any_sector() {
    // the array stands at byte 520, in the second sector
    let mut record = vec![0x11u8; 1536];
    let saved = [[0xA1u8, 0xA2], [0xB1, 0xB2], [0xC1, 0xC2]];
    record[520] = 0xEE;
    record[521] = 0xFF;
    for (i, s) in saved.iter().enumerate() {
        record[522 + 2 * i] = s[0];
        record[523 + 2 * i] = s[1];
        record[512 * (i + 1) - 2] = 0xEE;
        record[512 * (i + 1) - 1] = 0xFF;
    }
    let before = record.clone();
    apply_fixup(&mut record, 520, 4);
    for (i, s) in saved.iter().enumerate() {
        assert_eq!(&record[512 * (i + 1) - 2..512 * (i + 1)], s);
    }
    for p in 0..1536 {
        if p % 512 < 510 {
            assert_eq!(record[p], before[p]);
        }
    }
    let once = record.clone();
    apply_fixup(&mut record, 520, 4);
    assert_eq!(record, once);
}
