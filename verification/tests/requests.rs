use ntfs_recovery::bytes::{multiply_capped, push_le, push_le_i64};
use ntfs_recovery::disk_reader::{choose_disk_size, device_length, geometry_size};
use ntfs_recovery::error::{classify_os_error, RecoveryError};
use ntfs_recovery::filesystem_disk_reader::{
    check_record_reply, journal_read_request, parse_journal_info, record_reply_room,
    record_request, JournalInfo,
};

#[test]
fn numbers_are_written_low_byte_first() {
    let mut out = vec![0xAAu8];
    push_le(&mut out, 0x0102_0304_0506_0708, 8);
    assert_eq!(out, vec![0xAA, 8, 7, 6, 5, 4, 3, 2, 1]);
    let mut short = Vec::new();
    push_le(&mut short, 0x0102_0304, 2);
    assert_eq!(short, vec![4, 3]);
    let mut none = vec![1u8];
    push_le(&mut none, 99, 0);
    assert_eq!(none, vec![1]);
    let mut wide = Vec::new();
    push_le(&mut wide, 0x0102, 10);
    assert_eq!(wide, vec![2, 1, 0, 0, 0, 0, 0, 0, 0, 0]);
    let mut signed = Vec::new();
    push_le_i64(&mut signed, -2);
    assert_eq!(signed, vec![0xFE, 0xFF, 0xFF, 0xFF, 0xFF, 0xFF, 0xFF, 0xFF]);
    push_le_i64(&mut signed, 258);
    assert_eq!(&signed[8..], &[2, 1, 0, 0, 0, 0, 0, 0]);
}

#[test]
fn products_stop_at_the_largest_number() {
    assert_eq!(multiply_capped(0, u64::MAX), 0);
    assert_eq!(multiply_capped(3, 7), 21);
    assert_eq!(multiply_capped(1 << 32, 1 << 31), 1 << 63);
    assert_eq!(multiply_capped(1 << 32, 1 << 32), u64::MAX);
    assert_eq!(multiply_capped(u64::MAX, 1), u64::MAX);
}

#[test]
fn record_request_holds_the_reference() {
    assert_eq!(record_request(5), 5u64.to_le_bytes().to_vec());
    assert_eq!(record_request(0x0001_0000_0000_002A), 0x0001_0000_0000_002Au64.to_le_bytes().to_vec());
    assert_eq!(record_request(u64::MAX), vec![0xFF; 8]);
    assert_eq!(record_reply_room(1024), 1292);
    assert_eq!(record_reply_room(0), 268);
    assert_eq!(record_reply_room(usize::MAX - 10), usize::MAX);
}

#[test]
fn request_and_reply_of_a_record_fit_together() {
    let record = vec![7u8; 1024];
    let request = record_request(42);
    let mut reply = request.clone();
    reply.extend_from_slice(&1024u32.to_le_bytes());
    reply.extend_from_slice(&record);
    assert!(reply.len() <= record_reply_room(1024));
    assert_eq!(check_record_reply(&reply, 42, 1024), Ok(record));
}

#[test]
fn journal_query_reply_is_read() {
    let mut reply = Vec::new();
    reply.extend_from_slice(&0x1122_3344_5566_7788u64.to_le_bytes());
    reply.extend_from_slice(&4096i64.to_le_bytes());
    reply.extend_from_slice(&(-1i64).to_le_bytes());
    reply.extend_from_slice(&[0u8; 32]);
    assert_eq!(
        parse_journal_info(&reply),
        Some(JournalInfo { journal_id: 0x1122_3344_5566_7788, first_usn: 4096, next_usn: -1 })
    );
    assert_eq!(
        parse_journal_info(&reply[..24]),
        Some(JournalInfo { journal_id: 0x1122_3344_5566_7788, first_usn: 4096, next_usn: -1 })
    );
    assert_eq!(parse_journal_info(&reply[..23]), None);
    assert_eq!(parse_journal_info(&[]), None);
}

#[test]
fn journal_read_request_has_forty_bytes() {
    let request = journal_read_request(0x0102, 0xAABB_CCDD_EEFF_0011);
    let mut expected = Vec::new();
    expected.extend_from_slice(&0x0102i64.to_le_bytes());
    expected.extend_from_slice(&0x0000_0200u32.to_le_bytes());
    expected.extend_from_slice(&0u32.to_le_bytes());
    expected.extend_from_slice(&0u64.to_le_bytes());
    expected.extend_from_slice(&0u64.to_le_bytes());
    expected.extend_from_slice(&0xAABB_CCDD_EEFF_0011u64.to_le_bytes());
    assert_eq!(request.len(), 40);
    assert_eq!(request, expected);
    let negative = journal_read_request(-1, 0);
    assert_eq!(&negative[..8], &[0xFF; 8]);
    assert_eq!(&negative[32..], &[0u8; 8]);
}

#[test]
fn size_of_a_disk_from_its_geometry() {
    let mut reply = vec![0u8; 24];
    reply[0..8].copy_from_slice(&1000u64.to_le_bytes());
    reply[8..12].copy_from_slice(&12u32.to_le_bytes());
    reply[12..16].copy_from_slice(&255u32.to_le_bytes());
    reply[16..20].copy_from_slice(&63u32.to_le_bytes());
    reply[20..24].copy_from_slice(&512u32.to_le_bytes());
    assert_eq!(geometry_size(&reply), Some(1000 * 255 * 63 * 512));
    assert_eq!(geometry_size(&reply[..23]), None);
    reply[0..8].copy_from_slice(&u64::MAX.to_le_bytes());
    assert_eq!(geometry_size(&reply), Some(u64::MAX));
    reply[12..16].copy_from_slice(&0u32.to_le_bytes());
    assert_eq!(geometry_size(&reply), Some(0));
}

#[test]
fn length_of_a_device_from_its_reply() {
    assert_eq!(device_length(&500_107_862_016u64.to_le_bytes()), Some(500_107_862_016));
    assert_eq!(device_length(&[1, 0, 0, 0, 0, 0, 0, 0, 9, 9]), Some(1));
    assert_eq!(device_length(&[1, 0, 0, 0, 0, 0, 0]), None);
    let length = device_length(&4096u64.to_le_bytes());
    assert_eq!(choose_disk_size(length, None, Some(1)), Some(4096));
}

#[test]
fn failures_of_the_system_are_told_apart_by_their_code() {
    assert_eq!(classify_os_error(5), RecoveryError::PermissionDenied);
    assert_eq!(classify_os_error(1300), RecoveryError::PermissionDenied);
    assert_eq!(classify_os_error(1314), RecoveryError::PermissionDenied);
    assert_eq!(classify_os_error(2), RecoveryError::NotFound);
    assert_eq!(classify_os_error(3), RecoveryError::NotFound);
    assert_eq!(classify_os_error(1), RecoveryError::Unsupported);
    assert_eq!(classify_os_error(50), RecoveryError::Unsupported);
    assert_eq!(classify_os_error(0), RecoveryError::Io);
    assert_eq!(classify_os_error(38), RecoveryError::Io);
    assert_eq!(classify_os_error(u32::MAX), RecoveryError::Io);
}
