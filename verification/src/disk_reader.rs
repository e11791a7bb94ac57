//! Raw access to a volume: how it is addressed and how it is laid out in
//! sectors.

use vstd::prelude::*;
use vstd::string::*;
use crate::bytes::{capped_mul, le_u32, le_u64, multiply_capped, read_le_u32, read_le_u64};
use crate::text::{
    chars_contain, chars_of, contains_text, drive_letter, drive_letter_of, to_uppercase, uppercase,
};

verus! {

/// The size of a sector in bytes.
pub const SECTOR_SIZE: usize = 512;

/// What is known of a disk.
#[derive(Clone, Debug)]
pub struct DiskInfo {
    pub path: String,
    pub size: u64,
    pub sector_size: u32,
    pub is_removable: bool,
    pub model: String,
    pub serial: String,
}

/// The device path of the volume of a drive: `\\.\`, the letter in
/// uppercase, and a colon.
pub open spec fn volume_path(drive: Seq<char>) -> Seq<char> {
    "\\\\.\\"@ + uppercase(drive_letter_of(drive)) + ":"@
}

/// The device path of the volume of a drive.
pub fn get_volume_path(drive_letter_text: &str) -> (r: String)
    ensures
        r@ == volume_path(drive_letter_text@),
{
    let letter = to_uppercase(drive_letter(drive_letter_text));
    let mut path = "\\\\.\\".to_owned();
    path.append(letter.as_str());
    path.append(":");
    path
}

/// The device path of the volume of a drive, with the letter as it is
/// given.
pub open spec fn device_path(drive: Seq<char>) -> Seq<char> {
    "\\\\.\\"@ + drive_letter_of(drive) + ":"@
}

/// The device path of the volume of a drive, with the letter as it is
/// given.
pub fn volume_device_path(drive_letter_text: &str) -> (r: String)
    ensures
        r@ == device_path(drive_letter_text@),
{
    let mut path = "\\\\.\\".to_owned();
    path.append(drive_letter(drive_letter_text));
    path.append(":");
    path
}

/// The message of a failed open tells of missing privileges.
pub open spec fn tells_of_privileges(message: Seq<char>) -> bool {
    contains_text(message, "Administrator"@) || contains_text(message, "Access"@) || contains_text(
        message,
        "denied"@,
    )
}

/// What an attempt to open a volume says of the access to it: `Ok(true)`
/// where it opened; else the error, in fixed words where the message of the
/// failure tells of missing privileges.
pub open spec fn access_verdict(open_error: Option<Seq<char>>) -> Result<bool, Seq<char>> {
    match open_error {
        None => Ok(true),
        Some(message) => if tells_of_privileges(message) {
            Err("Administrator privileges required for raw disk access"@)
        } else {
            Err(message)
        },
    }
}

/// Judges the access to a volume from the outcome of an attempt to open it:
/// `None` where it opened, else the message of the failure.
pub fn check_disk_access_permissions(open_error: Option<String>) -> (r: Result<bool, String>)
    ensures
        match r {
            Ok(b) => access_verdict(
                match open_error {
                    Some(m) => Some(m@),
                    None => None,
                },
            ) == Ok::<bool, Seq<char>>(b),
            Err(e) => access_verdict(
                match open_error {
                    Some(m) => Some(m@),
                    None => None,
                },
            ) == Err::<bool, Seq<char>>(e@),
        },
{
    match open_error {
        None => Ok(true),
        Some(message) => {
            let chars = chars_of(message.as_str());
            let administrator = chars_of("Administrator");
            let access = chars_of("Access");
            let denied = chars_of("denied");
            if chars_contain(chars.as_slice(), administrator.as_slice()) || chars_contain(
                chars.as_slice(),
                access.as_slice(),
            ) || chars_contain(chars.as_slice(), denied.as_slice()) {
                Err("Administrator privileges required for raw disk access".to_owned())
            } else {
                Err(message)
            }
        },
    }
}

/// The number of whole sectors of a volume of `total_size` bytes.
pub fn total_sectors(total_size: u64) -> (r: u64)
    ensures
        r == total_size / 512,
{
    total_size / 512
}

/// The byte at which sector `sector` starts; `None` where it lies beyond
/// 64 bits.
pub fn sector_byte_offset(sector: u64) -> (r: Option<u64>)
    ensures
        r == if sector * 512 <= u64::MAX {
            Some((sector * 512) as u64)
        } else {
            None::<u64>
        },
{
    sector.checked_mul(512)
}

/// The size of a volume, from what the system's ways of asking gave: the
/// length that the device reports, else the position of its end, else the
/// size by its geometry. A way that gave nothing or zero does not count.
pub fn choose_disk_size(device_length: Option<u64>, end_position: Option<u64>, geometry_size: Option<
    u64,
>) -> (r: Option<u64>)
    ensures
        r == if device_length matches Some(n) && n > 0 {
            device_length
        } else if end_position matches Some(n) && n > 0 {
            end_position
        } else if geometry_size matches Some(n) && n > 0 {
            geometry_size
        } else {
            None
        },
{
    match device_length {
        Some(n) => if n > 0 {
            return device_length;
        },
        None => {},
    }
    match end_position {
        Some(n) => if n > 0 {
            return end_position;
        },
        None => {},
    }
    match geometry_size {
        Some(n) => if n > 0 {
            return geometry_size;
        },
        None => {},
    }
    None
}

/// The number of sectors to read next in a scan of `sector_count` sectors,
/// of which `done` are read, in pieces of `chunk_size` bytes: a whole
/// piece, or what is left; none where all are read.
pub fn next_chunk_sectors(sector_count: u64, done: u64, chunk_size: usize) -> (r: u64)
    ensures
        r == if done >= sector_count {
            0
        } else if sector_count - done <= chunk_size / SECTOR_SIZE {
            (sector_count - done) as u64
        } else {
            (chunk_size / SECTOR_SIZE) as u64
        },
{
    if done >= sector_count {
        return 0;
    }
    let remaining: u64 = sector_count - done;
    let per_chunk: u64 = (chunk_size / SECTOR_SIZE) as u64;
    if remaining <= per_chunk {
        remaining
    } else {
        per_chunk
    }
}

/// The size of a disk by its geometry, as the system reports it: cylinders
/// in eight bytes, the media type, then tracks per cylinder, sectors per
/// track and bytes per sector in four bytes each. The size is their
/// product, capped at each step at the largest 64-bit number. `None` where
/// the reply is too short.
pub fn geometry_size(reply: &[u8]) -> (r: Option<u64>)
    ensures
        r == if reply@.len() >= 24 {
            Some(
                capped_mul(
                    capped_mul(
                        capped_mul(le_u64(reply@, 0) as u64, le_u32(reply@, 12) as u64),
                        le_u32(reply@, 16) as u64,
                    ),
                    le_u32(reply@, 20) as u64,
                ),
            )
        } else {
            None
        },
{
    if reply.len() < 24 {
        return None;
    }
    let cylinders: u64 = read_le_u64(reply, 0);
    let tracks: u64 = read_le_u32(reply, 12) as u64;
    let sectors: u64 = read_le_u32(reply, 16) as u64;
    let bytes: u64 = read_le_u32(reply, 20) as u64;
    Some(multiply_capped(multiply_capped(multiply_capped(cylinders, tracks), sectors), bytes))
}

/// The length of a device in bytes, as the system reports it in eight
/// bytes; `None` where the reply is too short.
pub fn device_length(reply: &[u8]) -> (r: Option<u64>)
    ensures
        r == if reply@.len() >= 8 {
            Some(le_u64(reply@, 0) as u64)
        } else {
            None
        },
{
    if reply.len() < 8 {
        return None;
    }
    Some(read_le_u64(reply, 0))
}

} // verus!
