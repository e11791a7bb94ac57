//! What is known of the encryption of a volume, as the system's tool
//! reports it.

use vstd::prelude::*;
use vstd::string::*;
use crate::text::{
    chars_end_with, chars_of, contains_text, drive_letter, drive_letter_of, has_suffix, lines_of,
    lowercase, piece_after, split_lines, str_contains, string_texts, take_piece_after,
    to_lowercase, trim, trim_end_char, trimmed, trimmed_end,
};

verus! {

/// The state of BitLocker on a drive.
#[derive(Clone, Debug)]
pub struct BitLockerStatus {
    pub drive: String,
    pub is_encrypted: bool,
    pub is_locked: bool,
    pub protection_status: String,
    pub encryption_percentage: u8,
    pub encryption_method: String,
}

pub ghost struct BitLockerStatusView {
    pub drive: Seq<char>,
    pub is_encrypted: bool,
    pub is_locked: bool,
    pub protection_status: Seq<char>,
    pub encryption_percentage: u8,
    pub encryption_method: Seq<char>,
}

impl View for BitLockerStatus {
    type V = BitLockerStatusView;

    open spec fn view(&self) -> BitLockerStatusView {
        BitLockerStatusView {
            drive: self.drive@,
            is_encrypted: self.is_encrypted,
            is_locked: self.is_locked,
            protection_status: self.protection_status@,
            encryption_percentage: self.encryption_percentage,
            encryption_method: self.encryption_method@,
        }
    }
}

/// The outcome of an attempt to lock or unlock a drive.
#[derive(Clone, Debug)]
pub struct BitLockerUnlockResult {
    pub success: bool,
    pub message: String,
}

/// The drive as the tool wants it: its letter and a colon.
pub open spec fn drive_with_colon(drive: Seq<char>) -> Seq<char> {
    drive_letter_of(drive) + ":"@
}

/// Names a drive to the tool.
pub fn tool_drive(drive_text: &str) -> (r: String)
    ensures
        r@ == drive_with_colon(drive_text@),
{
    let mut drive = drive_letter(drive_text).to_owned();
    drive.append(":");
    drive
}

/// One of the first `upto` lines holds both `first` and `second`.
pub open spec fn some_line_holds(
    lines: Seq<Seq<char>>,
    first: Seq<char>,
    second: Seq<char>,
    upto: int,
) -> bool
    decreases upto,
{
    if upto <= 0 {
        false
    } else {
        (contains_text(lines[upto - 1], first) && contains_text(lines[upto - 1], second))
            || some_line_holds(lines, first, second, upto - 1)
    }
}

/// One of the first `upto` lines holds `label` and ends with `ending`,
/// white space at its end apart.
pub open spec fn some_line_ends(
    lines: Seq<Seq<char>>,
    label: Seq<char>,
    ending: Seq<char>,
    upto: int,
) -> bool
    decreases upto,
{
    if upto <= 0 {
        false
    } else {
        (contains_text(lines[upto - 1], label) && has_suffix(trimmed(lines[upto - 1]), ending))
            || some_line_ends(lines, label, ending, upto - 1)
    }
}

/// What follows the first colon of the first line from `from` on that
/// holds `label`, up to the next colon, without white space at its ends.
pub open spec fn labelled_value(lines: Seq<Seq<char>>, label: Seq<char>, from: int) -> Option<
    Seq<char>,
>
    decreases lines.len() - from,
{
    if from < 0 || from >= lines.len() {
        None
    } else if contains_text(lines[from], label) && piece_after(lines[from], ":"@).is_some() {
        Some(trimmed(piece_after(lines[from], ":"@).unwrap()))
    } else {
        labelled_value(lines, label, from + 1)
    }
}

/// The text of a percentage in a line of the report: what follows the
/// first colon of a line that holds the label of the percentage, up to the
/// next colon, without the white space at its ends and the percent signs
/// at its end.
pub open spec fn percentage_field(line: Seq<char>) -> Option<Seq<char>> {
    if contains_text(line, "Percentage Encrypted:"@) {
        match piece_after(line, ":"@) {
            Some(piece) => Some(trimmed(trimmed_end(trimmed(piece), '%'))),
            None => None,
        }
    } else {
        None
    }
}

/// The texts of the percentages in the lines from `from` on, in their
/// order.
pub open spec fn percentage_fields_from(lines: Seq<Seq<char>>, from: int) -> Seq<Seq<char>>
    decreases lines.len() - from,
{
    if from < 0 || from >= lines.len() {
        Seq::empty()
    } else {
        match percentage_field(lines[from]) {
            Some(field) => seq![field] + percentage_fields_from(lines, from + 1),
            None => percentage_fields_from(lines, from + 1),
        }
    }
}

/// Takes the texts of the percentages out of the report of the tool, in
/// their order. The first of them that writes a number is the percentage
/// of the drive that is encrypted.
pub fn percentage_fields(output: &str) -> (r: Vec<String>)
    ensures
        string_texts(r@) == percentage_fields_from(lines_of(output@), 0),
{
    let lines = split_lines(output);
    let mut fields: Vec<String> = Vec::new();
    let mut i: usize = 0;
    assert(string_texts(fields@) =~= Seq::<Seq<char>>::empty());
    while i < lines.len()
        invariant
            i <= lines.len(),
            string_texts(lines@) == lines_of(output@),
            string_texts(fields@) + percentage_fields_from(lines_of(output@), i as int)
                == percentage_fields_from(lines_of(output@), 0),
        decreases lines.len() - i,
    {
        assert(string_texts(lines@)[i as int] == lines@[i as int]@);
        let line = lines[i].as_str();
        let ghost before = string_texts(fields@);
        let ghost rest = percentage_fields_from(lines_of(output@), i + 1);
        if str_contains(line, "Percentage Encrypted:") {
            match take_piece_after(line, ":") {
                Some(piece) => {
                    let field = trim(trim_end_char(trim(piece), '%')).to_owned();
                    let ghost text = field@;
                    fields.push(field);
                    assert(string_texts(fields@) =~= before + seq![text]);
                    assert((before + seq![text]) + rest =~= before + (seq![text] + rest));
                },
                None => {},
            }
        }
        i += 1;
    }
    assert(string_texts(fields@) + Seq::<Seq<char>>::empty() =~= string_texts(fields@));
    fields
}

/// The method of encryption that the report names, or `Unknown`.
pub open spec fn encryption_method_of(output: Seq<char>) -> Seq<char> {
    match labelled_value(lines_of(output), "Encryption Method:"@, 0) {
        Some(method) => method,
        None => "Unknown"@,
    }
}

/// Takes the method of encryption out of the report of the tool.
pub fn extract_encryption_method(output: &str) -> (r: String)
    ensures
        r@ == encryption_method_of(output@),
{
    let lines = split_lines(output);
    let mut i: usize = 0;
    while i < lines.len()
        invariant
            i <= lines.len(),
            string_texts(lines@) == lines_of(output@),
            labelled_value(lines_of(output@), "Encryption Method:"@, i as int) == labelled_value(
                lines_of(output@),
                "Encryption Method:"@,
                0,
            ),
        decreases lines.len() - i,
    {
        assert(string_texts(lines@)[i as int] == lines@[i as int]@);
        let line = lines[i].as_str();
        if str_contains(line, "Encryption Method:") {
            match take_piece_after(line, ":") {
                Some(piece) => {
                    return trim(piece).to_owned();
                },
                None => {},
            }
        }
        i += 1;
    }
    "Unknown".to_owned()
}

fn any_line_holds(lines: &Vec<String>, first: &str, second: &str) -> (r: bool)
    ensures
        r == some_line_holds(string_texts(lines@), first@, second@, lines@.len() as int),
{
    let mut i: usize = 0;
    while i < lines.len()
        invariant
            i <= lines.len(),
            !some_line_holds(string_texts(lines@), first@, second@, i as int),
        decreases lines.len() - i,
    {
        assert(string_texts(lines@)[i as int] == lines@[i as int]@);
        if str_contains(lines[i].as_str(), first) && str_contains(lines[i].as_str(), second) {
            assert(some_line_holds(string_texts(lines@), first@, second@, i + 1));
            proof {
                lemma_holds_grows(string_texts(lines@), first@, second@, i + 1, lines@.len() as int);
            }
            return true;
        }
        i += 1;
    }
    false
}

proof fn lemma_holds_grows(
    lines: Seq<Seq<char>>,
    first: Seq<char>,
    second: Seq<char>,
    from: int,
    upto: int,
)
    requires
        from <= upto,
        some_line_holds(lines, first, second, from),
    ensures
        some_line_holds(lines, first, second, upto),
    decreases upto - from,
{
    if from < upto {
        lemma_holds_grows(lines, first, second, from, upto - 1);
    }
}

proof fn lemma_ends_grows(
    lines: Seq<Seq<char>>,
    label: Seq<char>,
    ending: Seq<char>,
    from: int,
    upto: int,
)
    requires
        from <= upto,
        some_line_ends(lines, label, ending, from),
    ensures
        some_line_ends(lines, label, ending, upto),
    decreases upto - from,
{
    if from < upto {
        lemma_ends_grows(lines, label, ending, from, upto - 1);
    }
}

fn any_line_ends(lines: &Vec<String>, label: &str, ending: &str) -> (r: bool)
    ensures
        r == some_line_ends(string_texts(lines@), label@, ending@, lines@.len() as int),
{
    let mut i: usize = 0;
    let end = chars_of(ending);
    while i < lines.len()
        invariant
            i <= lines.len(),
            end@ == ending@,
            !some_line_ends(string_texts(lines@), label@, ending@, i as int),
        decreases lines.len() - i,
    {
        assert(string_texts(lines@)[i as int] == lines@[i as int]@);
        if str_contains(lines[i].as_str(), label) {
            let line = chars_of(trim(lines[i].as_str()));
            if chars_end_with(line.as_slice(), end.as_slice()) {
                assert(some_line_ends(string_texts(lines@), label@, ending@, i + 1));
                proof {
                    lemma_ends_grows(
                        string_texts(lines@),
                        label@,
                        ending@,
                        i + 1,
                        lines@.len() as int,
                    );
                }
                return true;
            }
        }
        i += 1;
    }
    false
}

/// What is reported where the tool gave nothing.
pub open spec fn unknown_status(drive: Seq<char>) -> BitLockerStatusView {
    BitLockerStatusView {
        drive: drive_with_colon(drive),
        is_encrypted: false,
        is_locked: false,
        protection_status: "Unable to determine"@,
        encryption_percentage: 0,
        encryption_method: "Unknown"@,
    }
}

/// The state that the report of the tool tells, given the percentage that
/// it names.
///
/// A drive is encrypted where the percentage is above zero, unless the
/// report names no version of BitLocker or tells that the drive is fully
/// decrypted. It is locked where the line of the lock status holds
/// `Locked`, or the error output tells of a lock.
pub open spec fn status_of(
    drive: Seq<char>,
    stdout: Seq<char>,
    stderr: Seq<char>,
    percentage: u8,
) -> BitLockerStatusView {
    if trimmed(stdout).len() == 0 {
        unknown_status(drive)
    } else {
        let lines = lines_of(stdout);
        let n = lines.len() as int;
        BitLockerStatusView {
            drive: drive_with_colon(drive),
            is_encrypted: !some_line_ends(lines, "BitLocker Version:"@, "None"@, n)
                && !some_line_holds(lines, "Conversion Status:"@, "Fully Decrypted"@, n)
                && percentage > 0,
            is_locked: some_line_holds(lines, "Lock Status:"@, "Locked"@, n) || contains_text(
                lowercase(stderr),
                "locked"@,
            ),
            protection_status: if contains_text(stdout, "Protection On"@) {
                "Protection On"@
            } else if contains_text(stdout, "Protection Off"@) {
                "Protection Off"@
            } else {
                "Unknown"@
            },
            encryption_percentage: percentage,
            encryption_method: encryption_method_of(stdout),
        }
    }
}

/// The state of BitLocker on a drive, from a run of the system's tool:
/// `None` stands for a tool that could not be run. `percentage` is the
/// percentage that the report names.
pub fn get_bitlocker_status(drive_text: &str, report: Option<(&str, &str)>, percentage: u8) -> (r:
    BitLockerStatus)
    ensures
        r@ == match report {
            Some((stdout, stderr)) => status_of(drive_text@, stdout@, stderr@, percentage),
            None => unknown_status(drive_text@),
        },
{
    let drive = tool_drive(drive_text);
    let (stdout, stderr) = match report {
        Some(report) => report,
        None => {
            return BitLockerStatus {
                drive,
                is_encrypted: false,
                is_locked: false,
                protection_status: "Unable to determine".to_owned(),
                encryption_percentage: 0,
                encryption_method: "Unknown".to_owned(),
            };
        },
    };
    if trim(stdout).is_empty() {
        return BitLockerStatus {
            drive,
            is_encrypted: false,
            is_locked: false,
            protection_status: "Unable to determine".to_owned(),
            encryption_percentage: 0,
            encryption_method: "Unknown".to_owned(),
        };
    }
    let lines = split_lines(stdout);
    let never_encrypted: bool = any_line_ends(&lines, "BitLocker Version:", "None");
    let fully_decrypted: bool = any_line_holds(&lines, "Conversion Status:", "Fully Decrypted");
    let lock_line: bool = any_line_holds(&lines, "Lock Status:", "Locked");
    let errors = to_lowercase(stderr);
    let is_locked: bool = lock_line || str_contains(errors.as_str(), "locked");
    let protection_status = if str_contains(stdout, "Protection On") {
        "Protection On".to_owned()
    } else if str_contains(stdout, "Protection Off") {
        "Protection Off".to_owned()
    } else {
        "Unknown".to_owned()
    };
    BitLockerStatus {
        drive,
        is_encrypted: !never_encrypted && !fully_decrypted && percentage > 0,
        is_locked,
        protection_status,
        encryption_percentage: percentage,
        encryption_method: extract_encryption_method(stdout),
    }
}

/// What an attempt to unlock a drive came to: it succeeded where the tool
/// ended without error or its output tells of success.
pub open spec fn unlocked(tool_ok: bool, stdout: Seq<char>) -> bool {
    tool_ok || contains_text(stdout, "successfully unlocked"@)
}

/// Reports an attempt to unlock a drive; `how` tells in words by which
/// means, for the report of a success.
pub fn unlock_outcome(drive_text: &str, how: &str, tool_ok: bool, stdout: &str, stderr: &str) -> (r:
    BitLockerUnlockResult)
    ensures
        r.success == unlocked(tool_ok, stdout@),
        r.message@ == if unlocked(tool_ok, stdout@) {
            "Drive "@ + drive_with_colon(drive_text@) + " unlocked "@ + how@
        } else {
            "Failed to unlock: "@ + trimmed(stderr@)
        },
{
    if tool_ok || str_contains(stdout, "successfully unlocked") {
        let mut message = "Drive ".to_owned();
        let drive = tool_drive(drive_text);
        message.append(drive.as_str());
        message.append(" unlocked ");
        message.append(how);
        BitLockerUnlockResult { success: true, message }
    } else {
        let mut message = "Failed to unlock: ".to_owned();
        message.append(trim(stderr));
        BitLockerUnlockResult { success: false, message }
    }
}

/// Reports an attempt to lock a drive.
pub fn lock_outcome(drive_text: &str, tool_ok: bool, stderr: &str) -> (r: BitLockerUnlockResult)
    ensures
        r.success == tool_ok,
        r.message@ == if tool_ok {
            "Drive "@ + drive_with_colon(drive_text@) + " locked successfully"@
        } else {
            "Failed to lock: "@ + trimmed(stderr@)
        },
{
    if tool_ok {
        let mut message = "Drive ".to_owned();
        let drive = tool_drive(drive_text);
        message.append(drive.as_str());
        message.append(" locked successfully");
        BitLockerUnlockResult { success: true, message }
    } else {
        let mut message = "Failed to lock: ".to_owned();
        message.append(trim(stderr));
        BitLockerUnlockResult { success: false, message }
    }
}

} // verus!
