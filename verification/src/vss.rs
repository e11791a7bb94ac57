//! Volume shadow copies: what the system's listing of them says, and where
//! a file lies inside one.

use vstd::prelude::*;
use vstd::string::*;
use crate::text::{
    chars_match_at, chars_of, chars_rfind_text, contains_text, has_prefix, has_suffix,
    last_index_of_text, lines_of, piece_after, signed_decimal_string, signed_decimal_text,
    split_lines, str_contains, str_ends_with, str_starts_with, string_texts, take_piece_after,
    trim, trim_end_char, trim_start_char, trimmed, trimmed_end, trimmed_start, without,
    without_from,
};

verus! {

/// A shadow copy of a volume.
#[derive(Clone, Debug)]
pub struct VssSnapshot {
    pub id: String,
    pub volume_path: String,
    /// The drive of which this is a copy.
    pub original_volume: String,
    /// When the copy was made.
    pub created: String,
    /// The device under which the copy can be read.
    pub device_object: String,
    pub available: bool,
}

pub ghost struct VssSnapshotView {
    pub id: Seq<char>,
    pub volume_path: Seq<char>,
    pub original_volume: Seq<char>,
    pub created: Seq<char>,
    pub device_object: Seq<char>,
    pub available: bool,
}

impl View for VssSnapshot {
    type V = VssSnapshotView;

    open spec fn view(&self) -> VssSnapshotView {
        VssSnapshotView {
            id: self.id@,
            volume_path: self.volume_path@,
            original_volume: self.original_volume@,
            created: self.created@,
            device_object: self.device_object@,
            available: self.available,
        }
    }
}

/// What a listing of the shadow copies of a drive gave.
#[derive(Debug)]
pub struct VssEnumerationResult {
    pub success: bool,
    pub snapshots: Vec<VssSnapshot>,
    pub error: Option<String>,
}

/// A file inside a shadow copy.
#[derive(Clone, Debug)]
pub struct VssFile {
    pub path: String,
    pub name: String,
    pub size: u64,
    pub modified: String,
    pub snapshot_id: String,
    pub snapshot_date: String,
}

// ---------------------------------------------------------------------
// Dates
// ---------------------------------------------------------------------

/// The date and time that a text gives when it is read by a pattern of
/// fields, written after RFC 3339 as a time in UTC; `None` where the text
/// does not follow the pattern.
pub uninterp spec fn parsed_date(text: Seq<char>, pattern: Seq<char>) -> Option<Seq<char>>;

/// `chrono::NaiveDateTime::parse_from_str`, and `to_rfc3339` on what it
/// gives, taken as a time in UTC. Nothing is proved of them: the result is
/// taken to be the date and time that the text gives by the pattern.
#[verifier::external_body]
fn parse_date(text: &str, pattern: &str) -> (r: Option<String>)
    ensures
        match r {
            Some(date) => parsed_date(text@, pattern@) == Some(date@),
            None => parsed_date(text@, pattern@).is_none(),
        },
{
    match chrono::NaiveDateTime::parse_from_str(text, pattern) {
        Ok(date_time) => Some(date_time.and_utc().to_rfc3339()),
        Err(_) => None,
    }
}

/// The patterns by which the dates of a listing are read, in the order in
/// which they are tried.
pub open spec fn date_patterns() -> Seq<&'static str> {
    seq![
        "%d-%m-%Y %H:%M:%S",
        "%m-%d-%Y %H:%M:%S",
        "%Y-%m-%d %H:%M:%S",
        "%m/%d/%Y %I:%M:%S %p",
        "%d/%m/%Y %I:%M:%S %p",
        "%m/%d/%Y %H:%M:%S",
        "%d/%m/%Y %H:%M:%S",
    ]
}

/// What the first pattern from `from` on that fits gives.
pub open spec fn first_parsed(text: Seq<char>, patterns: Seq<&'static str>, from: int) -> Option<
    Seq<char>,
>
    decreases patterns.len() - from,
{
    if from < 0 || from >= patterns.len() {
        None
    } else if parsed_date(text, patterns[from]@).is_some() {
        parsed_date(text, patterns[from]@)
    } else {
        first_parsed(text, patterns, from + 1)
    }
}

/// The date of a listing after RFC 3339: what the first pattern that fits
/// gives; the text itself where none fits or it is empty.
pub open spec fn listed_date(text: Seq<char>) -> Seq<char> {
    if text.len() == 0 {
        text
    } else {
        match first_parsed(text, date_patterns(), 0) {
            Some(date) => date,
            None => text,
        }
    }
}

/// Reads a date of a listing.
pub fn parse_windows_date(date_str: &str) -> (r: String)
    ensures
        r@ == listed_date(date_str@),
{
    if date_str.is_empty() {
        return date_str.to_owned();
    }
    let patterns: [&'static str; 7] = [
        "%d-%m-%Y %H:%M:%S",
        "%m-%d-%Y %H:%M:%S",
        "%Y-%m-%d %H:%M:%S",
        "%m/%d/%Y %I:%M:%S %p",
        "%d/%m/%Y %I:%M:%S %p",
        "%m/%d/%Y %H:%M:%S",
        "%d/%m/%Y %H:%M:%S",
    ];
    assert(patterns@ =~= date_patterns());
    let mut k: usize = 0;
    while k < 7
        invariant
            k <= 7,
            date_str@.len() > 0,
            patterns@ == date_patterns(),
            first_parsed(date_str@, date_patterns(), k as int) == first_parsed(
                date_str@,
                date_patterns(),
                0,
            ),
        decreases 7 - k,
    {
        match parse_date(date_str, patterns[k]) {
            Some(date) => {
                return date;
            },
            None => {},
        }
        k += 1;
    }
    date_str.to_owned()
}

// ---------------------------------------------------------------------
// The listing
// ---------------------------------------------------------------------

/// Cuts the occurrences of `pat` out of `s`.
pub fn remove_all(s: &str, pat: &str) -> (r: String)
    ensures
        r@ == without(s@, pat@),
{
    let chars = chars_of(s);
    let p = chars_of(pat);
    let len: usize = chars.len();
    let mut out = String::new();
    let mut at: usize = 0;
    assert(out@ + without_from(s@, pat@, 0) =~= without(s@, pat@));
    while at < len
        invariant
            at <= len || p@.len() > 0,
            len == chars@.len(),
            chars@ == s@,
            p@ == pat@,
            out@ + without_from(s@, pat@, at as int) == without(s@, pat@),
        decreases len + p@.len() - at,
    {
        let ghost before = out@;
        if p.len() > 0 && chars_match_at(chars.as_slice(), at, p.as_slice()) {
            at = at + p.len();
        } else {
            let one = s.substring_char(at, at + 1);
            assert(one@ =~= seq![s@[at as int]]);
            let ghost rest = without_from(s@, pat@, at + 1);
            out.append(one);
            assert((before + seq![s@[at as int]]) + rest =~= before + (seq![s@[at as int]] + rest));
            at += 1;
        }
    }
    assert(out@ + Seq::<char>::empty() =~= out@);
    out
}

/// What was read of a listing so far.
pub ghost struct ListingView {
    /// The copies that are complete.
    pub snapshots: Seq<VssSnapshotView>,
    /// The copy whose lines are being read.
    pub current: Option<VssSnapshotView>,
    /// The creation time that stands in front of the next copy.
    pub pending: Option<Seq<char>>,
}

/// What follows a label in a line: the line without the label and without
/// white space at its ends.
pub open spec fn labelled(line: Seq<char>, label: Seq<char>) -> Seq<char> {
    trimmed(without(line, label))
}

/// The listing after one more line. A line that tells a creation time sets
/// the time of the next copy; a line with an identifier starts a copy; the
/// lines with the original volume, the creation time and the device fill
/// in the copy that was started.
pub open spec fn absorb_line(st: ListingView, raw: Seq<char>, drive: Seq<char>) -> ListingView {
    let line = trimmed(raw);
    if contains_text(line, "at creation time:"@) {
        match piece_after(line, "at creation time:"@) {
            Some(piece) => ListingView { pending: Some(trimmed(piece)), ..st },
            None => st,
        }
    } else if has_prefix(line, "Shadow Copy ID:"@) {
        ListingView {
            snapshots: match st.current {
                Some(done) => st.snapshots.push(done),
                None => st.snapshots,
            },
            current: Some(
                VssSnapshotView {
                    id: labelled(line, "Shadow Copy ID:"@),
                    volume_path: Seq::empty(),
                    original_volume: drive,
                    created: listed_date(
                        match st.pending {
                            Some(time) => time,
                            None => Seq::empty(),
                        },
                    ),
                    device_object: Seq::empty(),
                    available: true,
                },
            ),
            pending: None,
        }
    } else if has_prefix(line, "Original Volume:"@) {
        match st.current {
            Some(c) => ListingView {
                current: Some(
                    VssSnapshotView { volume_path: labelled(line, "Original Volume:"@), ..c },
                ),
                ..st
            },
            None => st,
        }
    } else if has_prefix(line, "Creation Time:"@) {
        match st.current {
            Some(c) => ListingView {
                current: Some(
                    VssSnapshotView {
                        created: listed_date(labelled(line, "Creation Time:"@)),
                        ..c
                    },
                ),
                ..st
            },
            None => st,
        }
    } else if has_prefix(line, "Shadow Copy Volume:"@) {
        match st.current {
            Some(c) => ListingView {
                current: Some(
                    VssSnapshotView {
                        device_object: labelled(line, "Shadow Copy Volume:"@),
                        ..c
                    },
                ),
                ..st
            },
            None => st,
        }
    } else {
        st
    }
}

/// The listing after the first `upto` lines.
pub open spec fn absorb_lines(lines: Seq<Seq<char>>, upto: int, drive: Seq<char>) -> ListingView
    decreases upto,
{
    if upto <= 0 {
        ListingView { snapshots: Seq::empty(), current: None, pending: None }
    } else {
        absorb_line(absorb_lines(lines, upto - 1, drive), lines[upto - 1], drive)
    }
}

/// The copies that a listing names, in the order of the listing.
pub open spec fn listed_snapshots(output: Seq<char>, drive: Seq<char>) -> Seq<VssSnapshotView> {
    let end = absorb_lines(lines_of(output), lines_of(output).len() as int, drive);
    match end.current {
        Some(last) => end.snapshots.push(last),
        None => end.snapshots,
    }
}

/// The views of a list of copies.
pub open spec fn snapshot_views(list: Seq<VssSnapshot>) -> Seq<VssSnapshotView> {
    Seq::new(list.len(), |i: int| list[i]@)
}

fn label_value(line: &str, label: &str) -> (r: String)
    ensures
        r@ == labelled(line@, label@),
{
    let rest = remove_all(line, label);
    trim(rest.as_str()).to_owned()
}

/// Reads the listing of the shadow copies of a drive.
pub fn parse_vssadmin_output(output: &str, drive_letter: &str) -> (r: Vec<VssSnapshot>)
    ensures
        snapshot_views(r@) == listed_snapshots(output@, drive_letter@),
{
    proof {
        reveal_strlit("at creation time:");
    }
    let lines = split_lines(output);
    let mut snapshots: Vec<VssSnapshot> = Vec::new();
    let mut current: Option<VssSnapshot> = None;
    let mut pending: Option<String> = None;
    let mut i: usize = 0;
    assert(snapshot_views(snapshots@) =~= Seq::<VssSnapshotView>::empty());
    while i < lines.len()
        invariant
            i <= lines.len(),
            string_texts(lines@) == lines_of(output@),
            "at creation time:"@.len() > 0,
            absorb_lines(lines_of(output@), i as int, drive_letter@) == (ListingView {
                snapshots: snapshot_views(snapshots@),
                current: match current {
                    Some(c) => Some(c@),
                    None => None,
                },
                pending: match pending {
                    Some(p) => Some(p@),
                    None => None,
                },
            }),
        decreases lines.len() - i,
    {
        assert(string_texts(lines@)[i as int] == lines@[i as int]@);
        let ghost before = snapshot_views(snapshots@);
        let line = trim(lines[i].as_str());
        if str_contains(line, "at creation time:") {
            match take_piece_after(line, "at creation time:") {
                Some(piece) => {
                    pending = Some(trim(piece).to_owned());
                },
                None => {},
            }
        } else if str_starts_with(line, "Shadow Copy ID:") {
            match current {
                Some(done) => {
                    let ghost v = done@;
                    snapshots.push(done);
                    assert(snapshot_views(snapshots@) =~= before.push(v));
                },
                None => {},
            }
            let created = match pending {
                Some(time) => parse_windows_date(time.as_str()),
                None => String::new(),
            };
            current = Some(
                VssSnapshot {
                    id: label_value(line, "Shadow Copy ID:"),
                    volume_path: String::new(),
                    original_volume: drive_letter.to_owned(),
                    created,
                    device_object: String::new(),
                    available: true,
                },
            );
            pending = None;
        } else if str_starts_with(line, "Original Volume:") {
            match current {
                Some(c) => {
                    current = Some(
                        VssSnapshot { volume_path: label_value(line, "Original Volume:"), ..c },
                    );
                },
                None => {},
            }
        } else if str_starts_with(line, "Creation Time:") {
            match current {
                Some(c) => {
                    let text = label_value(line, "Creation Time:");
                    current = Some(VssSnapshot { created: parse_windows_date(text.as_str()), ..c });
                },
                None => {},
            }
        } else if str_starts_with(line, "Shadow Copy Volume:") {
            match current {
                Some(c) => {
                    current = Some(
                        VssSnapshot {
                            device_object: label_value(line, "Shadow Copy Volume:"),
                            ..c
                        },
                    );
                },
                None => {},
            }
        }
        i += 1;
    }
    match current {
        Some(last) => {
            let ghost before = snapshot_views(snapshots@);
            let ghost v = last@;
            snapshots.push(last);
            assert(snapshot_views(snapshots@) =~= before.push(v));
        },
        None => {},
    }
    snapshots
}

// ---------------------------------------------------------------------
// Asking for the listing
// ---------------------------------------------------------------------

/// What a run of the system's tool gave.
#[derive(Clone, Debug)]
pub struct ProcessOutput {
    /// The tool ended without error.
    pub success: bool,
    pub exit_code: Option<i32>,
    pub stdout: String,
    pub stderr: String,
}

/// The drive as the tool wants it: with its colon and without backslashes
/// at its end; an error for a drive that ends with neither.
pub open spec fn normalized_drive(drive: Seq<char>) -> Result<Seq<char>, Seq<char>> {
    if has_suffix(drive, "\\"@) {
        Ok(trimmed_end(drive, '\\'))
    } else if !has_suffix(drive, ":"@) {
        Err("Invalid drive letter format: "@ + drive)
    } else {
        Ok(drive)
    }
}

/// Brings the name of a drive into the form that the tool wants.
pub fn normalize_drive(drive_letter: &str) -> (r: Result<String, String>)
    ensures
        match r {
            Ok(d) => normalized_drive(drive_letter@) == Ok::<Seq<char>, Seq<char>>(d@),
            Err(e) => normalized_drive(drive_letter@) == Err::<Seq<char>, Seq<char>>(e@),
        },
{
    if str_ends_with(drive_letter, "\\") {
        Ok(trim_end_char(drive_letter, '\\').to_owned())
    } else if !str_ends_with(drive_letter, ":") {
        let mut message = "Invalid drive letter format: ".to_owned();
        message.append(drive_letter);
        Err(message)
    } else {
        Ok(drive_letter.to_owned())
    }
}

/// The argument that names the drive to the tool.
pub fn listing_argument(normalized: &str) -> (r: String)
    ensures
        r@ == "/for="@ + normalized@ + "\\"@,
{
    let mut argument = "/for=".to_owned();
    argument.append(normalized);
    argument.append("\\");
    argument
}

/// What the tool said when it failed: its error output, else its output,
/// else its exit code.
pub open spec fn failure_text(stdout: Seq<char>, stderr: Seq<char>, exit_code: Option<i32>) -> Seq<
    char,
> {
    if stderr.len() > 0 {
        stderr
    } else if stdout.len() > 0 {
        stdout
    } else {
        "Exit code: "@ + signed_decimal_text(
            match exit_code {
                Some(code) => code as int,
                None => -1,
            },
        )
    }
}

/// The advice that goes with a failure of the tool; empty where there is
/// none.
pub open spec fn failure_advice(text: Seq<char>) -> Seq<char> {
    if contains_text(text, "not recognized"@) {
        "VSS is not available on this system."@
    } else if contains_text(text, "Access is denied"@) || contains_text(text, "administrator"@) {
        "Access denied. Please run RecoverPro as Administrator."@
    } else if contains_text(text, "service is not started"@) {
        "Volume Shadow Copy service is not running. Start it from Services (services.msc)."@
    } else {
        Seq::empty()
    }
}

/// The error that a failure of the tool is reported with.
pub open spec fn failure_message(text: Seq<char>) -> Seq<char> {
    if failure_advice(text).len() == 0 {
        "vssadmin failed: "@ + trimmed(text)
    } else {
        failure_advice(text) + " Details: "@ + trimmed(text)
    }
}

/// The output of the tool says that there are no copies.
pub open spec fn tells_of_no_copies(stdout: Seq<char>) -> bool {
    contains_text(stdout, "No items found"@) || contains_text(stdout, "No shadow copies"@)
}

/// What a run of the tool says of the shadow copies of a drive.
pub open spec fn enumeration_of(
    drive: Seq<char>,
    success: bool,
    exit_code: Option<i32>,
    stdout: Seq<char>,
    stderr: Seq<char>,
) -> Result<Seq<VssSnapshotView>, Seq<char>> {
    match normalized_drive(drive) {
        Err(e) => Err(e),
        Ok(normalized) => if !success {
            Err(failure_message(failure_text(stdout, stderr, exit_code)))
        } else if tells_of_no_copies(stdout) {
            Ok(Seq::empty())
        } else {
            Ok(listed_snapshots(stdout, normalized))
        },
    }
}

fn describe_failure(output: &ProcessOutput) -> (r: String)
    ensures
        r@ == failure_message(failure_text(output.stdout@, output.stderr@, output.exit_code)),
{
    let text: String = if !output.stderr.as_str().is_empty() {
        output.stderr.clone()
    } else if !output.stdout.as_str().is_empty() {
        output.stdout.clone()
    } else {
        let mut text = "Exit code: ".to_owned();
        let code: i32 = match output.exit_code {
            Some(code) => code,
            None => -1,
        };
        let digits = signed_decimal_string(code);
        text.append(digits.as_str());
        text
    };
    proof {
        reveal_strlit("VSS is not available on this system.");
        reveal_strlit("Access denied. Please run RecoverPro as Administrator.");
        reveal_strlit(
            "Volume Shadow Copy service is not running. Start it from Services (services.msc).",
        );
    }
    let advice: Option<&'static str> = if str_contains(text.as_str(), "not recognized") {
        Some("VSS is not available on this system.")
    } else if str_contains(text.as_str(), "Access is denied") || str_contains(
        text.as_str(),
        "administrator",
    ) {
        Some("Access denied. Please run RecoverPro as Administrator.")
    } else if str_contains(text.as_str(), "service is not started") {
        Some("Volume Shadow Copy service is not running. Start it from Services (services.msc).")
    } else {
        None
    };
    match advice {
        None => {
            let mut message = "vssadmin failed: ".to_owned();
            message.append(trim(text.as_str()));
            message
        },
        Some(advice) => {
            let mut message = advice.to_owned();
            message.append(" Details: ");
            message.append(trim(text.as_str()));
            message
        },
    }
}

/// Reads what a run of the tool says of the shadow copies of a drive.
pub fn read_enumeration(drive_letter: &str, output: &ProcessOutput) -> (r: Result<
    Vec<VssSnapshot>,
    String,
>)
    ensures
        match r {
            Ok(list) => enumeration_of(
                drive_letter@,
                output.success,
                output.exit_code,
                output.stdout@,
                output.stderr@,
            ) == Ok::<Seq<VssSnapshotView>, Seq<char>>(snapshot_views(list@)),
            Err(e) => enumeration_of(
                drive_letter@,
                output.success,
                output.exit_code,
                output.stdout@,
                output.stderr@,
            ) == Err::<Seq<VssSnapshotView>, Seq<char>>(e@),
        },
{
    let normalized = match normalize_drive(drive_letter) {
        Ok(d) => d,
        Err(e) => {
            return Err(e);
        },
    };
    if !output.success {
        return Err(describe_failure(output));
    }
    if str_contains(output.stdout.as_str(), "No items found") || str_contains(
        output.stdout.as_str(),
        "No shadow copies",
    ) {
        let none: Vec<VssSnapshot> = Vec::new();
        assert(snapshot_views(none@) =~= Seq::<VssSnapshotView>::empty());
        return Ok(none);
    }
    Ok(parse_vssadmin_output(output.stdout.as_str(), normalized.as_str()))
}

/// Lists the shadow copies of a drive, from a run of the system's tool;
/// `Err` stands for a tool that could not be run, with the reason.
pub fn enumerate_snapshots(drive_letter: &str, listing: Result<ProcessOutput, String>) -> (r:
    VssEnumerationResult)
    ensures
        match listing {
            Err(reason) => {
                &&& !r.success
                &&& r.snapshots@.len() == 0
                &&& r.error matches Some(e) && e@ == reason@
            },
            Ok(output) => match enumeration_of(
                drive_letter@,
                output.success,
                output.exit_code,
                output.stdout@,
                output.stderr@,
            ) {
                Ok(list) => r.success && r.error.is_none() && snapshot_views(r.snapshots@) == list,
                Err(e) => {
                    &&& !r.success
                    &&& r.snapshots@.len() == 0
                    &&& r.error matches Some(message) && message@ == e
                },
            },
        },
{
    match listing {
        Err(reason) => VssEnumerationResult {
            success: false,
            snapshots: Vec::new(),
            error: Some(reason),
        },
        Ok(output) => match read_enumeration(drive_letter, &output) {
            Ok(snapshots) => VssEnumerationResult { success: true, snapshots, error: None },
            Err(e) => VssEnumerationResult { success: false, snapshots: Vec::new(), error: Some(e) },
        },
    }
}

/// The number of copies that a listing gave.
pub fn get_snapshot_count(result: &VssEnumerationResult) -> (r: usize)
    ensures
        r == result.snapshots@.len(),
{
    result.snapshots.len()
}

// ---------------------------------------------------------------------
// Files inside a copy
// ---------------------------------------------------------------------

/// Where in a copy files are looked for: the device of the copy, a
/// backslash, and the path that was asked for without backslashes at its
/// start; an error for a copy without device.
pub open spec fn search_path(device: Seq<char>, path: Option<Seq<char>>) -> Result<
    Seq<char>,
    Seq<char>,
> {
    if device.len() == 0 {
        Err("Invalid snapshot device object"@)
    } else {
        let base = if has_suffix(device, "\\"@) {
            device
        } else {
            device + "\\"@
        };
        match path {
            Some(p) => Ok(base + trimmed_start(p, '\\')),
            None => Ok(base),
        }
    }
}

/// Tells where in a copy files are looked for.
pub fn snapshot_search_path(snapshot: &VssSnapshot, path: Option<&str>) -> (r: Result<
    String,
    String,
>)
    ensures
        match r {
            Ok(p) => search_path(
                snapshot.device_object@,
                match path {
                    Some(p) => Some(p@),
                    None => None,
                },
            ) == Ok::<Seq<char>, Seq<char>>(p@),
            Err(e) => search_path(
                snapshot.device_object@,
                match path {
                    Some(p) => Some(p@),
                    None => None,
                },
            ) == Err::<Seq<char>, Seq<char>>(e@),
        },
{
    if snapshot.device_object.as_str().is_empty() {
        return Err("Invalid snapshot device object".to_owned());
    }
    let mut base = snapshot.device_object.clone();
    if !str_ends_with(snapshot.device_object.as_str(), "\\") {
        base.append("\\");
    }
    match path {
        Some(p) => {
            base.append(trim_start_char(p, '\\'));
            Ok(base)
        },
        None => Ok(base),
    }
}

/// A file that a walk through a copy came upon.
#[derive(Clone, Debug)]
pub struct FoundFile {
    pub path: String,
    pub name: String,
    pub size: u64,
    /// The time of the last change after RFC 3339, or empty.
    pub modified: String,
}

/// Lists the files of a copy, from what a walk through it came upon: each
/// with the identifier and the date of the copy.
pub fn list_files_in_snapshot(snapshot: &VssSnapshot, found: Vec<FoundFile>) -> (r: Vec<VssFile>)
    ensures
        r@.len() == found@.len(),
        forall|i: int|
            0 <= i < r@.len() ==> {
                &&& (#[trigger] r@[i]).path@ == found@[i].path@
                &&& r@[i].name@ == found@[i].name@
                &&& r@[i].size == found@[i].size
                &&& r@[i].modified@ == found@[i].modified@
                &&& r@[i].snapshot_id@ == snapshot.id@
                &&& r@[i].snapshot_date@ == snapshot.created@
            },
{
    let mut files: Vec<VssFile> = Vec::new();
    let ghost all = found@;
    for file in it: found
        invariant
            it.seq() == all,
            files@.len() == it.index(),
            forall|i: int|
                0 <= i < files@.len() ==> {
                    &&& (#[trigger] files@[i]).path@ == all[i].path@
                    &&& files@[i].name@ == all[i].name@
                    &&& files@[i].size == all[i].size
                    &&& files@[i].modified@ == all[i].modified@
                    &&& files@[i].snapshot_id@ == snapshot.id@
                    &&& files@[i].snapshot_date@ == snapshot.created@
                },
    {
        files.push(
            VssFile {
                path: file.path,
                name: file.name,
                size: file.size,
                modified: file.modified,
                snapshot_id: snapshot.id.clone(),
                snapshot_date: snapshot.created.clone(),
            },
        );
    }
    files
}

/// The copies of a listing with the newest first: the listing names them
/// from the oldest to the newest.
pub fn newest_first(snapshots: Vec<VssSnapshot>) -> (r: Vec<VssSnapshot>)
    ensures
        r@ == snapshots@.reverse(),
{
    let mut list = snapshots;
    let mut out: Vec<VssSnapshot> = Vec::new();
    let ghost all = list@;
    assert(list@ =~= all.take(all.len() as int));
    assert(out@ =~= all.skip(all.len() as int).reverse());
    while list.len() > 0
        invariant
            list@.len() <= all.len(),
            list@ == all.take(list@.len() as int),
            out@ == all.skip(list@.len() as int).reverse(),
        decreases list@.len(),
    {
        let ghost n = list@.len() as int;
        let ghost before = out@;
        match list.pop() {
            Some(last) => {
                assert(last == all[n - 1]);
                out.push(last);
                assert(list@ =~= all.take(n - 1));
                assert(out@.len() == all.len() - n + 1);
                assert forall|i: int| 0 <= i < out@.len() implies out@[i] == all.skip(
                    n - 1,
                ).reverse()[i] by {
                    if i < before.len() {
                        assert(before[i] == all.skip(n).reverse()[i]);
                    }
                }
                assert(out@ =~= all.skip(n - 1).reverse());
            },
            None => {},
        }
    }
    assert(all.skip(0) =~= all);
    out
}

/// The part of a path behind its drive: behind the first three characters
/// where the second is a colon and more than three there are; else the
/// whole path.
pub open spec fn drive_relative(path: Seq<char>) -> Seq<char> {
    if path.len() > 3 && path[1] == ':' {
        path.skip(3)
    } else {
        path
    }
}

/// Where a file lies under the link to a copy: the link is named after the
/// device of the copy, and the file lies under it as it lay on its drive.
/// `None` for a device that is no shadow copy.
pub open spec fn linked_paths(device: Seq<char>, source_path: Seq<char>) -> Option<
    (Seq<char>, Seq<char>),
> {
    match last_index_of_text(device, "HarddiskVolumeShadowCopy"@, (device.len() + 1) as int) {
        None => None,
        Some(i) => {
            let link = "C:\\__vss_temp_"@ + device.skip(i);
            Some((link, link + "\\"@ + drive_relative(source_path)))
        },
    }
}

/// Tells under which link a copy is reached, and where a file lies under
/// it.
pub fn snapshot_file_path(device_object: &str, source_path: &str) -> (r: Option<(String, String)>)
    ensures
        match r {
            Some(paths) => linked_paths(device_object@, source_path@) == Some(
                (paths.0@, paths.1@),
            ),
            None => linked_paths(device_object@, source_path@).is_none(),
        },
{
    let device = chars_of(device_object);
    let mark = chars_of("HarddiskVolumeShadowCopy");
    match chars_rfind_text(device.as_slice(), mark.as_slice()) {
        None => None,
        Some(i) => {
            let short = device_object.substring_char(i, device.len());
            assert(short@ =~= device_object@.skip(i as int));
            let mut link = "C:\\__vss_temp_".to_owned();
            link.append(short);
            let path = chars_of(source_path);
            let relative: &str = if path.len() > 3 && path[1] == ':' {
                let rest = source_path.substring_char(3, path.len());
                assert(rest@ =~= source_path@.skip(3));
                rest
            } else {
                source_path
            };
            let mut full = link.clone();
            full.append("\\");
            full.append(relative);
            Some((link, full))
        },
    }
}

} // verus!
