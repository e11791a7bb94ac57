//! Text as sequences of characters: what the library needs from strings,
//! stated over their views.

use vstd::prelude::*;
use vstd::string::*;

verus! {

/// The lowercase form of a text, as Unicode defines it.
pub uninterp spec fn lowercase(s: Seq<char>) -> Seq<char>;

/// The uppercase form of a text, as Unicode defines it.
pub uninterp spec fn uppercase(s: Seq<char>) -> Seq<char>;

/// The text that a sequence of UTF-16 code units decodes to, with the
/// replacement character in place of each unpaired surrogate.
pub uninterp spec fn utf16_lossy(units: Seq<u16>) -> Seq<char>;

/// The text that a sequence of bytes decodes to as UTF-8, with the
/// replacement character in place of each invalid sequence.
pub uninterp spec fn utf8_lossy(bytes: Seq<u8>) -> Seq<char>;

/// A character is a letter or a digit, as Unicode defines them.
pub uninterp spec fn letter_or_digit(c: char) -> bool;

/// `char::is_alphanumeric` of the standard library. Nothing is proved of
/// it: the result is taken to tell the letters and digits of Unicode.
pub assume_specification[ char::is_alphanumeric ](c: char) -> (r: bool)
    ensures
        r == letter_or_digit(c),
;

/// A character is white space, as Unicode defines it.
pub uninterp spec fn white_space(c: char) -> bool;

/// `char::is_whitespace` of the standard library. Nothing is proved of it:
/// the result is taken to tell the white space of Unicode.
pub assume_specification[ char::is_whitespace ](c: char) -> (r: bool)
    ensures
        r == white_space(c),
;

/// `str::to_lowercase` of the standard library. Nothing is proved of it: the
/// result is taken to be the lowercase form of the argument.
#[verifier::external_body]
pub(crate) fn to_lowercase(s: &str) -> (r: String)
    ensures
        r@ == lowercase(s@),
{
    s.to_lowercase()
}

/// `str::to_uppercase` of the standard library. Nothing is proved of it: the
/// result is taken to be the uppercase form of the argument.
#[verifier::external_body]
pub(crate) fn to_uppercase(s: &str) -> (r: String)
    ensures
        r@ == uppercase(s@),
{
    s.to_uppercase()
}

/// `String::from_utf16_lossy` of the standard library. Nothing is proved of
/// it: the result is taken to be the lossy decoding of the code units.
#[verifier::external_body]
pub(crate) fn from_utf16_lossy(units: &[u16]) -> (r: String)
    ensures
        r@ == utf16_lossy(units@),
{
    String::from_utf16_lossy(units)
}

/// `String::from_utf8_lossy` of the standard library. Nothing is proved of
/// it: the result is taken to be the lossy decoding of the bytes.
#[verifier::external_body]
pub(crate) fn from_utf8_lossy(bytes: &[u8]) -> (r: String)
    ensures
        r@ == utf8_lossy(bytes@),
{
    String::from_utf8_lossy(bytes).into_owned()
}

/// The number of bytes that a text takes as UTF-8.
pub open spec fn utf8_len(s: Seq<char>) -> nat {
    vstd::utf8::encode_utf8(s).len()
}

/// `p` occurs in `s` at index `at`.
pub open spec fn text_at(s: Seq<char>, at: int, p: Seq<char>) -> bool {
    &&& 0 <= at
    &&& at + p.len() <= s.len()
    &&& forall|k: int| 0 <= k < p.len() ==> s[at + k] == p[k]
}

/// `s` begins with `p`.
pub open spec fn has_prefix(s: Seq<char>, p: Seq<char>) -> bool {
    text_at(s, 0, p)
}

/// `s` ends with `p`.
pub open spec fn has_suffix(s: Seq<char>, p: Seq<char>) -> bool {
    text_at(s, s.len() - p.len(), p)
}

/// `p` occurs somewhere in `s`.
pub open spec fn contains_text(s: Seq<char>, p: Seq<char>) -> bool {
    exists|i: int| #[trigger] text_at(s, i, p)
}

/// The index of the first occurrence of `p` in `s` at or after `from`, or
/// `None`.
pub open spec fn first_index_of(s: Seq<char>, p: Seq<char>, from: int) -> Option<int>
    decreases s.len() - from,
{
    if from < 0 || from + p.len() > s.len() {
        None
    } else if text_at(s, from, p) {
        Some(from)
    } else {
        first_index_of(s, p, from + 1)
    }
}

/// The index of the last `c` in the first `upto` characters of `s`, or
/// `None`.
pub open spec fn last_index_of(s: Seq<char>, c: char, upto: int) -> Option<int>
    decreases upto,
{
    if upto <= 0 || upto > s.len() {
        None
    } else if s[upto - 1] == c {
        Some(upto - 1)
    } else {
        last_index_of(s, c, upto - 1)
    }
}

/// The characters of a string.
pub fn chars_of(s: &str) -> (v: Vec<char>)
    ensures
        v@ == s@,
{
    let mut v: Vec<char> = Vec::new();
    for c in it: s.chars()
        invariant
            it.seq() == s@,
            v@ =~= it.seq().take(it.index() as int),
    {
        v.push(c);
    }
    assert(v@ =~= s@);
    v
}

/// Tells whether `p` occurs in `s` at index `at`.
pub fn chars_match_at(s: &[char], at: usize, p: &[char]) -> (r: bool)
    ensures
        r == text_at(s@, at as int, p@),
{
    if p.len() > s.len() || at > s.len() - p.len() {
        return false;
    }
    let mut k: usize = 0;
    while k < p.len()
        invariant
            k <= p.len(),
            at + p.len() <= s.len(),
            forall|j: int| 0 <= j < k ==> s@[at + j] == p@[j],
        decreases p.len() - k,
    {
        if s[at + k] != p[k] {
            return false;
        }
        k += 1;
    }
    true
}

/// The first index at or after `from` at which `p` occurs in `s`.
pub fn chars_find(s: &[char], p: &[char], from: usize) -> (r: Option<usize>)
    ensures
        match r {
            Some(i) => first_index_of(s@, p@, from as int) == Some(i as int),
            None => first_index_of(s@, p@, from as int).is_none(),
        },
{
    let mut i: usize = from;
    while i <= s.len() && p.len() <= s.len() - i
        invariant
            from <= i,
            first_index_of(s@, p@, i as int) == first_index_of(s@, p@, from as int),
        decreases s.len() + 1 - i,
    {
        if chars_match_at(s, i, p) {
            return Some(i);
        }
        i += 1;
    }
    None
}

pub proof fn lemma_first_index_of(s: Seq<char>, p: Seq<char>, from: int)
    requires
        from >= 0,
    ensures
        first_index_of(s, p, from) matches Some(i) ==> from <= i && text_at(s, i, p),
        first_index_of(s, p, from).is_none() ==> forall|i: int| from <= i ==> !text_at(s, i, p),
    decreases s.len() - from,
{
    if from + p.len() > s.len() {
    } else if text_at(s, from, p) {
    } else {
        lemma_first_index_of(s, p, from + 1);
    }
}

/// Tells whether `p` occurs somewhere in `s`.
pub fn chars_contain(s: &[char], p: &[char]) -> (r: bool)
    ensures
        r == contains_text(s@, p@),
{
    let found = chars_find(s, p, 0);
    proof {
        lemma_first_index_of(s@, p@, 0);
    }
    found.is_some()
}

/// Tells whether `s` begins with `p`.
pub fn chars_start_with(s: &[char], p: &[char]) -> (r: bool)
    ensures
        r == has_prefix(s@, p@),
{
    chars_match_at(s, 0, p)
}

/// Tells whether `s` ends with `p`.
pub fn chars_end_with(s: &[char], p: &[char]) -> (r: bool)
    ensures
        r == has_suffix(s@, p@),
{
    if p.len() > s.len() {
        return false;
    }
    chars_match_at(s, s.len() - p.len(), p)
}

/// The index of the last `c` in `s`.
pub fn chars_rfind(s: &[char], c: char) -> (r: Option<usize>)
    ensures
        match r {
            Some(i) => last_index_of(s@, c, s@.len() as int) == Some(i as int) && i < s@.len()
                && s@[i as int] == c,
            None => last_index_of(s@, c, s@.len() as int).is_none(),
        },
{
    let mut k: usize = s.len();
    while k > 0
        invariant
            k <= s.len(),
            last_index_of(s@, c, k as int) == last_index_of(s@, c, s@.len() as int),
        decreases k,
    {
        if s[k - 1] == c {
            return Some(k - 1);
        }
        k -= 1;
    }
    None
}

/// Tells whether two texts are equal.
pub fn text_eq(a: &str, b: &str) -> (r: bool)
    ensures
        r == (a@ == b@),
{
    let x = a.as_bytes();
    let y = b.as_bytes();
    proof {
        vstd::utf8::encode_utf8_decode_utf8(a@);
        vstd::utf8::encode_utf8_decode_utf8(b@);
    }
    if x.len() != y.len() {
        return false;
    }
    let mut k: usize = 0;
    while k < x.len()
        invariant
            k <= x.len(),
            x.len() == y.len(),
            x@ == vstd::utf8::encode_utf8(a@),
            y@ == vstd::utf8::encode_utf8(b@),
            forall|j: int| 0 <= j < k ==> x@[j] == y@[j],
        decreases x.len() - k,
    {
        if x[k] != y[k] {
            return false;
        }
        k += 1;
    }
    assert(x@ =~= y@);
    true
}

/// The character of a decimal digit.
pub open spec fn digit_char(d: int) -> char {
    ((0x30 + d) as u8) as char
}

/// A number in decimal, without leading zeros.
pub open spec fn decimal_text(n: nat) -> Seq<char>
    decreases n,
{
    if n < 10 {
        seq![digit_char(n as int)]
    } else {
        decimal_text(n / 10).push(digit_char((n % 10) as int))
    }
}

fn digit_str(d: u8) -> (r: &'static str)
    requires
        d < 10,
    ensures
        r@ == seq![digit_char(d as int)],
{
    proof {
        reveal_strlit("0");
        reveal_strlit("1");
        reveal_strlit("2");
        reveal_strlit("3");
        reveal_strlit("4");
        reveal_strlit("5");
        reveal_strlit("6");
        reveal_strlit("7");
        reveal_strlit("8");
        reveal_strlit("9");
    }
    let r = if d == 0 {
        "0"
    } else if d == 1 {
        "1"
    } else if d == 2 {
        "2"
    } else if d == 3 {
        "3"
    } else if d == 4 {
        "4"
    } else if d == 5 {
        "5"
    } else if d == 6 {
        "6"
    } else if d == 7 {
        "7"
    } else if d == 8 {
        "8"
    } else {
        "9"
    };
    assert(r@ =~= seq![digit_char(d as int)]);
    r
}

/// Writes a number in decimal.
pub fn decimal_string(n: u64) -> (r: String)
    ensures
        r@ == decimal_text(n as nat),
    decreases n,
{
    if n < 10 {
        return digit_str(n as u8).to_owned();
    }
    let mut r = decimal_string(n / 10);
    r.append(digit_str((n % 10) as u8));
    assert(r@ =~= decimal_text(n as nat));
    r
}

pub open spec fn is_decimal_digit(c: char) -> bool {
    '0' <= c <= '9'
}

/// The number that the digits `s[from..to]` write in decimal.
pub open spec fn digits_value(s: Seq<char>, from: int, to: int) -> nat
    decreases to - from,
{
    if to <= from {
        0
    } else {
        digits_value(s, from, to - 1) * 10 + (s[to - 1] as u32 - 0x30) as nat
    }
}

/// The number that a text writes: an optional plus sign, then nothing but
/// decimal digits, at least one; `None` for any other text and for a number
/// that does not fit in 64 bits.
pub open spec fn parse_u64(s: Seq<char>) -> Option<u64> {
    let from: int = if s.len() > 0 && s[0] == '+' {
        1
    } else {
        0
    };
    if s.len() > from && (forall|i: int| from <= i < s.len() ==> is_decimal_digit(#[trigger] s[i]))
        && digits_value(s, from, s.len() as int) <= u64::MAX {
        Some(digits_value(s, from, s.len() as int) as u64)
    } else {
        None
    }
}

proof fn lemma_digits_value_grows(s: Seq<char>, from: int, mid: int, to: int)
    requires
        0 <= from <= mid <= to <= s.len(),
        forall|i: int| from <= i < to ==> is_decimal_digit(#[trigger] s[i]),
    ensures
        digits_value(s, from, mid) <= digits_value(s, from, to),
    decreases to - mid,
{
    if mid < to {
        lemma_digits_value_grows(s, from, mid, to - 1);
        assert(is_decimal_digit(s[to - 1]));
    }
}

/// Reads the number that the characters from `from` on write.
#[verifier::loop_isolation(false)]
pub fn parse_number(s: &[char], from: usize) -> (r: Option<u64>)
    requires
        from <= s.len(),
    ensures
        r == parse_u64(s@.skip(from as int)),
{
    let ghost t = s@.skip(from as int);
    let len: usize = s.len();
    let start: usize = if from < len && s[from] == '+' {
        from + 1
    } else {
        from
    };
    let ghost first: int = start - from;
    if start >= len {
        return None;
    }
    let mut value: u64 = 0;
    let mut i: usize = start;
    while i < len
        invariant
            from <= start <= i <= len,
            len == s.len(),
            t == s@.skip(from as int),
            t.len() == len - from,
            first == start - from,
            forall|j: int| first <= j < i - from ==> is_decimal_digit(#[trigger] t[j]),
            value == digits_value(t, first, i - from),
        decreases len - i,
    {
        let c: char = s[i];
        assert(t[i - from] == c);
        if !('0' <= c && c <= '9') {
            return None;
        }
        let digit: u64 = (c as u32 - 0x30) as u64;
        let next: u128 = value as u128 * 10 + digit as u128;
        if next > u64::MAX as u128 {
            proof {
                if forall|j: int| first <= j < t.len() ==> is_decimal_digit(#[trigger] t[j]) {
                    lemma_digits_value_grows(t, first, i - from + 1, t.len() as int);
                }
            }
            return None;
        }
        value = next as u64;
        i += 1;
    }
    Some(value)
}

/// `s` without the occurrences of `c` at its end.
pub open spec fn trimmed_end(s: Seq<char>, c: char) -> Seq<char>
    decreases s.len(),
{
    if s.len() > 0 && s.last() == c {
        trimmed_end(s.drop_last(), c)
    } else {
        s
    }
}

/// Cuts the occurrences of `c` off the end of `s`.
pub fn trim_end_char<'a>(s: &'a str, c: char) -> (r: &'a str)
    ensures
        r@ == trimmed_end(s@, c),
{
    let chars = chars_of(s);
    let mut end: usize = chars.len();
    assert(s@.take(end as int) =~= s@);
    while end > 0 && chars[end - 1] == c
        invariant
            end <= chars.len(),
            chars@ == s@,
            trimmed_end(s@.take(end as int), c) == trimmed_end(s@, c),
        decreases end,
    {
        assert(s@.take(end as int).drop_last() =~= s@.take(end - 1));
        end -= 1;
    }
    let r = s.substring_char(0, end);
    assert(r@ =~= s@.take(end as int));
    r
}

/// The letter of a drive, from a text such as `C`, `C:` or `C:\`: the text
/// without the backslashes at its end and then without the colons at its
/// end.
pub open spec fn drive_letter_of(drive: Seq<char>) -> Seq<char> {
    trimmed_end(trimmed_end(drive, '\\'), ':')
}

/// Takes the letter out of the name of a drive.
pub fn drive_letter<'a>(drive: &'a str) -> (r: &'a str)
    ensures
        r@ == drive_letter_of(drive@),
{
    trim_end_char(trim_end_char(drive, '\\'), ':')
}

/// The index of the first character of `s` at or after `at` that is no
/// white space.
pub open spec fn skip_white(s: Seq<char>, at: int) -> int
    decreases s.len() - at,
{
    if 0 <= at < s.len() && white_space(s[at]) {
        skip_white(s, at + 1)
    } else {
        at
    }
}

/// The index behind the last character among the first `upto` of `s` that
/// is no white space, and `from` at least.
pub open spec fn skip_white_back(s: Seq<char>, from: int, upto: int) -> int
    decreases upto,
{
    if 0 <= from < upto <= s.len() && white_space(s[upto - 1]) {
        skip_white_back(s, from, upto - 1)
    } else {
        upto
    }
}

/// `s` without the white space at its start and at its end.
pub open spec fn trimmed(s: Seq<char>) -> Seq<char> {
    let start = skip_white(s, 0);
    if start >= s.len() {
        Seq::empty()
    } else {
        s.subrange(start, skip_white_back(s, start, s.len() as int))
    }
}

/// Cuts the white space off both ends of a text.
pub fn trim<'a>(s: &'a str) -> (r: &'a str)
    ensures
        r@ == trimmed(s@),
{
    let chars = chars_of(s);
    let len: usize = chars.len();
    let mut start: usize = 0;
    while start < len && chars[start].is_whitespace()
        invariant
            start <= len,
            len == chars@.len(),
            chars@ == s@,
            skip_white(s@, start as int) == skip_white(s@, 0),
        decreases len - start,
    {
        start += 1;
    }
    if start >= len {
        let r = s.substring_char(0, 0);
        assert(r@ =~= Seq::<char>::empty());
        return r;
    }
    let mut end: usize = len;
    while end > start && chars[end - 1].is_whitespace()
        invariant
            start <= end <= len,
            len == chars@.len(),
            chars@ == s@,
            skip_white_back(s@, start as int, end as int) == skip_white_back(
                s@,
                start as int,
                len as int,
            ),
        decreases end,
    {
        end -= 1;
    }
    s.substring_char(start, end)
}

/// The index of the first line feed of `s` at or after `at`, or the length
/// of `s`.
pub open spec fn line_end(s: Seq<char>, at: int) -> int
    decreases s.len() - at,
{
    if 0 <= at < s.len() && s[at] != '\n' {
        line_end(s, at + 1)
    } else {
        at
    }
}

pub proof fn lemma_line_end(s: Seq<char>, at: int)
    requires
        0 <= at <= s.len(),
    ensures
        at <= line_end(s, at) <= s.len(),
    decreases s.len() - at,
{
    if at < s.len() && s[at] != '\n' {
        lemma_line_end(s, at + 1);
    }
}

/// The line that `s[at..end]` holds, where `end` is the end of the line: a
/// carriage return in front of the line feed is no part of it.
pub open spec fn line_text(s: Seq<char>, at: int, end: int) -> Seq<char> {
    if at < end < s.len() && s[end - 1] == '\r' {
        s.subrange(at, end - 1)
    } else {
        s.subrange(at, end)
    }
}

/// The lines of `s` from `at` on. A line ends with a line feed, or with a
/// carriage return and a line feed; the last line may go without.
pub open spec fn lines_from(s: Seq<char>, at: int) -> Seq<Seq<char>>
    decreases s.len() - at,
    via lines_from_decreases
{
    if at < 0 || at >= s.len() {
        Seq::empty()
    } else if line_end(s, at) >= s.len() {
        seq![line_text(s, at, line_end(s, at))]
    } else {
        seq![line_text(s, at, line_end(s, at))] + lines_from(s, line_end(s, at) + 1)
    }
}

#[via_fn]
proof fn lines_from_decreases(s: Seq<char>, at: int) {
    if 0 <= at < s.len() {
        lemma_line_end(s, at);
    }
}

/// The lines of a text.
pub open spec fn lines_of(s: Seq<char>) -> Seq<Seq<char>> {
    lines_from(s, 0)
}

/// The texts of a list of strings.
pub open spec fn string_texts(list: Seq<String>) -> Seq<Seq<char>> {
    Seq::new(list.len(), |i: int| list[i]@)
}

/// Splits a text into its lines.
pub fn split_lines(s: &str) -> (r: Vec<String>)
    ensures
        string_texts(r@) == lines_of(s@),
{
    let chars = chars_of(s);
    let len: usize = chars.len();
    let mut lines: Vec<String> = Vec::new();
    let mut at: usize = 0;
    assert(string_texts(lines@) =~= Seq::<Seq<char>>::empty());
    while at < len
        invariant
            len == chars@.len(),
            chars@ == s@,
            string_texts(lines@) + lines_from(s@, at as int) == lines_from(s@, 0),
        decreases len - at,
    {
        let ghost before = string_texts(lines@);
        let mut end: usize = at;
        while end < len && chars[end] != '\n'
            invariant
                at <= end <= len,
                len == chars@.len(),
                chars@ == s@,
                line_end(s@, end as int) == line_end(s@, at as int),
            decreases len - end,
        {
            end += 1;
        }
        let stop: usize = if at < end && end < len && chars[end - 1] == '\r' {
            end - 1
        } else {
            end
        };
        let line = s.substring_char(at, stop).to_owned();
        let ghost l = line@;
        let ghost rest = lines_from(s@, end + 1);
        lines.push(line);
        assert(string_texts(lines@) =~= before + seq![l]);
        assert((before + seq![l]) + rest =~= before + (seq![l] + rest));
        if end >= len {
            assert(before + seq![l] =~= before + (seq![l] + Seq::<Seq<char>>::empty()));
            at = len;
        } else {
            at = end + 1;
        }
    }
    assert(string_texts(lines@) + Seq::<Seq<char>>::empty() =~= string_texts(lines@));
    lines
}

/// `s` from `at` on without the occurrences of `pat`, found from left to
/// right.
pub open spec fn without_from(s: Seq<char>, pat: Seq<char>, at: int) -> Seq<char>
    decreases s.len() - at,
{
    if at < 0 || at >= s.len() {
        Seq::empty()
    } else if pat.len() > 0 && text_at(s, at, pat) {
        without_from(s, pat, at + pat.len())
    } else {
        seq![s[at]] + without_from(s, pat, at + 1)
    }
}

/// `s` without the occurrences of `pat`.
pub open spec fn without(s: Seq<char>, pat: Seq<char>) -> Seq<char> {
    without_from(s, pat, 0)
}

/// `s` from its first occurrence of `pat` on, without that occurrence, up
/// to the next occurrence of `pat`; `None` where `pat` does not occur.
pub open spec fn piece_after(s: Seq<char>, pat: Seq<char>) -> Option<Seq<char>> {
    match first_index_of(s, pat, 0) {
        None => None,
        Some(i) => match first_index_of(s, pat, i + pat.len()) {
            Some(j) => Some(s.subrange(i + pat.len(), j)),
            None => Some(s.skip(i + pat.len())),
        },
    }
}

/// Takes what stands between the first occurrence of `pat` and the next
/// one.
pub fn take_piece_after<'a>(s: &'a str, pat: &str) -> (r: Option<&'a str>)
    ensures
        match r {
            Some(piece) => piece_after(s@, pat@) == Some(piece@),
            None => piece_after(s@, pat@).is_none(),
        },
{
    let chars = chars_of(s);
    let p = chars_of(pat);
    proof {
        lemma_first_index_of(s@, pat@, 0);
    }
    match chars_find(chars.as_slice(), p.as_slice(), 0) {
        None => None,
        Some(i) => {
            let from: usize = i + p.len();
            proof {
                lemma_first_index_of(s@, pat@, from as int);
            }
            match chars_find(chars.as_slice(), p.as_slice(), from) {
                Some(j) => Some(s.substring_char(from, j)),
                None => {
                    let r = s.substring_char(from, chars.len());
                    assert(r@ =~= s@.skip(from as int));
                    Some(r)
                },
            }
        },
    }
}

/// `s` without the occurrences of `c` at its start.
pub open spec fn trimmed_start(s: Seq<char>, c: char) -> Seq<char>
    decreases s.len(),
{
    if s.len() > 0 && s[0] == c {
        trimmed_start(s.drop_first(), c)
    } else {
        s
    }
}

/// Cuts the occurrences of `c` off the start of `s`.
pub fn trim_start_char<'a>(s: &'a str, c: char) -> (r: &'a str)
    ensures
        r@ == trimmed_start(s@, c),
{
    let chars = chars_of(s);
    let len: usize = chars.len();
    let mut start: usize = 0;
    assert(s@.skip(0) =~= s@);
    while start < len && chars[start] == c
        invariant
            start <= len,
            len == chars@.len(),
            chars@ == s@,
            trimmed_start(s@.skip(start as int), c) == trimmed_start(s@, c),
        decreases len - start,
    {
        assert(s@.skip(start as int).drop_first() =~= s@.skip(start + 1));
        start += 1;
    }
    let r = s.substring_char(start, len);
    assert(r@ =~= s@.skip(start as int));
    r
}

/// The index of the last occurrence of `p` in `s` that starts before
/// `upto`.
pub open spec fn last_index_of_text(s: Seq<char>, p: Seq<char>, upto: int) -> Option<int>
    decreases upto,
{
    if upto <= 0 {
        None
    } else if text_at(s, upto - 1, p) {
        Some(upto - 1)
    } else {
        last_index_of_text(s, p, upto - 1)
    }
}

/// Finds the last occurrence of `p` in `s`.
pub fn chars_rfind_text(s: &[char], p: &[char]) -> (r: Option<usize>)
    ensures
        match r {
            Some(i) => last_index_of_text(s@, p@, (s@.len() + 1) as int) == Some(i as int) && i + p@.len()
                <= s@.len(),
            None => last_index_of_text(s@, p@, (s@.len() + 1) as int).is_none(),
        },
{
    if p.len() > s.len() {
        assert(last_index_of_text(s@, p@, (s@.len() + 1) as int).is_none()) by {
            lemma_no_text_beyond(s@, p@, (s@.len() + 1) as int);
        }
        return None;
    }
    if p.len() == 0 {
        assert(text_at(s@, s@.len() as int, p@));
        return Some(s.len());
    }
    let top: usize = s.len() - p.len() + 1;
    proof {
        lemma_last_index_cut(s@, p@, (s@.len() + 1) as int, top as int);
    }
    let mut k: usize = top;
    while k > 0
        invariant
            k <= top,
            top + p@.len() == s@.len() + 1,
            last_index_of_text(s@, p@, k as int) == last_index_of_text(s@, p@, (s@.len() + 1) as int),
        decreases k,
    {
        if chars_match_at(s, k - 1, p) {
            return Some(k - 1);
        }
        k -= 1;
    }
    None
}

proof fn lemma_no_text_beyond(s: Seq<char>, p: Seq<char>, upto: int)
    requires
        p.len() > s.len(),
    ensures
        last_index_of_text(s, p, upto).is_none(),
    decreases upto,
{
    if upto > 0 {
        lemma_no_text_beyond(s, p, upto - 1);
    }
}

proof fn lemma_last_index_cut(s: Seq<char>, p: Seq<char>, upto: int, top: int)
    requires
        top + p.len() == s.len() + 1,
        top <= upto,
        top >= 0,
    ensures
        last_index_of_text(s, p, upto) == last_index_of_text(s, p, top),
    decreases upto,
{
    if upto > top {
        lemma_last_index_cut(s, p, upto - 1, top);
    }
}

/// A whole number in decimal, with a minus sign where it is negative.
pub open spec fn signed_decimal_text(n: int) -> Seq<char> {
    if n < 0 {
        "-"@ + decimal_text((-n) as nat)
    } else {
        decimal_text(n as nat)
    }
}

/// Writes a whole number in decimal.
pub fn signed_decimal_string(n: i32) -> (r: String)
    ensures
        r@ == signed_decimal_text(n as int),
{
    if n < 0 {
        let mut text = "-".to_owned();
        let magnitude: u64 = (0 - n as i64) as u64;
        let digits = decimal_string(magnitude);
        text.append(digits.as_str());
        text
    } else {
        decimal_string(n as u64)
    }
}

/// Tells whether `pattern` occurs in `text`.
pub fn str_contains(text: &str, pattern: &str) -> (r: bool)
    ensures
        r == contains_text(text@, pattern@),
{
    let chars = chars_of(text);
    let p = chars_of(pattern);
    chars_contain(chars.as_slice(), p.as_slice())
}

/// Tells whether `text` begins with `pattern`.
pub fn str_starts_with(text: &str, pattern: &str) -> (r: bool)
    ensures
        r == has_prefix(text@, pattern@),
{
    let chars = chars_of(text);
    let p = chars_of(pattern);
    chars_start_with(chars.as_slice(), p.as_slice())
}

/// Tells whether `text` ends with `pattern`.
pub fn str_ends_with(text: &str, pattern: &str) -> (r: bool)
    ensures
        r == has_suffix(text@, pattern@),
{
    let chars = chars_of(text);
    let p = chars_of(pattern);
    chars_end_with(chars.as_slice(), p.as_slice())
}

/// Tells whether `pattern` occurs in the characters `text`.
pub fn chars_contain_str(text: &[char], pattern: &str) -> (r: bool)
    ensures
        r == contains_text(text@, pattern@),
{
    let p = chars_of(pattern);
    chars_contain(text, p.as_slice())
}

/// Tells whether the characters `text` begin with `pattern`.
pub fn chars_start_with_str(text: &[char], pattern: &str) -> (r: bool)
    ensures
        r == has_prefix(text@, pattern@),
{
    let p = chars_of(pattern);
    chars_start_with(text, p.as_slice())
}

/// Tells whether the characters `text` end with `pattern`.
pub fn chars_end_with_str(text: &[char], pattern: &str) -> (r: bool)
    ensures
        r == has_suffix(text@, pattern@),
{
    let p = chars_of(pattern);
    chars_end_with(text, p.as_slice())
}

} // verus!
