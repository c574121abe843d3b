//! The parts of a time as a person writes them: `12:30`, `16 aug`,
//! `tomorrow`, `73h`.
//!
//! A line is a list of parts with blanks between them. Each part is read
//! from the front of the text, and what follows it is handed back. Letters
//! are read without regard to case.

use vstd::prelude::*;
use vstd::string::StrSliceExecFns;

verus! {

/// One part of a written time.
#[derive(Debug, Clone, Copy, PartialEq, Eq, Structural)]
pub enum TimePart {
    /// Hour and minute, written `12:30`.
    HM(u8, u8),
    /// Month and day, written `16 aug` or `08-16`.
    MD(u8, u8),
    /// The word `today`.
    Today,
    /// The word `tomorrow`.
    Tomorrow,
    /// A day of the week, counted from Sunday as zero, written `wed`.
    WeekDay(u8),
    /// A month, counted from January as one, written `aug`.
    Month(u8),
    /// A year, written with four digits.
    Year(i32),
    /// Year, month and day.
    YMD(i32, u8, u8),
    /// A number of hours, written `73h`.
    Hours(i64),
    /// A number of minutes, written `71m`.
    Minutes(i64),
    /// A number of seconds, written `3600s`.
    Seconds(i64),
}

/// The kinds of character that the grammar tells apart.
#[derive(Debug, Clone, Copy, PartialEq, Eq, Structural)]
pub enum CharClass {
    /// The digits `0` to `9`.
    Digit,
    /// The letters `a` to `z` and `A` to `Z`.
    Letter,
    /// Space and tab.
    Blank,
}

/// Whether the character belongs to the class.
pub open spec fn in_class(c: char, class: CharClass) -> bool {
    match class {
        CharClass::Digit => 48 <= c as u32 <= 57,
        CharClass::Letter => 65 <= c as u32 <= 90 || 97 <= c as u32 <= 122,
        CharClass::Blank => c as u32 == 32 || c as u32 == 9,
    }
}

/// The code of the character, and for a capital letter that of its small
/// letter.
pub open spec fn lowered(c: char) -> u32 {
    if 65 <= c as u32 <= 90 {
        (c as u32 + 32) as u32
    } else {
        c as u32
    }
}

/// Where the run of characters of the class that starts at `pos` ends.
pub open spec fn run_end(s: Seq<char>, pos: int, class: CharClass) -> int
    decreases s.len() - pos,
{
    if 0 <= pos < s.len() && in_class(s[pos], class) {
        run_end(s, pos + 1, class)
    } else {
        pos
    }
}

/// The number that the digits from `from` up to `to` write.
pub open spec fn number(s: Seq<char>, from: int, to: int) -> int
    decreases to - from,
{
    if to <= from {
        0
    } else {
        number(s, from, to - 1) * 10 + (s[to - 1] as u32 - 48)
    }
}

/// A number without sign at `pos`, no greater than `max`: its value and
/// where it ends. There is none where no digit stands at `pos`, and none
/// where the digits write more than `max`.
pub open spec fn unsigned_at(s: Seq<char>, pos: int, max: int) -> Option<(int, int)> {
    let end = run_end(s, pos, CharClass::Digit);
    if end == pos || number(s, pos, end) > max {
        None
    } else {
        Some((number(s, pos, end), end))
    }
}

/// A number at `pos` with `-` or `+` in front or without sign, between
/// `min` and `max`: its value and where it ends.
pub open spec fn signed_at(s: Seq<char>, pos: int, min: int, max: int) -> Option<(int, int)> {
    let negative = 0 <= pos < s.len() && s[pos] == '-';
    let start = if 0 <= pos < s.len() && (s[pos] == '-' || s[pos] == '+') {
        pos + 1
    } else {
        pos
    };
    let end = run_end(s, start, CharClass::Digit);
    let size = number(s, start, end);
    if end == start {
        None
    } else if negative {
        if -size < min {
            None
        } else {
            Some((-size, end))
        }
    } else {
        if size > max {
            None
        } else {
            Some((size, end))
        }
    }
}

/// Whether `word`, written in small letters, stands at `pos`, in small or
/// capital letters.
pub open spec fn keyword_at(s: Seq<char>, pos: int, word: Seq<char>) -> bool {
    &&& 0 <= pos
    &&& pos + word.len() <= s.len()
    &&& forall|i: int| 0 <= i < word.len() ==> lowered(#[trigger] s[pos + i]) == word[i] as u32
}

/// The month of three letters in small print.
pub open spec fn month_code(a: u32, b: u32, c: u32) -> Option<u8> {
    if a == 'j' as u32 && b == 'a' as u32 && c == 'n' as u32 {
        Some(1u8)
    } else if a == 'f' as u32 && b == 'e' as u32 && c == 'b' as u32 {
        Some(2u8)
    } else if a == 'm' as u32 && b == 'a' as u32 && c == 'r' as u32 {
        Some(3u8)
    } else if a == 'a' as u32 && b == 'p' as u32 && c == 'r' as u32 {
        Some(4u8)
    } else if a == 'm' as u32 && b == 'a' as u32 && c == 'y' as u32 {
        Some(5u8)
    } else if a == 'j' as u32 && b == 'u' as u32 && c == 'n' as u32 {
        Some(6u8)
    } else if a == 'j' as u32 && b == 'u' as u32 && c == 'l' as u32 {
        Some(7u8)
    } else if a == 'a' as u32 && b == 'u' as u32 && c == 'g' as u32 {
        Some(8u8)
    } else if a == 's' as u32 && b == 'e' as u32 && c == 'p' as u32 {
        Some(9u8)
    } else if a == 'o' as u32 && b == 'c' as u32 && c == 't' as u32 {
        Some(10u8)
    } else if a == 'n' as u32 && b == 'o' as u32 && c == 'v' as u32 {
        Some(11u8)
    } else if a == 'd' as u32 && b == 'e' as u32 && c == 'c' as u32 {
        Some(12u8)
    } else {
        None
    }
}

/// The day of the week of three letters in small print, counted from
/// Sunday as zero.
pub open spec fn weekday_code(a: u32, b: u32, c: u32) -> Option<u8> {
    if a == 's' as u32 && b == 'u' as u32 && c == 'n' as u32 {
        Some(0u8)
    } else if a == 'm' as u32 && b == 'o' as u32 && c == 'n' as u32 {
        Some(1u8)
    } else if a == 't' as u32 && b == 'u' as u32 && c == 'e' as u32 {
        Some(2u8)
    } else if a == 'w' as u32 && b == 'e' as u32 && c == 'd' as u32 {
        Some(3u8)
    } else if a == 't' as u32 && b == 'h' as u32 && c == 'u' as u32 {
        Some(4u8)
    } else if a == 'f' as u32 && b == 'r' as u32 && c == 'i' as u32 {
        Some(5u8)
    } else if a == 's' as u32 && b == 'a' as u32 && c == 't' as u32 {
        Some(6u8)
    } else {
        None
    }
}

/// The month that the text from `from` up to `to` names: the first three
/// letters of its English name, in small or capital letters.
pub open spec fn month_number(s: Seq<char>, from: int, to: int) -> Option<u8> {
    if to - from == 3 && 0 <= from && to <= s.len() {
        month_code(lowered(s[from]), lowered(s[from + 1]), lowered(s[from + 2]))
    } else {
        None
    }
}

/// The day of the week that the text from `from` up to `to` names: the
/// first three letters of its English name, in small or capital letters.
pub open spec fn weekday_number(s: Seq<char>, from: int, to: int) -> Option<u8> {
    if to - from == 3 && 0 <= from && to <= s.len() {
        weekday_code(lowered(s[from]), lowered(s[from + 1]), lowered(s[from + 2]))
    } else {
        None
    }
}

/// Hour and minute at `pos`: two numbers up to 255 with a colon between.
pub open spec fn hm_at(s: Seq<char>, pos: int) -> Option<(TimePart, int)> {
    match unsigned_at(s, pos, 255) {
        Some((h, colon)) => if colon < s.len() && s[colon] == ':' {
            match unsigned_at(s, colon + 1, 255) {
                Some((m, end)) => Some((TimePart::HM(h as u8, m as u8), end)),
                None => None,
            }
        } else {
            None
        },
        None => None,
    }
}

/// Day and month at `pos`, written as a number, blanks and a month's name.
pub open spec fn day_month_at(s: Seq<char>, pos: int) -> Option<(TimePart, int)> {
    match unsigned_at(s, pos, 255) {
        Some((d, after)) => {
            let word = run_end(s, after, CharClass::Blank);
            let end = run_end(s, word, CharClass::Letter);
            if word == after || end == word {
                None
            } else {
                match month_number(s, word, end) {
                    Some(m) => Some((TimePart::MD(m, d as u8), end)),
                    None => None,
                }
            }
        },
        None => None,
    }
}

/// Month and day at `pos`, written as two numbers with a hyphen between.
pub open spec fn month_day_at(s: Seq<char>, pos: int) -> Option<(TimePart, int)> {
    match unsigned_at(s, pos, 255) {
        Some((m, hyphen)) => if hyphen < s.len() && s[hyphen] == '-' {
            match unsigned_at(s, hyphen + 1, 255) {
                Some((d, end)) => Some((TimePart::MD(m as u8, d as u8), end)),
                None => None,
            }
        } else {
            None
        },
        None => None,
    }
}

/// Month and day at `pos`, as `16 aug` or, failing that, as `08-16`.
pub open spec fn md_at(s: Seq<char>, pos: int) -> Option<(TimePart, int)> {
    match day_month_at(s, pos) {
        Some(found) => Some(found),
        None => month_day_at(s, pos),
    }
}

/// The word `today` at `pos`.
pub open spec fn today_at(s: Seq<char>, pos: int) -> Option<(TimePart, int)> {
    if keyword_at(s, pos, seq!['t', 'o', 'd', 'a', 'y']) {
        Some((TimePart::Today, pos + 5))
    } else {
        None
    }
}

/// The word `tomorrow` at `pos`.
pub open spec fn tomorrow_at(s: Seq<char>, pos: int) -> Option<(TimePart, int)> {
    if keyword_at(s, pos, seq!['t', 'o', 'm', 'o', 'r', 'r', 'o', 'w']) {
        Some((TimePart::Tomorrow, pos + 8))
    } else {
        None
    }
}

/// A year at `pos`: a run of exactly four digits.
pub open spec fn year_at(s: Seq<char>, pos: int) -> Option<(TimePart, int)> {
    let end = run_end(s, pos, CharClass::Digit);
    if end - pos == 4 {
        Some((TimePart::Year(number(s, pos, end) as i32), end))
    } else {
        None
    }
}

/// A number that fits `i64` at `pos`, then blanks or none, then the letter
/// `unit`: the number and where the letter ends.
pub open spec fn amount_at(s: Seq<char>, pos: int, unit: char) -> Option<(int, int)> {
    match signed_at(s, pos, i64::MIN as int, i64::MAX as int) {
        Some((amount, after)) => {
            let letter = run_end(s, after, CharClass::Blank);
            if letter < s.len() && s[letter] == unit {
                Some((amount, letter + 1))
            } else {
                None
            }
        },
        None => None,
    }
}

/// A number of hours at `pos`, as `73h`.
pub open spec fn hours_at(s: Seq<char>, pos: int) -> Option<(TimePart, int)> {
    match amount_at(s, pos, 'h') {
        Some((amount, end)) => Some((TimePart::Hours(amount as i64), end)),
        None => None,
    }
}

/// A number of minutes at `pos`, as `71m`.
pub open spec fn minutes_at(s: Seq<char>, pos: int) -> Option<(TimePart, int)> {
    match amount_at(s, pos, 'm') {
        Some((amount, end)) => Some((TimePart::Minutes(amount as i64), end)),
        None => None,
    }
}

/// A number of seconds at `pos`, as `3600s`.
pub open spec fn seconds_at(s: Seq<char>, pos: int) -> Option<(TimePart, int)> {
    match amount_at(s, pos, 's') {
        Some((amount, end)) => Some((TimePart::Seconds(amount as i64), end)),
        None => None,
    }
}

/// A month's name at `pos`: a run of letters that names a month.
pub open spec fn month_name_at(s: Seq<char>, pos: int) -> Option<(TimePart, int)> {
    let end = run_end(s, pos, CharClass::Letter);
    if end == pos {
        None
    } else {
        match month_number(s, pos, end) {
            Some(m) => Some((TimePart::Month(m), end)),
            None => None,
        }
    }
}

/// The name of a day of the week at `pos`: a run of letters that names
/// one.
pub open spec fn weekday_at(s: Seq<char>, pos: int) -> Option<(TimePart, int)> {
    let end = run_end(s, pos, CharClass::Letter);
    if end == pos {
        None
    } else {
        match weekday_number(s, pos, end) {
            Some(d) => Some((TimePart::WeekDay(d), end)),
            None => None,
        }
    }
}

/// The first of two readings that is one.
pub open spec fn or_else(first: Option<(TimePart, int)>, second: Option<(TimePart, int)>) -> Option<
    (TimePart, int),
> {
    match first {
        Some(found) => Some(found),
        None => second,
    }
}

/// A part at `pos`: the first reading that fits, tried in this order: hour
/// and minute, month and day, `today`, `tomorrow`, a year, hours, minutes,
/// seconds, a month's name, a day of the week.
pub open spec fn part_at(s: Seq<char>, pos: int) -> Option<(TimePart, int)> {
    or_else(
        hm_at(s, pos),
        or_else(
            md_at(s, pos),
            or_else(
                today_at(s, pos),
                or_else(
                    tomorrow_at(s, pos),
                    or_else(
                        year_at(s, pos),
                        or_else(
                            hours_at(s, pos),
                            or_else(
                                minutes_at(s, pos),
                                or_else(
                                    seconds_at(s, pos),
                                    or_else(month_name_at(s, pos), weekday_at(s, pos)),
                                ),
                            ),
                        ),
                    ),
                ),
            ),
        ),
    )
}

/// The parts that follow a part which ends at `pos`, each after at least
/// one blank, and where the last of them ends. Blanks that no part follows
/// are not read.
pub open spec fn more_parts(s: Seq<char>, pos: int) -> (Seq<TimePart>, int)
    decreases s.len() - pos,
{
    let start = run_end(s, pos, CharClass::Blank);
    if start == pos {
        (Seq::empty(), pos)
    } else {
        match part_at(s, start) {
            Some((part, end)) => if pos < end <= s.len() {
                let (rest, last) = more_parts(s, end);
                (seq![part] + rest, last)
            } else {
                (Seq::empty(), pos)
            },
            None => (Seq::empty(), pos),
        }
    }
}

/// The parts of a line and where they end: one part at least, and more
/// with blanks between.
pub open spec fn line_at(s: Seq<char>) -> Option<(Seq<TimePart>, int)> {
    match part_at(s, 0) {
        Some((part, end)) => {
            let (rest, last) = more_parts(s, end);
            Some((seq![part] + rest, last))
        },
        None => None,
    }
}

/// What a reader of one part hands back for a reading: what follows the
/// part, and the part.
pub open spec fn reading(input: Seq<char>, found: Option<(TimePart, int)>, r: Option<
    (&str, TimePart),
>) -> bool {
    match found {
        Some((part, end)) => r matches Some((rest, p)) && p == part && rest@ == input.skip(end),
        None => r.is_none(),
    }
}

/// A run ends inside the text, at or after its start, on a character that
/// is not of the class.
pub proof fn lemma_run_end(s: Seq<char>, pos: int, class: CharClass)
    requires
        0 <= pos <= s.len(),
    ensures
        pos <= run_end(s, pos, class) <= s.len(),
        forall|i: int| pos <= i < run_end(s, pos, class) ==> in_class(#[trigger] s[i], class),
        run_end(s, pos, class) < s.len() ==> !in_class(s[run_end(s, pos, class)], class),
    decreases s.len() - pos,
{
    if pos < s.len() && in_class(s[pos], class) {
        lemma_run_end(s, pos + 1, class);
    }
}

/// A run that is followed up to `to` ends where the run from `to` ends.
proof fn lemma_run_extends(s: Seq<char>, pos: int, to: int, class: CharClass)
    requires
        0 <= pos <= to <= s.len(),
        forall|i: int| pos <= i < to ==> in_class(#[trigger] s[i], class),
    ensures
        run_end(s, pos, class) == run_end(s, to, class),
    decreases to - pos,
{
    if pos < to {
        lemma_run_extends(s, pos + 1, to, class);
    }
}

/// More digits do not write less.
proof fn lemma_number_grows(s: Seq<char>, from: int, mid: int, to: int)
    requires
        0 <= from <= mid <= to <= s.len(),
        forall|i: int| from <= i < to ==> in_class(#[trigger] s[i], CharClass::Digit),
    ensures
        0 <= number(s, from, mid) <= number(s, from, to),
    decreases to - from,
{
    if from < to {
        if mid == to {
            lemma_number_grows(s, from, mid - 1, to - 1);
        } else {
            lemma_number_grows(s, from, mid, to - 1);
        }
        assert(in_class(s[to - 1], CharClass::Digit));
    }
}

/// Every reading of a part takes at least one character and ends inside
/// the text.
pub proof fn lemma_part_advances(s: Seq<char>, pos: int)
    requires
        0 <= pos <= s.len(),
    ensures
        part_at(s, pos) matches Some((_, end)) ==> pos < end <= s.len(),
{
    lemma_run_end(s, pos, CharClass::Digit);
    lemma_run_end(s, pos, CharClass::Letter);
    let digits = run_end(s, pos, CharClass::Digit);
    if digits < s.len() {
        lemma_run_end(s, digits + 1, CharClass::Digit);
        lemma_run_end(s, digits, CharClass::Blank);
        let word = run_end(s, digits, CharClass::Blank);
        lemma_run_end(s, word, CharClass::Letter);
    } else {
        lemma_run_end(s, digits, CharClass::Blank);
        lemma_run_end(s, run_end(s, digits, CharClass::Blank), CharClass::Letter);
    }
    let start = if pos < s.len() && (s[pos] == '-' || s[pos] == '+') {
        pos + 1
    } else {
        pos
    };
    lemma_run_end(s, start, CharClass::Digit);
    lemma_run_end(s, run_end(s, start, CharClass::Digit), CharClass::Blank);
}

/// The characters of a text.
fn to_chars(input: &str) -> (chars: Vec<char>)
    ensures
        chars@ == input@,
{
    let n = input.unicode_len();
    let mut chars: Vec<char> = Vec::new();
    let mut i: usize = 0;
    while i < n
        invariant
            n == input@.len(),
            i <= n,
            chars@ == input@.take(i as int),
        decreases n - i,
    {
        chars.push(input.get_char(i));
        proof {
            assert(chars@ =~= input@.take(i + 1));
        }
        i += 1;
    }
    proof {
        assert(input@.take(n as int) =~= input@);
    }
    chars
}

fn is_of(c: char, class: CharClass) -> (r: bool)
    ensures
        r == in_class(c, class),
{
    let code: u32 = c as u32;
    match class {
        CharClass::Digit => 48 <= code && code <= 57,
        CharClass::Letter => (65 <= code && code <= 90) || (97 <= code && code <= 122),
        CharClass::Blank => code == 32 || code == 9,
    }
}

fn lower(c: char) -> (code: u32)
    ensures
        code == lowered(c),
{
    let code: u32 = c as u32;
    if 65 <= code && code <= 90 {
        code + 32
    } else {
        code
    }
}

/// Where the run of the class that starts at `pos` ends.
fn scan_run(chars: &Vec<char>, pos: usize, class: CharClass) -> (end: usize)
    requires
        pos <= chars@.len(),
    ensures
        end == run_end(chars@, pos as int, class),
        pos <= end <= chars@.len(),
{
    let n = chars.len();
    let mut i: usize = pos;
    while i < n && is_of(chars[i], class)
        invariant
            n == chars@.len(),
            pos <= i <= n,
            forall|j: int| pos <= j < i ==> in_class(#[trigger] chars@[j], class),
        decreases n - i,
    {
        i += 1;
    }
    proof {
        lemma_run_extends(chars@, pos as int, i as int, class);
    }
    i
}

/// The number that the digits at `pos` write, if it is no greater than
/// `max`, and where they end.
fn scan_unsigned(chars: &Vec<char>, pos: usize, max: u64) -> (r: Option<(u64, usize)>)
    requires
        pos <= chars@.len(),
        max <= 0x8000_0000_0000_0000,
    ensures
        r matches Some((value, end)) ==> unsigned_at(chars@, pos as int, max as int) == Some(
            (value as int, end as int),
        ) && value <= max && pos < end <= chars@.len(),
        r.is_none() ==> unsigned_at(chars@, pos as int, max as int).is_none(),
{
    let end = scan_run(chars, pos, CharClass::Digit);
    proof {
        lemma_run_end(chars@, pos as int, CharClass::Digit);
    }
    if end == pos {
        return None;
    }
    let mut value: u64 = 0;
    let mut i: usize = pos;
    while i < end
        invariant
            pos <= i <= end <= chars@.len(),
            max <= 0x8000_0000_0000_0000,
            end == run_end(chars@, pos as int, CharClass::Digit),
            value == number(chars@, pos as int, i as int),
            value <= max,
            forall|j: int| pos <= j < end ==> in_class(#[trigger] chars@[j], CharClass::Digit),
        decreases end - i,
    {
        assert(in_class(chars@[i as int], CharClass::Digit));
        let d: u32 = chars[i] as u32 - 48;
        let next: u128 = value as u128 * 10 + d as u128;
        proof {
            assert(number(chars@, pos as int, i + 1) == value * 10 + d);
        }
        if next > max as u128 {
            proof {
                lemma_number_grows(chars@, pos as int, i + 1, end as int);
            }
            return None;
        }
        value = next as u64;
        i += 1;
    }
    Some((value, end))
}

/// The number with or without sign at `pos`, if it fits `i64`, and where
/// it ends.
fn scan_signed(chars: &Vec<char>, pos: usize) -> (r: Option<(i64, usize)>)
    requires
        pos <= chars@.len(),
    ensures
        r matches Some((value, end)) ==> signed_at(
            chars@,
            pos as int,
            i64::MIN as int,
            i64::MAX as int,
        ) == Some((value as int, end as int)) && pos < end <= chars@.len(),
        r.is_none() ==> signed_at(chars@, pos as int, i64::MIN as int, i64::MAX as int).is_none(),
{
    let n = chars.len();
    let negative = pos < n && chars[pos] == '-';
    let start = if pos < n && (chars[pos] == '-' || chars[pos] == '+') {
        pos + 1
    } else {
        pos
    };
    if negative {
        match scan_unsigned(chars, start, 0x8000_0000_0000_0000) {
            Some((size, end)) => Some(((-(size as i128)) as i64, end)),
            None => None,
        }
    } else {
        match scan_unsigned(chars, start, 0x7fff_ffff_ffff_ffff) {
            Some((size, end)) => Some((size as i64, end)),
            None => None,
        }
    }
}

/// Whether `word`, in small letters, stands at `pos`.
fn scan_keyword(chars: &Vec<char>, pos: usize, word: &Vec<char>) -> (found: bool)
    requires
        pos <= chars@.len(),
    ensures
        found == keyword_at(chars@, pos as int, word@),
{
    let n = chars.len();
    let len = word.len();
    if len > n - pos {
        return false;
    }
    let mut i: usize = 0;
    while i < len
        invariant
            n == chars@.len(),
            len == word@.len(),
            pos + len <= n,
            i <= len,
            forall|j: int| 0 <= j < i ==> lowered(#[trigger] chars@[pos + j]) == word@[j] as u32,
        decreases len - i,
    {
        if lower(chars[pos + i]) != word[i] as u32 {
            return false;
        }
        i += 1;
    }
    true
}

fn month_of(a: u32, b: u32, c: u32) -> (r: Option<u8>)
    ensures
        r == month_code(a, b, c),
{
    if a == 'j' as u32 && b == 'a' as u32 && c == 'n' as u32 {
        Some(1)
    } else if a == 'f' as u32 && b == 'e' as u32 && c == 'b' as u32 {
        Some(2)
    } else if a == 'm' as u32 && b == 'a' as u32 && c == 'r' as u32 {
        Some(3)
    } else if a == 'a' as u32 && b == 'p' as u32 && c == 'r' as u32 {
        Some(4)
    } else if a == 'm' as u32 && b == 'a' as u32 && c == 'y' as u32 {
        Some(5)
    } else if a == 'j' as u32 && b == 'u' as u32 && c == 'n' as u32 {
        Some(6)
    } else if a == 'j' as u32 && b == 'u' as u32 && c == 'l' as u32 {
        Some(7)
    } else if a == 'a' as u32 && b == 'u' as u32 && c == 'g' as u32 {
        Some(8)
    } else if a == 's' as u32 && b == 'e' as u32 && c == 'p' as u32 {
        Some(9)
    } else if a == 'o' as u32 && b == 'c' as u32 && c == 't' as u32 {
        Some(10)
    } else if a == 'n' as u32 && b == 'o' as u32 && c == 'v' as u32 {
        Some(11)
    } else if a == 'd' as u32 && b == 'e' as u32 && c == 'c' as u32 {
        Some(12)
    } else {
        None
    }
}

fn weekday_of(a: u32, b: u32, c: u32) -> (r: Option<u8>)
    ensures
        r == weekday_code(a, b, c),
{
    if a == 's' as u32 && b == 'u' as u32 && c == 'n' as u32 {
        Some(0)
    } else if a == 'm' as u32 && b == 'o' as u32 && c == 'n' as u32 {
        Some(1)
    } else if a == 't' as u32 && b == 'u' as u32 && c == 'e' as u32 {
        Some(2)
    } else if a == 'w' as u32 && b == 'e' as u32 && c == 'd' as u32 {
        Some(3)
    } else if a == 't' as u32 && b == 'h' as u32 && c == 'u' as u32 {
        Some(4)
    } else if a == 'f' as u32 && b == 'r' as u32 && c == 'i' as u32 {
        Some(5)
    } else if a == 's' as u32 && b == 'a' as u32 && c == 't' as u32 {
        Some(6)
    } else {
        None
    }
}

fn scan_month(chars: &Vec<char>, from: usize, to: usize) -> (r: Option<u8>)
    requires
        from <= to <= chars@.len(),
    ensures
        r == month_number(chars@, from as int, to as int),
{
    if to - from == 3 {
        month_of(lower(chars[from]), lower(chars[from + 1]), lower(chars[from + 2]))
    } else {
        None
    }
}

fn scan_weekday(chars: &Vec<char>, from: usize, to: usize) -> (r: Option<u8>)
    requires
        from <= to <= chars@.len(),
    ensures
        r == weekday_number(chars@, from as int, to as int),
{
    if to - from == 3 {
        weekday_of(lower(chars[from]), lower(chars[from + 1]), lower(chars[from + 2]))
    } else {
        None
    }
}

/// What stands in `found`, with the position as a mathematical integer.
pub open spec fn found_at(found: Option<(TimePart, usize)>) -> Option<(TimePart, int)> {
    match found {
        Some((part, end)) => Some((part, end as int)),
        None => None,
    }
}

fn scan_hm(chars: &Vec<char>, pos: usize) -> (r: Option<(TimePart, usize)>)
    requires
        pos <= chars@.len(),
    ensures
        found_at(r) == hm_at(chars@, pos as int),
        r matches Some((_, end)) ==> pos < end <= chars@.len(),
{
    match scan_unsigned(chars, pos, 255) {
        Some((h, colon)) => {
            if colon < chars.len() && chars[colon] == ':' {
                match scan_unsigned(chars, colon + 1, 255) {
                    Some((m, end)) => Some((TimePart::HM(h as u8, m as u8), end)),
                    None => None,
                }
            } else {
                None
            }
        },
        None => None,
    }
}

fn scan_day_month(chars: &Vec<char>, pos: usize) -> (r: Option<(TimePart, usize)>)
    requires
        pos <= chars@.len(),
    ensures
        found_at(r) == day_month_at(chars@, pos as int),
        r matches Some((_, end)) ==> pos < end <= chars@.len(),
{
    match scan_unsigned(chars, pos, 255) {
        Some((d, after)) => {
            let word = scan_run(chars, after, CharClass::Blank);
            let end = scan_run(chars, word, CharClass::Letter);
            if word == after || end == word {
                None
            } else {
                match scan_month(chars, word, end) {
                    Some(m) => Some((TimePart::MD(m, d as u8), end)),
                    None => None,
                }
            }
        },
        None => None,
    }
}

fn scan_month_day(chars: &Vec<char>, pos: usize) -> (r: Option<(TimePart, usize)>)
    requires
        pos <= chars@.len(),
    ensures
        found_at(r) == month_day_at(chars@, pos as int),
        r matches Some((_, end)) ==> pos < end <= chars@.len(),
{
    match scan_unsigned(chars, pos, 255) {
        Some((m, hyphen)) => {
            if hyphen < chars.len() && chars[hyphen] == '-' {
                match scan_unsigned(chars, hyphen + 1, 255) {
                    Some((d, end)) => Some((TimePart::MD(m as u8, d as u8), end)),
                    None => None,
                }
            } else {
                None
            }
        },
        None => None,
    }
}

fn scan_md(chars: &Vec<char>, pos: usize) -> (r: Option<(TimePart, usize)>)
    requires
        pos <= chars@.len(),
    ensures
        found_at(r) == md_at(chars@, pos as int),
        r matches Some((_, end)) ==> pos < end <= chars@.len(),
{
    match scan_day_month(chars, pos) {
        Some(found) => Some(found),
        None => scan_month_day(chars, pos),
    }
}

fn scan_today(chars: &Vec<char>, pos: usize) -> (r: Option<(TimePart, usize)>)
    requires
        pos <= chars@.len(),
    ensures
        found_at(r) == today_at(chars@, pos as int),
        r matches Some((_, end)) ==> pos < end <= chars@.len(),
{
    let word = vec!['t', 'o', 'd', 'a', 'y'];
    proof {
        assert(word@ =~= seq!['t', 'o', 'd', 'a', 'y']);
        assert(word@.len() == 5);
    }
    let n = chars.len();
    if scan_keyword(chars, pos, &word) {
        assert(pos + word@.len() <= n);
        Some((TimePart::Today, pos + 5))
    } else {
        None
    }
}

fn scan_tomorrow(chars: &Vec<char>, pos: usize) -> (r: Option<(TimePart, usize)>)
    requires
        pos <= chars@.len(),
    ensures
        found_at(r) == tomorrow_at(chars@, pos as int),
        r matches Some((_, end)) ==> pos < end <= chars@.len(),
{
    let word = vec!['t', 'o', 'm', 'o', 'r', 'r', 'o', 'w'];
    proof {
        assert(word@ =~= seq!['t', 'o', 'm', 'o', 'r', 'r', 'o', 'w']);
        assert(word@.len() == 8);
    }
    let n = chars.len();
    if scan_keyword(chars, pos, &word) {
        assert(pos + word@.len() <= n);
        Some((TimePart::Tomorrow, pos + 8))
    } else {
        None
    }
}

fn scan_year(chars: &Vec<char>, pos: usize) -> (r: Option<(TimePart, usize)>)
    requires
        pos <= chars@.len(),
    ensures
        found_at(r) == year_at(chars@, pos as int),
        r matches Some((_, end)) ==> pos < end <= chars@.len(),
{
    let end = scan_run(chars, pos, CharClass::Digit);
    if end - pos == 4 {
        proof {
            lemma_run_end(chars@, pos as int, CharClass::Digit);
            let s = chars@;
            let p = pos as int;
            assert(in_class(s[p], CharClass::Digit));
            assert(in_class(s[p + 1], CharClass::Digit));
            assert(in_class(s[p + 2], CharClass::Digit));
            assert(in_class(s[p + 3], CharClass::Digit));
            reveal_with_fuel(number, 5);
            assert(0 <= number(s, p, p + 4) <= 9999);
        }
        match scan_unsigned(chars, pos, 9999) {
            Some((year, _)) => Some((TimePart::Year(year as i32), end)),
            None => None,
        }
    } else {
        None
    }
}

fn scan_amount(chars: &Vec<char>, pos: usize, unit: char) -> (r: Option<(i64, usize)>)
    requires
        pos <= chars@.len(),
    ensures
        r matches Some((amount, end)) ==> amount_at(chars@, pos as int, unit) == Some(
            (amount as int, end as int),
        ) && pos < end <= chars@.len(),
        r.is_none() ==> amount_at(chars@, pos as int, unit).is_none(),
{
    match scan_signed(chars, pos) {
        Some((amount, after)) => {
            let letter = scan_run(chars, after, CharClass::Blank);
            if letter < chars.len() && chars[letter] == unit {
                Some((amount, letter + 1))
            } else {
                None
            }
        },
        None => None,
    }
}

fn scan_hours(chars: &Vec<char>, pos: usize) -> (r: Option<(TimePart, usize)>)
    requires
        pos <= chars@.len(),
    ensures
        found_at(r) == hours_at(chars@, pos as int),
        r matches Some((_, end)) ==> pos < end <= chars@.len(),
{
    match scan_amount(chars, pos, 'h') {
        Some((amount, end)) => Some((TimePart::Hours(amount), end)),
        None => None,
    }
}

fn scan_minutes(chars: &Vec<char>, pos: usize) -> (r: Option<(TimePart, usize)>)
    requires
        pos <= chars@.len(),
    ensures
        found_at(r) == minutes_at(chars@, pos as int),
        r matches Some((_, end)) ==> pos < end <= chars@.len(),
{
    match scan_amount(chars, pos, 'm') {
        Some((amount, end)) => Some((TimePart::Minutes(amount), end)),
        None => None,
    }
}

fn scan_seconds(chars: &Vec<char>, pos: usize) -> (r: Option<(TimePart, usize)>)
    requires
        pos <= chars@.len(),
    ensures
        found_at(r) == seconds_at(chars@, pos as int),
        r matches Some((_, end)) ==> pos < end <= chars@.len(),
{
    match scan_amount(chars, pos, 's') {
        Some((amount, end)) => Some((TimePart::Seconds(amount), end)),
        None => None,
    }
}

fn scan_month_name(chars: &Vec<char>, pos: usize) -> (r: Option<(TimePart, usize)>)
    requires
        pos <= chars@.len(),
    ensures
        found_at(r) == month_name_at(chars@, pos as int),
        r matches Some((_, end)) ==> pos < end <= chars@.len(),
{
    let end = scan_run(chars, pos, CharClass::Letter);
    if end == pos {
        None
    } else {
        match scan_month(chars, pos, end) {
            Some(m) => Some((TimePart::Month(m), end)),
            None => None,
        }
    }
}

fn scan_weekday_name(chars: &Vec<char>, pos: usize) -> (r: Option<(TimePart, usize)>)
    requires
        pos <= chars@.len(),
    ensures
        found_at(r) == weekday_at(chars@, pos as int),
        r matches Some((_, end)) ==> pos < end <= chars@.len(),
{
    let end = scan_run(chars, pos, CharClass::Letter);
    if end == pos {
        None
    } else {
        match scan_weekday(chars, pos, end) {
            Some(d) => Some((TimePart::WeekDay(d), end)),
            None => None,
        }
    }
}

fn scan_part(chars: &Vec<char>, pos: usize) -> (r: Option<(TimePart, usize)>)
    requires
        pos <= chars@.len(),
    ensures
        found_at(r) == part_at(chars@, pos as int),
        r matches Some((_, end)) ==> pos < end <= chars@.len(),
{
    if let Some(found) = scan_hm(chars, pos) {
        return Some(found);
    }
    if let Some(found) = scan_md(chars, pos) {
        return Some(found);
    }
    if let Some(found) = scan_today(chars, pos) {
        return Some(found);
    }
    if let Some(found) = scan_tomorrow(chars, pos) {
        return Some(found);
    }
    if let Some(found) = scan_year(chars, pos) {
        return Some(found);
    }
    if let Some(found) = scan_hours(chars, pos) {
        return Some(found);
    }
    if let Some(found) = scan_minutes(chars, pos) {
        return Some(found);
    }
    if let Some(found) = scan_seconds(chars, pos) {
        return Some(found);
    }
    if let Some(found) = scan_month_name(chars, pos) {
        return Some(found);
    }
    scan_weekday_name(chars, pos)
}

/// What follows the part that was found, with the part.
fn hand_back<'a>(input: &'a str, chars: &Vec<char>, found: Option<(TimePart, usize)>) -> (r: Option<
    (&'a str, TimePart),
>)
    requires
        chars@ == input@,
        found matches Some((_, end)) ==> end <= input@.len(),
    ensures
        reading(input@, found_at(found), r),
{
    match found {
        Some((part, end)) => {
            let rest = input.substring_char(end, chars.len());
            proof {
                assert(rest@ =~= input@.skip(end as int));
            }
            Some((rest, part))
        },
        None => None,
    }
}

/// The day of the week that `input` names with the first three letters of
/// its English name, in small or capital letters, counted from Sunday as
/// zero.
pub fn parse_weekday(input: &str) -> (day: Option<u8>)
    ensures
        day == weekday_number(input@, 0, input@.len() as int),
{
    let chars = to_chars(input);
    scan_weekday(&chars, 0, chars.len())
}

/// The month that `input` names with the first three letters of its
/// English name, in small or capital letters, counted from January as one.
pub fn parse_month(input: &str) -> (month: Option<u8>)
    ensures
        month == month_number(input@, 0, input@.len() as int),
{
    let chars = to_chars(input);
    scan_month(&chars, 0, chars.len())
}

impl TimePart {
    /// Reads a month's name at the front of `input`.
    pub fn parse_month_name(input: &str) -> (r: Option<(&str, TimePart)>)
        ensures
            reading(input@, month_name_at(input@, 0), r),
    {
        let chars = to_chars(input);
        let found = scan_month_name(&chars, 0);
        hand_back(input, &chars, found)
    }

    /// Reads the name of a day of the week at the front of `input`.
    pub fn parse_weekday(input: &str) -> (r: Option<(&str, TimePart)>)
        ensures
            reading(input@, weekday_at(input@, 0), r),
    {
        let chars = to_chars(input);
        let found = scan_weekday_name(&chars, 0);
        hand_back(input, &chars, found)
    }

    /// Reads hour and minute at the front of `input`, as `12:30`.
    pub fn parse_hm(input: &str) -> (r: Option<(&str, TimePart)>)
        ensures
            reading(input@, hm_at(input@, 0), r),
    {
        let chars = to_chars(input);
        let found = scan_hm(&chars, 0);
        hand_back(input, &chars, found)
    }

    /// Reads month and day at the front of `input`, as `11 jun`, `06-11`
    /// or `6-11`.
    pub fn parse_md(input: &str) -> (r: Option<(&str, TimePart)>)
        ensures
            reading(input@, md_at(input@, 0), r),
    {
        let chars = to_chars(input);
        let found = scan_md(&chars, 0);
        hand_back(input, &chars, found)
    }

    /// Reads the word `today` at the front of `input`.
    pub fn parse_today(input: &str) -> (r: Option<(&str, TimePart)>)
        ensures
            reading(input@, today_at(input@, 0), r),
    {
        let chars = to_chars(input);
        let found = scan_today(&chars, 0);
        hand_back(input, &chars, found)
    }

    /// Reads the word `tomorrow` at the front of `input`.
    pub fn parse_tomorrow(input: &str) -> (r: Option<(&str, TimePart)>)
        ensures
            reading(input@, tomorrow_at(input@, 0), r),
    {
        let chars = to_chars(input);
        let found = scan_tomorrow(&chars, 0);
        hand_back(input, &chars, found)
    }

    /// Reads a year of four digits at the front of `input`.
    pub fn parse_year(input: &str) -> (r: Option<(&str, TimePart)>)
        ensures
            reading(input@, year_at(input@, 0), r),
    {
        let chars = to_chars(input);
        let found = scan_year(&chars, 0);
        hand_back(input, &chars, found)
    }

    /// Reads a number of hours at the front of `input`, as `73h`.
    pub fn parse_hours(input: &str) -> (r: Option<(&str, TimePart)>)
        ensures
            reading(input@, hours_at(input@, 0), r),
    {
        let chars = to_chars(input);
        let found = scan_hours(&chars, 0);
        hand_back(input, &chars, found)
    }

    /// Reads a number of minutes at the front of `input`, as `71m`.
    pub fn parse_minutes(input: &str) -> (r: Option<(&str, TimePart)>)
        ensures
            reading(input@, minutes_at(input@, 0), r),
    {
        let chars = to_chars(input);
        let found = scan_minutes(&chars, 0);
        hand_back(input, &chars, found)
    }

    /// Reads a number of seconds at the front of `input`, as `3600s` or
    /// `3600 s`.
    pub fn parse_seconds(input: &str) -> (r: Option<(&str, TimePart)>)
        ensures
            reading(input@, seconds_at(input@, 0), r),
    {
        let chars = to_chars(input);
        let found = scan_seconds(&chars, 0);
        hand_back(input, &chars, found)
    }

    /// Reads a line: one part at least, and more parts with blanks between
    /// them. What follows the last part is handed back with the parts.
    /// `None` says that no part stands at the front of `input`.
    pub fn parse_line(input: &str) -> (r: Option<(&str, Vec<TimePart>)>)
        ensures
            r.is_some() <==> line_at(input@).is_some(),
            r matches Some((rest, parts)) ==> {
                &&& parts@ == line_at(input@).unwrap().0
                &&& rest@ == input@.skip(line_at(input@).unwrap().1)
                &&& parts@.len() >= 1
            },
    {
        let chars = to_chars(input);
        let n = chars.len();
        let mut parts: Vec<TimePart> = Vec::new();
        let mut pos: usize = match scan_part(&chars, 0) {
            Some((part, end)) => {
                parts.push(part);
                end
            },
            None => {
                return None;
            },
        };
        let mut more = true;
        while more
            invariant
                n == chars@.len(),
                chars@ == input@,
                pos <= n,
                parts@.len() >= 1,
                more ==> line_at(input@) == Some(
                    (parts@ + more_parts(input@, pos as int).0, more_parts(input@, pos as int).1),
                ),
                !more ==> line_at(input@) == Some((parts@, pos as int)),
            decreases n - pos + (if more { 1int } else { 0int }),
        {
            let start = scan_run(&chars, pos, CharClass::Blank);
            if start == pos {
                more = false;
            } else {
                match scan_part(&chars, start) {
                    Some((part, end)) => {
                        proof {
                            let (rest, last) = more_parts(input@, end as int);
                            assert(parts@ + (seq![part] + rest) =~= parts@.push(part) + rest);
                        }
                        parts.push(part);
                        pos = end;
                    },
                    None => {
                        more = false;
                    },
                }
            }
            proof {
                if !more {
                    assert(parts@ + Seq::<TimePart>::empty() =~= parts@);
                }
            }
        }
        let rest = input.substring_char(pos, n);
        proof {
            assert(rest@ =~= input@.skip(pos as int));
        }
        Some((rest, parts))
    }
}

} // verus!
