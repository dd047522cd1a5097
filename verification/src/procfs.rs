//! Reading the number of threads of a process from the text of its status
//! file.

use vstd::prelude::*;
use vstd::slice::slice_subrange;
use vstd::std_specs::iter::IteratorSpec;
use crate::text::{decimal, decimal_text, joined};
use vstd::string::StringExecFns;

verus! {

/// A white-space character.
pub open spec fn is_space(c: char) -> bool {
    ('\u{9}' <= c && c <= '\u{d}') || c == ' ' || c == '\u{85}' || c == '\u{a0}' || c == '\u{1680}'
        || ('\u{2000}' <= c && c <= '\u{200a}') || c == '\u{2028}' || c == '\u{2029}' || c
        == '\u{202f}' || c == '\u{205f}' || c == '\u{3000}'
}

/// A decimal digit.
pub open spec fn is_digit(c: char) -> bool {
    '0' <= c && c <= '9'
}

/// The number of characters of `text` from `from` on that come before the
/// next line feed.
pub open spec fn line_len(text: Seq<char>, from: int) -> nat
    decreases text.len() - from,
{
    if 0 <= from < text.len() && text[from] != '\n' {
        1 + line_len(text, from + 1)
    } else {
        0
    }
}

/// The first position from `from` on at which `line` holds no white space.
pub open spec fn skip_spaces(line: Seq<char>, from: int) -> int
    decreases line.len() - from,
{
    if 0 <= from < line.len() && is_space(line[from]) {
        skip_spaces(line, from + 1)
    } else {
        from
    }
}

/// The first position from `from` on at which `line` holds white space.
pub open spec fn skip_word(line: Seq<char>, from: int) -> int
    decreases line.len() - from,
{
    if 0 <= from < line.len() && !is_space(line[from]) {
        skip_word(line, from + 1)
    } else {
        from
    }
}

/// Where the second word of `line` begins; the length of `line` where it has
/// fewer than two words.
pub open spec fn second_word_start(line: Seq<char>) -> int {
    skip_spaces(line, skip_word(line, skip_spaces(line, 0)))
}

/// The second of the words of `line`, which white space keeps apart.
pub open spec fn second_word(line: Seq<char>) -> Option<Seq<char>> {
    let start = second_word_start(line);
    if start < line.len() {
        Some(line.subrange(start, skip_word(line, start)))
    } else {
        None
    }
}

/// `line` begins with `prefix`.
pub open spec fn starts_with(line: Seq<char>, prefix: Seq<char>) -> bool {
    line.len() >= prefix.len() && line.subrange(0, prefix.len() as int) == prefix
}

/// The number that a sequence of digits stands for.
pub open spec fn digits_value(digits: Seq<char>) -> nat
    decreases digits.len(),
{
    if digits.len() == 0 {
        0
    } else {
        digits_value(digits.drop_last()) * 10 + (digits.last() as nat - '0' as nat) as nat
    }
}

/// Every character of `digits` is a digit.
pub open spec fn all_digits(digits: Seq<char>) -> bool {
    forall|i: int| 0 <= i < digits.len() ==> is_digit(#[trigger] digits[i])
}

/// The number that `word` stands for: an optional sign and at least one
/// digit, within the range of `i64`.
pub open spec fn parse_i64(word: Seq<char>) -> Option<i64> {
    if word.len() == 0 {
        None
    } else {
        let signed = word[0] == '-' || word[0] == '+';
        let digits = if signed {
            word.subrange(1, word.len() as int)
        } else {
            word
        };
        let value = if word[0] == '-' {
            -(digits_value(digits) as int)
        } else {
            digits_value(digits) as int
        };
        if digits.len() == 0 || !all_digits(digits) || value < i64::MIN || value > i64::MAX {
            None
        } else {
            Some(value as i64)
        }
    }
}

/// The label of the line that holds the number of threads.
pub open spec fn threads_label() -> Seq<char> {
    "Threads:"@
}

/// The number of threads that the lines of `text` from `from` on name: the
/// number in the second word of the first line that begins with `Threads:`
/// and has a second word; none where that word is no number, and none where
/// there is no such line.
pub open spec fn thread_count_from(text: Seq<char>, from: int) -> Option<i64>
    decreases text.len() - from,
{
    if from < 0 || from >= text.len() {
        None
    } else {
        let end = from + line_len(text, from);
        let line = text.subrange(from, end);
        if starts_with(line, threads_label()) && second_word(line) is Some {
            parse_i64(second_word(line)->0)
        } else if end < text.len() {
            thread_count_from(text, end + 1)
        } else {
            None
        }
    }
}

/// The number of threads that a status file names.
pub open spec fn thread_count(text: Seq<char>) -> Option<i64> {
    thread_count_from(text, 0)
}

/// The path of the status file of the process `pid`.
pub open spec fn status_path_of(pid: nat) -> Seq<char> {
    "/proc/"@ + decimal(pid) + "/status"@
}

/// The number of the first digits of a sequence is at most the number of
/// the whole sequence.
proof fn lemma_digits_value_grows(digits: Seq<char>, k: int)
    requires
        0 <= k <= digits.len(),
        all_digits(digits),
    ensures
        digits_value(digits.take(k)) <= digits_value(digits),
    decreases digits.len() - k,
{
    if k < digits.len() {
        let next = digits.take(k + 1);
        assert(next.drop_last() =~= digits.take(k));
        assert(is_digit(digits[k]));
        assert(next.last() == digits[k]);
        lemma_digits_value_grows(digits, k + 1);
    } else {
        assert(digits.take(k) =~= digits);
    }
}

/// The characters of a text.
fn chars_of(text: &str) -> (chars: Vec<char>)
    ensures
        chars@ == text@,
{
    let mut chars: Vec<char> = Vec::new();
    for c in it: text.chars()
        invariant
            chars@ == it.seq().take(it.index() as int),
            it.seq() == text@,
    {
        chars.push(c);
    }
    chars
}

/// Whether `c` is white space.
fn is_space_char(c: char) -> (space: bool)
    ensures
        space == is_space(c),
{
    ('\u{9}' <= c && c <= '\u{d}') || c == ' ' || c == '\u{85}' || c == '\u{a0}' || c == '\u{1680}'
        || ('\u{2000}' <= c && c <= '\u{200a}') || c == '\u{2028}' || c == '\u{2029}' || c
        == '\u{202f}' || c == '\u{205f}' || c == '\u{3000}'
}

/// Where the line that begins at `from` ends.
fn find_line_end(text: &[char], from: usize) -> (end: usize)
    requires
        from <= text@.len(),
    ensures
        end == from + line_len(text@, from as int),
        from <= end <= text@.len(),
{
    let mut end = from;
    while end < text.len() && text[end] != '\n'
        invariant
            from <= end <= text@.len(),
            from + line_len(text@, from as int) == end + line_len(text@, end as int),
        decreases text@.len() - end,
    {
        end += 1;
    }
    end
}

/// The first position from `from` on that holds no white space.
fn after_spaces(line: &[char], from: usize) -> (at: usize)
    requires
        from <= line@.len(),
    ensures
        at == skip_spaces(line@, from as int),
        from <= at <= line@.len(),
{
    let mut at = from;
    while at < line.len() && is_space_char(line[at])
        invariant
            from <= at <= line@.len(),
            skip_spaces(line@, from as int) == skip_spaces(line@, at as int),
        decreases line@.len() - at,
    {
        at += 1;
    }
    at
}

/// The first position from `from` on that holds white space.
fn after_word(line: &[char], from: usize) -> (at: usize)
    requires
        from <= line@.len(),
    ensures
        at == skip_word(line@, from as int),
        from <= at <= line@.len(),
{
    let mut at = from;
    while at < line.len() && !is_space_char(line[at])
        invariant
            from <= at <= line@.len(),
            skip_word(line@, from as int) == skip_word(line@, at as int),
        decreases line@.len() - at,
    {
        at += 1;
    }
    at
}

/// The second word of `line`.
fn find_second_word<'a>(line: &'a [char]) -> (word: Option<&'a [char]>)
    ensures
        match word {
            Some(w) => second_word(line@) == Some(w@),
            None => second_word(line@) is None,
        },
{
    let first = after_spaces(line, 0);
    let gap = after_word(line, first);
    let start = after_spaces(line, gap);
    if start < line.len() {
        let end = after_word(line, start);
        Some(slice_subrange(line, start, end))
    } else {
        None
    }
}

/// Whether `line` begins with `Threads:`.
fn begins_with_label(line: &[char]) -> (begins: bool)
    ensures
        begins == starts_with(line@, threads_label()),
{
    proof {
        reveal_strlit("Threads:");
    }
    if line.len() < 8 {
        return false;
    }
    let begins = line[0] == 'T' && line[1] == 'h' && line[2] == 'r' && line[3] == 'e' && line[4]
        == 'a' && line[5] == 'd' && line[6] == 's' && line[7] == ':';
    proof {
        let head = line@.subrange(0, 8);
        if begins {
            assert(head =~= threads_label());
        } else {
            assert(head[0] == line@[0] && head[1] == line@[1] && head[2] == line@[2] && head[3]
                == line@[3] && head[4] == line@[4] && head[5] == line@[5] && head[6] == line@[6]
                && head[7] == line@[7]);
        }
    }
    begins
}

/// The value of a digit.
fn digit_of(c: char) -> (d: u128)
    requires
        is_digit(c),
    ensures
        d == c as nat - '0' as nat,
        d <= 9,
{
    (c as u32 - '0' as u32) as u128
}

/// The number that `word` stands for.
fn parse_number(word: &[char]) -> (number: Option<i64>)
    ensures
        number == parse_i64(word@),
{
    if word.len() == 0 {
        return None;
    }
    let negative = word[0] == '-';
    let start: usize = if negative || word[0] == '+' {
        1
    } else {
        0
    };
    let digits = slice_subrange(word, start, word.len());
    assert(start == 0 ==> digits@ =~= word@);
    if digits.len() == 0 {
        return None;
    }
    let limit: u128 = if negative {
        0x8000_0000_0000_0000
    } else {
        0x7fff_ffff_ffff_ffff
    };
    let mut value: u128 = 0;
    let mut i: usize = 0;
    while i < digits.len()
        invariant
            i <= digits@.len(),
            value == digits_value(digits@.take(i as int)),
            value <= limit,
            limit == if negative {
                0x8000_0000_0000_0000u128
            } else {
                0x7fff_ffff_ffff_ffffu128
            },
            word@.len() > 0,
            negative == (word@[0] == '-'),
            digits@.len() > 0,
            digits@ == if word@[0] == '-' || word@[0] == '+' {
                word@.subrange(1, word@.len() as int)
            } else {
                word@
            },
            forall|j: int| 0 <= j < i ==> is_digit(#[trigger] digits@[j]),
        decreases digits@.len() - i,
    {
        let c = digits[i];
        if !('0' <= c && c <= '9') {
            assert(!is_digit(digits@[i as int]));
            assert(!all_digits(digits@));
            return None;
        }
        assert(digits@.take(i + 1).drop_last() =~= digits@.take(i as int));
        assert(digits@.take(i + 1).last() == c);
        value = value * 10 + digit_of(c);
        i += 1;
        if value > limit {
            proof {
                if all_digits(digits@) {
                    lemma_digits_value_grows(digits@, i as int);
                }
            }
            return None;
        }
    }
    assert(digits@.take(i as int) =~= digits@);
    if negative {
        if value == 0x8000_0000_0000_0000 {
            Some(i64::MIN)
        } else {
            Some(-(value as i64))
        }
    } else {
        Some(value as i64)
    }
}

/// The number of threads that the text of a status file names: the number
/// in the second word of the first line that begins with `Threads:` and has
/// a second word.
pub fn get_thread_count(status: &str) -> (count: Option<i64>)
    ensures
        count == thread_count(status@),
{
    let chars = chars_of(status);
    let text = chars.as_slice();
    let mut from: usize = 0;
    while from < text.len()
        invariant
            from <= text@.len(),
            text@ == status@,
            thread_count(status@) == thread_count_from(text@, from as int),
        decreases text@.len() - from,
    {
        let end = find_line_end(text, from);
        let line = slice_subrange(text, from, end);
        if begins_with_label(line) {
            if let Some(word) = find_second_word(line) {
                return parse_number(word);
            }
        }
        if end == text.len() {
            return None;
        }
        from = end + 1;
    }
    None
}

/// The path of the status file of the process `pid`.
pub fn status_path(pid: usize) -> (path: String)
    ensures
        path@ == status_path_of(pid as nat),
{
    let mut path = joined("/proc/", decimal_text(pid).as_str());
    path.append("/status");
    path
}

} // verus!
