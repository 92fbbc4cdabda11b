//! Naming the archives that hold the notes before a pass changes them, and
//! reading the names of the notes inside them.

use crate::text::decimal;
use crate::text::spec_decimal;
use crate::text::to_chars;
use crate::timestamp::spec_digits_value;
use crate::timestamp::spec_is_digit;
use vstd::prelude::*;
use vstd::string::StringExecFns;

verus! {

/// The file name of the archive made at `timestamp` seconds since the
/// epoch, when the local date and time read `datetime`.
pub open spec fn spec_backup_file_name(datetime: Seq<char>, timestamp: u64) -> Seq<char> {
    "jot_backup_"@ + datetime + "_"@ + spec_decimal(timestamp as nat) + ".zip"@
}

/// Builds the file name of an archive.
pub fn backup_file_name(datetime: &str, timestamp: u64) -> (name: String)
    ensures
        name@ == spec_backup_file_name(datetime@, timestamp),
{
    let mut name = String::from_str("jot_backup_");
    name.append(datetime);
    name.append("_");
    name.append(decimal(timestamp).as_str());
    name.append(".zip");
    name
}

/// The text of the information file inside an archive.
pub open spec fn spec_backup_info(datetime: Seq<char>, timestamp: u64, files: usize) -> Seq<char> {
    "Backup created: "@ + datetime + "\nTimestamp: "@ + spec_decimal(timestamp as nat)
        + "\nFiles: "@ + spec_decimal(files as nat)
}

/// Builds the text of the information file inside an archive, which says
/// when the archive was made and how many notes it holds.
pub fn backup_info(datetime: &str, timestamp: u64, files: usize) -> (info: String)
    ensures
        info@ == spec_backup_info(datetime@, timestamp, files),
{
    let mut info = String::from_str("Backup created: ");
    info.append(datetime);
    info.append("\nTimestamp: ");
    info.append(decimal(timestamp).as_str());
    info.append("\nFiles: ");
    info.append(decimal(files as u64).as_str());
    info
}

/// How many archives are deleted so that `keep_count` remain.
pub open spec fn spec_surplus(total: usize, keep_count: usize) -> usize {
    if total > keep_count {
        (total - keep_count) as usize
    } else {
        0
    }
}

/// Counts the archives that are deleted so that `keep_count` remain.
pub fn surplus(total: usize, keep_count: usize) -> (count: usize)
    ensures
        count == spec_surplus(total, keep_count),
{
    if total > keep_count {
        total - keep_count
    } else {
        0
    }
}

/// Whether `text` ends with `suffix`.
pub open spec fn spec_has_suffix(text: Seq<char>, suffix: Seq<char>) -> bool {
    suffix.len() <= text.len() && text.subrange(text.len() - suffix.len(), text.len() as int)
        == suffix
}

/// Tells whether an entry of an archive is a note: its name ends in `.md`.
pub fn is_note_entry(name: &str) -> (note: bool)
    ensures
        note == spec_has_suffix(name@, ".md"@),
{
    let chars = to_chars(name);
    let suffix = to_chars(".md");
    if suffix.len() > chars.len() {
        return false;
    }
    crate::text::matches_at(&chars, &suffix, chars.len() - suffix.len())
}

/// The number that a run of decimal digits denotes, where it is a run of
/// one or more digits whose value is an index.
pub open spec fn spec_digits_index(digits: Seq<char>) -> Option<usize> {
    if digits.len() > 0 && (forall|i: int|
        0 <= i < digits.len() ==> spec_is_digit(#[trigger] digits[i])) && spec_digits_value(digits)
        <= usize::MAX {
        Some(spec_digits_value(digits) as usize)
    } else {
        None
    }
}

/// The number that the text between `note_` and `.md` denotes: one or more
/// decimal digits, with or without a plus sign in front, whose value is an
/// index. Anything else denotes nothing.
pub open spec fn spec_parse_index(body: Seq<char>) -> Option<usize> {
    if body.len() > 0 && body[0] == '+' {
        spec_digits_index(body.subrange(1, body.len() as int))
    } else {
        spec_digits_index(body)
    }
}

/// The index of the note that a file name stands for: the name is `note_`,
/// the index, and `.md`. Any other name stands for no note.
pub open spec fn spec_parse_note_file_name(name: Seq<char>) -> Option<usize> {
    let prefix = "note_"@;
    let suffix = ".md"@;
    if name.len() >= prefix.len() + suffix.len() && name.subrange(0, prefix.len() as int) == prefix
        && name.subrange(name.len() - suffix.len(), name.len() as int) == suffix {
        spec_parse_index(name.subrange(prefix.len() as int, name.len() - suffix.len()))
    } else {
        None
    }
}

/// A longer run of digits is worth at least as much as its beginning, so a
/// beginning that is too large for an index makes the whole too large.
proof fn lemma_value_grows(digits: Seq<char>, k: int)
    requires
        0 <= k <= digits.len(),
        forall|i: int| 0 <= i < digits.len() ==> spec_is_digit(#[trigger] digits[i]),
    ensures
        spec_digits_value(digits.take(k)) <= spec_digits_value(digits),
    decreases digits.len() - k,
{
    if k < digits.len() {
        lemma_value_grows(digits, k + 1);
        assert(digits.take(k + 1).drop_last() =~= digits.take(k));
        assert(digits.take(k + 1).last() == digits[k]);
    } else {
        assert(digits.take(k) =~= digits);
    }
}

/// Reads the run of digits between `start` and `to` in `chars`.
fn digits_index(chars: &Vec<char>, start: usize, to: usize) -> (index: Option<usize>)
    requires
        start <= to <= chars.len(),
    ensures
        index == spec_digits_index(chars@.subrange(start as int, to as int)),
{
    let ghost digits = chars@.subrange(start as int, to as int);
    if start == to {
        return None;
    }
    let mut value: usize = 0;
    let mut i: usize = start;
    assert(digits.take(0) =~= Seq::<char>::empty());
    while i < to
        invariant
            start <= i <= to <= chars.len(),
            digits == chars@.subrange(start as int, to as int),
            forall|j: int| 0 <= j < i - start ==> spec_is_digit(#[trigger] digits[j]),
            value == spec_digits_value(digits.take(i - start)),
        decreases to - i,
    {
        let c = chars[i];
        proof {
            assert(digits[i - start] == c);
            assert(digits.take(i - start + 1).drop_last() =~= digits.take(i - start));
            assert(digits.take(i - start + 1).last() == c);
        }
        if !(c >= '0' && c <= '9') {
            assert(!spec_is_digit(digits[i - start]));
            return None;
        }
        let digit: usize = ((c as u32) - ('0' as u32)) as usize;
        if value > (usize::MAX - digit) / 10 {
            proof {
                assert(spec_digits_value(digits.take(i - start + 1)) == value * 10 + digit);
                assert(value * 10 + digit > usize::MAX);
                if forall|j: int| 0 <= j < digits.len() ==> spec_is_digit(#[trigger] digits[j]) {
                    lemma_value_grows(digits, i - start + 1);
                }
            }
            return None;
        }
        value = value * 10 + digit;
        i += 1;
    }
    assert(digits.take(i - start) =~= digits);
    Some(value)
}

/// Reads the number between `from` and `to` in `chars`.
fn parse_index(chars: &Vec<char>, from: usize, to: usize) -> (index: Option<usize>)
    requires
        from <= to <= chars.len(),
    ensures
        index == spec_parse_index(chars@.subrange(from as int, to as int)),
{
    let ghost body = chars@.subrange(from as int, to as int);
    if from < to && chars[from] == '+' {
        assert(body[0] == chars@[from as int]);
        assert(body.subrange(1, body.len() as int) =~= chars@.subrange(from + 1, to as int));
        digits_index(chars, from + 1, to)
    } else {
        proof {
            if from < to {
                assert(body[0] == chars@[from as int]);
            }
        }
        digits_index(chars, from, to)
    }
}

/// Reads the index of a note out of its file name.
pub fn parse_note_file_name(name: &str) -> (index: Option<usize>)
    ensures
        index == spec_parse_note_file_name(name@),
{
    let chars = to_chars(name);
    let prefix = to_chars("note_");
    let suffix = to_chars(".md");
    let total = chars.len();
    if total < prefix.len() || total - prefix.len() < suffix.len() {
        return None;
    }
    if !crate::text::matches_at(&chars, &prefix, 0) {
        return None;
    }
    if !crate::text::matches_at(&chars, &suffix, total - suffix.len()) {
        return None;
    }
    parse_index(&chars, prefix.len(), total - suffix.len())
}

/// The decimal rendering of a number is a run of one or more digits that
/// denotes the number.
pub proof fn lemma_decimal_denotes(n: nat)
    ensures
        spec_decimal(n).len() > 0,
        forall|i: int| 0 <= i < spec_decimal(n).len() ==> spec_is_digit(#[trigger] spec_decimal(n)[i]),
        spec_digits_value(spec_decimal(n)) == n,
    decreases n,
{
    let digits = spec_decimal(n);
    if n < 10 {
        assert(digits.drop_last() =~= Seq::<char>::empty());
        reveal_with_fuel(spec_digits_value, 2);
    } else {
        lemma_decimal_denotes(n / 10);
        assert(digits.drop_last() =~= spec_decimal(n / 10));
        assert(digits.last() == crate::text::spec_digit_char(n % 10));
    }
}

/// The file name of a note stands for that note, and for no other: the
/// index read out of the name that was built for note `tab_index` is
/// `tab_index`.
pub proof fn law_note_file_name_round_trip(tab_index: usize)
    ensures
        spec_parse_note_file_name(crate::client::spec_note_file_name(tab_index)) == Some(tab_index),
{
    reveal_strlit("note_");
    reveal_strlit(".md");
    lemma_decimal_denotes(tab_index as nat);
    let digits = spec_decimal(tab_index as nat);
    let name = crate::client::spec_note_file_name(tab_index);
    assert(name.subrange(0, 5) =~= "note_"@);
    assert(name.subrange(name.len() - 3, name.len() as int) =~= ".md"@);
    assert(name.subrange(5, name.len() - 3) =~= digits);
    assert(digits[0] != '+');
}

} // verus!
