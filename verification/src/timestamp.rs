//! Reading a remote modification time out of what a server answers: the
//! body of a metadata probe, a date header, or an entity tag.

use crate::text::decimal;
use crate::text::decimal_two;
use crate::text::find;
use crate::text::find_from;
use crate::text::spec_decimal;
use crate::text::spec_decimal_two;
use crate::text::spec_find;
use crate::text::spec_find_from;
use crate::text::to_chars;
use chrono::DateTime;
use vstd::prelude::*;
use vstd::string::StrSliceExecFns;
use vstd::string::StringExecFns;

verus! {

/// The seconds since the epoch that an RFC 2822 date denotes, as
/// `chrono::DateTime::parse_from_rfc2822` followed by
/// `chrono::DateTime::timestamp` computes them; `None` for a text that is
/// no such date.
pub uninterp spec fn spec_rfc2822_seconds(text: Seq<char>) -> Option<i64>;

/// Calls `chrono::DateTime::parse_from_rfc2822` on the text and, where it
/// accepts the text as a date, `chrono::DateTime::timestamp` on the date.
/// The contract gives the outcome its name and claims nothing further: the
/// parser reads the text alone, time zone included, so the same text yields
/// the same seconds everywhere.
#[verifier::external_body]
fn rfc2822_seconds(date_str: &str) -> (seconds: Option<i64>)
    ensures
        seconds == spec_rfc2822_seconds(date_str@),
{
    DateTime::parse_from_rfc2822(date_str).ok().map(|parsed| parsed.timestamp())
}

/// Seconds since the epoch as an unsigned number. Seconds before the epoch
/// wrap around from the top of the range.
pub open spec fn spec_seconds_to_timestamp(seconds: i64) -> u64 {
    if seconds >= 0 {
        seconds as u64
    } else {
        (seconds + 0x1_0000_0000_0000_0000) as u64
    }
}

/// Turns signed seconds since the epoch into an unsigned timestamp.
pub fn seconds_to_timestamp(seconds: i64) -> (timestamp: u64)
    ensures
        timestamp == spec_seconds_to_timestamp(seconds),
{
    if seconds >= 0 {
        seconds as u64
    } else {
        let below: u64 = (-(seconds + 1)) as u64;
        u64::MAX - below
    }
}

/// The timestamp that an HTTP date denotes; `None` where the text is no
/// RFC 2822 date.
pub open spec fn spec_parse_http_date(text: Seq<char>) -> Option<u64> {
    match spec_rfc2822_seconds(text) {
        Some(seconds) => Some(spec_seconds_to_timestamp(seconds)),
        None => None,
    }
}

/// Reads an HTTP date, such as `Wed, 18 Feb 2015 23:16:09 GMT`, as a
/// timestamp.
pub fn parse_http_date(date_str: &str) -> (timestamp: Option<u64>)
    ensures
        timestamp == spec_parse_http_date(date_str@),
{
    match rfc2822_seconds(date_str) {
        Some(seconds) => Some(seconds_to_timestamp(seconds)),
        None => None,
    }
}

/// Whether `c` is one of the ten decimal digits.
pub open spec fn spec_is_digit(c: char) -> bool {
    '0' <= c <= '9'
}

/// The decimal digits of `s`, in their order.
pub open spec fn spec_digits(s: Seq<char>) -> Seq<char>
    decreases s.len(),
{
    if s.len() == 0 {
        Seq::empty()
    } else if spec_is_digit(s.last()) {
        spec_digits(s.drop_last()).push(s.last())
    } else {
        spec_digits(s.drop_last())
    }
}

/// The number that a sequence of decimal digits denotes.
pub open spec fn spec_digits_value(digits: Seq<char>) -> nat
    decreases digits.len(),
{
    if digits.len() == 0 {
        0
    } else {
        (spec_digits_value(digits.drop_last()) * 10 + (digits.last() as nat - '0' as nat)) as nat
    }
}

/// How many digits of an entity tag make up a timestamp.
pub const ETAG_TIMESTAMP_DIGITS: usize = 10;

/// The timestamp hidden in an entity tag: the number made of the first ten
/// digits that occur in it; `None` where it holds fewer than ten digits.
pub open spec fn spec_extract_timestamp_from_etag(etag: Seq<char>) -> Option<u64> {
    let digits = spec_digits(etag);
    if digits.len() >= ETAG_TIMESTAMP_DIGITS {
        Some(spec_digits_value(digits.take(ETAG_TIMESTAMP_DIGITS as int)) as u64)
    } else {
        None
    }
}

/// Ten to the power `n`.
pub open spec fn spec_pow10(n: nat) -> nat
    decreases n,
{
    if n == 0 {
        1
    } else {
        10 * spec_pow10((n - 1) as nat)
    }
}

/// Looks for a timestamp in an entity tag.
pub fn extract_timestamp_from_etag(etag: &str) -> (timestamp: Option<u64>)
    ensures
        timestamp == spec_extract_timestamp_from_etag(etag@),
{
    let chars = to_chars(etag);
    let mut count: usize = 0;
    let mut value: u64 = 0;
    let mut i: usize = 0;
    assert(etag@.take(0) =~= Seq::<char>::empty());
    while i < chars.len()
        invariant
            i <= chars.len(),
            chars@ == etag@,
            count <= ETAG_TIMESTAMP_DIGITS,
            count == if spec_digits(etag@.take(i as int)).len() < ETAG_TIMESTAMP_DIGITS {
                spec_digits(etag@.take(i as int)).len()
            } else {
                ETAG_TIMESTAMP_DIGITS as nat
            },
            value == spec_digits_value(spec_digits(etag@.take(i as int)).take(count as int)),
            value < spec_pow10(count as nat),
        decreases chars.len() - i,
    {
        let c = chars[i];
        proof {
            let before = etag@.take(i as int);
            let after = etag@.take(i + 1);
            assert(after.drop_last() =~= before);
            assert(after.last() == c);
            let digits = spec_digits(before);
            reveal_with_fuel(spec_pow10, 11);
            if '0' <= c <= '9' {
                if digits.len() < ETAG_TIMESTAMP_DIGITS {
                    assert(digits.take(count as int) =~= digits);
                    assert(digits.push(c).take(count + 1) =~= digits.push(c));
                    assert(digits.push(c).drop_last() =~= digits);
                } else {
                    assert(digits.push(c).take(count as int) =~= digits.take(count as int));
                }
            }
        }
        if c >= '0' && c <= '9' && count < ETAG_TIMESTAMP_DIGITS {
            let digit: u64 = (c as u64) - ('0' as u64);
            value = value * 10 + digit;
            count += 1;
        }
        i += 1;
    }
    assert(etag@.take(i as int) =~= etag@);
    if count >= ETAG_TIMESTAMP_DIGITS {
        Some(value)
    } else {
        None
    }
}

/// The text between the first `open` and the first `close` that follows
/// it; `None` where either is missing.
pub open spec fn spec_element_text(xml: Seq<char>, open: Seq<char>, close: Seq<char>) -> Option<
    Seq<char>,
> {
    match spec_find(xml, open) {
        Some(at) => match spec_find_from(xml, close, at + open.len()) {
            Some(end) => Some(xml.subrange(at + open.len(), end)),
            None => None,
        },
        None => None,
    }
}

/// Takes the text between the first `open` and the first `close` that
/// follows it out of `xml`, whose characters are `chars`.
fn element_text<'a>(xml: &'a str, chars: &Vec<char>, open: &str, close: &str) -> (text: Option<
    &'a str,
>)
    requires
        chars@ == xml@,
    ensures
        match text {
            Some(inner) => spec_element_text(xml@, open@, close@) == Some(inner@),
            None => spec_element_text(xml@, open@, close@) is None,
        },
{
    let open_chars = to_chars(open);
    let close_chars = to_chars(close);
    let total = chars.len();
    match find(chars, &open_chars) {
        Some(at) => {
            proof {
                crate::text::lemma_find_from(xml@, open@, 0);
                assert(at + open_chars.len() <= total);
            }
            let start = at + open_chars.len();
            match find_from(chars, &close_chars, start) {
                Some(end) => {
                    proof {
                        crate::text::lemma_find_from(xml@, close@, start as int);
                    }
                    Some(xml.substring_char(start, end))
                },
                None => None,
            }
        },
        None => None,
    }
}

/// The text of the first last-modified element of a metadata answer. The
/// spellings of the element are tried in a fixed order, and the first one
/// that occurs with its closing tag wins.
pub open spec fn spec_last_modified_text(xml: Seq<char>) -> Option<Seq<char>> {
    if spec_element_text(xml, "<d:getlastmodified>"@, "</d:getlastmodified>"@) is Some {
        spec_element_text(xml, "<d:getlastmodified>"@, "</d:getlastmodified>"@)
    } else if spec_element_text(xml, "<getlastmodified>"@, "</getlastmodified>"@) is Some {
        spec_element_text(xml, "<getlastmodified>"@, "</getlastmodified>"@)
    } else if spec_element_text(xml, "<lastmodified>"@, "</lastmodified>"@) is Some {
        spec_element_text(xml, "<lastmodified>"@, "</lastmodified>"@)
    } else if spec_element_text(xml, "<ns0:getlastmodified>"@, "</ns0:getlastmodified>"@)
        is Some {
        spec_element_text(xml, "<ns0:getlastmodified>"@, "</ns0:getlastmodified>"@)
    } else {
        spec_element_text(xml, "<DAV:getlastmodified>"@, "</DAV:getlastmodified>"@)
    }
}

/// The timestamp hidden in the entity-tag element of a metadata answer.
pub open spec fn spec_etag_timestamp(xml: Seq<char>) -> Option<u64> {
    match spec_element_text(xml, "<d:getetag>"@, "</d:getetag>"@) {
        Some(etag) => spec_extract_timestamp_from_etag(etag),
        None => None,
    }
}

/// The date in the last-modified element of a metadata answer: the text of
/// the first such element read as an HTTP date. There is none where the
/// answer holds no such element, and none where the element's text is no
/// date.
pub open spec fn spec_last_modified_date(xml: Seq<char>) -> Option<u64> {
    match spec_last_modified_text(xml) {
        Some(text) => spec_parse_http_date(text),
        None => None,
    }
}

/// The modification time that a metadata answer gives. It is the date in
/// its last-modified element, where there is one; else the timestamp in its
/// entity tag, where there is one; else `now`. So every answer gives a
/// time: an element whose text is no date counts as no element.
pub open spec fn spec_find_last_modified_in_xml(xml: Seq<char>, now: u64) -> Option<u64> {
    if spec_last_modified_date(xml) is Some {
        spec_last_modified_date(xml)
    } else if spec_etag_timestamp(xml) is Some {
        spec_etag_timestamp(xml)
    } else {
        Some(now)
    }
}

/// The resolver never fails: whatever the answer holds, it gives a time.
pub proof fn law_resolver_never_fails(xml: Seq<char>, now: u64)
    ensures
        spec_find_last_modified_in_xml(xml, now) is Some,
{
}

/// Finds the text of the first last-modified element of a metadata answer.
fn last_modified_text<'a>(xml: &'a str, chars: &Vec<char>) -> (text: Option<&'a str>)
    requires
        chars@ == xml@,
    ensures
        match text {
            Some(inner) => spec_last_modified_text(xml@) == Some(inner@),
            None => spec_last_modified_text(xml@) is None,
        },
{
    if let Some(text) = element_text(xml, chars, "<d:getlastmodified>", "</d:getlastmodified>") {
        return Some(text);
    }
    if let Some(text) = element_text(xml, chars, "<getlastmodified>", "</getlastmodified>") {
        return Some(text);
    }
    if let Some(text) = element_text(xml, chars, "<lastmodified>", "</lastmodified>") {
        return Some(text);
    }
    if let Some(text) = element_text(xml, chars, "<ns0:getlastmodified>", "</ns0:getlastmodified>") {
        return Some(text);
    }
    element_text(xml, chars, "<DAV:getlastmodified>", "</DAV:getlastmodified>")
}

/// Reads the remote modification time out of the body of a metadata
/// answer. `now` is the current time in seconds since the epoch, which
/// stands in where the body holds neither a date nor a usable entity tag.
/// The result is always a time.
pub fn find_last_modified_in_xml(xml: &str, now: u64) -> (timestamp: Option<u64>)
    ensures
        timestamp == spec_find_last_modified_in_xml(xml@, now),
        timestamp is Some,
{
    let chars = to_chars(xml);
    if let Some(text) = last_modified_text(xml, &chars) {
        if let Some(timestamp) = parse_http_date(text) {
            return Some(timestamp);
        }
    }
    if let Some(etag) = element_text(xml, &chars, "<d:getetag>", "</d:getetag>") {
        if let Some(timestamp) = extract_timestamp_from_etag(etag) {
            return Some(timestamp);
        }
    }
    Some(now)
}

/// The modification time that the headers of an answer give: the
/// last-modified header read as an HTTP date, where there is one and it is
/// a date; else the timestamp hidden in the entity-tag header, where there
/// is one; else none.
pub open spec fn spec_timestamp_from_headers(
    last_modified: Option<Seq<char>>,
    etag: Option<Seq<char>>,
) -> Option<u64> {
    if last_modified is Some && spec_parse_http_date(last_modified->0) is Some {
        spec_parse_http_date(last_modified->0)
    } else {
        match etag {
            Some(tag) => spec_extract_timestamp_from_etag(tag),
            None => None,
        }
    }
}

/// Reads the remote modification time out of the headers of an answer.
pub fn timestamp_from_headers(last_modified: Option<&str>, etag: Option<&str>) -> (timestamp:
    Option<u64>)
    ensures
        timestamp == spec_timestamp_from_headers(
            match last_modified {
                Some(text) => Some(text@),
                None => None,
            },
            match etag {
                Some(text) => Some(text@),
                None => None,
            },
        ),
{
    if let Some(text) = last_modified {
        if let Some(timestamp) = parse_http_date(text) {
            return Some(timestamp);
        }
    }
    match etag {
        Some(tag) => extract_timestamp_from_etag(tag),
        None => None,
    }
}

/// A timestamp as it is shown in messages: whole days since the epoch, the
/// hour and the minute of the day, and the timestamp itself.
pub open spec fn spec_format_timestamp(timestamp: u64) -> Seq<char> {
    spec_decimal((timestamp / 86400) as nat) + " days, "@ + spec_decimal_two(
        ((timestamp / 3600) % 24) as nat,
    ) + ":"@ + spec_decimal_two(((timestamp / 60) % 60) as nat) + " (timestamp: "@ + spec_decimal(
        timestamp as nat,
    ) + ")"@
}

/// Renders a timestamp for a message.
pub fn format_timestamp(timestamp: u64) -> (text: String)
    ensures
        text@ == spec_format_timestamp(timestamp),
{
    let mins = (timestamp / 60) % 60;
    let hours = (timestamp / 3600) % 24;
    let days = timestamp / 86400;
    let mut text = decimal(days);
    text.append(" days, ");
    text.append(decimal_two(hours).as_str());
    text.append(":");
    text.append(decimal_two(mins).as_str());
    text.append(" (timestamp: ");
    text.append(decimal(timestamp).as_str());
    text.append(")");
    text
}

} // verus!
