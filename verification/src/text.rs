//! Text that history entries are made of: trimmed messages, short ids and
//! rendered dates.

use vstd::prelude::*;
use vstd::string::*;

verus! {

/// The characters that count as white space: those with the Unicode property
/// `White_Space`.
pub open spec fn is_space(c: char) -> bool {
    let n = c as u32;
    ||| 0x09 <= n <= 0x0D
    ||| n == 0x20
    ||| n == 0x85
    ||| n == 0xA0
    ||| n == 0x1680
    ||| 0x2000 <= n <= 0x200A
    ||| n == 0x2028
    ||| n == 0x2029
    ||| n == 0x202F
    ||| n == 0x205F
    ||| n == 0x3000
}

/// `s` without the white space it starts with.
pub open spec fn without_leading_space(s: Seq<char>) -> Seq<char>
    decreases s.len(),
{
    if s.len() > 0 && is_space(s[0]) {
        without_leading_space(s.skip(1))
    } else {
        s
    }
}

/// `s` without the white space it ends with.
pub open spec fn without_trailing_space(s: Seq<char>) -> Seq<char>
    decreases s.len(),
{
    if s.len() > 0 && is_space(s.last()) {
        without_trailing_space(s.drop_last())
    } else {
        s
    }
}

/// `s` without the white space at either end.
pub open spec fn trimmed(s: Seq<char>) -> Seq<char> {
    without_trailing_space(without_leading_space(s))
}

/// The first seven characters of an id; a shorter id is kept whole.
pub open spec fn short_of(id: Seq<char>) -> Seq<char> {
    if id.len() < 7 {
        id
    } else {
        id.take(7)
    }
}

/// The text that chrono's formatter gives, under the strftime pattern
/// `pattern`, for the moment `seconds` after the Unix epoch, taken in UTC;
/// `None` where chrono's calendar cannot hold that moment.
pub uninterp spec fn utc_date_text(seconds: i64, pattern: Seq<char>) -> Option<Seq<char>>;

/// The pattern dates are shown in: year-month-day hour:minute:second.
pub open spec fn date_pattern() -> Seq<char> {
    "%Y-%m-%d %H:%M:%S"@
}

/// The date shown for a commit made `seconds` after the Unix epoch, if that
/// moment can be rendered.
pub open spec fn date_of(seconds: i64) -> Option<Seq<char>> {
    utc_date_text(seconds, date_pattern())
}

/// Calls `str::trim`, which std documents as returning the slice with leading
/// and trailing white space removed, white space being the characters with
/// the Unicode property `White_Space`. The contract says exactly that.
#[verifier::external_body]
fn trim_text<'a>(s: &'a str) -> (t: &'a str)
    ensures
        t@ == trimmed(s@),
{
    s.trim()
}

/// Calls `chrono::DateTime::from_timestamp` with no nanoseconds, which
/// gives `None` for a number of seconds out of its range, and renders the
/// moment with `chrono::DateTime::format`. The contract only names the
/// outcome: the same seconds and pattern always give the same answer. The
/// pattern is held to the one this library uses, which chrono accepts, since
/// rendering under a malformed pattern panics.
#[verifier::external_body]
fn format_utc(seconds: i64, pattern: &str) -> (text: Option<String>)
    requires
        pattern@ == date_pattern(),
    ensures
        text is Some <==> utc_date_text(seconds, pattern@) is Some,
        text is Some ==> text.unwrap()@ == utc_date_text(seconds, pattern@).unwrap(),
{
    match chrono::DateTime::from_timestamp(seconds, 0) {
        Some(moment) => Some(moment.format(pattern).to_string()),
        None => None,
    }
}

/// Renders the date of a commit made `seconds` after the Unix epoch.
pub fn render_date(seconds: i64) -> (text: Option<String>)
    ensures
        text is Some <==> date_of(seconds) is Some,
        text is Some ==> text.unwrap()@ == date_of(seconds).unwrap(),
{
    format_utc(seconds, "%Y-%m-%d %H:%M:%S")
}

/// The short form of a commit id.
pub fn short_id(id: &str) -> (s: String)
    ensures
        s@ == short_of(id@),
{
    let n: usize = id.unicode_len();
    if n < 7 {
        id.to_owned()
    } else {
        id.substring_char(0, 7).to_owned()
    }
}

/// A message as it is shown: without the white space around it.
pub fn trim_message(message: &str) -> (s: String)
    ensures
        s@ == trimmed(message@),
{
    trim_text(message).to_owned()
}

/// Trimming leaves alone a text that neither starts nor ends with white
/// space.
pub proof fn lemma_trimmed_keeps_tight_text(s: Seq<char>)
    ensures
        (s.len() > 0 ==> !is_space(s[0]) && !is_space(s.last())) ==> trimmed(s) == s,
{
}

} // verus!
