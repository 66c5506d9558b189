//! The two lines shown when the shell starts: the local time and a greeting.

use vstd::prelude::*;

verus! {

/// An instant, and the zone it is to be shown in: seconds since the start of
/// 1970 in UTC, and the zone's offset in seconds east of UTC.
#[derive(Debug, Clone, Copy, PartialEq, Eq, Structural)]
pub struct Moment {
    pub timestamp: i64,
    pub offset: i32,
}

/// The text that chrono's `DateTime::format` gives under `pattern` for the
/// instant `timestamp` seconds after the start of 1970, shown at `offset`
/// seconds east of UTC; nothing where chrono has no such instant or offset,
/// or cannot format under `pattern`.
pub uninterp spec fn formatted_time(timestamp: int, offset: int, pattern: Seq<char>) -> Option<
    Seq<char>,
>;

/// `text` with each occurrence of `from` replaced by `to`. Occurrences are
/// found from the left and do not overlap; what was put in is not searched
/// again. It is meant for a `from` that is not empty.
pub open spec fn replaced(text: Seq<char>, from: Seq<char>, to: Seq<char>) -> Seq<char>
    decreases text.len(),
{
    if from.len() == 0 || text.len() < from.len() {
        text
    } else if text.subrange(0, from.len() as int) == from {
        to + replaced(text.subrange(from.len() as int, text.len() as int), from, to)
    } else {
        seq![text[0]] + replaced(text.drop_first(), from, to)
    }
}

/// The pattern of the time line: month, day, year, the hour on a twelve-hour
/// clock, the minute, am or pm, and the zone in brackets.
pub open spec fn date_pattern() -> Seq<char> {
    "%b %e, %Y at %-I:%M%P (%Z)"@
}

/// The pattern that gives the zone alone.
pub open spec fn zone_pattern() -> Seq<char> {
    "%Z"@
}

/// The time line made from the formatted date and the zone: a doubled space,
/// as before a day of one digit, becomes one; `PDT` becomes the zone; a line
/// end follows.
pub open spec fn time_line_of(date: Seq<char>, zone: Seq<char>) -> Seq<char> {
    replaced(replaced(date, "  "@, " "@), "PDT"@, zone) + "\n"@
}

/// The time line for `now`, where chrono can format it.
pub open spec fn time_line_at(now: Moment) -> Option<Seq<char>> {
    match (
        formatted_time(now.timestamp as int, now.offset as int, zone_pattern()),
        formatted_time(now.timestamp as int, now.offset as int, date_pattern()),
    ) {
        (Some(zone), Some(date)) => Some(time_line_of(date, zone)),
        _ => None,
    }
}

/// The greeting.
pub open spec fn greeting_text() -> Seq<char> {
    "Entering interactive mode (type \"help\" for commands, \"o\" for options)\n"@
}

/// Calls chrono: `FixedOffset::east_opt`, `DateTime::from_timestamp_secs` and
/// `DateTime::with_timezone` make the instant in its zone, `DateTime::format`
/// formats it under `pattern`, and `DelayedFormat::write_to` writes the result
/// out. What comes back is the text named by [`formatted_time`], which depends
/// on the three arguments alone; nothing comes back where `east_opt` or
/// `from_timestamp_secs` gives nothing or `write_to` fails.
#[verifier::external_body]
fn format_moment(timestamp: i64, offset: i32, pattern: &str) -> (text: Option<String>)
    ensures
        match text {
            Some(t) => formatted_time(timestamp as int, offset as int, pattern@) == Some(t@),
            None => formatted_time(timestamp as int, offset as int, pattern@) is None,
        },
{
    let zone = chrono::FixedOffset::east_opt(offset)?;
    let instant = chrono::DateTime::from_timestamp_secs(timestamp)?.with_timezone(&zone);
    let mut text = String::new();
    instant.format(pattern).write_to(&mut text).ok()?;
    Some(text)
}

/// Calls `str::replace`, which replaces every match of `from` in `text` by
/// `to`; the matches are those found from the left, none overlapping another.
#[verifier::external_body]
fn replace_all(text: &str, from: &str, to: &str) -> (out: String)
    requires
        from@.len() > 0,
    ensures
        out@ == replaced(text@, from@, to@),
{
    text.replace(from, to)
}

/// The greeting, ready to be written.
pub fn greetings() -> (text: String)
    ensures
        text@ == greeting_text(),
{
    String::from_str("Entering interactive mode (type \"help\" for commands, \"o\" for options)\n")
}

/// Makes the time line from a date and a zone that are already formatted.
pub fn time_line(date: &str, zone: &str) -> (line: String)
    ensures
        line@ == time_line_of(date@, zone@),
{
    proof {
        reveal_strlit("  ");
        reveal_strlit("PDT");
    }
    let spaced = replace_all(date, "  ", " ");
    replace_all(spaced.as_str(), "PDT", zone).concat("\n")
}

/// The time line for `now`, ready to be written; nothing where chrono cannot
/// format `now`.
pub fn print_time(now: &Moment) -> (line: Option<String>)
    ensures
        match line {
            Some(l) => time_line_at(*now) == Some(l@),
            None => time_line_at(*now) is None,
        },
{
    let zone = format_moment(now.timestamp, now.offset, "%Z");
    let date = format_moment(now.timestamp, now.offset, "%b %e, %Y at %-I:%M%P (%Z)");
    match (zone, date) {
        (Some(zone), Some(date)) => Some(time_line(date.as_str(), zone.as_str())),
        _ => None,
    }
}

} // verus!
