//! How the service writes and reads instants: as Seoul wall-clock time in
//! the form `YYYY-MM-DD HH:MM:SS`.

use crate::timestamp::Timestamp;
use chrono::TimeZone;
use std::fmt::Write;
use vstd::prelude::*;

verus! {

/// The pattern, in chrono's strftime notation, of every instant the service
/// writes or reads.
pub const DATETIME_FORMAT: &'static str = "%Y-%m-%d %H:%M:%S";

/// What chrono writes for the UTC instant (`secs`, `nanos`) shown as Seoul
/// wall-clock time in `pattern`; `None` where chrono cannot (an instant out
/// of its range, or a pattern it rejects).
pub uninterp spec fn seoul_text(secs: i64, nanos: u32, pattern: Seq<char>) -> Option<Seq<char>>;

/// What chrono's `NaiveDateTime::parse_from_str` reads from `text` with
/// `pattern`: the wall-clock time as seconds and nanoseconds counted as if it
/// were UTC, or the text of chrono's parse error.
pub uninterp spec fn naive_parse(text: Seq<char>, pattern: Seq<char>) -> Result<(i64, u32), Seq<char>>;

/// The UTC instant (seconds, nanoseconds) of the Seoul wall-clock time
/// (`secs`, `nanos`), where chrono-tz finds exactly one; `None` where that
/// time is skipped or repeated by a clock change, or out of chrono's range.
pub uninterp spec fn seoul_local_to_utc(secs: i64, nanos: u32) -> Option<(i64, u32)>;

/// The instant `secs` falls in a Seoul calendar year from 0 to 9999, the
/// years that `%Y` writes as four plain digits: from 0000-01-01 00:00:00
/// Seoul local mean time (UTC+8:27:52) to 9999-12-31 23:59:59 Seoul time
/// (UTC+9).
pub open spec fn in_four_digit_years(secs: i64) -> bool {
    -62_167_249_672 <= secs <= 253_402_268_399
}

/// Reading `text` with `pattern` gives back the UTC instant (`secs`, `nanos`),
/// unless Seoul's clock shows that wall-clock time twice (then the reading
/// finds no single instant).
pub open spec fn reads_back(text: Seq<char>, pattern: Seq<char>, secs: i64, nanos: u32) -> bool {
    match naive_parse(text, pattern) {
        Ok((wall_secs, wall_nanos)) => match seoul_local_to_utc(wall_secs, wall_nanos) {
            Some(utc) => utc == (secs, nanos),
            None => true,
        },
        Err(_) => false,
    }
}

/// Where (`secs`, `nanos`) is an instant of whole seconds in the years 0 to
/// 9999 and `pattern` is `%Y-%m-%d %H:%M:%S`, `res` holds a text that reads
/// back to that instant.
pub open spec fn res_reads_back(res: Option<String>, secs: i64, nanos: u32, pattern: Seq<char>) -> bool {
    nanos == 0 && in_four_digit_years(secs) && pattern == "%Y-%m-%d %H:%M:%S"@
        ==> (res matches Some(text) && reads_back(text@, pattern, secs, nanos))
}

/// The view of an optional string.
pub open spec fn opt_view(o: Option<String>) -> Option<Seq<char>> {
    match o {
        Some(s) => Some(s@),
        None => None,
    }
}

/// The view of a result whose error is a string.
pub open spec fn err_view<T>(r: Result<T, String>) -> Result<T, Seq<char>> {
    match r {
        Ok(v) => Ok(v),
        Err(e) => Err(e@),
    }
}

/// Calls chrono's `DateTime::from_timestamp(secs, nanos)`, then
/// `with_timezone(&chrono_tz::Asia::Seoul)` and `format(pattern)`, and writes
/// the result into a `String`. The contract names the outcome `seoul_text`
/// and states two facts of chrono's source and documentation: a nanosecond
/// part of two billion or more is refused; and an instant of whole seconds in
/// the years 0 to 9999, written as `%Y-%m-%d %H:%M:%S` (zero-padded
/// four-digit year, two-digit fields), is written, and `parse_from_str` with
/// the same pattern reads back its Seoul wall-clock time, which
/// `from_local_datetime` maps to that instant wherever it finds one match.
#[verifier::external_body]
fn format_in_seoul(secs: i64, nanos: u32, pattern: &str) -> (res: Option<String>)
    ensures
        opt_view(res) == seoul_text(secs, nanos, pattern@),
        nanos >= 2_000_000_000 ==> res is None,
        res_reads_back(res, secs, nanos, pattern@),
{
    match chrono::DateTime::from_timestamp(secs, nanos) {
        Some(utc) => {
            let mut text = String::new();
            match write!(text, "{}", utc.with_timezone(&chrono_tz::Asia::Seoul).format(pattern)) {
                Ok(()) => Some(text),
                Err(_) => None,
            }
        },
        None => None,
    }
}

/// Calls chrono's `NaiveDateTime::parse_from_str(text, pattern)` and gives the
/// parsed wall-clock time as seconds and nanoseconds counted as if it were
/// UTC (`and_utc().timestamp()`, `timestamp_subsec_nanos()`), or the
/// `to_string()` of the parse error. The outcome is named `naive_parse`.
#[verifier::external_body]
fn parse_wall_clock(text: &str, pattern: &str) -> (res: Result<(i64, u32), String>)
    ensures
        err_view(res) == naive_parse(text@, pattern@),
{
    match chrono::NaiveDateTime::parse_from_str(text, pattern) {
        Ok(naive) => {
            let as_utc = naive.and_utc();
            Ok((as_utc.timestamp(), as_utc.timestamp_subsec_nanos()))
        },
        Err(e) => Err(e.to_string()),
    }
}

/// Calls chrono's `DateTime::from_timestamp(secs, nanos)` to rebuild the
/// wall-clock time, then `chrono_tz::Asia::Seoul.from_local_datetime(..)
/// .single()`, and gives the UTC instant of the one match. The outcome is
/// named `seoul_local_to_utc`.
#[verifier::external_body]
fn seoul_wall_clock_to_utc(secs: i64, nanos: u32) -> (res: Option<(i64, u32)>)
    ensures
        res == seoul_local_to_utc(secs, nanos),
{
    match chrono::DateTime::from_timestamp(secs, nanos) {
        Some(wall) => match chrono_tz::Asia::Seoul.from_local_datetime(&wall.naive_utc()).single() {
            Some(local) => {
                let utc = local.with_timezone(&chrono::Utc);
                Some((utc.timestamp(), utc.timestamp_subsec_nanos()))
            },
            None => None,
        },
        None => None,
    }
}

/// Why an instant could not be written or read.
#[derive(Debug, PartialEq, Eq)]
pub enum DateTimeError {
    /// chrono could not write the instant in the service's pattern.
    Unprintable,
    /// chrono could not read the text; its message.
    Parse(String),
    /// The Seoul wall-clock time is skipped or repeated by a clock change.
    AmbiguousLocalTime,
}

impl DateTimeError {
    /// The message a caller reports for this error.
    pub fn message(&self) -> (m: String)
        ensures
            match self {
                DateTimeError::Unprintable => m@ == "the instant cannot be written"@,
                DateTimeError::Parse(e) => m@ == e@,
                DateTimeError::AmbiguousLocalTime => m@ == "Ambiguous or invalid local time"@,
            },
    {
        match self {
            DateTimeError::Unprintable => String::from_str("the instant cannot be written"),
            DateTimeError::Parse(e) => e.clone(),
            DateTimeError::AmbiguousLocalTime => String::from_str("Ambiguous or invalid local time"),
        }
    }
}

/// Writes an optional instant as Seoul wall-clock text: `None` stays `None`.
/// An instant of whole seconds in the years 0 to 9999 is always written, and
/// its text reads back to it (see `lemma_write_then_read`).
pub fn serialize(date: &Option<Timestamp>) -> (res: Result<Option<String>, DateTimeError>)
    ensures
        match *date {
            Some(t) => t.nanos == 0 && in_four_digit_years(t.secs) ==> (res matches Ok(Some(s))
                && reads_back(s@, DATETIME_FORMAT@, t.secs, t.nanos)),
            None => true,
        },
        match *date {
            None => res == Ok::<Option<String>, DateTimeError>(None),
            Some(t) => match seoul_text(t.secs, t.nanos, DATETIME_FORMAT@) {
                Some(text) => res matches Ok(Some(s)) && s@ == text,
                None => res == Err::<Option<String>, DateTimeError>(DateTimeError::Unprintable),
            },
        },
{
    match date {
        Some(t) => match format_in_seoul(t.secs, t.nanos, DATETIME_FORMAT) {
            Some(text) => Ok(Some(text)),
            None => Err(DateTimeError::Unprintable),
        },
        None => Ok(None),
    }
}

/// `res` is what reading `text` as Seoul wall-clock time gives: chrono's parse
/// error, the one UTC instant of that wall-clock time, or
/// `AmbiguousLocalTime` where there is not exactly one.
pub open spec fn is_reading_of(text: Seq<char>, res: Result<Option<Timestamp>, DateTimeError>) -> bool {
    match naive_parse(text, DATETIME_FORMAT@) {
        Err(e) => res matches Err(DateTimeError::Parse(m)) && m@ == e,
        Ok((local_secs, local_nanos)) => match seoul_local_to_utc(local_secs, local_nanos) {
            Some((secs, nanos)) => res == Ok::<Option<Timestamp>, DateTimeError>(
                Some(Timestamp { secs, nanos }),
            ),
            None => res == Err::<Option<Timestamp>, DateTimeError>(DateTimeError::AmbiguousLocalTime),
        },
    }
}

/// Reading back what was written gives the instant again: where `text`
/// reads back to `t` (as `serialize` states of the text it writes) and
/// `read` is what `deserialize` gives for `text`, `read` is `t`, or
/// `AmbiguousLocalTime` where Seoul's clock shows that wall-clock time twice.
pub proof fn lemma_write_then_read(
    text: Seq<char>,
    t: Timestamp,
    read: Result<Option<Timestamp>, DateTimeError>,
)
    requires
        reads_back(text, DATETIME_FORMAT@, t.secs, t.nanos),
        is_reading_of(text, read),
    ensures
        read == Ok::<Option<Timestamp>, DateTimeError>(Some(t)) || read == Err::<
            Option<Timestamp>,
            DateTimeError,
        >(DateTimeError::AmbiguousLocalTime),
{
}

/// Reads optional Seoul wall-clock text back into a UTC instant.
pub fn deserialize(text: Option<String>) -> (res: Result<Option<Timestamp>, DateTimeError>)
    ensures
        match text {
            None => res == Ok::<Option<Timestamp>, DateTimeError>(None),
            Some(s) => is_reading_of(s@, res),
        },
{
    match text {
        None => Ok(None),
        Some(s) => match parse_wall_clock(s.as_str(), DATETIME_FORMAT) {
            Err(e) => Err(DateTimeError::Parse(e)),
            Ok((local_secs, local_nanos)) => match seoul_wall_clock_to_utc(local_secs, local_nanos) {
                Some((secs, nanos)) => Ok(Some(Timestamp { secs, nanos })),
                None => Err(DateTimeError::AmbiguousLocalTime),
            },
        },
    }
}

} // verus!
