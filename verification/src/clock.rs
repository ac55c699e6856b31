//! Points in time: the calendar fields of a local time, the wall clock that
//! gives them, and their text.

use chrono::{Datelike, Timelike};
use vstd::prelude::*;

verus! {

/// A point in local time, by its calendar fields.
#[derive(Clone, Copy, Debug, PartialEq, Eq, Structural)]
pub struct Timestamp {
    pub year: i32,
    /// From 1.
    pub month: u32,
    /// From 1.
    pub day: u32,
    pub hour: u32,
    pub minute: u32,
    pub second: u32,
    /// The fraction of the second; a thousand million and more in a leap
    /// second.
    pub nanosecond: u32,
}

/// The text of the point in time `at` under the strftime pattern `pattern`,
/// or `None` where `at` is no point in time or `pattern` is no pattern.
pub uninterp spec fn timestamp_text(at: Timestamp, pattern: Seq<char>) -> Option<Seq<char>>;

/// The current local time, read with `chrono::Local::now` and taken apart
/// with the accessors of `chrono::Datelike` and `chrono::Timelike`. Nothing
/// is claimed of the result. chrono panics where the system clock stands
/// before 1970.
#[verifier::external_body]
pub(crate) fn now() -> (at: Timestamp) {
    let t = chrono::Local::now();
    Timestamp {
        year: t.year(),
        month: t.month(),
        day: t.day(),
        hour: t.hour(),
        minute: t.minute(),
        second: t.second(),
        nanosecond: t.nanosecond(),
    }
}

/// Formats `at` with `chrono::NaiveDateTime::format`, written out with
/// `DelayedFormat::write_to`. What is taken on trust is that the text
/// depends on `at` and `pattern` alone: chrono is built without locales and
/// a `Timestamp` carries no time zone. `None` comes back where chrono
/// refuses the calendar fields (`NaiveDate::from_ymd_opt`,
/// `NaiveDate::and_hms_nano_opt`) or reports an error while formatting, as
/// it does for a pattern that it cannot read.
#[verifier::external_body]
pub(crate) fn format_timestamp(at: &Timestamp, pattern: &str) -> (text: Option<String>)
    ensures
        match text {
            Some(t) => timestamp_text(*at, pattern@) == Some(t@),
            None => timestamp_text(*at, pattern@) is None,
        },
{
    let date = chrono::NaiveDate::from_ymd_opt(at.year, at.month, at.day)?;
    let time = date.and_hms_nano_opt(at.hour, at.minute, at.second, at.nanosecond)?;
    let mut text = String::new();
    time.format(pattern).write_to(&mut text).ok()?;
    Some(text)
}

} // verus!
