//! The clock and the local calendar, as `chrono` gives them.

use chrono::TimeZone;
use vstd::prelude::*;

verus! {

/// Day, month, year, time and offset from UTC, as the public interface has
/// always written dates.
pub const DATE_FORMAT_STANDARD: &'static str = "%d/%m/%Y %k:%M:%S%:z";

/// Year, month and day.
pub const DATE_FORMAT_USCOMPACT: &'static str = "%Y-%m-%d";

/// How a date is written.
#[derive(Debug, Clone, Copy, PartialEq, Eq, Structural)]
pub enum DateFormat {
    Standard,
    USCompact,
}

/// Calls `chrono::Local::now` and `DateTime::timestamp`: the seconds since
/// the epoch on this machine's clock. Nothing is known of the value.
#[verifier::external_body]
pub fn current_timestamp() -> i64 {
    chrono::Local::now().timestamp()
}

/// Calls `chrono::Local::now` and `DateTime::to_rfc2822`: the present moment
/// in this machine's time zone. Nothing is known of the text.
#[verifier::external_body]
pub fn current_datetime_rfc2822() -> String {
    chrono::Local::now().to_rfc2822()
}

/// The first second that the calendar of `chrono` reaches: midnight before
/// the first day of the year -262143, in UTC.
pub const MIN_TIMESTAMP: i64 = -8_334_601_228_800;

/// The last second that the calendar of `chrono` reaches: the last one of
/// the year 262142, in UTC.
pub const MAX_TIMESTAMP: i64 = 8_210_266_876_799;

/// Whether the calendar reaches the moment `timestamp`, in seconds since
/// the epoch, so that it can be written as a date. The time zone has no
/// say in this.
pub open spec fn calendar_reaches(timestamp: i64) -> bool {
    MIN_TIMESTAMP <= timestamp <= MAX_TIMESTAMP
}

/// Calls `chrono::Local.timestamp_opt` and `DateTime::format`: the moment
/// `timestamp` written in this machine's time zone. `timestamp_opt` gives a
/// moment exactly where the UTC date of `timestamp` lies between
/// `NaiveDate::MIN` and `NaiveDate::MAX`, whatever the time zone, and
/// `format` writes every such moment. The text depends on the time zone, so
/// nothing is claimed of it.
#[verifier::external_body]
fn format_local(timestamp: i64, format: &str) -> (text: Option<String>)
    requires
        format@ == DATE_FORMAT_STANDARD@ || format@ == DATE_FORMAT_USCOMPACT@,
    ensures
        text is Some <==> calendar_reaches(timestamp),
{
    match chrono::Local.timestamp_opt(timestamp, 0).single() {
        Some(moment) => Some(moment.format(format).to_string()),
        None => None,
    }
}

/// The pattern that `chrono` writes a date by.
pub fn format_pattern(format: DateFormat) -> (pattern: &'static str)
    ensures
        pattern@ == match format {
            DateFormat::Standard => DATE_FORMAT_STANDARD@,
            DateFormat::USCompact => DATE_FORMAT_USCOMPACT@,
        },
{
    match format {
        DateFormat::Standard => DATE_FORMAT_STANDARD,
        DateFormat::USCompact => DATE_FORMAT_USCOMPACT,
    }
}

/// Writes the moment `timestamp`, in seconds since the epoch, as a date in
/// the local time zone, by the pattern of `format`. There is a date exactly
/// where the calendar reaches the moment.
pub fn timestamp_to_date_string(timestamp: i64, format: DateFormat) -> (date: Option<String>)
    ensures
        date is Some <==> calendar_reaches(timestamp),
{
    format_local(timestamp, format_pattern(format))
}

} // verus!
