//! Date handling: parsing the two accepted due-date layouts into Unix
//! timestamps, and classifying a due date for list output.
//!
//! The calendar arithmetic itself is chrono's; its outcome on a given string
//! is a pure function of that string and carries the name `parsed_datetime`.

use vstd::prelude::*;

verus! {

/// What chrono yields for `s` under the fixed layout `YYYY-MM-DD HH:MM:SS`,
/// as a UTC Unix timestamp; `None` when `s` is not of that shape.
pub uninterp spec fn parsed_datetime(s: Seq<char>) -> Option<i64>;

/// Relies on chrono's `NaiveDateTime::parse_from_str` with the fixed format
/// `"%Y-%m-%d %H:%M:%S"`, and on `and_utc().timestamp()` to turn the parsed
/// instant into a plain value: the outcome depends on the input characters
/// alone.
#[verifier::external_body]
pub(crate) fn parse_datetime_str(s: &str) -> (r: Option<i64>)
    ensures
        r == parsed_datetime(s@),
{
    match chrono::NaiveDateTime::parse_from_str(s, "%Y-%m-%d %H:%M:%S") {
        Ok(dt) => Some(dt.and_utc().timestamp()),
        Err(_) => None,
    }
}

/// Relies on chrono's `DateTime::from_timestamp`, `with_timezone(&Local)` and
/// `format("%Y-%m-%d %H:%M:%S")`.  The text depends on the machine's time
/// zone, so its value is not pinned; an out-of-range timestamp yields an
/// empty string.  The fixed format emits digits, dashes, colons and spaces
/// only, except that a year of five or more digits is written with a leading
/// `'+'` sign, so every character is a due-date character or `'+'`.
#[verifier::external_body]
pub(crate) fn format_local_datetime(ts: i64) -> (r: String)
    ensures
        forall|i: int|
            0 <= i < r@.len() ==> crate::form::is_due_char(#[trigger] r@[i]) || r@[i] == '+',
{
    match chrono::DateTime::from_timestamp(ts, 0) {
        Some(dt) => dt.with_timezone(&chrono::Local).format("%Y-%m-%d %H:%M:%S").to_string(),
        None => String::new(),
    }
}

/// The message reported for a date string in neither accepted layout.
pub open spec fn invalid_date_msg() -> Seq<char> {
    "Invalid date format. Use YYYY-MM-DD or YYYY-MM-DD HH:MM:SS"@
}

/// The result of reading `s` first as `YYYY-MM-DD HH:MM:SS`, then as a bare
/// `YYYY-MM-DD` taken at midnight; `None` when neither layout fits.
pub open spec fn spec_parse_date(s: Seq<char>) -> Option<i64> {
    if parsed_datetime(s) is Some {
        parsed_datetime(s)
    } else {
        parsed_datetime(s + " 00:00:00"@)
    }
}

/// Parses a date string into a Unix timestamp.  Accepts `YYYY-MM-DD HH:MM:SS`
/// and `YYYY-MM-DD` (taken at midnight); anything else is rejected with a
/// format error.  The written time is read as a UTC instant, so the result is
/// a pure function of the string.
pub fn parse_date(date_str: &str) -> (r: Result<i64, String>)
    ensures
        match r {
            Ok(t) => spec_parse_date(date_str@) == Some(t),
            Err(m) => spec_parse_date(date_str@) is None && m@ == invalid_date_msg(),
        },
{
    match parse_datetime_str(date_str) {
        Some(t) => Ok(t),
        None => {
            let with_time = date_str.to_owned().concat(" 00:00:00");
            match parse_datetime_str(with_time.as_str()) {
                Some(t) => Ok(t),
                None => Err(
                    String::from_str("Invalid date format. Use YYYY-MM-DD or YYYY-MM-DD HH:MM:SS"),
                ),
            }
        },
    }
}

/// How a due date relates to the current day, for list output.
#[derive(Debug, Clone, Copy, PartialEq, Eq, Structural)]
pub enum DueClass {
    Today,
    Tomorrow,
    Past,
    Future,
}

/// Classifies a due date given its local calendar day, today's local calendar
/// day, and whether the due instant lies before now.
pub fn due_class(due_day: i64, today_day: i64, due_before_now: bool) -> (c: DueClass)
    ensures
        c == (if due_day == today_day {
            DueClass::Today
        } else if due_day == today_day + 1 {
            DueClass::Tomorrow
        } else if due_before_now {
            DueClass::Past
        } else {
            DueClass::Future
        }),
{
    if due_day == today_day {
        DueClass::Today
    } else if today_day < i64::MAX && due_day == today_day + 1 {
        DueClass::Tomorrow
    } else if due_before_now {
        DueClass::Past
    } else {
        DueClass::Future
    }
}

} // verus!
