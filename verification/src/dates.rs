//! How a day's date is worded relative to today.

use chrono::Datelike;
use vstd::prelude::*;

use crate::clock::now;
use crate::types::DateTime;

verus! {

/// A date of the proleptic Gregorian calendar as plain numbers.
#[derive(Debug, Clone, Copy, PartialEq, Eq, Structural)]
pub struct CivilDate {
    pub year: i32,
    /// 1 for January to 12 for December.
    pub month: u32,
    /// The day of the month, from 1.
    pub day: u32,
    /// 0 for Monday to 6 for Sunday.
    pub weekday: u32,
    /// Days counted from January 1 of the year 1, which is day 1.
    pub day_number: i32,
}

impl CivilDate {
    /// Month, day and weekday lie in the ranges of a calendar date.
    pub open spec fn in_range(self) -> bool {
        &&& 1 <= self.month <= 12
        &&& 1 <= self.day <= 31
        &&& self.weekday <= 6
    }
}

/// How to word a date.
#[derive(Debug, Clone, Copy, PartialEq, Eq, Structural)]
pub enum NiceDate {
    Today,
    Yesterday,
    /// By the name of its weekday, given as 0 for Monday to 6 for Sunday.
    Weekday(u32),
    /// By the day of the month and its ordinal suffix.
    DayOfMonth { day: u32 },
    /// In full: day, month and year.
    Full { day: u32, month: u32, year: i32 },
}

/// The calendar date, in UTC, of the instant `secs` seconds and `nanos`
/// nanoseconds after the Unix epoch, where the calendar can express it.
pub uninterp spec fn civil_date(secs: i64, nanos: u32) -> Option<CivilDate>;

/// Calls `chrono::DateTime::from_timestamp` and `DateTime::date_naive`, and
/// reads the date's `year`, `month`, `day`, `weekday` (as
/// `num_days_from_monday`) and `num_days_from_ce`. The result is a function
/// of the instant alone; month, day and weekday are in the ranges that chrono
/// documents for them.
#[verifier::external_body]
pub(crate) fn calendar_date(t: DateTime) -> (r: Option<CivilDate>)
    ensures
        r == civil_date(t.secs, t.nanos),
        match r {
            Some(c) => c.in_range(),
            None => true,
        },
{
    let d = chrono::DateTime::from_timestamp(t.secs, t.nanos)?.date_naive();
    Some(
        CivilDate {
            year: d.year(),
            month: d.month(),
            day: d.day(),
            weekday: d.weekday().num_days_from_monday(),
            day_number: d.num_days_from_ce(),
        },
    )
}

/// The ordinal suffix of a day of the month: "th" for 11, 12 and 13, else by the last digit.
pub open spec fn day_suffix(day: u32) -> Seq<char> {
    if day == 11 || day == 12 || day == 13 {
        "th"@
    } else if day % 10 == 1 {
        "st"@
    } else if day % 10 == 2 {
        "nd"@
    } else if day % 10 == 3 {
        "rd"@
    } else {
        "th"@
    }
}

/// The English name of a month, and the empty string for a number that is no month.
pub open spec fn month_name(month: u32) -> Seq<char> {
    if month == 1 {
        "January"@
    } else if month == 2 {
        "February"@
    } else if month == 3 {
        "March"@
    } else if month == 4 {
        "April"@
    } else if month == 5 {
        "May"@
    } else if month == 6 {
        "June"@
    } else if month == 7 {
        "July"@
    } else if month == 8 {
        "August"@
    } else if month == 9 {
        "September"@
    } else if month == 10 {
        "October"@
    } else if month == 11 {
        "November"@
    } else if month == 12 {
        "December"@
    } else {
        ""@
    }
}

/// The weekday before `weekday`: Sunday before Monday.
pub open spec fn weekday_before(weekday: u32) -> int {
    if weekday == 0 {
        6
    } else {
        weekday - 1
    }
}

/// How `date` is worded when today is `today`: the same day is "today", the
/// day before is "yesterday"; a date less than a week back that falls on the
/// weekday before today's goes by its weekday; another date of this month
/// and year by its day of the month; any other in full.
pub open spec fn wording(date: CivilDate, today: CivilDate) -> NiceDate {
    let days = today.day_number - date.day_number;
    if days == 0 {
        NiceDate::Today
    } else if days == 1 {
        NiceDate::Yesterday
    } else if days < 7 && date.weekday == weekday_before(today.weekday) {
        NiceDate::Weekday(date.weekday)
    } else if date.month == today.month && date.year == today.year {
        NiceDate::DayOfMonth { day: date.day }
    } else {
        NiceDate::Full { day: date.day, month: date.month, year: date.year }
    }
}

/// The wording of the instant `date` when the clock reads `today`, where the
/// calendar can express both.
pub open spec fn wording_at(date: DateTime, today: DateTime) -> Option<NiceDate> {
    match (civil_date(date.secs, date.nanos), civil_date(today.secs, today.nanos)) {
        (Some(d), Some(t)) => Some(wording(d, t)),
        _ => None,
    }
}

/// The ordinal suffix that follows a day of the month: 1st, 2nd, 3rd, 4th, 11th.
pub fn get_day_suffix(day: u32) -> (s: &'static str)
    ensures
        s@ == day_suffix(day),
{
    if day == 11 || day == 12 || day == 13 {
        "th"
    } else if day % 10 == 1 {
        "st"
    } else if day % 10 == 2 {
        "nd"
    } else if day % 10 == 3 {
        "rd"
    } else {
        "th"
    }
}

/// The English name of the month numbered `month`, from 1 for January.
pub fn get_month_name(month: u32) -> (s: &'static str)
    ensures
        s@ == month_name(month),
{
    match month {
        1 => "January",
        2 => "February",
        3 => "March",
        4 => "April",
        5 => "May",
        6 => "June",
        7 => "July",
        8 => "August",
        9 => "September",
        10 => "October",
        11 => "November",
        12 => "December",
        _ => "",
    }
}

/// Words `date` as seen from `today`.
pub fn nice_date(date: CivilDate, today: CivilDate) -> (r: NiceDate)
    ensures
        r == wording(date, today),
{
    let days: i64 = today.day_number as i64 - date.day_number as i64;
    let before: u32 = if today.weekday == 0 {
        6
    } else {
        today.weekday - 1
    };
    if days == 0 {
        NiceDate::Today
    } else if days == 1 {
        NiceDate::Yesterday
    } else if days < 7 && date.weekday == before {
        NiceDate::Weekday(date.weekday)
    } else if date.month == today.month && date.year == today.year {
        NiceDate::DayOfMonth { day: date.day }
    } else {
        NiceDate::Full { day: date.day, month: date.month, year: date.year }
    }
}

/// Words the instant `date` as seen from the instant `today`; `None` where
/// the calendar cannot express one of them.
pub fn nice_date_at(date: DateTime, today: DateTime) -> (r: Option<NiceDate>)
    ensures
        r == wording_at(date, today),
{
    let t = match calendar_date(today) {
        Some(t) => t,
        None => {
            return None;
        },
    };
    match calendar_date(date) {
        Some(d) => Some(nice_date(d, t)),
        None => None,
    }
}

/// Words the instant `date` as seen from now: the result is that of
/// `nice_date_at` for some reading of the clock.
pub fn fmt_nice_date(date: DateTime) -> (r: Option<NiceDate>)
    ensures
        exists|today: DateTime| r == #[trigger] wording_at(date, today),
{
    let today = now();
    let r = nice_date_at(date, today);
    assert(r == wording_at(date, today));
    r
}

} // verus!
