use chrono::Datelike;
use vstd::prelude::*;

verus! {

pub open spec fn is_leap_year(y: int) -> bool {
    (y % 4 == 0 && y % 100 != 0) || y % 400 == 0
}

pub open spec fn month_length(y: int, m: int) -> int {
    if m == 2 {
        if is_leap_year(y) { 29 } else { 28 }
    } else if m == 4 || m == 6 || m == 9 || m == 11 {
        30
    } else {
        31
    }
}

/// A (year, month, day) triple names a day of the proleptic Gregorian calendar.
pub open spec fn valid_ymd(d: (int, int, int)) -> bool {
    1 <= d.1 <= 12 && 1 <= d.2 <= month_length(d.0, d.1)
}

/// Strict chronological order of two calendar days.
pub open spec fn ymd_before(a: (int, int, int), b: (int, int, int)) -> bool {
    a.0 < b.0 || (a.0 == b.0 && (a.1 < b.1 || (a.1 == b.1 && a.2 < b.2)))
}

/// Number of days in a month of the Gregorian calendar.
pub fn days_in_month(year: i32, month: u32) -> (r: u32)
    requires
        1 <= month <= 12,
    ensures
        r == month_length(year as int, month as int),
{
    if month == 2 {
        if (year % 4 == 0 && year % 100 != 0) || year % 400 == 0 {
            29
        } else {
            28
        }
    } else if month == 4 || month == 6 || month == 9 || month == 11 {
        30
    } else {
        31
    }
}

/// A day of the calendar, kept as its year, month and day.
#[derive(Clone, Copy, Debug, PartialEq, Eq, Structural)]
pub struct CalendarDate {
    pub year: i32,
    pub month: u32,
    pub day: u32,
}

impl View for CalendarDate {
    type V = (int, int, int);

    open spec fn view(&self) -> (int, int, int) {
        (self.year as int, self.month as int, self.day as int)
    }
}

impl CalendarDate {
    pub open spec fn wf(&self) -> bool {
        valid_ymd(self@)
    }

    /// The date with the given fields, if they name a real calendar day.
    pub fn new(year: i32, month: u32, day: u32) -> (r: Option<CalendarDate>)
        ensures
            r is Some <==> valid_ymd((year as int, month as int, day as int)),
            r matches Some(d) ==> d@ == (year as int, month as int, day as int),
    {
        if month < 1 || month > 12 || day < 1 {
            return None;
        }
        if day > days_in_month(year, month) {
            return None;
        }
        Some(CalendarDate { year, month, day })
    }

    /// Whether this day comes strictly before `other`.
    pub fn is_before(&self, other: &CalendarDate) -> (r: bool)
        ensures
            r == ymd_before(self@, other@),
    {
        if self.year != other.year {
            self.year < other.year
        } else if self.month != other.month {
            self.month < other.month
        } else {
            self.day < other.day
        }
    }
}

/// What `%Y-%m-%d` parsing makes of a text: the day it names, if any.
pub uninterp spec fn parsed_iso_date(s: Seq<char>) -> Option<(int, int, int)>;

/// Relies on chrono's `NaiveDate::parse_from_str` with the format `%Y-%m-%d`:
/// the outcome depends on the text alone, and a parsed `NaiveDate` is always
/// a real calendar day.
#[verifier::external_body]
pub(crate) fn parse_iso_date(s: &str) -> (r: Option<CalendarDate>)
    ensures
        r is None <==> parsed_iso_date(s@) is None,
        r matches Some(d) ==> parsed_iso_date(s@) == Some(d@) && d.wf(),
{
    match chrono::NaiveDate::parse_from_str(s, "%Y-%m-%d") {
        Ok(d) => Some(CalendarDate { year: d.year(), month: d.month(), day: d.day() }),
        Err(_) => None,
    }
}

/// Relies on chrono's `Local::now().date_naive()`: today's date in the local
/// time zone, which is a real calendar day.
#[verifier::external_body]
pub(crate) fn local_today() -> (r: CalendarDate)
    ensures
        r.wf(),
{
    let d = chrono::Local::now().date_naive();
    CalendarDate { year: d.year(), month: d.month(), day: d.day() }
}

} // verus!
