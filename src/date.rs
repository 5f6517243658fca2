use chrono::Datelike;
use vstd::prelude::*;

verus! {

/// The earliest year that a calendar date may have.
pub const MIN_YEAR: i32 = -262143;

/// The latest year that a calendar date may have.
pub const MAX_YEAR: i32 = 262142;

/// A calendar date of the proleptic Gregorian calendar.
#[derive(Debug, Clone, Copy, PartialEq, Eq, Structural)]
pub struct Date {
    pub year: i32,
    pub month: u32,
    pub day: u32,
}

/// Whether a year has a 29th of February.
pub open spec fn is_leap_year(year: int) -> bool {
    year % 4 == 0 && (year % 100 != 0 || year % 400 == 0)
}

/// The number of days of a month (1 to 12) in a year.
pub open spec fn days_in_month(year: int, month: int) -> int {
    if month == 2 {
        if is_leap_year(year) {
            29
        } else {
            28
        }
    } else if month == 4 || month == 6 || month == 9 || month == 11 {
        30
    } else {
        31
    }
}

/// Whether (year, month, day) names a real date within the supported years.
pub open spec fn valid_ymd(year: i32, month: u32, day: u32) -> bool {
    &&& MIN_YEAR <= year <= MAX_YEAR
    &&& 1 <= month <= 12
    &&& 1 <= day <= days_in_month(year as int, month as int)
}

/// The text of a valid date as chrono shows it (`YYYY-MM-DD` for years 0 to 9999).
pub uninterp spec fn date_text(year: i32, month: u32, day: u32) -> Seq<char>;

/// Relies on `chrono::NaiveDate::from_ymd_opt`, which returns `None` exactly
/// for an out-of-range year, an invalid month or a day the month lacks.
#[verifier::external_body]
fn ymd_is_valid(year: i32, month: u32, day: u32) -> (r: bool)
    ensures
        r == valid_ymd(year, month, day),
{
    chrono::NaiveDate::from_ymd_opt(year, month, day).is_some()
}

/// Relies on `chrono::Local::now` and `DateTime::date_naive`: the local date
/// of the moment of the call, which is always a valid date.
#[verifier::external_body]
fn local_today() -> (r: Date)
    ensures
        r.wf(),
{
    let now = chrono::Local::now().date_naive();
    Date { year: now.year(), month: now.month(), day: now.day() }
}

/// Relies on chrono's `Display` for `NaiveDate`, reached through `to_string`.
#[verifier::external_body]
fn render_date(d: &Date) -> (r: String)
    requires
        d.wf(),
    ensures
        r@ == date_text(d.year, d.month, d.day),
{
    chrono::NaiveDate::from_ymd_opt(d.year, d.month, d.day).unwrap().to_string()
}

impl Date {
    /// A date is well formed when it names a real day.
    pub open spec fn wf(self) -> bool {
        valid_ymd(self.year, self.month, self.day)
    }

    /// Strict chronological order.
    pub open spec fn before(self, other: Date) -> bool {
        ||| self.year < other.year
        ||| (self.year == other.year && self.month < other.month)
        ||| (self.year == other.year && self.month == other.month && self.day < other.day)
    }

    /// The date for (year, month, day), or `None` when no such day exists.
    pub open spec fn from_ymd_spec(year: i32, month: u32, day: u32) -> Option<Date> {
        if valid_ymd(year, month, day) {
            Some(Date { year, month, day })
        } else {
            None
        }
    }

    /// Builds the date for (year, month, day); `None` when it is no real day.
    pub fn from_ymd(year: i32, month: u32, day: u32) -> (r: Option<Date>)
        ensures
            r == Self::from_ymd_spec(year, month, day),
    {
        if ymd_is_valid(year, month, day) {
            Some(Date { year, month, day })
        } else {
            None
        }
    }

    /// Today's date on this machine's local clock.
    pub fn today() -> (r: Date)
        ensures
            r.wf(),
    {
        local_today()
    }

    /// Whether this date lies strictly before `other`.
    pub fn is_before(&self, other: &Date) -> (r: bool)
        ensures
            r == self.before(*other),
    {
        if self.year != other.year {
            self.year < other.year
        } else if self.month != other.month {
            self.month < other.month
        } else {
            self.day < other.day
        }
    }

    /// The date as text, `YYYY-MM-DD` for the years 0 to 9999.
    pub fn to_text(&self) -> (r: String)
        requires
            self.wf(),
        ensures
            r@ == date_text(self.year, self.month, self.day),
    {
        render_date(self)
    }
}

} // verus!
