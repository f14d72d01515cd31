//! Dates and times of day.
//!
//! Dates are those of the proleptic Gregorian calendar. Which dates and times exist, and on which
//! weekday a date falls, is decided by the `chrono` crate.
use vstd::prelude::*;

verus! {

/// Whether `year` has a 29th of February.
pub open spec fn is_leap_year(year: int) -> bool {
    year % 4 == 0 && (year % 100 != 0 || year % 400 == 0)
}

/// The number of days of a month.
pub open spec fn days_in_month(year: int, month: int) -> int {
    if month == 2 {
        if is_leap_year(year) {
            29
        } else {
            28
        }
    } else if month == 4 || month == 6 || month == 9 || month == 11 {
        30
    } else {
        31
    }
}

/// The number of days of `year` that lie before the first day of `month`.
pub open spec fn days_before_month(year: int, month: int) -> int
    decreases month,
{
    if month <= 1 {
        0
    } else {
        days_before_month(year, month - 1) + days_in_month(year, month - 1)
    }
}

/// The number of a day, counted from the first day of the year 1, which has the number 1.
pub open spec fn day_number(year: int, month: int, day: int) -> int {
    let before = year - 1;
    365 * before + before / 4 - before / 100 + before / 400 + days_before_month(year, month) + day
}

/// Whether a date exists and lies in the range of years that can be represented.
pub open spec fn date_exists(year: int, month: int, day: int) -> bool {
    &&& -262143 <= year <= 262142
    &&& 1 <= month <= 12
    &&& 1 <= day <= days_in_month(year, month)
}

/// Whether a time of day exists; the nanoseconds exceed a second only in a leap second.
pub open spec fn time_exists(hour: int, minute: int, second: int, nano: int) -> bool {
    &&& 0 <= hour < 24
    &&& 0 <= minute < 60
    &&& 0 <= second < 60
    &&& 0 <= nano < 2_000_000_000
    &&& nano >= 1_000_000_000 ==> second == 59
}

/// `chrono::NaiveDate::from_ymd_opt`: a date is made exactly of a year, month and day that exist.
#[verifier::external_body]
fn chrono_has_date(year: i32, month: u32, day: u32) -> (exists_: bool)
    ensures
        exists_ == date_exists(year as int, month as int, day as int),
{
    chrono::NaiveDate::from_ymd_opt(year, month, day).is_some()
}

/// `chrono::NaiveTime::from_hms_nano_opt`: a time is made exactly of an hour, minute, second and
/// nanosecond that exist.
#[verifier::external_body]
fn chrono_has_time(hour: u32, minute: u32, second: u32, nano: u32) -> (exists_: bool)
    ensures
        exists_ == time_exists(hour as int, minute as int, second as int, nano as int),
{
    chrono::NaiveTime::from_hms_nano_opt(hour, minute, second, nano).is_some()
}

/// `chrono::Weekday::number_from_monday` of `chrono::NaiveDate::weekday`: weekdays follow one
/// another day by day, and the first day of the year 1 is a Monday, which has the number 1.
#[verifier::external_body]
fn chrono_weekday(year: i32, month: u32, day: u32) -> (weekday: u32)
    requires
        date_exists(year as int, month as int, day as int),
    ensures
        weekday == (day_number(year as int, month as int, day as int) - 1) % 7 + 1,
{
    let date = chrono::NaiveDate::from_ymd_opt(year, month, day).unwrap();
    chrono::Datelike::weekday(&date).number_from_monday()
}

/// A day of the week.
#[derive(Clone, Copy, Debug, PartialEq, Eq, Structural)]
pub enum Weekday {
    /// Monday.
    Mon,
    /// Tuesday.
    Tue,
    /// Wednesday.
    Wed,
    /// Thursday.
    Thu,
    /// Friday.
    Fri,
    /// Saturday.
    Sat,
    /// Sunday.
    Sun,
}

impl Weekday {
    /// The number of the weekday, with 1 for Monday and 7 for Sunday.
    pub open spec fn number(self) -> int {
        self.days_from_monday() + 1
    }

    /// The number of days since Monday.
    pub open spec fn days_from_monday(self) -> int {
        match self {
            Weekday::Mon => 0,
            Weekday::Tue => 1,
            Weekday::Wed => 2,
            Weekday::Thu => 3,
            Weekday::Fri => 4,
            Weekday::Sat => 5,
            Weekday::Sun => 6,
        }
    }

    /// The number of days since Monday.
    pub fn num_days_from_monday(self) -> (days: u8)
        ensures
            days == self.days_from_monday(),
    {
        match self {
            Weekday::Mon => 0,
            Weekday::Tue => 1,
            Weekday::Wed => 2,
            Weekday::Thu => 3,
            Weekday::Fri => 4,
            Weekday::Sat => 5,
            Weekday::Sun => 6,
        }
    }
}

/// A calendar date that exists.
#[derive(Clone, Copy, Debug, PartialEq, Eq, Structural)]
pub struct NaiveDate {
    /// Year.
    pub year: i32,
    /// Month, 1 to 12.
    pub month: u32,
    /// Day of the month, from 1.
    pub day: u32,
}

impl NaiveDate {
    /// Whether the date exists.
    pub open spec fn wf(self) -> bool {
        date_exists(self.year as int, self.month as int, self.day as int)
    }

    /// The number of the weekday, with 1 for Monday and 7 for Sunday.
    pub open spec fn weekday_number(self) -> int {
        (day_number(self.year as int, self.month as int, self.day as int) - 1) % 7 + 1
    }

    /// Makes the date of a year, month and day, if it exists.
    pub fn from_ymd_opt(year: i32, month: u32, day: u32) -> (date: Option<NaiveDate>)
        ensures
            date is Some <==> date_exists(year as int, month as int, day as int),
            date matches Some(d) ==> d == (NaiveDate { year, month, day }) && d.wf(),
    {
        if chrono_has_date(year, month, day) {
            Some(NaiveDate { year, month, day })
        } else {
            None
        }
    }

    /// The number of the weekday on which the date falls, with 1 for Monday and 7 for Sunday.
    pub fn number_from_monday(&self) -> (weekday: u32)
        requires
            self.wf(),
        ensures
            weekday == self.weekday_number(),
            1 <= weekday <= 7,
    {
        chrono_weekday(self.year, self.month, self.day)
    }
}

/// A time of day that exists.
#[derive(Clone, Copy, Debug, PartialEq, Eq, Structural)]
pub struct NaiveTime {
    /// Hour, 0 to 23.
    pub hour: u32,
    /// Minute, 0 to 59.
    pub minute: u32,
    /// Second, 0 to 59.
    pub second: u32,
    /// Nanosecond; from 1,000,000,000 on in a leap second.
    pub nano: u32,
}

impl NaiveTime {
    /// Whether the time exists.
    pub open spec fn wf(self) -> bool {
        time_exists(self.hour as int, self.minute as int, self.second as int, self.nano as int)
    }

    /// Whether hour, minute and second exist, whatever the fraction of the second.
    pub open spec fn on_the_clock(self) -> bool {
        self.hour < 24 && self.minute < 60 && self.second < 60
    }

    /// Makes the time of an hour, minute, second and nanosecond, if it exists.
    pub fn from_hms_nano_opt(hour: u32, minute: u32, second: u32, nano: u32) -> (time: Option<
        NaiveTime,
    >)
        ensures
            time is Some <==> time_exists(hour as int, minute as int, second as int, nano as int),
            time matches Some(t) ==> t == (NaiveTime { hour, minute, second, nano }) && t.wf(),
    {
        if chrono_has_time(hour, minute, second, nano) {
            Some(NaiveTime { hour, minute, second, nano })
        } else {
            None
        }
    }
}

/// A date and a time of day.
#[derive(Clone, Copy, Debug, PartialEq, Eq, Structural)]
pub struct NaiveDateTime {
    /// The date.
    pub date: NaiveDate,
    /// The time of day.
    pub time: NaiveTime,
}

impl NaiveDateTime {
    /// Joins a date and a time.
    pub fn new(date: NaiveDate, time: NaiveTime) -> (datetime: NaiveDateTime)
        ensures
            datetime == (NaiveDateTime { date, time }),
    {
        NaiveDateTime { date, time }
    }
}

/// The day after another has the next number: within a month, from a month to the next and from a year
/// to the next. So the weekdays of dates follow one another without a gap.
pub proof fn law_days_follow_each_other(year: int, month: int, day: int)
    requires
        date_exists(year, month, day),
    ensures
        day < days_in_month(year, month) ==> day_number(year, month, day + 1) == day_number(
            year,
            month,
            day,
        ) + 1,
        day == days_in_month(year, month) && month < 12 ==> day_number(year, month + 1, 1)
            == day_number(year, month, day) + 1,
        day == days_in_month(year, month) && month == 12 ==> day_number(year + 1, 1, 1)
            == day_number(year, month, day) + 1,
        // A Monday.
        day_number(2024, 1, 1) % 7 == 1,
{
    reveal_with_fuel(days_before_month, 13);
}

} // verus!
