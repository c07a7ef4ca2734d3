//! The calendar key of a session: day of the year, ISO week and year.

use chrono::Datelike;
use vstd::prelude::*;

verus! {

/// A calendar key as plain numbers.
pub struct CalendarKey {
    pub day: int,
    pub week: int,
    pub year: int,
}

impl CalendarKey {
    /// A day of the year lies in 1..=366 and an ISO week in 1..=53.
    pub open spec fn valid(self) -> bool {
        &&& 1 <= self.day <= 366
        &&& 1 <= self.week <= 53
    }
}

/// The period keys of one moment, fixed when the value is made.
#[derive(Debug, Clone, Copy, PartialEq, Eq, Structural)]
pub struct DayWeekYear {
    day: u32,
    week: u32,
    year: i32,
}

impl View for DayWeekYear {
    type V = CalendarKey;

    closed spec fn view(&self) -> CalendarKey {
        CalendarKey { day: self.day as int, week: self.week as int, year: self.year as int }
    }
}

/// The years that chrono has dates for.
pub open spec fn year_in_range(year: int) -> bool {
    -262_143 <= year <= 262_142
}

/// The leap years of the Gregorian calendar, carried back before its time.
pub open spec fn is_leap_year(year: int) -> bool {
    year % 4 == 0 && (year % 100 != 0 || year % 400 == 0)
}

/// 366 in a leap year, else 365.
pub open spec fn days_in_year(year: int) -> int {
    if is_leap_year(year) {
        366
    } else {
        365
    }
}

/// Whether the year has a day with this number, counting from 1.
pub open spec fn is_date(year: int, day: int) -> bool {
    year_in_range(year) && 1 <= day <= days_in_year(year)
}

/// The ISO 8601 week that chrono gives for a day of a year: weeks start on
/// Monday, and week 1 is the week of the first Thursday of the year.
pub uninterp spec fn iso_week_of(year: int, day: int) -> Option<u32>;

/// Calls `chrono::NaiveDate::from_yo_opt` and, on the date it returns,
/// `Datelike::iso_week` and `IsoWeek::week`. The result depends on the two
/// numbers alone and goes by the name `iso_week_of`. chrono returns a date
/// exactly for the days that exist, in the years it covers, and documents that
/// a week number lies in 1..=53.
#[verifier::external_body]
fn iso_week(year: i32, day: u32) -> (week: Option<u32>)
    ensures
        week == iso_week_of(year as int, day as int),
        week is Some <==> is_date(year as int, day as int),
        week matches Some(w) ==> 1 <= w <= 53,
{
    match chrono::NaiveDate::from_yo_opt(year, day) {
        Some(date) => Some(date.iso_week().week()),
        None => None,
    }
}

/// Reads the local clock through `chrono::Local::now`, takes the date with
/// `DateTime::date_naive` and returns its `Datelike::year` and
/// `Datelike::ordinal`: (calendar year, day of the year). Nothing is claimed
/// of the moment itself, only that the two numbers are a date as chrono has
/// them. A clock that cannot be read is fatal: chrono panics.
#[verifier::external_body]
fn local_today() -> (today: (i32, u32))
    ensures
        is_date(today.0 as int, today.1 as int),
{
    let date = chrono::Local::now().date_naive();
    (date.year(), date.ordinal())
}

impl DayWeekYear {
    #[verifier::type_invariant]
    spec fn in_range(self) -> bool {
        self@.valid()
    }

    /// The key of the present moment on the local clock: the day of the year,
    /// the ISO week of that day, and the calendar year. The year is that of
    /// the day, also where the ISO week belongs to the year before or after.
    pub fn new() -> (now: Self)
        ensures
            now@.valid(),
            is_date(now@.year, now@.day),
            iso_week_of(now@.year, now@.day) == Some(now@.week as u32),
    {
        let (year, day) = local_today();
        let key = Self::for_day(year, day);
        key.unwrap()
    }

    /// The key of a day of a year, where the year has such a day.
    pub fn for_day(year: i32, day: u32) -> (key: Option<Self>)
        ensures
            key is Some <==> is_date(year as int, day as int),
            key matches Some(k) ==> {
                &&& k@.valid()
                &&& k@.day == day
                &&& k@.year == year
                &&& iso_week_of(year as int, day as int) == Some(k@.week as u32)
            },
    {
        match iso_week(year, day) {
            Some(week) => Self::from_parts(day, week, year),
            None => None,
        }
    }

    /// The key made of the given numbers, where they can be a day and a week.
    pub fn from_parts(day: u32, week: u32, year: i32) -> (key: Option<Self>)
        ensures
            key matches Some(k) ==> k@ == (CalendarKey {
                day: day as int,
                week: week as int,
                year: year as int,
            }),
            key is Some <==> (CalendarKey {
                day: day as int,
                week: week as int,
                year: year as int,
            }).valid(),
    {
        if 1 <= day && day <= 366 && 1 <= week && week <= 53 {
            Some(DayWeekYear { day, week, year })
        } else {
            None
        }
    }

    /// The day of the year, counting from 1.
    pub fn day(&self) -> (day: u32)
        ensures
            day == self@.day,
            1 <= day <= 366,
    {
        proof {
            use_type_invariant(self);
        }
        self.day
    }

    /// The ISO week.
    pub fn week(&self) -> (week: u32)
        ensures
            week == self@.week,
            1 <= week <= 53,
    {
        proof {
            use_type_invariant(self);
        }
        self.week
    }

    /// The calendar year.
    pub fn year(&self) -> (year: i32)
        ensures
            year == self@.year,
    {
        self.year
    }
}

} // verus!
