//! Calendar dates, as far as release dates need them.

use vstd::prelude::*;
use crate::text::{
    decimal, parse_i32, parse_u8, signed_value, split, split_on, two_digits, unsigned_value,
    value_within,
};

verus! {

/// Whether a year has 366 days.
pub open spec fn is_leap_year(year: int) -> bool {
    year % 4 == 0 && (year % 100 != 0 || year % 400 == 0)
}

/// The number of days of a month, given by its number from 1 to 12.
pub open spec fn days_in_month(year: int, month: int) -> int {
    if month == 2 {
        if is_leap_year(year) {
            29
        } else {
            28
        }
    } else if month == 4 || month == 6 || month == 9 || month == 11 {
        30
    } else {
        31
    }
}

/// Whether year, month and day name a day of the calendar, in the years
/// from -9999 to 9999.
pub open spec fn is_calendar_date(year: int, month: int, day: int) -> bool {
    &&& -9999 <= year <= 9999
    &&& 1 <= month <= 12
    &&& 1 <= day <= days_in_month(year, month)
}

/// `time::Date::from_calendar_date`, with the month given by its number
/// through `time::Month::try_from`: whether year, month and day name a day of
/// the proleptic Gregorian calendar in the years that the crate holds, -9999
/// to 9999.
#[verifier::external_body]
fn date_exists(year: i32, month: u8, day: u8) -> (exists: bool)
    ensures
        exists == is_calendar_date(year as int, month as int, day as int),
{
    match time::Month::try_from(month) {
        Ok(m) => time::Date::from_calendar_date(year, m, day).is_ok(),
        Err(_) => false,
    }
}

/// A number up to 9999 written with four digits.
pub open spec fn four_digits(n: nat) -> Seq<char> {
    if n < 10 {
        seq!['0', '0', '0'] + decimal(n)
    } else if n < 100 {
        seq!['0', '0'] + decimal(n)
    } else if n < 1000 {
        seq!['0'] + decimal(n)
    } else {
        decimal(n)
    }
}

/// A date written as year, month and day with `-` between them: the year
/// with four digits, and `-` before them for a year before the year 0; month
/// and day with two digits.
pub open spec fn date_text(year: int, month: int, day: int) -> Seq<char> {
    let sign = if year < 0 {
        seq!['-']
    } else {
        Seq::<char>::empty()
    };
    let years = if year < 0 {
        -year
    } else {
        year
    };
    sign + four_digits(years as nat) + seq!['-'] + two_digits(month as nat) + seq!['-']
        + two_digits(day as nat)
}

/// `time::Date::format` with the description `[year]-[month]-[day]`, on the
/// date made by `time::Date::from_calendar_date`: the date written as year,
/// month and day with `-` between them; nothing where there is no such date.
#[verifier::external_body]
fn format_date(year: i32, month: u8, day: u8) -> (text: Option<String>)
    ensures
        text is Some == is_calendar_date(year as int, month as int, day as int),
        text matches Some(t) ==> t@ == date_text(year as int, month as int, day as int),
{
    let format = time::format_description::parse_borrowed::<1>("[year]-[month]-[day]").ok()?;
    let month = time::Month::try_from(month).ok()?;
    time::Date::from_calendar_date(year, month, day).ok()?.format(&format).ok()
}

/// A date, by its numbers.
pub struct DateView {
    pub year: int,
    pub month: int,
    pub day: int,
}

/// A day of the calendar.
#[derive(Clone, Copy, Debug, PartialEq, Eq)]
pub struct ReleaseDate {
    year: i32,
    month: u8,
    day: u8,
}

impl View for ReleaseDate {
    type V = DateView;

    closed spec fn view(&self) -> DateView {
        DateView { year: self.year as int, month: self.month as int, day: self.day as int }
    }
}

impl ReleaseDate {
    #[verifier::type_invariant]
    spec fn is_valid(self) -> bool {
        is_calendar_date(self.year as int, self.month as int, self.day as int)
    }

    /// The date of this year, month and day, where there is such a day.
    pub fn from_calendar_date(year: i32, month: u8, day: u8) -> (date: Option<ReleaseDate>)
        ensures
            date is Some == is_calendar_date(year as int, month as int, day as int),
            date matches Some(d) ==> d@ == (DateView {
                year: year as int,
                month: month as int,
                day: day as int,
            }),
    {
        if date_exists(year, month, day) {
            Some(ReleaseDate { year, month, day })
        } else {
            None
        }
    }

    /// The date written as year, month and day with `-` between them.
    pub fn to_text(&self) -> (text: String)
        ensures
            text@ == date_text(self@.year, self@.month, self@.day),
    {
        proof {
            use_type_invariant(self);
        }
        format_date(self.year, self.month, self.day).unwrap()
    }

    pub fn year(&self) -> (year: i32)
        ensures
            year == self@.year,
            is_calendar_date(self@.year, self@.month, self@.day),
    {
        proof {
            use_type_invariant(self);
        }
        self.year
    }

    /// The month, from 1 to 12.
    pub fn month(&self) -> (month: u8)
        ensures
            month == self@.month,
            1 <= month <= 12,
    {
        proof {
            use_type_invariant(self);
        }
        self.month
    }

    /// The day of the month, from 1.
    pub fn day(&self) -> (day: u8)
        ensures
            day == self@.day,
            1 <= day <= days_in_month(self@.year, self@.month),
    {
        proof {
            use_type_invariant(self);
        }
        self.day
    }
}

/// The number that one field of a date stands for, where the field is there
/// and stands for a number up to 255.
pub open spec fn date_field(fields: Seq<Seq<char>>, at: int) -> Option<int> {
    if at < fields.len() {
        value_within(unsigned_value(fields[at]), 0, 255)
    } else {
        None
    }
}

/// The date that a string of the form year, year-month or year-month-day
/// stands for. A month that is missing, no number or not a month counts as
/// January; a day that is missing or no number counts as the first. Without
/// a year, or where the three name no day of the calendar, there is no date.
pub open spec fn parsed_date(s: Seq<char>) -> Option<DateView> {
    let fields = split(s, '-');
    match value_within(signed_value(fields[0]), i32::MIN as int, i32::MAX as int) {
        None => None,
        Some(year) => {
            let month = match date_field(fields, 1) {
                Some(m) => if 1 <= m <= 12 {
                    m
                } else {
                    1
                },
                None => 1,
            };
            let day = match date_field(fields, 2) {
                Some(d) => d,
                None => 1,
            };
            if is_calendar_date(year, month, day) {
                Some(DateView { year, month, day })
            } else {
                None
            }
        },
    }
}

/// Reads a date as the daemon writes it: a year, with month and day behind
/// it where they are known, set apart by `-`.
pub fn parse_date(datestr: &str) -> (date: Option<ReleaseDate>)
    ensures
        date is Some == parsed_date(datestr@) is Some,
        date matches Some(d) ==> Some(d@) == parsed_date(datestr@),
{
    let fields = split_on(datestr, '-');
    let year = match parse_i32(fields[0].as_str()) {
        Some(year) => year,
        None => {
            return None;
        },
    };
    let mut month: u8 = 1;
    let mut day: u8 = 1;
    if fields.len() > 1 {
        match parse_u8(fields[1].as_str()) {
            Some(m) => {
                if 1 <= m && m <= 12 {
                    month = m;
                }
            },
            None => {},
        }
    }
    if fields.len() > 2 {
        match parse_u8(fields[2].as_str()) {
            Some(d) => {
                day = d;
            },
            None => {},
        }
    }
    ReleaseDate::from_calendar_date(year, month, day)
}

} // verus!
