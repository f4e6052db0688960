//! Points in time, as a calendar shows them, and how a listing dates them.
//!
//! A [`Timestamp`] holds the fields of a local date and time as plain
//! numbers. The text of a date comes from the `chrono` crate.

use chrono::NaiveDate;
use vstd::prelude::*;

verus! {

/// The pattern of a date that lies a year or more back: day, month, year.
pub const DATE_WITH_YEAR: &'static str = "%e %b  %Y";

/// The pattern of a date within the last year: day, month, hour and minute.
pub const DATE_WITH_TIME: &'static str = "%e %b %R";

/// The width of a date column, in characters.
pub const DATE_WIDTH: usize = 12;

/// A date and time of day in the local calendar.
#[derive(Debug, Clone, Copy, PartialEq, Eq, Structural)]
pub struct Timestamp {
    pub year: i32,
    pub month: u32,
    pub day: u32,
    pub hour: u32,
    pub minute: u32,
    pub second: u32,
    pub nanosecond: u32,
}

/// Which of the two patterns a date is written in.
#[derive(Debug, Clone, Copy, PartialEq, Eq, Structural)]
pub enum DateStyle {
    WithYear,
    WithTime,
}

/// What `chrono` writes for the date and time with the given fields under
/// the given pattern: `None` where the fields name no date and time of its
/// calendar, or where it finds a fault in the pattern.
pub uninterp spec fn formatted_date(
    year: int,
    month: int,
    day: int,
    hour: int,
    minute: int,
    second: int,
    nanosecond: int,
    pattern: Seq<char>,
) -> Option<Seq<char>>;

impl Timestamp {
    /// Whether the time of day comes before that of `base`.
    pub open spec fn earlier_in_day(&self, base: Timestamp) -> bool {
        self.hour < base.hour || (self.hour == base.hour && (self.minute < base.minute || (
        self.minute == base.minute && (self.second < base.second || (self.second == base.second
            && self.nanosecond < base.nanosecond)))))
    }

    /// Whether month, day and time of day, in this order, come before those of `base`.
    pub open spec fn earlier_in_year(&self, base: Timestamp) -> bool {
        self.month < base.month || (self.month == base.month && (self.day < base.day || (self.day
            == base.day && self.earlier_in_day(base))))
    }

    /// The whole years from `base` to this point: the difference of the
    /// calendar years, less one where the later year has not yet reached the
    /// month, day and time of `base`; `None` where that is negative.
    pub open spec fn whole_years_since(&self, base: Timestamp) -> Option<u32> {
        let years = self.year - base.year - (if self.earlier_in_year(base) {
            1int
        } else {
            0int
        });
        if years >= 0 {
            Some(years as u32)
        } else {
            None
        }
    }

    /// The whole years that have passed from `base` to this point, if `base` is not later.
    pub fn years_since(&self, base: &Timestamp) -> (years: Option<u32>)
        ensures
            years == self.whole_years_since(*base),
    {
        let earlier_in_day = self.hour < base.hour || (self.hour == base.hour && (self.minute
            < base.minute || (self.minute == base.minute && (self.second < base.second || (
        self.second == base.second && self.nanosecond < base.nanosecond)))));
        let earlier = self.month < base.month || (self.month == base.month && (self.day < base.day
            || (self.day == base.day && earlier_in_day)));
        let mut years: i64 = self.year as i64 - base.year as i64;
        if earlier {
            years = years - 1;
        }
        if years >= 0 {
            Some(years as u32)
        } else {
            None
        }
    }

    /// The text of the date under `pattern`, as `chrono` writes it.
    pub open spec fn formatted(&self, pattern: Seq<char>) -> Option<Seq<char>> {
        formatted_date(
            self.year as int,
            self.month as int,
            self.day as int,
            self.hour as int,
            self.minute as int,
            self.second as int,
            self.nanosecond as int,
            pattern,
        )
    }

    /// The text of the date as a listing made at `now` shows it: with its
    /// year where a year or more has passed since, with its time otherwise.
    pub open spec fn listed(&self, now: Timestamp) -> Option<Seq<char>> {
        self.formatted(date_pattern(date_style(now.whole_years_since(*self)))@)
    }

    /// Writes the date as a listing made at `now` shows it. `None` where the
    /// fields name no date that `chrono` knows.
    pub fn format(&self, now: &Timestamp) -> (out: Option<String>)
        ensures
            out.is_some() == self.listed(*now).is_some(),
            out.is_some() ==> out.unwrap()@ == self.listed(*now).unwrap(),
    {
        let style = choose_date_style(now.years_since(self));
        format_fields(
            self.year,
            self.month,
            self.day,
            self.hour,
            self.minute,
            self.second,
            self.nanosecond,
            pattern_of(style),
        )
    }
}

/// The style for a date that lies `years` whole years back: with the year
/// from one year on, with the time for less, and for a date yet to come.
pub open spec fn date_style(years: Option<u32>) -> DateStyle {
    match years {
        Some(n) => if n >= 1 {
            DateStyle::WithYear
        } else {
            DateStyle::WithTime
        },
        None => DateStyle::WithTime,
    }
}

/// The pattern that writes a date in `style`.
pub open spec fn date_pattern(style: DateStyle) -> &'static str {
    match style {
        DateStyle::WithYear => DATE_WITH_YEAR,
        DateStyle::WithTime => DATE_WITH_TIME,
    }
}

/// Chooses the style for a date that lies `years` whole years back.
pub fn choose_date_style(years: Option<u32>) -> (style: DateStyle)
    ensures
        style == date_style(years),
{
    match years {
        Some(n) => if n >= 1 {
            DateStyle::WithYear
        } else {
            DateStyle::WithTime
        },
        None => DateStyle::WithTime,
    }
}

/// The pattern that writes a date in `style`.
pub fn pattern_of(style: DateStyle) -> (pattern: &'static str)
    ensures
        pattern == date_pattern(style),
{
    match style {
        DateStyle::WithYear => DATE_WITH_YEAR,
        DateStyle::WithTime => DATE_WITH_TIME,
    }
}

/// `NaiveDateTime::format` of `chrono`, on the date and time that
/// `NaiveDate::from_ymd_opt` and `NaiveDate::and_hms_nano_opt` make of the
/// fields, written out by `DelayedFormat::write_to`. The contract gives the
/// text a name and says no more of it; the result is `None` where one of the
/// three steps fails.
#[verifier::external_body]
fn format_fields(
    year: i32,
    month: u32,
    day: u32,
    hour: u32,
    minute: u32,
    second: u32,
    nanosecond: u32,
    pattern: &str,
) -> (out: Option<String>)
    ensures
        out.is_some() == formatted_date(
            year as int,
            month as int,
            day as int,
            hour as int,
            minute as int,
            second as int,
            nanosecond as int,
            pattern@,
        ).is_some(),
        out.is_some() ==> out.unwrap()@ == formatted_date(
            year as int,
            month as int,
            day as int,
            hour as int,
            minute as int,
            second as int,
            nanosecond as int,
            pattern@,
        ).unwrap(),
{
    let date = NaiveDate::from_ymd_opt(year, month, day)?;
    let stamp = date.and_hms_nano_opt(hour, minute, second, nanosecond)?;
    let mut text = String::new();
    stamp.format(pattern).write_to(&mut text).ok()?;
    Some(text)
}

} // verus!
