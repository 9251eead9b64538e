//! The proleptic Gregorian calendar: leap years, the lengths of months and years, and the
//! correspondence between a day of the year and a month with a day of the month.
//!
//! The dates themselves are validated and converted by the `time` crate; the contracts of
//! the calls into it are stated over the spec functions of this module.
use vstd::prelude::*;

verus! {

/// The earliest year that a date may have.
pub const MIN_YEAR: i32 = -9999i32;

/// The latest year that a date may have.
pub const MAX_YEAR: i32 = 9999i32;

/// A year divisible by four is a leap year, unless it is divisible by a hundred and not by
/// four hundred.
pub open spec fn is_leap_year(year: int) -> bool {
    year % 4 == 0 && (year % 100 != 0 || year % 400 == 0)
}

/// The number of days in a year.
pub open spec fn year_length(year: int) -> int {
    if is_leap_year(year) {
        366
    } else {
        365
    }
}

/// The number of days in a month (numbered from 1 for January) of a year.
pub open spec fn month_length(year: int, month: int) -> int {
    if month == 2 {
        if is_leap_year(year) {
            29
        } else {
            28
        }
    } else if month == 4 || month == 6 || month == 9 || month == 11 {
        30
    } else {
        31
    }
}

/// The number of days of a year that come before the first day of a month.
pub open spec fn days_before_month(year: int, month: int) -> int {
    let leap: int = if is_leap_year(year) {
        1
    } else {
        0
    };
    if month <= 1 {
        0
    } else if month == 2 {
        31
    } else if month == 3 {
        59 + leap
    } else if month == 4 {
        90 + leap
    } else if month == 5 {
        120 + leap
    } else if month == 6 {
        151 + leap
    } else if month == 7 {
        181 + leap
    } else if month == 8 {
        212 + leap
    } else if month == 9 {
        243 + leap
    } else if month == 10 {
        273 + leap
    } else if month == 11 {
        304 + leap
    } else {
        334 + leap
    }
}

/// The year is one that a date may have.
pub open spec fn year_in_range(year: int) -> bool {
    MIN_YEAR <= year <= MAX_YEAR
}

/// The year, month and day of the month name an existing date.
pub open spec fn is_calendar_date(year: int, month: int, day: int) -> bool {
    &&& year_in_range(year)
    &&& 1 <= month <= 12
    &&& 1 <= day <= month_length(year, month)
}

/// The year and day of the year name an existing date.
pub open spec fn is_ordinal_date(year: int, ordinal: int) -> bool {
    &&& year_in_range(year)
    &&& 1 <= ordinal <= year_length(year)
}

/// The day of the year (counted from 1) of a month and a day of the month.
pub open spec fn ordinal_of(year: int, month: int, day: int) -> int {
    days_before_month(year, month) + day
}

/// The month in which a day of the year falls.
pub open spec fn month_of_ordinal(year: int, ordinal: int) -> int {
    if ordinal <= days_before_month(year, 2) {
        1
    } else if ordinal <= days_before_month(year, 3) {
        2
    } else if ordinal <= days_before_month(year, 4) {
        3
    } else if ordinal <= days_before_month(year, 5) {
        4
    } else if ordinal <= days_before_month(year, 6) {
        5
    } else if ordinal <= days_before_month(year, 7) {
        6
    } else if ordinal <= days_before_month(year, 8) {
        7
    } else if ordinal <= days_before_month(year, 9) {
        8
    } else if ordinal <= days_before_month(year, 10) {
        9
    } else if ordinal <= days_before_month(year, 11) {
        10
    } else if ordinal <= days_before_month(year, 12) {
        11
    } else {
        12
    }
}

/// The day of the month on which a day of the year falls.
pub open spec fn day_of_ordinal(year: int, ordinal: int) -> int {
    ordinal - days_before_month(year, month_of_ordinal(year, ordinal))
}

/// The month after a month; January follows December.
pub open spec fn next_month(month: int) -> int {
    if month == 12 {
        1
    } else {
        month + 1
    }
}

/// The month before a month; December precedes January.
pub open spec fn previous_month(month: int) -> int {
    if month == 1 {
        12
    } else {
        month - 1
    }
}

/// A date given by its year, its month (from 1 for January) and its day of the month.
#[derive(Clone, Copy, Debug, PartialEq, Eq, Structural)]
pub struct CalendarDate {
    pub year: i32,
    pub month: u8,
    pub day: u8,
}

/// The calendar date of a day of a year.
pub open spec fn calendar_date_of(year: int, ordinal: int) -> CalendarDate {
    CalendarDate {
        year: year as i32,
        month: month_of_ordinal(year, ordinal) as u8,
        day: day_of_ordinal(year, ordinal) as u8,
    }
}

/// A time of the day given by its hour, minute and second.
#[derive(Clone, Copy, Debug, PartialEq, Eq, Structural)]
pub struct ClockTime {
    pub hour: u8,
    pub minute: u8,
    pub second: u8,
}

/// The hour, minute, second and nanosecond name a time of the day.
pub open spec fn is_clock_time(hour: int, minute: int, second: int, nanosecond: int) -> bool {
    &&& 0 <= hour < 24
    &&& 0 <= minute < 60
    &&& 0 <= second < 60
    &&& 0 <= nanosecond < 1_000_000_000
}

/// The nanoseconds in a day.
pub open spec fn nanoseconds_per_day() -> int {
    86_400_000_000_000
}

/// The nanoseconds from midnight to a time of the day.
pub open spec fn nanoseconds_of_day(hour: int, minute: int, second: int, nanosecond: int) -> int {
    ((hour * 60 + minute) * 60 + second) * 1_000_000_000 + nanosecond
}

/// The hour, minute, second and nanosecond of the time that lies `n` nanoseconds after
/// midnight.
pub open spec fn clock_of_nanoseconds(n: int) -> (u8, u8, u8, u32) {
    (
        (n / 3_600_000_000_000) as u8,
        ((n / 60_000_000_000) % 60) as u8,
        ((n / 1_000_000_000) % 60) as u8,
        (n % 1_000_000_000) as u32,
    )
}

/// `time::Date::from_calendar_date`, with the month given by its number through
/// `time::Month::try_from`. A date is made when the year lies within ±9999, the month within
/// 1 to 12 and the day within the length of the month; the date is returned as its year and
/// its day of the year, which is the count of the days of the months before it plus the day.
#[verifier::external_body]
fn date_from_calendar_date(year: i32, month: u8, day: u8) -> (r: Option<(i32, u16)>)
    ensures
        r == (if is_calendar_date(year as int, month as int, day as int) {
            Some((year, ordinal_of(year as int, month as int, day as int) as u16))
        } else {
            None::<(i32, u16)>
        }),
{
    match ::time::Month::try_from(month) {
        Ok(m) => match ::time::Date::from_calendar_date(year, m, day) {
            Ok(d) => Some(d.to_ordinal_date()),
            Err(_) => None,
        },
        Err(_) => None,
    }
}

/// `time::Date::from_ordinal_date`, with the date read back by `to_calendar_date` and the
/// month given by its number. A date is made when the year lies within ±9999 and the day of
/// the year within the length of the year; it is returned as its year, the month in which
/// the day falls and the day of that month.
#[verifier::external_body]
fn date_from_ordinal_date(year: i32, ordinal: u16) -> (r: Option<(i32, u8, u8)>)
    ensures
        r == (if is_ordinal_date(year as int, ordinal as int) {
            Some(
                (
                    year,
                    month_of_ordinal(year as int, ordinal as int) as u8,
                    day_of_ordinal(year as int, ordinal as int) as u8,
                ),
            )
        } else {
            None::<(i32, u8, u8)>
        }),
{
    match ::time::Date::from_ordinal_date(year, ordinal) {
        Ok(d) => {
            let (y, m, day) = d.to_calendar_date();
            Some((y, u8::from(m), day))
        },
        Err(_) => None,
    }
}

/// `time::util::days_in_year_month`, with the month given by its number through
/// `time::Month::try_from`: the number of days in the month of the year, by the leap-year
/// rule of the proleptic Gregorian calendar.
#[verifier::external_body]
#[allow(deprecated)]
pub(crate) fn days_in_year_month(year: i32, month: u8) -> (r: u8)
    requires
        1 <= month <= 12,
    ensures
        r == month_length(year as int, month as int),
{
    match ::time::Month::try_from(month) {
        Ok(m) => ::time::util::days_in_year_month(year, m),
        Err(_) => 0,
    }
}

/// `time::util::days_in_year`: 366 for a leap year of the proleptic Gregorian calendar, else
/// 365.
#[verifier::external_body]
pub(crate) fn days_in_year(year: i32) -> (r: u16)
    ensures
        r == year_length(year as int),
{
    ::time::util::days_in_year(year)
}

/// `time::Time::from_hms`, read back by `as_hms`: a time is made when the hour is below 24 and
/// the minute and the second below 60, and it holds them unchanged.
#[verifier::external_body]
fn time_from_hms(hour: u8, minute: u8, second: u8) -> (r: Option<(u8, u8, u8)>)
    ensures
        r == (if is_clock_time(hour as int, minute as int, second as int, 0) {
            Some((hour, minute, second))
        } else {
            None::<(u8, u8, u8)>
        }),
{
    match ::time::Time::from_hms(hour, minute, second) {
        Ok(t) => Some(t.as_hms()),
        Err(_) => None,
    }
}

/// `time::Time::from_hms_nano` followed by the addition of `time::Duration::new(seconds,
/// nanoseconds)`, read back by `as_hms_nano`: a time is made when the hour is below 24, the
/// minute and the second below 60 and the nanosecond below 10^9, and the addition wraps past
/// midnight. The duration added is less than a day.
#[verifier::external_body]
fn time_plus_duration(
    hour: u8,
    minute: u8,
    second: u8,
    nanosecond: u32,
    seconds: i64,
    nanoseconds: i32,
) -> (r: Option<(u8, u8, u8, u32)>)
    requires
        0 <= seconds < 86_400,
        0 <= nanoseconds < 1_000_000_000,
    ensures
        r == (if is_clock_time(hour as int, minute as int, second as int, nanosecond as int) {
            Some(
                clock_of_nanoseconds(
                    (nanoseconds_of_day(hour as int, minute as int, second as int, nanosecond as int)
                        + seconds * 1_000_000_000 + nanoseconds) % nanoseconds_per_day(),
                ),
            )
        } else {
            None::<(u8, u8, u8, u32)>
        }),
{
    match ::time::Time::from_hms_nano(hour, minute, second, nanosecond) {
        Ok(t) => Some((t + ::time::Duration::new(seconds, nanoseconds)).as_hms_nano()),
        Err(_) => None,
    }
}

/// The day of the year of a calendar date.
pub fn ordinal_from_calendar_date(year: u16, month: u8, day: u8) -> (r: u16)
    requires
        is_calendar_date(year as int, month as int, day as int),
    ensures
        r == ordinal_of(year as int, month as int, day as int),
{
    match date_from_calendar_date(year as i32, month, day) {
        Some((_, ordinal)) => ordinal,
        None => 0,
    }
}

/// The calendar date of a day of a year.
pub fn calendar_date_from_ordinal(year: u16, ordinal: u16) -> (r: CalendarDate)
    requires
        is_ordinal_date(year as int, ordinal as int),
    ensures
        r == calendar_date_of(year as int, ordinal as int),
{
    match date_from_ordinal_date(year as i32, ordinal) {
        Some((y, month, day)) => CalendarDate { year: y, month, day },
        None => CalendarDate { year: 0, month: 0, day: 0 },
    }
}

/// The time of the day at an hour, minute and second.
pub fn clock_time(hour: u8, minute: u8, second: u8) -> (r: ClockTime)
    requires
        is_clock_time(hour as int, minute as int, second as int, 0),
    ensures
        r == (ClockTime { hour, minute, second }),
{
    match time_from_hms(hour, minute, second) {
        Some((h, m, s)) => ClockTime { hour: h, minute: m, second: s },
        None => ClockTime { hour: 0, minute: 0, second: 0 },
    }
}

/// The time of the day one nanosecond after the given one, wrapping past midnight.
pub fn one_nanosecond_later(hour: u8, minute: u8, second: u8, nanosecond: u32) -> (r: (
    u8,
    u8,
    u8,
    u32,
))
    requires
        is_clock_time(hour as int, minute as int, second as int, nanosecond as int),
    ensures
        r == clock_of_nanoseconds(
            (nanoseconds_of_day(hour as int, minute as int, second as int, nanosecond as int) + 1)
                % nanoseconds_per_day(),
        ),
{
    match time_plus_duration(hour, minute, second, nanosecond, 0, 1) {
        Some(t) => t,
        None => (0, 0, 0, 0),
    }
}

/// Every existing calendar date is a day of its year, whose month and day of the month give
/// the date back.
pub proof fn law_calendar_date_to_ordinal(year: int, month: int, day: int)
    requires
        is_calendar_date(year, month, day),
    ensures
        is_ordinal_date(year, ordinal_of(year, month, day)),
        month_of_ordinal(year, ordinal_of(year, month, day)) == month,
        day_of_ordinal(year, ordinal_of(year, month, day)) == day,
{
}

/// Every day of a year falls on an existing calendar date, whose day of the year is the day
/// back.
pub proof fn law_ordinal_to_calendar_date(year: int, ordinal: int)
    requires
        is_ordinal_date(year, ordinal),
    ensures
        is_calendar_date(year, month_of_ordinal(year, ordinal), day_of_ordinal(year, ordinal)),
        ordinal_of(year, month_of_ordinal(year, ordinal), day_of_ordinal(year, ordinal))
            == ordinal,
{
}

/// The year and day of the year of the date one month after a date: the same day of the
/// following month, or its last day where that month is shorter.
pub open spec fn month_forward_of(year: int, ordinal: int) -> (int, int) {
    let month = month_of_ordinal(year, ordinal);
    let day = day_of_ordinal(year, ordinal);
    let next = next_month(month);
    let new_year = if next == 1 {
        year + 1
    } else {
        year
    };
    let new_day = if day < month_length(year, next) {
        day
    } else {
        month_length(year, next)
    };
    (new_year, ordinal_of(new_year, next, new_day))
}

/// The year and day of the year of the date one month before a date: the same day of the
/// preceding month, or its last day where that month is shorter. The year is kept in 16 bits,
/// so that the year before year 0 reads as 65535.
pub open spec fn month_backward_of(year: int, ordinal: int) -> (int, int) {
    let month = month_of_ordinal(year, ordinal);
    let day = day_of_ordinal(year, ordinal);
    let prev = previous_month(month);
    let new_year = if prev == 12 {
        year - 1
    } else {
        year
    };
    let new_day = if day < month_length(year, prev) {
        day
    } else {
        month_length(year, prev)
    };
    (
        if new_year < 0 {
            new_year + 0x10000
        } else {
            new_year
        },
        ordinal_of(new_year, prev, new_day),
    )
}

/// The date one month after a date, as a year and a day of the year.
pub fn month_forward(year: u16, ordinal: u16) -> (r: (u16, u16))
    requires
        is_ordinal_date(year as int, ordinal as int),
        month_of_ordinal(year as int, ordinal as int) == 12 ==> year + 1 <= MAX_YEAR,
    ensures
        r.0 == month_forward_of(year as int, ordinal as int).0,
        r.1 == month_forward_of(year as int, ordinal as int).1,
{
    proof {
        law_ordinal_to_calendar_date(year as int, ordinal as int);
    }
    let date = calendar_date_from_ordinal(year, ordinal);
    let next: u8 = if date.month == 12 {
        1
    } else {
        date.month + 1
    };
    let next_days = days_in_year_month(date.year, next);
    let mut new_year = date.year;
    if next == 1 {
        new_year = new_year + 1;
    }
    let day = if date.day < next_days {
        date.day
    } else {
        next_days
    };
    match date_from_calendar_date(new_year, next, day) {
        Some((y, o)) => (y as u16, o),
        None => (0, 0),
    }
}

/// The date one month before a date, as a year and a day of the year.
pub fn month_backward(year: u16, ordinal: u16) -> (r: (u16, u16))
    requires
        is_ordinal_date(year as int, ordinal as int),
    ensures
        r.0 == month_backward_of(year as int, ordinal as int).0,
        r.1 == month_backward_of(year as int, ordinal as int).1,
{
    proof {
        law_ordinal_to_calendar_date(year as int, ordinal as int);
    }
    let date = calendar_date_from_ordinal(year, ordinal);
    let prev: u8 = if date.month == 1 {
        12
    } else {
        date.month - 1
    };
    let prev_days = days_in_year_month(date.year, prev);
    let mut new_year = date.year;
    if prev == 12 {
        new_year = new_year - 1;
    }
    let day = if date.day < prev_days {
        date.day
    } else {
        prev_days
    };
    match date_from_calendar_date(new_year, prev, day) {
        Some((y, o)) => {
            assert(y == -1 ==> y as u16 == 0xffff) by (bit_vector);
            (y as u16, o)
        },
        None => (0, 0),
    }
}

/// Going one month forward and then one month back gives the date back, when its day of the
/// month is at most 28, so that every month has it, and the year after it can be had.
pub proof fn law_month_forward_then_backward(year: int, ordinal: int)
    requires
        is_ordinal_date(year, ordinal),
        0 <= year,
        year + 1 <= MAX_YEAR,
        day_of_ordinal(year, ordinal) <= 28,
    ensures
        month_backward_of(month_forward_of(year, ordinal).0, month_forward_of(year, ordinal).1)
            == (year, ordinal),
{
    law_ordinal_to_calendar_date(year, ordinal);
    let month = month_of_ordinal(year, ordinal);
    let day = day_of_ordinal(year, ordinal);
    let next = next_month(month);
    let new_year = if next == 1 {
        year + 1
    } else {
        year
    };
    law_calendar_date_to_ordinal(new_year, next, day);
}

/// One month forward lands on an existing date in the following month, in the following year
/// after December: on the same day of the month, or on the last day of that month where it is
/// shorter.
pub proof fn law_month_forward(year: int, ordinal: int)
    requires
        is_ordinal_date(year, ordinal),
        month_of_ordinal(year, ordinal) == 12 ==> year + 1 <= MAX_YEAR,
    ensures
        ({
            let month = month_of_ordinal(year, ordinal);
            let day = day_of_ordinal(year, ordinal);
            let (new_year, new_ordinal) = month_forward_of(year, ordinal);
            &&& new_year == if month == 12 { year + 1 } else { year }
            &&& is_ordinal_date(new_year, new_ordinal)
            &&& month_of_ordinal(new_year, new_ordinal) == next_month(month)
            &&& day_of_ordinal(new_year, new_ordinal) == if day < month_length(new_year, next_month(month)) {
                day
            } else {
                month_length(new_year, next_month(month))
            }
        }),
{
    law_ordinal_to_calendar_date(year, ordinal);
    let month = month_of_ordinal(year, ordinal);
    let day = day_of_ordinal(year, ordinal);
    let next = next_month(month);
    let new_year = if next == 1 {
        year + 1
    } else {
        year
    };
    let new_day = if day < month_length(new_year, next) {
        day
    } else {
        month_length(new_year, next)
    };
    assert(month_length(year, next) == month_length(new_year, next));
    law_calendar_date_to_ordinal(new_year, next, new_day);
}

/// One month back lands on an existing date in the preceding month, in the preceding year
/// before January: on the same day of the month, or on the last day of that month where it is
/// shorter.
pub proof fn law_month_backward(year: int, ordinal: int)
    requires
        is_ordinal_date(year, ordinal),
        0 <= year,
        month_of_ordinal(year, ordinal) == 1 ==> 1 <= year,
    ensures
        ({
            let month = month_of_ordinal(year, ordinal);
            let day = day_of_ordinal(year, ordinal);
            let (new_year, new_ordinal) = month_backward_of(year, ordinal);
            &&& new_year == if month == 1 { year - 1 } else { year }
            &&& is_ordinal_date(new_year, new_ordinal)
            &&& month_of_ordinal(new_year, new_ordinal) == previous_month(month)
            &&& day_of_ordinal(new_year, new_ordinal) == if day < month_length(new_year, previous_month(month)) {
                day
            } else {
                month_length(new_year, previous_month(month))
            }
        }),
{
    law_ordinal_to_calendar_date(year, ordinal);
    let month = month_of_ordinal(year, ordinal);
    let day = day_of_ordinal(year, ordinal);
    let prev = previous_month(month);
    let new_year = if prev == 12 {
        year - 1
    } else {
        year
    };
    let new_day = if day < month_length(new_year, prev) {
        day
    } else {
        month_length(new_year, prev)
    };
    assert(month_length(year, prev) == month_length(new_year, prev));
    law_calendar_date_to_ordinal(new_year, prev, new_day);
}

} // verus!
