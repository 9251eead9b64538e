//! A date, and a date with the hour and minute, held as plain fields.
use vstd::prelude::*;
use super::calendar::{
    CalendarDate, ClockTime, calendar_date_from_ordinal, calendar_date_of, clock_time,
    days_before_month, days_in_year, days_in_year_month, is_calendar_date, is_clock_time,
    is_ordinal_date, law_calendar_date_to_ordinal, law_ordinal_to_calendar_date, month_backward,
    month_backward_of, month_forward, month_forward_of, month_length, month_of_ordinal,
    ordinal_from_calendar_date, ordinal_of, year_length, MAX_YEAR,
};
use super::date::date_before;
use super::time_date::lemma_radix_order;
use super::format::{am_pm, twelve_hour};

verus! {

/// A date: field 0 is the year and field 1 the day of the year, counted from 1.
///
/// Dates are ordered by year, then by day of the year.
#[derive(Clone, Copy, Debug, PartialEq, Eq, Structural, PartialOrd, Ord, Hash)]
pub struct Date2(pub u16, pub u16);

/// A date with a time of the day: the year, the day of the year, the hour and the minute.
///
/// They are ordered by year, then by day of the year, hour and minute.
#[derive(Clone, Copy, Debug, PartialEq, Eq, Structural, PartialOrd, Ord, Hash)]
pub struct DT(pub u16, pub u16, pub u8, pub u8);

impl Date2 {
    /// The date of a year and a day of the year.
    pub fn new(year: u16, ordinal: u16) -> (r: Self)
        ensures
            r == Date2(year, ordinal),
    {
        Self(year, ordinal)
    }

    /// The date of a year, a month (from 1 for January) and a day of the month, which must
    /// exist.
    pub fn from_year_month_day(year: u16, month: u8, day: u8) -> (r: Self)
        requires
            is_calendar_date(year as int, month as int, day as int),
        ensures
            r == Date2(year, ordinal_of(year as int, month as int, day as int) as u16),
    {
        Self(year, ordinal_from_calendar_date(year, month, day))
    }

    /// The year, month and day of the month of the date, which must exist.
    pub fn date(&self) -> (r: CalendarDate)
        requires
            is_ordinal_date(self.0 as int, self.1 as int),
        ensures
            r == calendar_date_of(self.0 as int, self.1 as int),
    {
        calendar_date_from_ordinal(self.0, self.1)
    }

    /// This date comes before the other.
    pub fn before(&self, other: &Self) -> (r: bool)
        ensures
            r == date_before((self.0 as int, self.1 as int), (other.0 as int, other.1 as int)),
    {
        self.0 < other.0 || (self.0 == other.0 && self.1 < other.1)
    }

    /// The year.
    pub fn year(&self) -> (r: u16)
        ensures
            r == self.0,
    {
        self.0
    }

    /// The day of the year, counted from 1.
    pub fn ordinal(&self) -> (r: u16)
        ensures
            r == self.1,
    {
        self.1
    }

    /// The two dates lie in the same month of the same year. Both dates must exist where
    /// their years are the same.
    pub fn same_calendar_month(&self, other: &Date2) -> (r: bool)
        requires
            self.0 == other.0 ==> is_ordinal_date(self.0 as int, self.1 as int)
                && is_ordinal_date(other.0 as int, other.1 as int),
        ensures
            r == (self.0 == other.0 && month_of_ordinal(self.0 as int, self.1 as int)
                == month_of_ordinal(other.0 as int, other.1 as int)),
    {
        if self.0 == other.0 {
            proof {
                law_ordinal_to_calendar_date(self.0 as int, self.1 as int);
                law_ordinal_to_calendar_date(other.0 as int, other.1 as int);
            }
            self.date().month == other.date().month
        } else {
            false
        }
    }

    /// The same day of the following month, or the last day of that month where it is
    /// shorter. The date must exist, and so must the year after a date in December.
    pub fn one_month_forward(self) -> (r: Self)
        requires
            is_ordinal_date(self.0 as int, self.1 as int),
            month_of_ordinal(self.0 as int, self.1 as int) == 12 ==> self.0 + 1 <= MAX_YEAR,
        ensures
            r.0 == month_forward_of(self.0 as int, self.1 as int).0,
            r.1 == month_forward_of(self.0 as int, self.1 as int).1,
    {
        let (year, ordinal) = month_forward(self.0, self.1);
        Self(year, ordinal)
    }

    /// The same day of the preceding month, or the last day of that month where it is
    /// shorter. The date must exist; the year before year 0 reads as 65535.
    pub fn one_month_backward(self) -> (r: Self)
        requires
            is_ordinal_date(self.0 as int, self.1 as int),
        ensures
            r.0 == month_backward_of(self.0 as int, self.1 as int).0,
            r.1 == month_backward_of(self.0 as int, self.1 as int).1,
    {
        let (year, ordinal) = month_backward(self.0, self.1);
        Self(year, ordinal)
    }

    /// The month (from 1 for January) and the year of the date, which must exist.
    pub fn month_year(&self) -> (r: (u8, u16))
        requires
            is_ordinal_date(self.0 as int, self.1 as int),
        ensures
            r.0 == month_of_ordinal(self.0 as int, self.1 as int),
            r.1 == self.0,
    {
        proof {
            law_ordinal_to_calendar_date(self.0 as int, self.1 as int);
        }
        (self.date().month, self.0)
    }

    /// The number of days of the month of the date, which must exist.
    pub fn days_in_month(&self) -> (r: u8)
        requires
            is_ordinal_date(self.0 as int, self.1 as int),
        ensures
            r == month_length(self.0 as int, month_of_ordinal(self.0 as int, self.1 as int)),
    {
        proof {
            law_ordinal_to_calendar_date(self.0 as int, self.1 as int);
        }
        days_in_year_month(self.0 as i32, self.date().month)
    }

    /// One entry for each day of the month of the date, which must exist, numbered from 1.
    /// Each entry pairs its number with the date whose year is this date's day of the year and
    /// whose day of the year is the one after the first day of the month.
    pub fn month_dates(&self) -> (r: Vec<(Date2, u8)>)
        requires
            is_ordinal_date(self.0 as int, self.1 as int),
        ensures
            r.len() == month_length(self.0 as int, month_of_ordinal(self.0 as int, self.1 as int)),
            forall|i: int|
                0 <= i < r.len() ==> #[trigger] r[i] == (
                    Date2(
                        self.1,
                        (days_before_month(
                            self.0 as int,
                            month_of_ordinal(self.0 as int, self.1 as int),
                        ) + 2) as u16,
                    ),
                    (i + 1) as u8,
                ),
    {
        proof {
            law_ordinal_to_calendar_date(self.0 as int, self.1 as int);
        }
        let month = self.date().month;
        proof {
            law_calendar_date_to_ordinal(self.0 as int, month as int, 1);
        }
        let first_month_date_ordinal = ordinal_from_calendar_date(self.0, month, 1);
        let days = days_in_year_month(self.0 as i32, month);
        let mut res: Vec<(Date2, u8)> = Vec::with_capacity(31);
        for i in 0..days
            invariant
                days == month_length(self.0 as int, month as int),
                days <= 31,
                first_month_date_ordinal == days_before_month(self.0 as int, month as int) + 1,
                first_month_date_ordinal <= 400,
                month == month_of_ordinal(self.0 as int, self.1 as int),
                res.len() == i,
                forall|j: int|
                    0 <= j < i ==> #[trigger] res[j] == (
                        Date2(self.1, (first_month_date_ordinal + 1) as u16),
                        (j + 1) as u8,
                    ),
        {
            res.push((Date2::new(self.1, first_month_date_ordinal + 1), i + 1));
        }
        res
    }
}

/// The first date with its time comes before the second: comparing the year, then the day of
/// the year, the hour and the minute.
pub open spec fn dt_before(a: DT, b: DT) -> bool {
    if a.0 != b.0 {
        a.0 < b.0
    } else if a.1 != b.1 {
        a.1 < b.1
    } else if a.2 != b.2 {
        a.2 < b.2
    } else {
        a.3 < b.3
    }
}

/// The minutes that `duration_hm` divides into hours and minutes: the differences of the
/// hours, minutes and days of the year of two dates with their times, weighted as that
/// function weighs them.
pub open spec fn dt_duration_minutes(a: DT, b: DT) -> int {
    let hours = (a.2 - b.2) * 365 * 24 + (a.3 - b.3) * 30 * 24 + (a.2 - b.2) * 24 + (a.1 - b.1);
    hours * 60 + (a.3 - b.3)
}

impl DT {
    /// The date with its time at a minute of a day of a year.
    pub fn new(year: u16, ordinal: u16, hour: u8, minute: u8) -> (r: Self)
        ensures
            r == DT(year, ordinal, hour, minute),
    {
        Self(year, ordinal, hour, minute)
    }

    /// The date with its time at a minute of a date.
    pub fn from_date2(date2: Date2, hour: u8, minute: u8) -> (r: Self)
        ensures
            r == DT(date2.0, date2.1, hour, minute),
    {
        Self(date2.year(), date2.ordinal(), hour, minute)
    }

    /// The year, month and day of the month of the date, which must exist.
    pub fn date(&self) -> (r: CalendarDate)
        requires
            is_ordinal_date(self.0 as int, self.1 as int),
        ensures
            r == calendar_date_of(self.0 as int, self.1 as int),
    {
        calendar_date_from_ordinal(self.0, self.1)
    }

    /// The hour and minute, which must name a time of the day, with second 0.
    pub fn time(&self) -> (r: ClockTime)
        requires
            is_clock_time(self.2 as int, self.3 as int, 0, 0),
        ensures
            r == (ClockTime { hour: self.2, minute: self.3, second: 0 }),
    {
        clock_time(self.2, self.3, 0)
    }

    /// The date without its time.
    pub fn date2(&self) -> (r: Date2)
        ensures
            r == Date2(self.0, self.1),
    {
        Date2(self.0, self.1)
    }

    /// This date with its time comes before the other.
    pub fn before(&self, other: &Self) -> (r: bool)
        ensures
            r == dt_before(*self, *other),
    {
        if self.0 != other.0 {
            self.0 < other.0
        } else if self.1 != other.1 {
            self.1 < other.1
        } else if self.2 != other.2 {
            self.2 < other.2
        } else {
            self.3 < other.3
        }
    }

    /// The year.
    pub fn year(&self) -> (r: u16)
        ensures
            r == self.0,
    {
        self.0
    }

    /// The day of the year, counted from 1.
    pub fn ordinal(&self) -> (r: u16)
        ensures
            r == self.1,
    {
        self.1
    }

    /// The hour.
    pub fn hour(&self) -> (r: u8)
        ensures
            r == self.2,
    {
        self.2
    }

    /// The minute.
    pub fn minute(&self) -> (r: u8)
        ensures
            r == self.3,
    {
        self.3
    }

    /// The two dates lie in the same month of the same year. Both dates must exist where
    /// their years are the same.
    pub fn same_calendar_month(&self, other: &DT) -> (r: bool)
        requires
            self.0 == other.0 ==> is_ordinal_date(self.0 as int, self.1 as int)
                && is_ordinal_date(other.0 as int, other.1 as int),
        ensures
            r == (self.0 == other.0 && month_of_ordinal(self.0 as int, self.1 as int)
                == month_of_ordinal(other.0 as int, other.1 as int)),
    {
        if self.0 == other.0 {
            proof {
                law_ordinal_to_calendar_date(self.0 as int, self.1 as int);
                law_ordinal_to_calendar_date(other.0 as int, other.1 as int);
            }
            self.date().month == other.date().month
        } else {
            false
        }
    }

    /// The hour on a twelve-hour clock, the minute, and "am" before noon or "pm" from noon.
    /// Hours 0 and 12 are kept as they are.
    pub fn time_am_pm(&self) -> (r: (u8, u8, &'static str))
        ensures
            r.0 == twelve_hour(self.2 as int),
            r.1 == self.3,
            r.2@ == am_pm(self.2 as int),
    {
        let mut hour = self.2;
        let mut am = true;
        if hour > 11 {
            if hour > 12 {
                hour -= 12;
            }
            am = false;
        }
        (
            hour,
            self.3,
            if am {
                "am"
            } else {
                "pm"
            },
        )
    }

    /// The whole seconds from this date with its time to the other, counted in 16-bit
    /// arithmetic that does not overflow only where the count of days is zero: when both lie
    /// in the same year, this one at midnight starting the last day of that year, and the
    /// other no later than 18:12 of its day. It is then the seconds from midnight to the
    /// other's hour and minute.
    pub fn duration(&self, other: &Self) -> (r: i64)
        requires
            dt_before(*self, *other),
            self.0 == other.0,
            self.1 == year_length(self.0 as int),
            self.2 == 0,
            self.3 == 0,
            other.2 * 3600 + other.3 * 60 <= u16::MAX,
        ensures
            r == other.2 * 3600 + other.3 * 60,
    {
        let this_year = self.year();
        let days: u16 = days_in_year(this_year as i32) - self.ordinal();
        let this_time = self.hour() as u16 * 3_600 + self.minute() as u16 * 60;
        let other_time = other.hour() as u16 * 3_600 + other.minute() as u16 * 60;
        (days * 24 * 3_600 - this_time + other_time) as i64
    }

    /// Hours and minutes from the differences of the hour, the minute and the day of the
    /// year of the other date with its time to this one, which may be none of them smaller:
    /// the hour difference counts 365 * 24 + 24 hours, the minute difference 30 * 24 hours and
    /// a minute, and the day difference an hour.
    pub fn duration_hm(&self, other: &Self) -> (r: (usize, usize))
        requires
            self.1 >= other.1,
            self.2 >= other.2,
            self.3 >= other.3,
        ensures
            r.0 == dt_duration_minutes(*self, *other) / 60,
            r.1 == dt_duration_minutes(*self, *other) % 60,
    {
        let mut hours = (self.2 - other.2) as isize * 365 * 24 + (self.3 - other.3) as isize * 30
            * 24 + (self.2 - other.2) as isize * 24 + (self.1 - other.1) as isize;
        let mut mins = hours * 60 + (self.3 - other.3) as isize;
        hours = mins / 60;
        mins = mins % 60;
        (hours as usize, mins as usize)
    }
}

/// The place of a date with its time on one line of time: its year, day of the year, hour and
/// minute read as the digits of one number, from the most significant down, each digit in the
/// radix of its field.
pub open spec fn dt_timeline_position(t: DT) -> int {
    ((t.0 * 0x1_0000 + t.1) * 0x100 + t.2) * 0x100 + t.3
}

/// Coming before is chronological order: a date with its time comes before another exactly
/// when it stands before it on the line of time, where the year counts first, then the day of
/// the year, the hour and the minute. So of two in one year, the one on the earlier day comes
/// first, whatever the time of the day.
pub proof fn law_dt_before_is_chronological(a: DT, b: DT)
    ensures
        dt_before(a, b) <==> dt_timeline_position(a) < dt_timeline_position(b),
        a.0 == b.0 && a.1 < b.1 ==> dt_before(a, b),
        a.0 < b.0 ==> dt_before(a, b),
{
    lemma_radix_order(a.0 as int, a.1 as int, b.0 as int, b.1 as int, 0x1_0000);
    let a1 = a.0 * 0x1_0000 + a.1;
    let b1 = b.0 * 0x1_0000 + b.1;
    lemma_radix_order(a1, a.2 as int, b1, b.2 as int, 0x100);
    lemma_radix_order(a1 * 0x100 + a.2, a.3 as int, b1 * 0x100 + b.2, b.3 as int, 0x100);
}

} // verus!
