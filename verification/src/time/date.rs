//! A date held as its year and its day of the year.
use vstd::prelude::*;
use super::calendar::{
    CalendarDate, calendar_date_from_ordinal, calendar_date_of, days_before_month,
    days_in_year_month, is_calendar_date, is_ordinal_date, law_calendar_date_to_ordinal,
    law_ordinal_to_calendar_date, month_backward, month_backward_of, month_forward,
    month_forward_of, month_length, month_of_ordinal, ordinal_from_calendar_date, ordinal_of,
    MAX_YEAR,
};
use super::time_date::lemma_radix_order;

verus! {

/// A date: field 0 is the year and field 1 the day of the year, counted from 1.
///
/// Dates are ordered by year, then by day of the year.
#[derive(Clone, Copy, Debug, PartialEq, Eq, Structural, PartialOrd, Ord, Hash)]
pub struct Date(pub u16, pub u16);

/// The first date comes before the second: an earlier year, or the same year and an earlier
/// day of it.
pub open spec fn date_before(a: (int, int), b: (int, int)) -> bool {
    a.0 < b.0 || (a.0 == b.0 && a.1 < b.1)
}

impl Date {
    /// The date of a year and a day of the year.
    pub fn new(year: u16, ordinal: u16) -> (r: Self)
        ensures
            r == Date(year, ordinal),
    {
        Self(year, ordinal)
    }

    /// The date of a year, a month (from 1 for January) and a day of the month, which must
    /// exist.
    pub fn from_year_month_day(year: u16, month: u8, day: u8) -> (r: Self)
        requires
            is_calendar_date(year as int, month as int, day as int),
        ensures
            r == Date(year, ordinal_of(year as int, month as int, day as int) as u16),
    {
        Self(year, ordinal_from_calendar_date(year, month, day))
    }

    /// The year, month and day of the month of the date, which must exist.
    pub fn date(&self) -> (r: CalendarDate)
        requires
            is_ordinal_date(self.0 as int, self.1 as int),
        ensures
            r == calendar_date_of(self.0 as int, self.1 as int),
    {
        calendar_date_from_ordinal(self.0, self.1)
    }

    /// This date comes before the other.
    pub fn before(&self, other: &Self) -> (r: bool)
        ensures
            r == date_before((self.0 as int, self.1 as int), (other.0 as int, other.1 as int)),
    {
        self.0 < other.0 || (self.0 == other.0 && self.1 < other.1)
    }

    /// The year.
    pub fn year(&self) -> (r: u16)
        ensures
            r == self.0,
    {
        self.0
    }

    /// The day of the year, counted from 1.
    pub fn ordinal(&self) -> (r: u16)
        ensures
            r == self.1,
    {
        self.1
    }

    /// The two dates lie in the same month of the same year. Both dates must exist where
    /// their years are the same.
    pub fn same_calendar_month(&self, other: &Date) -> (r: bool)
        requires
            self.0 == other.0 ==> is_ordinal_date(self.0 as int, self.1 as int)
                && is_ordinal_date(other.0 as int, other.1 as int),
        ensures
            r == (self.0 == other.0 && month_of_ordinal(self.0 as int, self.1 as int)
                == month_of_ordinal(other.0 as int, other.1 as int)),
    {
        if self.0 == other.0 {
            proof {
                law_ordinal_to_calendar_date(self.0 as int, self.1 as int);
                law_ordinal_to_calendar_date(other.0 as int, other.1 as int);
            }
            self.date().month == other.date().month
        } else {
            false
        }
    }

    /// The same day of the following month, or the last day of that month where it is
    /// shorter. The date must exist, and so must the year after a date in December.
    pub fn one_month_forward(self) -> (r: Self)
        requires
            is_ordinal_date(self.0 as int, self.1 as int),
            month_of_ordinal(self.0 as int, self.1 as int) == 12 ==> self.0 + 1 <= MAX_YEAR,
        ensures
            r.0 == month_forward_of(self.0 as int, self.1 as int).0,
            r.1 == month_forward_of(self.0 as int, self.1 as int).1,
    {
        let (year, ordinal) = month_forward(self.0, self.1);
        Self(year, ordinal)
    }

    /// The same day of the preceding month, or the last day of that month where it is
    /// shorter. The date must exist; the year before year 0 reads as 65535.
    pub fn one_month_backward(self) -> (r: Self)
        requires
            is_ordinal_date(self.0 as int, self.1 as int),
        ensures
            r.0 == month_backward_of(self.0 as int, self.1 as int).0,
            r.1 == month_backward_of(self.0 as int, self.1 as int).1,
    {
        let (year, ordinal) = month_backward(self.0, self.1);
        Self(year, ordinal)
    }

    /// The month (from 1 for January) and the year of the date, which must exist; used for
    /// naming the month, as in "Sep, 2021".
    pub fn month_year(&self) -> (r: (u8, u16))
        requires
            is_ordinal_date(self.0 as int, self.1 as int),
        ensures
            r.0 == month_of_ordinal(self.0 as int, self.1 as int),
            r.1 == self.0,
    {
        proof {
            law_ordinal_to_calendar_date(self.0 as int, self.1 as int);
        }
        (self.date().month, self.0)
    }

    /// The number of days of the month of the date, which must exist.
    pub fn days_in_month(&self) -> (r: u8)
        requires
            is_ordinal_date(self.0 as int, self.1 as int),
        ensures
            r == month_length(self.0 as int, month_of_ordinal(self.0 as int, self.1 as int)),
    {
        proof {
            law_ordinal_to_calendar_date(self.0 as int, self.1 as int);
        }
        days_in_year_month(self.0 as i32, self.date().month)
    }

    /// One entry for each day of the month of the date, which must exist, numbered from 1.
    /// Each entry pairs its number with the date whose year is this date's day of the year and
    /// whose day of the year is the one after the first day of the month.
    pub fn month_dates(&self) -> (r: Vec<(Date, u8)>)
        requires
            is_ordinal_date(self.0 as int, self.1 as int),
        ensures
            r.len() == month_length(self.0 as int, month_of_ordinal(self.0 as int, self.1 as int)),
            forall|i: int|
                0 <= i < r.len() ==> #[trigger] r[i] == (
                    Date(
                        self.1,
                        (days_before_month(
                            self.0 as int,
                            month_of_ordinal(self.0 as int, self.1 as int),
                        ) + 2) as u16,
                    ),
                    (i + 1) as u8,
                ),
    {
        proof {
            law_ordinal_to_calendar_date(self.0 as int, self.1 as int);
        }
        let month = self.date().month;
        proof {
            law_calendar_date_to_ordinal(self.0 as int, month as int, 1);
        }
        let first_month_date_ordinal = ordinal_from_calendar_date(self.0, month, 1);
        let days = days_in_year_month(self.0 as i32, month);
        let mut res: Vec<(Date, u8)> = Vec::with_capacity(31);
        for i in 0..days
            invariant
                days == month_length(self.0 as int, month as int),
                days <= 31,
                first_month_date_ordinal == days_before_month(self.0 as int, month as int) + 1,
                first_month_date_ordinal <= 400,
                month == month_of_ordinal(self.0 as int, self.1 as int),
                res.len() == i,
                forall|j: int|
                    0 <= j < i ==> #[trigger] res[j] == (
                        Date(self.1, (first_month_date_ordinal + 1) as u16),
                        (j + 1) as u8,
                    ),
        {
            res.push((Date::new(self.1, first_month_date_ordinal + 1), i + 1));
        }
        res
    }
}

/// Coming before is a strict order of dates: none comes before itself, of two the earlier
/// does not come after, and it carries over from one to the next.
pub proof fn law_date_before_orders(a: (int, int), b: (int, int), c: (int, int))
    ensures
        !date_before(a, a),
        date_before(a, b) ==> !date_before(b, a),
        date_before(a, b) && date_before(b, c) ==> date_before(a, c),
{
}

/// Coming before is chronological order of dates: a date comes before another exactly when
/// its year and day of the year, read as the two digits of one number in the radix of the day
/// of the year, make a smaller number. So of two dates in one year, the one with the earlier
/// day of the year comes first, and a date of an earlier year comes before every date of a
/// later one.
pub proof fn law_date_before_is_chronological(a: (int, int), b: (int, int))
    requires
        0 <= a.1 < 0x1_0000,
        0 <= b.1 < 0x1_0000,
    ensures
        date_before(a, b) <==> a.0 * 0x1_0000 + a.1 < b.0 * 0x1_0000 + b.1,
{
    lemma_radix_order(a.0, a.1, b.0, b.1, 0x1_0000);
}

} // verus!
