//! A time and date packed into a 64-bit and an 8-bit unsigned integer.
use vstd::prelude::*;
use vstd::arithmetic::power2::lemma2_to64;
use crate::bits::max_bitwise_value_for_bits;
use super::calendar::{
    CalendarDate, ClockTime, calendar_date_from_ordinal, calendar_date_of, clock_of_nanoseconds,
    clock_time, days_in_year, is_clock_time, is_ordinal_date, law_ordinal_to_calendar_date,
    month_of_ordinal, nanoseconds_of_day, nanoseconds_per_day, one_nanosecond_later, year_length,
};
use super::date::Date;
use super::format::{am_pm, twelve_hour};

verus! {

/// The bits of the nanoseconds; their largest value, 2_147_483_647, is more than the
/// nanoseconds of a second, even of a leap second (up to 1_999_999_999).
const NANOSEC_BITS: usize = 31;

/// The bits of the minute; their largest value, 63, is more than the minutes of an hour.
const MIN_BITS: usize = 6;

/// The bits of the hour; their largest value, 31, is more than the hours of a day.
const HOUR_BITS: usize = 5;

/// The bits of the day of the year; their largest value, 511, is more than the days of a
/// year.
const ORD_BITS: usize = 9;

/// The bits of the year; their largest value is 4095, the latest year that can be stored.
const YEAR_BITS: usize = 12;

/// A time and date in little storage.
///
/// Field 0 holds, from its lowest bits up: the nanoseconds of the second in 31 bits, the
/// minute in 6 bits, the hour in 5 bits, the day of the year in 9 bits and the year in 12
/// bits. Field 1 holds the second of the minute.
#[derive(Clone, Copy, Debug, PartialEq, Eq, Structural, Hash)]
pub struct TimeAndDate(pub u64, pub u8);

/// The packed field of a time and date: each value is shifted to its place and the places
/// are combined with a bitwise or, so that a value too large for its bits spills into the
/// places above it.
pub open spec fn pack_time_and_date(year: u16, ordinal: u16, hour: u8, minute: u8, nanos: u32) -> u64 {
    ((year as u64) << 51u64) | ((ordinal as u64) << 42u64) | ((hour as u64) << 37u64) | ((
    minute as u64) << 31u64) | (nanos as u64)
}

/// The year held in a packed field.
pub open spec fn year_field(v: u64) -> u16 {
    ((v >> 51u64) & 0xfffu64) as u16
}

/// The day of the year held in a packed field.
pub open spec fn ordinal_field(v: u64) -> u16 {
    ((v >> 42u64) & 0x1ffu64) as u16
}

/// The hour held in a packed field.
pub open spec fn hour_field(v: u64) -> u8 {
    ((v >> 37u64) & 0x1fu64) as u8
}

/// The minute held in a packed field.
pub open spec fn minute_field(v: u64) -> u8 {
    ((v >> 31u64) & 0x3fu64) as u8
}

/// The nanoseconds held in a packed field.
pub open spec fn nanosecond_field(v: u64) -> u32 {
    (v & 0x7fffffffu64) as u32
}

impl TimeAndDate {
    /// The year of the time and date.
    pub open spec fn spec_year(self) -> int {
        year_field(self.0) as int
    }

    /// The day of the year of the time and date.
    pub open spec fn spec_ordinal(self) -> int {
        ordinal_field(self.0) as int
    }

    /// The hour of the time and date.
    pub open spec fn spec_hour(self) -> int {
        hour_field(self.0) as int
    }

    /// The minute of the time and date.
    pub open spec fn spec_minute(self) -> int {
        minute_field(self.0) as int
    }

    /// The nanoseconds of the time and date.
    pub open spec fn spec_nanosecond(self) -> int {
        nanosecond_field(self.0) as int
    }

    /// The same time and date one nanosecond later, past midnight back to the start of the
    /// same day.
    pub open spec fn one_nanosecond_on(self) -> TimeAndDate {
        let t = clock_of_nanoseconds(
            (nanoseconds_of_day(self.spec_hour(), self.spec_minute(), self.1 as int, self.spec_nanosecond())
                + 1) % nanoseconds_per_day(),
        );
        TimeAndDate(pack_time_and_date(year_field(self.0), ordinal_field(self.0), t.0, t.1, t.3), t.2)
    }

    /// This time and date comes before the other: comparing the year, then the day of the
    /// year, the hour, the minute, the second and the nanoseconds.
    pub open spec fn spec_earlier_than(self, other: TimeAndDate) -> bool {
        if self.spec_year() != other.spec_year() {
            self.spec_year() < other.spec_year()
        } else if self.spec_ordinal() != other.spec_ordinal() {
            self.spec_ordinal() < other.spec_ordinal()
        } else if self.spec_hour() != other.spec_hour() {
            self.spec_hour() < other.spec_hour()
        } else if self.spec_minute() != other.spec_minute() {
            self.spec_minute() < other.spec_minute()
        } else if self.1 != other.1 {
            self.1 < other.1
        } else {
            self.spec_nanosecond() < other.spec_nanosecond()
        }
    }

    /// The time and date at the start of a minute of a day of a year.
    pub fn new(year: u16, ordinal: u16, hour: u8, minute: u8) -> (r: Self)
        ensures
            r == TimeAndDate(pack_time_and_date(year, ordinal, hour, minute, 0), 0),
    {
        let packed = (year as u64) << (NANOSEC_BITS + MIN_BITS + HOUR_BITS + ORD_BITS) | (
        ordinal as u64) << (NANOSEC_BITS + MIN_BITS + HOUR_BITS) | (hour as u64) << (NANOSEC_BITS
            + MIN_BITS) | (minute as u64) << (NANOSEC_BITS);
        proof {
            assert(packed | 0u64 == packed) by (bit_vector);
        }
        Self(packed, 0)
    }

    /// The time and date with seconds and nanoseconds.
    pub fn new_with_nanos(year: u16, ordinal: u16, hour: u8, minute: u8, second: u8, nanos: u32) -> (r:
        Self)
        ensures
            r == TimeAndDate(pack_time_and_date(year, ordinal, hour, minute, nanos), second),
    {
        Self(
            (year as u64) << (NANOSEC_BITS + MIN_BITS + HOUR_BITS + ORD_BITS) | (ordinal as u64) << (
            NANOSEC_BITS + MIN_BITS + HOUR_BITS) | (hour as u64) << (NANOSEC_BITS + MIN_BITS) | (
            minute as u64) << (NANOSEC_BITS) | nanos as u64,
            second,
        )
    }

    /// The time and date at the start of a minute of a date.
    pub fn from_date(date: Date, hour: u8, minute: u8) -> (r: Self)
        ensures
            r == TimeAndDate(pack_time_and_date(date.0, date.1, hour, minute, 0), 0),
    {
        Self::new(date.year(), date.ordinal(), hour, minute)
    }

    /// The year, from 0 up to 4095, the largest value of its 12 bits.
    pub fn year(&self) -> (r: u16)
        ensures
            r == year_field(self.0),
    {
        proof {
            lemma2_to64();
        }
        let max_value = max_bitwise_value_for_bits(YEAR_BITS);
        ((self.0 >> (NANOSEC_BITS + MIN_BITS + HOUR_BITS + ORD_BITS)) & max_value) as u16
    }

    /// The day of the year, held in 9 bits.
    pub fn ordinal(&self) -> (r: u16)
        ensures
            r == ordinal_field(self.0),
    {
        proof {
            lemma2_to64();
        }
        let max_value = max_bitwise_value_for_bits(ORD_BITS);
        ((self.0 >> (NANOSEC_BITS + MIN_BITS + HOUR_BITS)) & max_value) as u16
    }

    /// The hour of the day, held in 5 bits.
    pub fn hour(&self) -> (r: u8)
        ensures
            r == hour_field(self.0),
    {
        proof {
            lemma2_to64();
        }
        let max_value = max_bitwise_value_for_bits(HOUR_BITS);
        ((self.0 >> (NANOSEC_BITS + MIN_BITS)) & max_value) as u8
    }

    /// The minute of the hour, held in 6 bits.
    pub fn minute(&self) -> (r: u8)
        ensures
            r == minute_field(self.0),
    {
        proof {
            lemma2_to64();
        }
        let max_value = max_bitwise_value_for_bits(MIN_BITS);
        ((self.0 >> NANOSEC_BITS) & max_value) as u8
    }

    /// The second of the minute, held in the second field.
    pub fn second(&self) -> (r: u8)
        ensures
            r == self.1,
    {
        self.1
    }

    /// The nanoseconds of the second, from 0 up to 1_999_999_999 for a leap second, held in 31
    /// bits.
    pub fn nanosecond(&self) -> (r: u32)
        ensures
            r == nanosecond_field(self.0),
    {
        proof {
            lemma2_to64();
        }
        let max_value = max_bitwise_value_for_bits(NANOSEC_BITS);
        (self.0 & max_value) as u32
    }

    /// The date: the year and the day of the year.
    pub fn date(&self) -> (r: Date)
        ensures
            r == Date(year_field(self.0), ordinal_field(self.0)),
    {
        Date::new(self.year(), self.ordinal())
    }

    /// The year, month and day of the month of the date, which must exist.
    pub fn date_og(&self) -> (r: CalendarDate)
        requires
            is_ordinal_date(self.spec_year(), self.spec_ordinal()),
        ensures
            r == calendar_date_of(self.spec_year(), self.spec_ordinal()),
    {
        calendar_date_from_ordinal(self.year(), self.ordinal())
    }

    /// The hour, minute and second, which must name a time of the day.
    pub fn time(&self) -> (r: ClockTime)
        requires
            is_clock_time(self.spec_hour(), self.spec_minute(), self.1 as int, 0),
        ensures
            r == (ClockTime {
                hour: hour_field(self.0),
                minute: minute_field(self.0),
                second: self.1,
            }),
    {
        clock_time(self.hour(), self.minute(), self.second())
    }

    /// This time and date comes before the other.
    pub fn earlier_than(&self, other: &Self) -> (r: bool)
        ensures
            r == self.spec_earlier_than(*other),
    {
        let (a, b) = (self.year(), other.year());
        if a != b {
            return a < b;
        }
        let (a, b) = (self.ordinal(), other.ordinal());
        if a != b {
            return a < b;
        }
        let (a, b) = (self.hour(), other.hour());
        if a != b {
            return a < b;
        }
        let (a, b) = (self.minute(), other.minute());
        if a != b {
            return a < b;
        }
        if self.1 != other.1 {
            return self.1 < other.1;
        }
        self.nanosecond() < other.nanosecond()
    }

    /// The two are the same time and date (the second field aside), and so lie in the same
    /// month. Their date must exist where they are the same.
    pub fn same_calendar_month(&self, other: &TimeAndDate) -> (r: bool)
        requires
            self.0 == other.0 ==> is_ordinal_date(self.spec_year(), self.spec_ordinal()),
        ensures
            r == (self.0 == other.0),
    {
        if self.0 == other.0 {
            proof {
                law_ordinal_to_calendar_date(self.spec_year(), self.spec_ordinal());
            }
            self.date_og().month == other.date_og().month
        } else {
            false
        }
    }

    /// The hour on a twelve-hour clock, the minute, and "am" before noon or "pm" from noon.
    /// Hours 0 and 12 are kept as they are.
    pub fn time_am_pm(&self) -> (r: (u8, u8, &'static str))
        ensures
            r.0 == twelve_hour(hour_field(self.0) as int),
            r.1 == minute_field(self.0),
            r.2@ == am_pm(hour_field(self.0) as int),
    {
        let mut hour = self.hour();
        let mut am = true;
        if hour > 11 {
            if hour > 12 {
                hour -= 12;
            }
            am = false;
        }
        (
            hour,
            self.minute(),
            if am {
                "am"
            } else {
                "pm"
            },
        )
    }

    /// The whole seconds from this time and date to the other, counted in 16-bit arithmetic
    /// that does not overflow only where the count of days is zero: when both lie in the same
    /// year, this one at midnight starting the last day of that year, and the other no later
    /// than 18:12 of its day. It is then the seconds from midnight to the other's hour and
    /// minute.
    pub fn duration(&self, other: &Self) -> (r: i64)
        requires
            self.spec_earlier_than(*other),
            self.spec_year() == other.spec_year(),
            self.spec_ordinal() == year_length(self.spec_year()),
            self.spec_hour() == 0,
            self.spec_minute() == 0,
            other.spec_hour() * 3600 + other.spec_minute() * 60 <= u16::MAX,
        ensures
            r == other.spec_hour() * 3600 + other.spec_minute() * 60,
    {
        let this_year = self.year();
        let days: u16 = days_in_year(this_year as i32) - self.ordinal();
        let this_time = self.hour() as u16 * 3_600 + self.minute() as u16 * 60;
        let other_time = other.hour() as u16 * 3_600 + other.minute() as u16 * 60;
        (days * 24 * 3_600 - this_time + other_time) as i64
    }

    /// The same time and date one nanosecond later, past midnight back to the start of the
    /// same day. The hour, minute, second and nanoseconds must name a time of the day.
    pub fn one_more_nanosecond(self) -> (r: Self)
        requires
            is_clock_time(self.spec_hour(), self.spec_minute(), self.1 as int, self.spec_nanosecond()),
        ensures
            r == self.one_nanosecond_on(),
    {
        let (hour, minute, second, nanosecond) = one_nanosecond_later(
            self.hour(),
            self.minute(),
            self.second(),
            self.nanosecond(),
        );
        Self::new_with_nanos(self.year(), self.ordinal(), hour, minute, second, nanosecond)
    }

    /// The packed field.
    pub fn as_u64(&self) -> (r: u64)
        ensures
            r == self.0,
    {
        self.0
    }
}

impl From<(u64, u8)> for TimeAndDate {
    fn from(data: (u64, u8)) -> (r: TimeAndDate) {
        TimeAndDate(data.0, data.1)
    }
}

impl vstd::std_specs::convert::FromSpecImpl<(u64, u8)> for TimeAndDate {
    open spec fn obeys_from_spec() -> bool {
        true
    }

    open spec fn from_spec(data: (u64, u8)) -> TimeAndDate {
        TimeAndDate(data.0, data.1)
    }
}

/// What is packed is read back, where each value fits in its bits: the year in 12, the day of
/// the year in 9, the hour in 5, the minute in 6 and the nanoseconds in 31.
pub proof fn law_pack_then_read(year: u16, ordinal: u16, hour: u8, minute: u8, nanos: u32)
    requires
        year < 0x1000,
        ordinal < 0x200,
        hour < 0x20,
        minute < 0x40,
        nanos < 0x8000_0000,
    ensures
        year_field(pack_time_and_date(year, ordinal, hour, minute, nanos)) == year,
        ordinal_field(pack_time_and_date(year, ordinal, hour, minute, nanos)) == ordinal,
        hour_field(pack_time_and_date(year, ordinal, hour, minute, nanos)) == hour,
        minute_field(pack_time_and_date(year, ordinal, hour, minute, nanos)) == minute,
        nanosecond_field(pack_time_and_date(year, ordinal, hour, minute, nanos)) == nanos,
{
    let y = year as u64;
    let o = ordinal as u64;
    let h = hour as u64;
    let m = minute as u64;
    let n = nanos as u64;
    assert(((((y << 51u64) | (o << 42u64) | (h << 37u64) | (m << 31u64) | n) >> 51u64)
        & 0xfffu64) == y) by (bit_vector)
        requires
            y < 0x1000,
            o < 0x200,
            h < 0x20,
            m < 0x40,
            n < 0x8000_0000,
    ;
    assert(((((y << 51u64) | (o << 42u64) | (h << 37u64) | (m << 31u64) | n) >> 42u64)
        & 0x1ffu64) == o) by (bit_vector)
        requires
            y < 0x1000,
            o < 0x200,
            h < 0x20,
            m < 0x40,
            n < 0x8000_0000,
    ;
    assert(((((y << 51u64) | (o << 42u64) | (h << 37u64) | (m << 31u64) | n) >> 37u64)
        & 0x1fu64) == h) by (bit_vector)
        requires
            y < 0x1000,
            o < 0x200,
            h < 0x20,
            m < 0x40,
            n < 0x8000_0000,
    ;
    assert(((((y << 51u64) | (o << 42u64) | (h << 37u64) | (m << 31u64) | n) >> 31u64)
        & 0x3fu64) == m) by (bit_vector)
        requires
            y < 0x1000,
            o < 0x200,
            h < 0x20,
            m < 0x40,
            n < 0x8000_0000,
    ;
    assert((((y << 51u64) | (o << 42u64) | (h << 37u64) | (m << 31u64) | n) & 0x7fffffffu64)
        == n) by (bit_vector)
        requires
            y < 0x1000,
            o < 0x200,
            h < 0x20,
            m < 0x40,
            n < 0x8000_0000,
    ;
}

/// Being earlier is a strict order of times and dates: none is earlier than itself, of two
/// the earlier is not later, and it carries over from one to the next.
pub proof fn law_earlier_than_orders(a: TimeAndDate, b: TimeAndDate, c: TimeAndDate)
    ensures
        !a.spec_earlier_than(a),
        a.spec_earlier_than(b) ==> !b.spec_earlier_than(a),
        a.spec_earlier_than(b) && b.spec_earlier_than(c) ==> a.spec_earlier_than(c),
{
}

/// One nanosecond on is later, at every time of the day but the last nanosecond of the day,
/// from which it wraps back to the start of the same day: the time is then exactly one
/// nanosecond later, carried into the second, the minute and the hour.
pub proof fn law_one_nanosecond_on_is_later(t: TimeAndDate)
    requires
        is_clock_time(t.spec_hour(), t.spec_minute(), t.1 as int, t.spec_nanosecond()),
        nanoseconds_of_day(t.spec_hour(), t.spec_minute(), t.1 as int, t.spec_nanosecond()) + 1
            < nanoseconds_per_day(),
    ensures
        t.spec_earlier_than(t.one_nanosecond_on()),
        nanoseconds_of_day(
            t.one_nanosecond_on().spec_hour(),
            t.one_nanosecond_on().spec_minute(),
            t.one_nanosecond_on().1 as int,
            t.one_nanosecond_on().spec_nanosecond(),
        ) == nanoseconds_of_day(t.spec_hour(), t.spec_minute(), t.1 as int, t.spec_nanosecond()) + 1,
{
    let h = t.spec_hour();
    let m = t.spec_minute();
    let s = t.1 as int;
    let n = t.spec_nanosecond();
    let x = nanoseconds_of_day(h, m, s, n);
    let y = x + 1;
    assert(x == h * 3_600_000_000_000 + m * 60_000_000_000 + s * 1_000_000_000 + n);
    assert(y % nanoseconds_per_day() == y);
    let c = clock_of_nanoseconds(y);
    if n + 1 < 1_000_000_000 {
        assert(y == h * 3_600_000_000_000 + m * 60_000_000_000 + s * 1_000_000_000 + (n + 1));
        assert(c == (h as u8, m as u8, s as u8, (n + 1) as u32)) by (nonlinear_arith)
            requires
                y == h * 3_600_000_000_000 + m * 60_000_000_000 + s * 1_000_000_000 + (n + 1),
                0 <= h < 24,
                0 <= m < 60,
                0 <= s < 60,
                0 <= n + 1 < 1_000_000_000,
                c == clock_of_nanoseconds(y),
        ;
    } else if s + 1 < 60 {
        assert(y == h * 3_600_000_000_000 + m * 60_000_000_000 + (s + 1) * 1_000_000_000);
        assert(c == (h as u8, m as u8, (s + 1) as u8, 0u32)) by (nonlinear_arith)
            requires
                y == h * 3_600_000_000_000 + m * 60_000_000_000 + (s + 1) * 1_000_000_000,
                0 <= h < 24,
                0 <= m < 60,
                0 <= s + 1 < 60,
                c == clock_of_nanoseconds(y),
        ;
    } else if m + 1 < 60 {
        assert(y == h * 3_600_000_000_000 + (m + 1) * 60_000_000_000);
        assert(c == (h as u8, (m + 1) as u8, 0u8, 0u32)) by (nonlinear_arith)
            requires
                y == h * 3_600_000_000_000 + (m + 1) * 60_000_000_000,
                0 <= h < 24,
                0 <= m + 1 < 60,
                c == clock_of_nanoseconds(y),
        ;
    } else {
        assert(y == (h + 1) * 3_600_000_000_000);
        assert(h + 1 < 24);
        assert(c == ((h + 1) as u8, 0u8, 0u8, 0u32)) by (nonlinear_arith)
            requires
                y == (h + 1) * 3_600_000_000_000,
                0 <= h + 1 < 24,
                c == clock_of_nanoseconds(y),
        ;
    }
    let yf = year_field(t.0);
    let of = ordinal_field(t.0);
    let v = t.0;
    assert(((v >> 51u64) & 0xfffu64) < 0x1000) by (bit_vector);
    assert(((v >> 42u64) & 0x1ffu64) < 0x200) by (bit_vector);
    law_pack_then_read(yf, of, c.0, c.1, c.3);
}

/// The place of a time and date on one line of time: its year, day of the year, hour, minute,
/// second and nanoseconds read as the digits of one number, from the most significant down,
/// each digit in the radix of its field.
pub open spec fn timeline_position(t: TimeAndDate) -> int {
    ((((t.spec_year() * 0x200 + t.spec_ordinal()) * 0x20 + t.spec_hour()) * 0x40 + t.spec_minute())
        * 0x100 + t.1) * 0x8000_0000 + t.spec_nanosecond()
}

/// Two numbers in a mixed radix compare as their higher digits do, then as their lower digit.
pub(crate) proof fn lemma_radix_order(high1: int, low1: int, high2: int, low2: int, radix: int)
    requires
        0 <= low1 < radix,
        0 <= low2 < radix,
    ensures
        (high1 * radix + low1 < high2 * radix + low2) <==> (high1 < high2 || (high1 == high2
            && low1 < low2)),
        (high1 * radix + low1 == high2 * radix + low2) <==> (high1 == high2 && low1 == low2),
{
    if high1 < high2 {
        assert(high1 * radix + radix <= high2 * radix) by (nonlinear_arith)
            requires
                high1 + 1 <= high2,
                0 < radix,
        ;
    } else if high2 < high1 {
        assert(high2 * radix + radix <= high1 * radix) by (nonlinear_arith)
            requires
                high2 + 1 <= high1,
                0 < radix,
        ;
    }
}

/// Being earlier is chronological order: a time and date is earlier than another exactly when
/// it stands before it on the line of time, where the year counts first, then the day of the
/// year, the hour, the minute, the second and the nanoseconds. So of two times in one year,
/// the one on the earlier day is earlier, whatever the time of the day.
pub proof fn law_earlier_than_is_chronological(a: TimeAndDate, b: TimeAndDate)
    ensures
        a.spec_earlier_than(b) <==> timeline_position(a) < timeline_position(b),
        a.spec_year() == b.spec_year() && a.spec_ordinal() < b.spec_ordinal() ==> a.spec_earlier_than(b),
        a.spec_year() < b.spec_year() ==> a.spec_earlier_than(b),
{
    let (u, v) = (a.0, b.0);
    assert(year_field(u) < 0x1000 && year_field(v) < 0x1000) by (bit_vector);
    assert(ordinal_field(u) < 0x200 && ordinal_field(v) < 0x200) by (bit_vector);
    assert(hour_field(u) < 0x20 && hour_field(v) < 0x20) by (bit_vector);
    assert(minute_field(u) < 0x40 && minute_field(v) < 0x40) by (bit_vector);
    assert(nanosecond_field(u) < 0x8000_0000 && nanosecond_field(v) < 0x8000_0000) by (bit_vector);
    let a1 = a.spec_year() * 0x200 + a.spec_ordinal();
    let b1 = b.spec_year() * 0x200 + b.spec_ordinal();
    lemma_radix_order(a.spec_year(), a.spec_ordinal(), b.spec_year(), b.spec_ordinal(), 0x200);
    let a2 = a1 * 0x20 + a.spec_hour();
    let b2 = b1 * 0x20 + b.spec_hour();
    lemma_radix_order(a1, a.spec_hour(), b1, b.spec_hour(), 0x20);
    let a3 = a2 * 0x40 + a.spec_minute();
    let b3 = b2 * 0x40 + b.spec_minute();
    lemma_radix_order(a2, a.spec_minute(), b2, b.spec_minute(), 0x40);
    let a4 = a3 * 0x100 + a.1;
    let b4 = b3 * 0x100 + b.1;
    lemma_radix_order(a3, a.1 as int, b3, b.1 as int, 0x100);
    lemma_radix_order(a4, a.spec_nanosecond(), b4, b.spec_nanosecond(), 0x8000_0000);
}

} // verus!
