//! Dates and times as text for people to read, such as "Mon, Sep 13, 2021".
use vstd::prelude::*;
use vstd::string::StringExecFns;
use super::calendar::{
    CalendarDate, calendar_date_from_ordinal, is_ordinal_date, law_ordinal_to_calendar_date,
    month_of_ordinal, day_of_ordinal, year_length,
};
use super::date::Date;
use super::date_time_full::{Date2, DT};
use super::time_date::{TimeAndDate, hour_field, minute_field};
use crate::text::{decimal, decimal_text};

verus! {

/// The short name of a month, numbered from 1 for January.
pub open spec fn month_short_name(m: int) -> Seq<char> {
    if m == 1 {
        "Jan"@
    } else if m == 2 {
        "Feb"@
    } else if m == 3 {
        "Mar"@
    } else if m == 4 {
        "Apr"@
    } else if m == 5 {
        "May"@
    } else if m == 6 {
        "Jun"@
    } else if m == 7 {
        "Jul"@
    } else if m == 8 {
        "Aug"@
    } else if m == 9 {
        "Sep"@
    } else if m == 10 {
        "Oct"@
    } else if m == 11 {
        "Nov"@
    } else {
        "Dec"@
    }
}

/// The full name of a month, numbered from 1 for January.
pub open spec fn month_long_name(m: int) -> Seq<char> {
    if m == 1 {
        "January"@
    } else if m == 2 {
        "February"@
    } else if m == 3 {
        "March"@
    } else if m == 4 {
        "April"@
    } else if m == 5 {
        "May"@
    } else if m == 6 {
        "June"@
    } else if m == 7 {
        "July"@
    } else if m == 8 {
        "August"@
    } else if m == 9 {
        "September"@
    } else if m == 10 {
        "October"@
    } else if m == 11 {
        "November"@
    } else {
        "December"@
    }
}

/// The short name of a day of the week, numbered from 1 for Monday.
pub open spec fn weekday_short_name(d: int) -> Seq<char> {
    if d == 1 {
        "Mon"@
    } else if d == 2 {
        "Tue"@
    } else if d == 3 {
        "Wed"@
    } else if d == 4 {
        "Thu"@
    } else if d == 5 {
        "Fri"@
    } else if d == 6 {
        "Sat"@
    } else {
        "Sun"@
    }
}

/// The full name of a day of the week, numbered from 1 for Monday.
pub open spec fn weekday_long_name(d: int) -> Seq<char> {
    if d == 1 {
        "Monday"@
    } else if d == 2 {
        "Tuesday"@
    } else if d == 3 {
        "Wednesday"@
    } else if d == 4 {
        "Thursday"@
    } else if d == 5 {
        "Friday"@
    } else if d == 6 {
        "Saturday"@
    } else {
        "Sunday"@
    }
}

/// The days from the first day of year 1 to the first day of the year.
pub open spec fn days_before_year(year: int) -> int {
    365 * (year - 1) + (year - 1) / 4 - (year - 1) / 100 + (year - 1) / 400
}

/// The day of the week of a day of a year, numbered from 1 for Monday; the first day of year 1
/// is a Monday.
pub open spec fn weekday_of(year: int, ordinal: int) -> int {
    (days_before_year(year) + ordinal - 1) % 7 + 1
}

/// A date as text: the day of the week, a comma, the month, the day of the month, a comma and
/// the year, as in "Mon, Sep 13, 2021".
pub open spec fn date_text(weekday: Seq<char>, month: Seq<char>, day: int, year: int) -> Seq<char> {
    weekday + ", "@ + month + " "@ + decimal(day) + ", "@ + decimal(year)
}

/// A date with a time as text: the date, a comma, the hour and the minute with a colon between
/// them, and "am" or "pm".
pub open spec fn date_time_text(date: Seq<char>, hour: int, minute: int, am_pm: Seq<char>) -> Seq<char> {
    date + ", "@ + decimal(hour) + ":"@ + decimal(minute) + " "@ + am_pm
}

/// The hour on a twelve-hour clock: hours after noon less twelve.
pub open spec fn twelve_hour(hour: int) -> int {
    if hour > 12 {
        hour - 12
    } else {
        hour
    }
}

/// "am" before noon and "pm" from noon.
pub open spec fn am_pm(hour: int) -> Seq<char> {
    if hour > 11 {
        "pm"@
    } else {
        "am"@
    }
}

/// `time::Date::weekday`, numbered from Monday by `number_from_monday`, of the date made by
/// `time::Date::from_ordinal_date`: a date is made when the year lies within ±9999 and the day
/// of the year within the length of the year; its day of the week counts on from the Monday
/// that is the first day of year 1.
#[verifier::external_body]
fn weekday_of_ordinal_date(year: i32, ordinal: u16) -> (r: Option<u8>)
    ensures
        r == (if is_ordinal_date(year as int, ordinal as int) {
            Some(weekday_of(year as int, ordinal as int) as u8)
        } else {
            None::<u8>
        }),
{
    match ::time::Date::from_ordinal_date(year, ordinal) {
        Ok(d) => Some(d.weekday().number_from_monday()),
        Err(_) => None,
    }
}

/// The short name of a month.
fn month_short(m: u8) -> (r: &'static str)
    requires
        1 <= m <= 12,
    ensures
        r@ == month_short_name(m as int),
{
    match m {
        1 => "Jan",
        2 => "Feb",
        3 => "Mar",
        4 => "Apr",
        5 => "May",
        6 => "Jun",
        7 => "Jul",
        8 => "Aug",
        9 => "Sep",
        10 => "Oct",
        11 => "Nov",
        _ => "Dec",
    }
}

/// The full name of a month.
fn month_long(m: u8) -> (r: &'static str)
    requires
        1 <= m <= 12,
    ensures
        r@ == month_long_name(m as int),
{
    match m {
        1 => "January",
        2 => "February",
        3 => "March",
        4 => "April",
        5 => "May",
        6 => "June",
        7 => "July",
        8 => "August",
        9 => "September",
        10 => "October",
        11 => "November",
        _ => "December",
    }
}

/// The short name of a day of the week.
fn weekday_short(d: u8) -> (r: &'static str)
    requires
        1 <= d <= 7,
    ensures
        r@ == weekday_short_name(d as int),
{
    match d {
        1 => "Mon",
        2 => "Tue",
        3 => "Wed",
        4 => "Thu",
        5 => "Fri",
        6 => "Sat",
        _ => "Sun",
    }
}

/// The full name of a day of the week.
fn weekday_long(d: u8) -> (r: &'static str)
    requires
        1 <= d <= 7,
    ensures
        r@ == weekday_long_name(d as int),
{
    match d {
        1 => "Monday",
        2 => "Tuesday",
        3 => "Wednesday",
        4 => "Thursday",
        5 => "Friday",
        6 => "Saturday",
        _ => "Sunday",
    }
}

/// The text of an existing date: the day of the week and the month by their short or full
/// names.
fn format_date(year: u16, ordinal: u16, weekday_in_full: bool, month_in_full: bool) -> (r: String)
    requires
        is_ordinal_date(year as int, ordinal as int),
    ensures
        r@ == date_text(
            if weekday_in_full {
                weekday_long_name(weekday_of(year as int, ordinal as int))
            } else {
                weekday_short_name(weekday_of(year as int, ordinal as int))
            },
            if month_in_full {
                month_long_name(month_of_ordinal(year as int, ordinal as int))
            } else {
                month_short_name(month_of_ordinal(year as int, ordinal as int))
            },
            day_of_ordinal(year as int, ordinal as int),
            year as int,
        ),
{
    proof {
        law_ordinal_to_calendar_date(year as int, ordinal as int);
    }
    let date: CalendarDate = calendar_date_from_ordinal(year, ordinal);
    let weekday = match weekday_of_ordinal_date(year as i32, ordinal) {
        Some(d) => d,
        None => 1,
    };
    let mut text = String::from_str(
        if weekday_in_full {
            weekday_long(weekday)
        } else {
            weekday_short(weekday)
        },
    );
    text.append(", ");
    text.append(
        if month_in_full {
            month_long(date.month)
        } else {
            month_short(date.month)
        },
    );
    text.append(" ");
    let day = decimal_text(date.day as i64);
    text.append(day.as_str());
    text.append(", ");
    let year_text = decimal_text(year as i64);
    text.append(year_text.as_str());
    text
}

/// The text of a date with a time: the date's text and the hour and minute on a twelve-hour
/// clock.
fn format_date_time(date: String, hour: u8, minute: u8) -> (r: String)
    ensures
        r@ == date_time_text(date@, twelve_hour(hour as int), minute as int, am_pm(hour as int)),
{
    let mut text = date;
    text.append(", ");
    let h = if hour > 12 {
        hour - 12
    } else {
        hour
    };
    let hour_text = decimal_text(h as i64);
    text.append(hour_text.as_str());
    text.append(":");
    let minute_text = decimal_text(minute as i64);
    text.append(minute_text.as_str());
    text.append(" ");
    text.append(
        if hour > 11 {
            "pm"
        } else {
            "am"
        },
    );
    text
}

/// Text for people to read, in a short, a medium and a long form.
pub trait FormatTime {
    /// The value has a text: the date in it exists.
    spec fn formattable(&self) -> bool;

    /// The text of the short form.
    spec fn short_form(&self) -> Seq<char>;

    /// The short form.
    fn format_s(&self) -> (r: String)
        requires
            self.formattable(),
        ensures
            r@ == self.short_form(),
    ;

    /// The medium form; the short one unless a type says otherwise.
    fn format_m(&self) -> (r: String)
        requires
            self.formattable(),
        default_ensures
            r@ == self.short_form(),
    {
        self.format_s()
    }

    /// The long form.
    fn format_l(&self) -> String
        requires
            self.formattable(),
    ;
}

impl FormatTime for (u8, u16) {
    /// A month, numbered from 1 for January, and a year.
    open spec fn formattable(&self) -> bool {
        1 <= self.0 <= 12
    }

    open spec fn short_form(&self) -> Seq<char> {
        month_short_name(self.0 as int) + ", "@ + decimal(self.1 as int)
    }

    /// Sep, 2021
    fn format_s(&self) -> String {
        let mut text = String::from_str(month_short(self.0));
        text.append(", ");
        let year = decimal_text(self.1 as i64);
        text.append(year.as_str());
        text
    }

    /// September, 2021
    fn format_l(&self) -> (r: String)
        ensures
            r@ == month_long_name(self.0 as int) + ", "@ + decimal(self.1 as int),
    {
        let mut text = String::from_str(month_long(self.0));
        text.append(", ");
        let year = decimal_text(self.1 as i64);
        text.append(year.as_str());
        text
    }
}

impl FormatTime for Date {
    open spec fn formattable(&self) -> bool {
        is_ordinal_date(self.0 as int, self.1 as int)
    }

    open spec fn short_form(&self) -> Seq<char> {
        date_text(
            weekday_short_name(weekday_of(self.0 as int, self.1 as int)),
            month_short_name(month_of_ordinal(self.0 as int, self.1 as int)),
            day_of_ordinal(self.0 as int, self.1 as int),
            self.0 as int,
        )
    }

    /// Mon, Sep 13, 2021
    fn format_s(&self) -> String {
        format_date(self.0, self.1, false, false)
    }

    /// Monday, Sep 13, 2021
    fn format_m(&self) -> (r: String)
        ensures
            r@ == date_text(
                weekday_long_name(weekday_of(self.0 as int, self.1 as int)),
                month_short_name(month_of_ordinal(self.0 as int, self.1 as int)),
                day_of_ordinal(self.0 as int, self.1 as int),
                self.0 as int,
            ),
    {
        format_date(self.0, self.1, true, false)
    }

    /// Monday, September 13, 2021
    fn format_l(&self) -> (r: String)
        ensures
            r@ == date_text(
                weekday_long_name(weekday_of(self.0 as int, self.1 as int)),
                month_long_name(month_of_ordinal(self.0 as int, self.1 as int)),
                day_of_ordinal(self.0 as int, self.1 as int),
                self.0 as int,
            ),
    {
        format_date(self.0, self.1, true, true)
    }
}

impl FormatTime for Date2 {
    open spec fn formattable(&self) -> bool {
        is_ordinal_date(self.0 as int, self.1 as int)
    }

    open spec fn short_form(&self) -> Seq<char> {
        date_text(
            weekday_short_name(weekday_of(self.0 as int, self.1 as int)),
            month_short_name(month_of_ordinal(self.0 as int, self.1 as int)),
            day_of_ordinal(self.0 as int, self.1 as int),
            self.0 as int,
        )
    }

    /// Mon, Sep 13, 2021
    fn format_s(&self) -> String {
        format_date(self.0, self.1, false, false)
    }

    /// Monday, Sep 13, 2021
    fn format_m(&self) -> (r: String)
        ensures
            r@ == date_text(
                weekday_long_name(weekday_of(self.0 as int, self.1 as int)),
                month_short_name(month_of_ordinal(self.0 as int, self.1 as int)),
                day_of_ordinal(self.0 as int, self.1 as int),
                self.0 as int,
            ),
    {
        format_date(self.0, self.1, true, false)
    }

    /// Monday, September 13, 2021
    fn format_l(&self) -> (r: String)
        ensures
            r@ == date_text(
                weekday_long_name(weekday_of(self.0 as int, self.1 as int)),
                month_long_name(month_of_ordinal(self.0 as int, self.1 as int)),
                day_of_ordinal(self.0 as int, self.1 as int),
                self.0 as int,
            ),
    {
        format_date(self.0, self.1, true, true)
    }
}

impl FormatTime for TimeAndDate {
    open spec fn formattable(&self) -> bool {
        is_ordinal_date(self.spec_year(), self.spec_ordinal())
    }

    open spec fn short_form(&self) -> Seq<char> {
        date_time_text(
            date_text(
                weekday_short_name(weekday_of(self.spec_year(), self.spec_ordinal())),
                month_short_name(month_of_ordinal(self.spec_year(), self.spec_ordinal())),
                day_of_ordinal(self.spec_year(), self.spec_ordinal()),
                self.spec_year(),
            ),
            twelve_hour(hour_field(self.0) as int),
            minute_field(self.0) as int,
            am_pm(hour_field(self.0) as int),
        )
    }

    /// Mon, Sep 13, 2021, 1:45 pm
    fn format_s(&self) -> String {
        format_date_time(
            format_date(self.year(), self.ordinal(), false, false),
            self.hour(),
            self.minute(),
        )
    }

    /// Monday, Sep 13, 2021, 1:45 pm
    fn format_m(&self) -> (r: String)
        ensures
            r@ == date_time_text(
                date_text(
                    weekday_long_name(weekday_of(self.spec_year(), self.spec_ordinal())),
                    month_short_name(month_of_ordinal(self.spec_year(), self.spec_ordinal())),
                    day_of_ordinal(self.spec_year(), self.spec_ordinal()),
                    self.spec_year(),
                ),
                twelve_hour(hour_field(self.0) as int),
                minute_field(self.0) as int,
                am_pm(hour_field(self.0) as int),
            ),
    {
        format_date_time(
            format_date(self.year(), self.ordinal(), true, false),
            self.hour(),
            self.minute(),
        )
    }

    /// Monday, September 13, 2021, 1:45 pm
    fn format_l(&self) -> (r: String)
        ensures
            r@ == date_time_text(
                date_text(
                    weekday_long_name(weekday_of(self.spec_year(), self.spec_ordinal())),
                    month_long_name(month_of_ordinal(self.spec_year(), self.spec_ordinal())),
                    day_of_ordinal(self.spec_year(), self.spec_ordinal()),
                    self.spec_year(),
                ),
                twelve_hour(hour_field(self.0) as int),
                minute_field(self.0) as int,
                am_pm(hour_field(self.0) as int),
            ),
    {
        format_date_time(
            format_date(self.year(), self.ordinal(), true, true),
            self.hour(),
            self.minute(),
        )
    }
}

impl FormatTime for DT {
    open spec fn formattable(&self) -> bool {
        is_ordinal_date(self.0 as int, self.1 as int)
    }

    open spec fn short_form(&self) -> Seq<char> {
        date_time_text(
            date_text(
                weekday_short_name(weekday_of(self.0 as int, self.1 as int)),
                month_short_name(month_of_ordinal(self.0 as int, self.1 as int)),
                day_of_ordinal(self.0 as int, self.1 as int),
                self.0 as int,
            ),
            twelve_hour(self.2 as int),
            self.3 as int,
            am_pm(self.2 as int),
        )
    }

    /// Mon, Sep 13, 2021, 1:45 pm
    fn format_s(&self) -> String {
        format_date_time(format_date(self.0, self.1, false, false), self.2, self.3)
    }

    /// Monday, Sep 13, 2021, 1:45 pm
    fn format_m(&self) -> (r: String)
        ensures
            r@ == date_time_text(
                date_text(
                    weekday_long_name(weekday_of(self.0 as int, self.1 as int)),
                    month_short_name(month_of_ordinal(self.0 as int, self.1 as int)),
                    day_of_ordinal(self.0 as int, self.1 as int),
                    self.0 as int,
                ),
                twelve_hour(self.2 as int),
                self.3 as int,
                am_pm(self.2 as int),
            ),
    {
        format_date_time(format_date(self.0, self.1, true, false), self.2, self.3)
    }

    /// Monday, September 13, 2021, 1:45 pm
    fn format_l(&self) -> (r: String)
        ensures
            r@ == date_time_text(
                date_text(
                    weekday_long_name(weekday_of(self.0 as int, self.1 as int)),
                    month_long_name(month_of_ordinal(self.0 as int, self.1 as int)),
                    day_of_ordinal(self.0 as int, self.1 as int),
                    self.0 as int,
                ),
                twelve_hour(self.2 as int),
                self.3 as int,
                am_pm(self.2 as int),
            ),
    {
        format_date_time(format_date(self.0, self.1, true, true), self.2, self.3)
    }
}

/// Each month has its own short name, of three letters, which begins its full name: so the
/// short names tell the months apart, and the short name of a month is the abbreviation of
/// that very month.
pub proof fn law_month_names(m: int, n: int)
    requires
        1 <= m <= 12,
        1 <= n <= 12,
    ensures
        month_short_name(m).len() == 3,
        month_short_name(m) == month_long_name(m).take(3),
        month_short_name(m) == month_short_name(n) ==> m == n,
{
    reveal_strlit("Jan");
    reveal_strlit("Feb");
    reveal_strlit("Mar");
    reveal_strlit("Apr");
    reveal_strlit("May");
    reveal_strlit("Jun");
    reveal_strlit("Jul");
    reveal_strlit("Aug");
    reveal_strlit("Sep");
    reveal_strlit("Oct");
    reveal_strlit("Nov");
    reveal_strlit("Dec");
    reveal_strlit("January");
    reveal_strlit("February");
    reveal_strlit("March");
    reveal_strlit("April");
    reveal_strlit("May");
    reveal_strlit("June");
    reveal_strlit("July");
    reveal_strlit("August");
    reveal_strlit("September");
    reveal_strlit("October");
    reveal_strlit("November");
    reveal_strlit("December");
    assert(month_short_name(m) =~= month_long_name(m).take(3));
    if month_short_name(m) == month_short_name(n) {
        assert(month_short_name(m)[0] == month_short_name(n)[0]);
        assert(month_short_name(m)[1] == month_short_name(n)[1]);
        assert(month_short_name(m)[2] == month_short_name(n)[2]);
    }
}

/// Each day of the week has its own short name, of three letters, which begins its full name.
pub proof fn law_weekday_names(d: int, e: int)
    requires
        1 <= d <= 7,
        1 <= e <= 7,
    ensures
        weekday_short_name(d).len() == 3,
        weekday_short_name(d) == weekday_long_name(d).take(3),
        weekday_short_name(d) == weekday_short_name(e) ==> d == e,
{
    reveal_strlit("Mon");
    reveal_strlit("Tue");
    reveal_strlit("Wed");
    reveal_strlit("Thu");
    reveal_strlit("Fri");
    reveal_strlit("Sat");
    reveal_strlit("Sun");
    reveal_strlit("Monday");
    reveal_strlit("Tuesday");
    reveal_strlit("Wednesday");
    reveal_strlit("Thursday");
    reveal_strlit("Friday");
    reveal_strlit("Saturday");
    reveal_strlit("Sunday");
    assert(weekday_short_name(d) =~= weekday_long_name(d).take(3));
    if weekday_short_name(d) == weekday_short_name(e) {
        assert(weekday_short_name(d)[0] == weekday_short_name(e)[0]);
        assert(weekday_short_name(d)[1] == weekday_short_name(e)[1]);
        assert(weekday_short_name(d)[2] == weekday_short_name(e)[2]);
    }
}

/// The days of the week follow one another without a gap, day after day and from the last day
/// of a year to the first day of the next: the day after a day of the week is the next day of
/// the week, Monday after Sunday.
pub proof fn law_weekday_steps(year: int, ordinal: int)
    requires
        is_ordinal_date(year, ordinal),
    ensures
        1 <= weekday_of(year, ordinal) <= 7,
        ordinal < year_length(year) ==> weekday_of(year, ordinal + 1) == weekday_of(year, ordinal) % 7 + 1,
        ordinal == year_length(year) ==> weekday_of(year + 1, 1) == weekday_of(year, ordinal) % 7 + 1,
{
    assert((year + 1 - 1) / 4 - (year - 1) / 4 == if year % 4 == 0 { 1int } else { 0int });
    assert((year + 1 - 1) / 100 - (year - 1) / 100 == if year % 100 == 0 { 1int } else { 0int });
    assert((year + 1 - 1) / 400 - (year - 1) / 400 == if year % 400 == 0 { 1int } else { 0int });
    assert(days_before_year(year + 1) == days_before_year(year) + year_length(year));
}

/// The twelve-hour clock reads every hour of the day: "am" exactly before noon, an hour from
/// 0 to 12, and the hour of the day back when twelve is added to an afternoon hour after one
/// o'clock.
pub proof fn law_twelve_hour_clock(hour: int)
    requires
        0 <= hour < 24,
    ensures
        am_pm(hour) == "am"@ <==> hour < 12,
        0 <= twelve_hour(hour) <= 12,
        (if hour > 12 {
            twelve_hour(hour) + 12
        } else {
            twelve_hour(hour)
        }) == hour,
{
    reveal_strlit("am");
    reveal_strlit("pm");
    assert("am"@[0] != "pm"@[0]);
}

} // verus!
