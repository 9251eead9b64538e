use jihaz::time::{CalendarDate, ClockTime, Date, Date2, FormatTime, TimeAndDate, DT};

fn date_pair(d: Date) -> (u16, u16) {
    (d.year(), d.ordinal())
}

#[test]
fn dates_from_calendar_dates() {
    assert_eq!(date_pair(Date::from_year_month_day(2021, 9, 13)), (2021, 256));
    assert_eq!(date_pair(Date::from_year_month_day(2021, 1, 1)), (2021, 1));
    assert_eq!(date_pair(Date::from_year_month_day(2020, 3, 1)), (2020, 61));
    assert_eq!(date_pair(Date::from_year_month_day(2021, 3, 1)), (2021, 60));
    assert_eq!(date_pair(Date::from_year_month_day(2000, 12, 31)), (2000, 366));
    assert_eq!(date_pair(Date::new(1999, 7)), (1999, 7));
}

#[test]
fn calendar_dates_of_days_of_the_year() {
    assert_eq!(Date::new(2021, 256).date(), CalendarDate { year: 2021, month: 9, day: 13 });
    assert_eq!(Date::new(2020, 60).date(), CalendarDate { year: 2020, month: 2, day: 29 });
    assert_eq!(Date::new(2021, 60).date(), CalendarDate { year: 2021, month: 3, day: 1 });
    assert_eq!(Date::new(2021, 365).date(), CalendarDate { year: 2021, month: 12, day: 31 });
    // the two conversions undo each other
    for ordinal in 1..=366u16 {
        let d = Date::new(2020, ordinal).date();
        assert_eq!(Date::from_year_month_day(2020, d.month, d.day).ordinal(), ordinal);
    }
}

#[test]
fn months_forward_and_backward() {
    // January 31 to the last day of February
    assert_eq!(date_pair(Date::new(2021, 31).one_month_forward()), (2021, 59));
    assert_eq!(date_pair(Date::new(2020, 31).one_month_forward()), (2020, 60));
    // December to January of the next year
    assert_eq!(date_pair(Date::new(2021, 349).one_month_forward()), (2022, 15));
    // March 31 back to the last day of February
    assert_eq!(date_pair(Date::new(2021, 90).one_month_backward()), (2021, 59));
    // January back to December of the year before
    assert_eq!(date_pair(Date::new(2021, 10).one_month_backward()), (2020, 345));
    // the year before year 0 reads as 65535
    assert_eq!(date_pair(Date::new(0, 5).one_month_backward()), (65535, 339));
}

#[test]
fn months_of_dates() {
    assert_eq!(Date::new(2021, 256).month_year(), (9, 2021));
    assert_eq!(Date::new(2020, 45).days_in_month(), 29);
    assert_eq!(Date::new(2021, 45).days_in_month(), 28);
    assert_eq!(Date::new(2021, 256).days_in_month(), 30);
    let dates = Date::new(2021, 256).month_dates();
    assert_eq!(dates.len(), 30);
    for (i, (date, number)) in dates.iter().enumerate() {
        assert_eq!(date_pair(*date), (256, 245));
        assert_eq!(*number as usize, i + 1);
    }
}

#[test]
fn comparing_dates() {
    assert!(Date::new(2021, 5).before(&Date::new(2021, 6)));
    assert!(Date::new(2020, 300).before(&Date::new(2021, 1)));
    assert!(!Date::new(2021, 5).before(&Date::new(2021, 5)));
    assert!(Date::new(2021, 256).same_calendar_month(&Date::new(2021, 244)));
    assert!(!Date::new(2021, 256).same_calendar_month(&Date::new(2021, 243)));
    assert!(!Date::new(2021, 256).same_calendar_month(&Date::new(2020, 256)));
}

#[test]
fn time_and_date_fields() {
    let t = TimeAndDate::new(2021, 100, 13, 45);
    assert_eq!((t.year(), t.ordinal(), t.hour(), t.minute()), (2021, 100, 13, 45));
    assert_eq!((t.second(), t.nanosecond()), (0, 0));
    assert_eq!(date_pair(t.date()), (2021, 100));
    assert_eq!(t.date_og(), CalendarDate { year: 2021, month: 4, day: 10 });
    assert_eq!(t.time(), ClockTime { hour: 13, minute: 45, second: 0 });
    assert!(TimeAndDate::from_date(Date::new(2021, 100), 13, 45) == t);
    assert_eq!(TimeAndDate::new(1, 0, 0, 0).as_u64(), 1u64 << 51);
    let raw = TimeAndDate::from((5u64, 7u8));
    assert_eq!((raw.nanosecond(), raw.second(), raw.year()), (5, 7, 0));
}

#[test]
fn packed_values_are_read_back() {
    let t = TimeAndDate::new_with_nanos(4095, 511, 31, 63, 59, (1 << 31) - 1);
    assert_eq!((t.year(), t.ordinal(), t.hour(), t.minute()), (4095, 511, 31, 63));
    assert_eq!((t.second(), t.nanosecond()), (59, (1 << 31) - 1));
    // the nanoseconds of a leap second keep their own 31 bits
    let d = TimeAndDate::new_with_nanos(2000, 270, 8, 30, 20, 1_500_000_000);
    assert_eq!((d.nanosecond(), d.minute(), d.hour()), (1_500_000_000, 30, 8));
    let d = TimeAndDate::new_with_nanos(2000, 270, 8, 30, 20, 1_999_999_999);
    assert_eq!((d.nanosecond(), d.minute(), d.ordinal(), d.year()), (1_999_999_999, 30, 270, 2000));
    // a day of the year too large for its 9 bits spills into the year
    let t = TimeAndDate::new(2020, 600, 0, 0);
    assert_eq!((t.year(), t.ordinal()), (2021, 88));
}

#[test]
fn twelve_hour_clock() {
    assert_eq!(TimeAndDate::new(2021, 1, 13, 45).time_am_pm(), (1, 45, "pm"));
    assert_eq!(TimeAndDate::new(2021, 1, 0, 5).time_am_pm(), (0, 5, "am"));
    assert_eq!(TimeAndDate::new(2021, 1, 12, 0).time_am_pm(), (12, 0, "pm"));
    assert_eq!(TimeAndDate::new(2021, 1, 11, 59).time_am_pm(), (11, 59, "am"));
}

#[test]
fn ordering_times_and_dates() {
    let a = TimeAndDate::new(2021, 10, 5, 0);
    let b = TimeAndDate::new(2021, 10, 5, 1);
    assert!(a.earlier_than(&b));
    assert!(!b.earlier_than(&a));
    assert!(!a.earlier_than(&a));
    let s0 = TimeAndDate::new_with_nanos(2021, 10, 5, 0, 0, 999);
    let s1 = TimeAndDate::new_with_nanos(2021, 10, 5, 0, 1, 0);
    assert!(s0.earlier_than(&s1));
    assert!(TimeAndDate::new(2020, 366, 23, 59).earlier_than(&TimeAndDate::new(2021, 1, 0, 0)));
    assert!(a.same_calendar_month(&a));
    assert!(!a.same_calendar_month(&b));
}

#[test]
fn seconds_between_times() {
    let start = TimeAndDate::new(2021, 365, 0, 0);
    assert_eq!(start.duration(&TimeAndDate::new(2021, 365, 10, 30)), 37800);
    let start = TimeAndDate::new(2020, 366, 0, 0);
    assert_eq!(start.duration(&TimeAndDate::new(2020, 366, 0, 1)), 60);
}

#[test]
fn one_nanosecond_later() {
    let t = TimeAndDate::new_with_nanos(2021, 10, 23, 59, 59, 999_999_999).one_more_nanosecond();
    assert_eq!((t.year(), t.ordinal(), t.hour(), t.minute()), (2021, 10, 0, 0));
    assert_eq!((t.second(), t.nanosecond()), (0, 0));
    let t = TimeAndDate::new_with_nanos(2021, 10, 10, 20, 30, 500).one_more_nanosecond();
    assert_eq!((t.hour(), t.minute(), t.second(), t.nanosecond()), (10, 20, 30, 501));
    let t = TimeAndDate::new_with_nanos(2021, 10, 10, 20, 59, 999_999_999).one_more_nanosecond();
    assert_eq!((t.hour(), t.minute(), t.second(), t.nanosecond()), (10, 21, 0, 0));
}

#[test]
fn plain_dates() {
    let d = Date2::from_year_month_day(2021, 9, 13);
    assert_eq!((d.year(), d.ordinal()), (2021, 256));
    assert_eq!(d.date(), CalendarDate { year: 2021, month: 9, day: 13 });
    assert!(Date2::new(2021, 5).before(&Date2::new(2021, 6)));
    let forward = Date2::new(2021, 31).one_month_forward();
    assert_eq!((forward.year(), forward.ordinal()), (2021, 59));
    let backward = Date2::new(2021, 10).one_month_backward();
    assert_eq!((backward.year(), backward.ordinal()), (2020, 345));
    assert_eq!(Date2::new(2021, 256).month_year(), (9, 2021));
    assert_eq!(Date2::new(2020, 45).days_in_month(), 29);
    assert!(Date2::new(2021, 256).same_calendar_month(&Date2::new(2021, 244)));
    let dates = Date2::new(2020, 45).month_dates();
    assert_eq!(dates.len(), 29);
    assert!(dates[28] == (Date2::new(45, 33), 29));
}

#[test]
fn dates_with_times() {
    let dt = DT::new(2021, 100, 13, 45);
    assert_eq!((dt.year(), dt.ordinal(), dt.hour(), dt.minute()), (2021, 100, 13, 45));
    assert!(dt.date2() == Date2::new(2021, 100));
    assert!(DT::from_date2(Date2::new(2021, 100), 13, 45) == dt);
    assert_eq!(dt.date(), CalendarDate { year: 2021, month: 4, day: 10 });
    assert_eq!(dt.time(), ClockTime { hour: 13, minute: 45, second: 0 });
    assert_eq!(dt.time_am_pm(), (1, 45, "pm"));
    assert!(DT::new(2021, 100, 13, 44).before(&dt));
    assert!(!dt.before(&dt));
    assert!(dt.same_calendar_month(&DT::new(2021, 91, 0, 0)));
    assert_eq!(DT::new(2021, 365, 0, 0).duration(&DT::new(2021, 365, 10, 30)), 37800);
    assert_eq!(DT::new(2021, 10, 5, 20).duration_hm(&DT::new(2021, 8, 3, 10)), (24770, 10));
}

#[test]
fn a_month_forward_and_back() {
    for (year, ordinal) in [(2021u16, 45u16), (2021, 344), (2020, 60), (2020, 1), (2021, 200)] {
        let back = Date::new(year, ordinal).one_month_forward().one_month_backward();
        assert_eq!(date_pair(back), (year, ordinal));
    }
}

#[test]
fn dates_as_text() {
    let d = Date::new(2021, 256);
    assert_eq!(d.format_s(), "Mon, Sep 13, 2021");
    assert_eq!(d.format_m(), "Monday, Sep 13, 2021");
    assert_eq!(d.format_l(), "Monday, September 13, 2021");
    assert_eq!(Date::new(2000, 1).format_s(), "Sat, Jan 1, 2000");
    assert_eq!(Date::new(0, 1).format_s(), "Sat, Jan 1, 0");
    assert_eq!(Date2::new(2020, 60).format_l(), "Saturday, February 29, 2020");
    assert_eq!((9u8, 2021u16).format_s(), "Sep, 2021");
    assert_eq!((9u8, 2021u16).format_m(), "Sep, 2021");
    assert_eq!((9u8, 2021u16).format_l(), "September, 2021");
    let t = TimeAndDate::new(2021, 256, 13, 5);
    assert_eq!(t.format_s(), "Mon, Sep 13, 2021, 1:5 pm");
    assert_eq!(t.format_m(), "Monday, Sep 13, 2021, 1:5 pm");
    assert_eq!(TimeAndDate::new(2021, 256, 0, 30).format_l(), "Monday, September 13, 2021, 0:30 am");
    assert_eq!(DT::new(2021, 256, 12, 0).format_s(), "Mon, Sep 13, 2021, 12:0 pm");
}

#[test]
fn times_and_dates_compared_with_operators() {
    let a = TimeAndDate::new(2021, 1, 0, 0);
    let b = TimeAndDate::new(2021, 1, 0, 1);
    assert!(a < b);
    assert!(b > a);
    assert!(a <= a);
    assert_eq!(a.partial_cmp(&a), Some(std::cmp::Ordering::Equal));
    assert!(Date::new(2020, 366) < Date::new(2021, 1));
    assert!(DT::new(2021, 1, 5, 0) < DT::new(2021, 1, 5, 1));
    assert!(Date2::new(2021, 2) > Date2::new(2021, 1));
}

#[test]
fn one_nanosecond_on_is_later() {
    for (h, m, s, n) in [(0, 0, 0, 0), (10, 20, 30, 500), (10, 20, 59, 999_999_999), (10, 59, 59, 999_999_999), (22, 59, 59, 999_999_999)] {
        let t = TimeAndDate::new_with_nanos(2021, 10, h, m, s, n);
        assert!(t.earlier_than(&t.one_more_nanosecond()));
    }
    // the last nanosecond of the day wraps back to the start of the same day
    let t = TimeAndDate::new_with_nanos(2021, 10, 23, 59, 59, 999_999_999);
    let u = t.one_more_nanosecond();
    assert!(!t.earlier_than(&u));
    assert_eq!((u.ordinal(), u.hour(), u.minute(), u.second(), u.nanosecond()), (10, 0, 0, 0, 0));
}
