use jihaz::time::TimeAndDate;

#[test]
fn bitwise() {
    let date = TimeAndDate::new_with_nanos(2000, 270, 8, 30, 20, 370);
    assert!(date.year() == 2000);
    assert!(date.ordinal() == 270);
    assert!(date.hour() == 8);
    assert!(date.minute() == 30);
}
