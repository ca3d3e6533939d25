use meal_planner::calendar::CalendarDate;

fn d(y: i32, m: u32, day: u32) -> CalendarDate {
    CalendarDate::from_ymd(y, m, day).unwrap()
}

#[test]
fn from_ymd_rejects_missing_days() {
    assert!(CalendarDate::from_ymd(2023, 2, 29).is_none());
    assert!(CalendarDate::from_ymd(2024, 2, 29).is_some());
    assert!(CalendarDate::from_ymd(2024, 13, 1).is_none());
    assert!(CalendarDate::from_ymd(2024, 4, 31).is_none());
    assert!(CalendarDate::from_ymd(-4, 2, 29).is_some());
    assert!(CalendarDate::from_ymd(400000, 1, 1).is_none());
    assert!(CalendarDate::from_ymd(262142, 12, 31).is_some());
    assert!(CalendarDate::from_ymd(262143, 1, 1).is_none());
}

#[test]
fn iso_text_of_dates() {
    assert_eq!(d(2024, 3, 5).to_iso_string(), "2024-03-05");
    assert_eq!(d(12345, 6, 7).to_iso_string(), "+12345-06-07");
    assert_eq!(d(-5, 1, 1).to_iso_string(), "-0005-01-01");
    assert_eq!(d(7, 12, 31).to_iso_string(), "0007-12-31");
}

#[test]
fn parse_iso_dates() {
    assert_eq!(CalendarDate::parse_iso("2015-09-18"), Some(d(2015, 9, 18)));
    assert_eq!(CalendarDate::parse_iso("foo"), None);
    assert_eq!(CalendarDate::parse_iso("2023-02-29"), None);
    for date in [d(2024, 2, 29), d(12345, 6, 7), d(-5, 1, 1), d(1970, 1, 1)] {
        assert_eq!(CalendarDate::parse_iso(&date.to_iso_string()), Some(date));
    }
}

#[test]
fn days_before_crosses_months_and_years() {
    assert_eq!(d(2024, 3, 1).days_before(1), Some(d(2024, 2, 29)));
    assert_eq!(d(2024, 1, 1).days_before(1), Some(d(2023, 12, 31)));
    assert_eq!(d(2024, 1, 31).days_before(30), Some(d(2024, 1, 1)));
    assert_eq!(d(2024, 1, 31).days_before(0), Some(d(2024, 1, 31)));
    assert_eq!(d(2024, 1, 31).days_before(u32::MAX), None);
}

#[test]
fn epoch_is_default_date() {
    assert_eq!(CalendarDate::epoch(), d(1970, 1, 1));
}

#[test]
fn days_before_reaches_the_earliest_date() {
    let start = d(-262143, 1, 3);
    assert_eq!(start.days_before(2), Some(d(-262143, 1, 1)));
    assert_eq!(start.days_before(3), None);
}
