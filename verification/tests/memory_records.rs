use meal_planner::calendar::CalendarDate;
use meal_planner::memory::{
    compliance_from_counts, compliance_window, date_param, last_planned_from, meal_log_from_row,
    read_planned_date, recipe_stats_from, Compliance,
};

#[test]
fn row_with_good_date() {
    let log = meal_log_from_row(4, "r1".to_string(), "Soup".to_string(), "2024-05-06", true, Some("Salad".to_string()), None);
    assert_eq!(log.id, 4);
    assert_eq!(log.recipe_id, "r1");
    assert_eq!(log.recipe_name, "Soup");
    assert_eq!(log.planned_date, CalendarDate::from_ymd(2024, 5, 6).unwrap());
    assert!(log.was_cooked);
    assert_eq!(log.substituted_with.as_deref(), Some("Salad"));
    assert!(log.notes.is_none());
}

#[test]
fn row_with_bad_date_falls_back_to_epoch() {
    let log = meal_log_from_row(1, "r".to_string(), "n".to_string(), "yesterday", false, None, None);
    assert_eq!(log.planned_date, CalendarDate::epoch());
}

#[test]
fn stored_dates_read_back() {
    for date in [CalendarDate::from_ymd(2024, 2, 29).unwrap(), CalendarDate::from_ymd(1999, 12, 31).unwrap()] {
        assert_eq!(read_planned_date(&date_param(&date)), date);
    }
}

#[test]
fn last_planned_values() {
    assert_eq!(last_planned_from(None), None);
    assert_eq!(last_planned_from(Some("2024-01-15".to_string())), CalendarDate::from_ymd(2024, 1, 15));
    assert_eq!(last_planned_from(Some("garbage".to_string())), None);
}

#[test]
fn stats_with_null_sum() {
    assert_eq!(recipe_stats_from(3, Some(2)), (3, 2));
    assert_eq!(recipe_stats_from(0, None), (0, 0));
}

#[test]
fn compliance_window_text() {
    assert_eq!(compliance_window(30), "-30 days");
    assert_eq!(compliance_window(0), "-0 days");
}

#[test]
fn compliance_counts() {
    assert_eq!(compliance_from_counts(0, 0), Compliance::NoPlans);
    assert_eq!(compliance_from_counts(4, 3), Compliance::Fraction { cooked: 3, total: 4 });
}
