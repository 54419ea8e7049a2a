use journal::date::{leap_year, ndays_in_month, weekday_of, weekday_str};

#[test]
fn leap_years_follow_gregorian_rule() {
    assert!(leap_year(2024));
    assert!(leap_year(2000));
    assert!(leap_year(400));
    assert!(!leap_year(2023));
    assert!(!leap_year(1900));
    assert!(!leap_year(2100));
}

#[test]
fn month_lengths_follow_gregorian_rule() {
    assert_eq!(ndays_in_month(2024, 2), 29);
    assert_eq!(ndays_in_month(2023, 2), 28);
    assert_eq!(ndays_in_month(1900, 2), 28);
    assert_eq!(ndays_in_month(2000, 2), 29);
    assert_eq!(ndays_in_month(2024, 1), 31);
    assert_eq!(ndays_in_month(2024, 4), 30);
    assert_eq!(ndays_in_month(2024, 6), 30);
    assert_eq!(ndays_in_month(2024, 9), 30);
    assert_eq!(ndays_in_month(2024, 11), 30);
    assert_eq!(ndays_in_month(2024, 12), 31);
}

#[test]
fn weekdays_match_known_dates() {
    // 2000-01-01 was a Saturday, 2024-03-01 a Friday, 2024-04-01 a Monday.
    assert_eq!(weekday_str(weekday_of(2000, 1, 1)), "saturday");
    assert_eq!(weekday_str(weekday_of(2024, 3, 1)), "friday");
    assert_eq!(weekday_str(weekday_of(2024, 3, 15)), "friday");
    assert_eq!(weekday_str(weekday_of(2024, 4, 1)), "monday");
    assert_eq!(weekday_str(weekday_of(1970, 1, 1)), "thursday");
    assert_eq!(weekday_str(weekday_of(9999, 12, 31)), "friday");
}

#[test]
fn weekdays_step_across_a_month() {
    let first = weekday_of(2024, 2, 1);
    for d in 1..=29 {
        assert_eq!(weekday_of(2024, 2, d), (first + (d - 1)) % 7);
    }
}
