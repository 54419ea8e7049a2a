use journal::date::YearMonth;
use journal::rollover::{choose_diary_month, latest_month, next_month};
use journal::{EntryError, InvalidReason};

fn ym(year: i32, month: u32) -> YearMonth {
    YearMonth { year, month }
}

fn names(list: &[&str]) -> Vec<String> {
    list.iter().map(|s| s.to_string()).collect()
}

#[test]
fn latest_of_empty_directory_is_none() {
    assert_eq!(latest_month(&names(&[])), None);
}

#[test]
fn latest_ignores_non_matching_names() {
    let listing = names(&["notes.txt", "readme.md", "2024.md", "1234567.md", ".md"]);
    assert_eq!(latest_month(&listing), None);
}

#[test]
fn latest_ignores_malformed_months() {
    let listing = names(&["202400.md", "202413.md", "202499.md"]);
    assert_eq!(latest_month(&listing), None);
}

#[test]
fn latest_picks_maximum_pair() {
    let listing = names(&["202312.md", "202401.md", "notes.txt", "202311.md"]);
    assert_eq!(latest_month(&listing), Some(ym(2024, 1)));
}

#[test]
fn latest_orders_by_year_before_month() {
    let listing = names(&["202312.md", "202201.md"]);
    assert_eq!(latest_month(&listing), Some(ym(2023, 12)));
}

#[test]
fn next_without_latest_is_today() {
    assert_eq!(next_month(None, ym(2024, 3)), ym(2024, 3));
}

#[test]
fn next_catches_up_to_today_over_a_gap() {
    assert_eq!(next_month(Some(ym(2024, 1)), ym(2024, 6)), ym(2024, 6));
}

#[test]
fn next_advances_past_latest_at_today() {
    assert_eq!(next_month(Some(ym(2024, 3)), ym(2024, 3)), ym(2024, 4));
}

#[test]
fn next_advances_past_latest_after_today() {
    assert_eq!(next_month(Some(ym(2024, 8)), ym(2024, 3)), ym(2024, 9));
}

#[test]
fn next_rolls_december_to_january() {
    assert_eq!(next_month(Some(ym(2023, 12)), ym(2023, 10)), ym(2024, 1));
}

#[test]
fn choose_in_empty_directory_is_today() {
    assert_eq!(choose_diary_month(&names(&[]), ym(2024, 3)), Ok(ym(2024, 3)));
}

#[test]
fn choose_fails_past_year_9999() {
    let listing = names(&["999912.md"]);
    assert_eq!(
        choose_diary_month(&listing, ym(9999, 12)),
        Err(EntryError::InvalidInput(InvalidReason::YearOutOfRange))
    );
}
