use journal::date::YearMonth;
use journal::render::{diary_content, diary_content_at, note_content, note_content_at};
use journal::rollover::choose_diary_month;
use journal::naming::diary_file_name;

fn ym(year: i32, month: u32) -> YearMonth {
    YearMonth { year, month }
}

fn names(list: &[&str]) -> Vec<String> {
    list.iter().map(|s| s.to_string()).collect()
}

fn section_count(content: &str) -> usize {
    content.matches("\n###### ").count()
}

#[test]
fn note_content_is_exact() {
    let c = note_content("2024-01-05T00:00:00+09:00", "2024-01-06T10:30:00+09:00");
    assert_eq!(
        c,
        "---\ncreated_at: 2024-01-05T00:00:00+09:00\nupdated_at: 2024-01-06T10:30:00+09:00\ntitle:\ntags:\n---\n"
    );
}

#[test]
fn note_content_has_empty_title_and_tags() {
    let c = note_content("T1", "T2");
    assert!(c.contains("\ntitle:\ntags:\n---\n"));
    assert!(c.starts_with("---\ncreated_at: T1\nupdated_at: T2\n"));
}

#[test]
fn diary_content_opens_with_frontmatter_and_first_days() {
    let c = diary_content(ym(2024, 3), "C", "U");
    assert!(c.starts_with(
        "---\ncreated_at: C\nupdated_at: U\n---\n\n###### 2024-03-01-friday\n\n\u{3000}\n\n###### 2024-03-02-saturday\n\n\u{3000}\n"
    ));
    assert!(c.ends_with("\n###### 2024-03-31-sunday\n\n\u{3000}\n"));
}

#[test]
fn diary_content_has_one_section_per_day() {
    assert_eq!(section_count(&diary_content(ym(2024, 3), "C", "U")), 31);
    assert_eq!(section_count(&diary_content(ym(2024, 4), "C", "U")), 30);
    assert_eq!(section_count(&diary_content(ym(2024, 2), "C", "U")), 29);
    assert_eq!(section_count(&diary_content(ym(2023, 2), "C", "U")), 28);
}

#[test]
fn diary_weekdays_cycle_without_gaps() {
    let c = diary_content(ym(2024, 2), "C", "U");
    let cycle = [
        "thursday", "friday", "saturday", "sunday", "monday", "tuesday", "wednesday",
    ];
    for d in 1..=29u32 {
        let label = cycle[((d - 1) % 7) as usize];
        let heading = format!("\n###### 2024-02-{:02}-{}\n", d, label);
        assert!(c.contains(&heading));
    }
}

#[test]
fn scenario_fresh_march_diary() {
    // An empty directory seen on 2024-03-15.
    let today = ym(2024, 3);
    let chosen = choose_diary_month(&names(&[]), today).unwrap();
    assert_eq!(diary_file_name(chosen), "202403.md");
    let content = diary_content(chosen, "C", "U");
    assert_eq!(section_count(&content), 31);
    assert!(content.contains("\n###### 2024-03-01-friday\n"));
}

#[test]
fn scenario_following_month_diary() {
    // A directory already holding March, seen on 2024-03-20.
    let today = ym(2024, 3);
    let chosen = choose_diary_month(&names(&["202403.md"]), today).unwrap();
    assert_eq!(diary_file_name(chosen), "202404.md");
    let content = diary_content(chosen, "C", "U");
    assert_eq!(section_count(&content), 30);
    assert!(content.contains("\n###### 2024-04-01-monday\n"));
}

#[test]
fn scenario_catch_up_diary() {
    // A directory holding only January, seen on 2024-06-01.
    let today = ym(2024, 6);
    let chosen = choose_diary_month(&names(&["202401.md"]), today).unwrap();
    assert_eq!(diary_file_name(chosen), "202406.md");
}

#[test]
fn stamped_diary_content_renders() {
    let c = diary_content_at(ym(2024, 3), 0, 0).unwrap();
    assert!(c.starts_with("---\ncreated_at: "));
    assert_eq!(section_count(&c), 31);
}

#[test]
fn stamped_content_requires_renderable_instants() {
    // The rendering range: chrono's representable instants, one day kept
    // back at each end for the local-time offset.
    let min = -8334601142400000;
    let max = 8210266790399999;
    assert!(note_content_at(min, min).is_some());
    assert!(note_content_at(max, max).is_some());
    assert!(note_content_at(min - 1, 0).is_none());
    assert!(note_content_at(0, max + 1).is_none());
    assert!(diary_content_at(ym(2024, 3), max + 1, 0).is_none());
    assert!(diary_content_at(ym(2024, 3), 0, min - 1).is_none());
}

#[test]
fn stamped_note_content_renders() {
    let c = note_content_at(1700000000000, 1700000000000).unwrap();
    assert!(c.starts_with("---\ncreated_at: "));
    assert!(c.contains("\ntitle:\ntags:\n---\n"));
    // The timestamp text carries a date, a time and an offset.
    let created = c.lines().nth(1).unwrap();
    assert!(created.len() >= "created_at: 2023-11-14T00:00:00+00:00".len());
    assert!(created.contains('T') && created.contains(':'));
}
