use journal::date::YearMonth;
use journal::ident::{fresh_note_file_name, note_file_name_at};
use journal::naming::{diary_file_name, note_file_name, parse_diary_name};

fn ym(year: i32, month: u32) -> YearMonth {
    YearMonth { year, month }
}

fn is_crockford(c: char) -> bool {
    "0123456789ABCDEFGHJKMNPQRSTVWXYZ".contains(c)
}

#[test]
fn diary_name_renders_zero_padded() {
    assert_eq!(diary_file_name(ym(2024, 3)), "202403.md");
    assert_eq!(diary_file_name(ym(987, 11)), "098711.md");
    assert_eq!(diary_file_name(ym(0, 1)), "000001.md");
    assert_eq!(diary_file_name(ym(9999, 12)), "999912.md");
}

#[test]
fn parse_accepts_well_formed_names() {
    assert_eq!(parse_diary_name("202403.md"), Some(ym(2024, 3)));
    assert_eq!(parse_diary_name("000101.md"), Some(ym(1, 1)));
    assert_eq!(parse_diary_name("999912.md"), Some(ym(9999, 12)));
}

#[test]
fn parse_rejects_bad_months() {
    assert_eq!(parse_diary_name("202400.md"), None);
    assert_eq!(parse_diary_name("202413.md"), None);
}

#[test]
fn parse_rejects_non_matching_names() {
    assert_eq!(parse_diary_name("20240.md"), None);
    assert_eq!(parse_diary_name("2024031.md"), None);
    assert_eq!(parse_diary_name("202403.txt"), None);
    assert_eq!(parse_diary_name("202403md"), None);
    assert_eq!(parse_diary_name("20240x.md"), None);
    assert_eq!(parse_diary_name(""), None);
    assert_eq!(parse_diary_name("\u{ff12}02403.md"), None);
}

#[test]
fn diary_name_round_trips() {
    for &(y, m) in &[(2024, 3), (0, 1), (9999, 12), (1900, 2), (870, 7)] {
        let name = diary_file_name(ym(y, m));
        assert_eq!(parse_diary_name(&name), Some(ym(y, m)));
    }
}

#[test]
fn note_name_appends_extension() {
    assert_eq!(note_file_name("01HV3ABCDEFGHJKMNPQRSTVWXY"), "01HV3ABCDEFGHJKMNPQRSTVWXY.md");
}

#[test]
fn fresh_note_name_is_sortable_identifier() {
    let name = fresh_note_file_name();
    assert_eq!(name.chars().count(), 29);
    assert!(name.ends_with(".md"));
    assert!(name[..26].chars().all(is_crockford));
}

#[test]
fn seeded_note_name_is_sortable_identifier() {
    let name = note_file_name_at(1700000000000);
    assert_eq!(name.chars().count(), 29);
    assert!(name.ends_with(".md"));
    assert!(name[..26].chars().all(is_crockford));
}

#[test]
fn seeded_note_names_share_their_time_prefix() {
    // The first ten characters encode the seed instant alone, so repeated
    // runs against the same seed sort together.
    let a = note_file_name_at(1700000000000);
    let b = note_file_name_at(1700000000000);
    assert_eq!(a[..10], b[..10]);
    let c = note_file_name_at(1700086400000);
    assert_ne!(a[..10], c[..10]);
}

#[test]
fn seeded_note_name_takes_the_largest_timestamp() {
    let name = note_file_name_at(0xFFFF_FFFF_FFFF);
    assert_eq!(name.chars().count(), 29);
    assert!(name[..26].chars().all(is_crockford));
}
