use diary::dates::{entry_file_name, format_date, today_file_name, Date};
use diary::entry::{
    already_exists_message, entry_created_message, entry_exists, entry_path, entry_template,
};

#[test]
fn fresh_entry_content_is_the_fixed_template() {
    assert_eq!(entry_template(), "### work\n\n### studies");
}

#[test]
fn format_date_pads_month_and_day() {
    let d = Date { year: 2024, month: 1, day: 1 };
    assert_eq!(format_date(&d), "2024-01-01");
}

#[test]
fn format_date_keeps_two_digit_fields() {
    let d = Date { year: 2023, month: 11, day: 30 };
    assert_eq!(format_date(&d), "2023-11-30");
}

#[test]
fn format_date_pads_short_years() {
    let d = Date { year: 987, month: 6, day: 5 };
    assert_eq!(format_date(&d), "0987-06-05");
}

#[test]
fn format_date_handles_wide_and_negative_years() {
    let wide = Date { year: 12345, month: 12, day: 31 };
    assert_eq!(format_date(&wide), "12345-12-31");
    let before_zero = Date { year: -42, month: 2, day: 3 };
    assert_eq!(format_date(&before_zero), "-0042-02-03");
}

#[test]
fn entry_file_name_appends_extension() {
    let d = Date { year: 2024, month: 1, day: 1 };
    assert_eq!(entry_file_name(&d), "2024-01-01.md");
}

#[test]
fn today_file_name_is_a_dated_markdown_name() {
    let name = today_file_name();
    assert!(name.ends_with(".md"));
    assert!(name.len() >= "0000-01-01.md".len());
    let dashes = name.matches('-').count();
    assert!(dashes >= 2);
}

#[test]
fn existing_entry_is_found_in_the_listing() {
    let entries = vec![
        String::from("2024-01-01.md"),
        String::from("2024-01-02.md"),
    ];
    let today = String::from("2024-01-02.md");
    assert!(entry_exists(&entries, &today));
}

#[test]
fn absent_entry_is_not_found_in_the_listing() {
    let entries = vec![String::from("2024-01-01.md")];
    let today = String::from("2024-01-02.md");
    assert!(!entry_exists(&entries, &today));
    assert!(!entry_exists(&Vec::new(), &today));
}

#[test]
fn entry_path_keeps_the_trailing_slash_significant() {
    assert_eq!(
        entry_path("/home/me/diary/", "2024-01-01.md"),
        "/home/me/diary/2024-01-01.md"
    );
    assert_eq!(
        entry_path("/home/me/diary", "2024-01-01.md"),
        "/home/me/diary2024-01-01.md"
    );
}

#[test]
fn create_messages_are_exact() {
    assert_eq!(already_exists_message(), "Today's entry already exists");
    assert_eq!(
        entry_created_message("2024-01-01.md"),
        "entry 2024-01-01.md created"
    );
}
