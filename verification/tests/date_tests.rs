use weather::date::parse_date_with_unknown_format;
use weather::{normalize_date, normalize_date_on, CalendarDate};

fn day(year: i32, month: u32, day: u32) -> CalendarDate {
    CalendarDate { year, month, day }
}

fn today() -> String {
    chrono::Utc::now().date_naive().format("%Y-%m-%d").to_string()
}

#[test]
fn every_format_of_one_day_gives_the_same_iso_date() {
    let fixed = day(1999, 1, 1);
    for text in [
        "2023-10-05",
        "05.10.2023",
        "10/05/2023",
        "10/5/2023",
        "05-10-2023",
        "05 Oct 2023",
        "5 Oct 2023",
        "2023/10/05",
    ] {
        assert_eq!(normalize_date(Some(text)), "2023-10-05", "{}", text);
        assert_eq!(normalize_date_on(Some(text), fixed), "2023-10-05", "{}", text);
    }
}

#[test]
fn formats_are_tried_in_order() {
    // Read day first by the hyphenated pattern; the ISO pattern does not take it.
    assert_eq!(normalize_date(Some("01-02-2023")), "2023-02-01");
    // Read month first by the slash pattern.
    assert_eq!(normalize_date(Some("01/02/2023")), "2023-01-02");
    // Read day first by the dotted pattern.
    assert_eq!(normalize_date(Some("01.02.2023")), "2023-02-01");
}

#[test]
fn absent_date_is_today() {
    let before = today();
    let got = normalize_date(None);
    let after = today();
    assert!(got == before || got == after);
    assert_eq!(normalize_date_on(None, day(2024, 2, 29)), "2024-02-29");
}

#[test]
fn unreadable_date_is_today() {
    let before = today();
    let got = normalize_date(Some("not-a-date"));
    let after = today();
    assert!(got == before || got == after);
    let fixed = day(2020, 12, 31);
    assert_eq!(
        normalize_date_on(Some("not-a-date"), fixed),
        normalize_date_on(None, fixed)
    );
    assert_eq!(normalize_date_on(Some(""), fixed), "2020-12-31");
    assert_eq!(normalize_date_on(Some("2023-02-30"), fixed), "2020-12-31");
    assert_eq!(normalize_date_on(Some("2023-13-01"), fixed), "2020-12-31");
}

#[test]
fn parse_reads_year_month_day() {
    assert_eq!(parse_date_with_unknown_format("2015-09-05"), Some(day(2015, 9, 5)));
    assert_eq!(parse_date_with_unknown_format("17 Mar 1987"), Some(day(1987, 3, 17)));
    assert_eq!(parse_date_with_unknown_format("yesterday"), None);
}

#[test]
fn iso_form_pads_with_zeros() {
    assert_eq!(day(2023, 1, 2).to_iso_string(), "2023-01-02");
    assert_eq!(day(987, 12, 31).to_iso_string(), "0987-12-31");
    assert_eq!(day(0, 1, 1).to_iso_string(), "0000-01-01");
    assert_eq!(day(9999, 12, 31).to_iso_string(), "9999-12-31");
}

#[test]
fn iso_form_agrees_with_the_calendar_library() {
    for (y, m, d) in [
        (2024, 2, 29),
        (1, 1, 1),
        (0, 6, 15),
        (-1, 3, 4),
        (-44, 3, 15),
        (10000, 1, 1),
        (123456, 12, 31),
        (-200000, 7, 8),
    ] {
        let expected = chrono::NaiveDate::from_ymd_opt(y, m, d)
            .unwrap()
            .format("%Y-%m-%d")
            .to_string();
        assert_eq!(day(y, m, d).to_iso_string(), expected);
    }
}
