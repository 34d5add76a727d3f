use weather_clock::calendar::{date_text, day_label, label_from_parsed, CalendarDate};

#[test]
fn valid_date_gives_short_weekday() {
    assert_eq!(day_label("2024-01-02"), "Tue");
    assert_eq!(day_label("2024-01-01"), "Mon");
    assert_eq!(day_label("2024-01-07"), "Sun");
    assert_eq!(day_label("2024-02-29"), "Thu");
}

#[test]
fn invalid_date_gives_placeholder() {
    assert_eq!(day_label("not-a-date"), "???");
    assert_eq!(day_label(""), "???");
    assert_eq!(day_label("2024-13-01"), "???");
    assert_eq!(day_label("2023-02-29"), "???");
    assert_eq!(day_label("01/02/2024"), "???");
}

#[test]
fn label_from_parse_outcome() {
    let d = CalendarDate { year: 2024, month: 1, day: 5, weekday: 4 };
    assert_eq!(label_from_parsed(Some(d)), "Fri");
    assert_eq!(label_from_parsed(None), "???");
}

#[test]
fn long_date_text() {
    let d = CalendarDate { year: 2025, month: 1, day: 4, weekday: 5 };
    assert_eq!(date_text(&d), "Saturday, January 4");
    let d = CalendarDate { year: 2024, month: 12, day: 31, weekday: 1 };
    assert_eq!(date_text(&d), "Tuesday, December 31");
}
