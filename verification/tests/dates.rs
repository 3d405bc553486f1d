use comunidad::dates::{age_on, calculate_age, today_date, Date};
use comunidad::utils::{
    format_date, format_optional_date, parse_date, parse_iso_date, truncate_text,
};

#[test]
fn age_on_day_before_birthday() {
    let birth = Date { year: 2000, month: 3, day: 15 };
    let today = Date { year: 2024, month: 3, day: 14 };
    assert_eq!(age_on(&birth, &today), 23);
}

#[test]
fn age_on_birthday_and_after() {
    let birth = Date { year: 2000, month: 3, day: 15 };
    assert_eq!(age_on(&birth, &Date { year: 2024, month: 3, day: 15 }), 24);
    assert_eq!(age_on(&birth, &Date { year: 2024, month: 3, day: 16 }), 24);
    assert_eq!(age_on(&birth, &Date { year: 2025, month: 1, day: 1 }), 24);
}

#[test]
fn age_on_month_boundary() {
    let birth = Date { year: 2000, month: 6, day: 1 };
    assert_eq!(age_on(&birth, &Date { year: 2024, month: 5, day: 31 }), 23);
    assert_eq!(age_on(&birth, &Date { year: 2024, month: 6, day: 1 }), 24);
}

#[test]
fn calculate_age_agrees_with_clock() {
    let birth = Date { year: 1950, month: 1, day: 1 };
    let today = today_date();
    assert_eq!(calculate_age(&birth), age_on(&birth, &today));
    assert!(calculate_age(&birth) >= 74);
}

#[test]
fn parse_date_reads_both_shapes() {
    assert_eq!(
        parse_date("15/03/2000"),
        Some(Date { year: 2000, month: 3, day: 15 })
    );
    assert_eq!(
        parse_date("2000-03-15"),
        Some(Date { year: 2000, month: 3, day: 15 })
    );
}

#[test]
fn parse_date_rejects_unreal_days() {
    assert_eq!(parse_date("31/02/2001"), None);
    assert_eq!(parse_date("2001-02-29"), None);
    assert_eq!(parse_date("00/01/2001"), None);
    assert_eq!(parse_date("15/13/2001"), None);
}

#[test]
fn parse_date_requires_padded_digits() {
    assert_eq!(parse_date("2000-3-15"), None);
    assert_eq!(parse_date("1/1/2000"), None);
    assert_eq!(parse_date("not a date"), None);
    assert_eq!(parse_date(""), None);
}

#[test]
fn parse_date_handles_leap_years() {
    assert_eq!(
        parse_date("2000-02-29"),
        Some(Date { year: 2000, month: 2, day: 29 })
    );
    assert_eq!(parse_date("1900-02-29"), None);
    assert_eq!(
        parse_date("2024-02-29"),
        Some(Date { year: 2024, month: 2, day: 29 })
    );
}

#[test]
fn parse_iso_date_reads_only_iso() {
    assert_eq!(
        parse_iso_date("2000-03-15"),
        Some(Date { year: 2000, month: 3, day: 15 })
    );
    assert_eq!(parse_iso_date("15/03/2000"), None);
}

#[test]
fn format_date_zero_pads() {
    assert_eq!(format_date(&Date { year: 2001, month: 3, day: 5 }), "05/03/2001");
    assert_eq!(format_date(&Date { year: 30, month: 12, day: 25 }), "25/12/0030");
}

#[test]
fn format_optional_date_falls_back() {
    assert_eq!(
        format_optional_date(&Some(Date { year: 2001, month: 3, day: 5 })),
        "05/03/2001"
    );
    assert_eq!(format_optional_date(&None), "N/A");
}

#[test]
fn format_then_parse_round_trips() {
    let d = Date { year: 1987, month: 11, day: 2 };
    assert_eq!(parse_date(&format_date(&d)), Some(d));
}

#[test]
fn truncate_text_keeps_short_text() {
    assert_eq!(truncate_text("hello", 10), "hello");
    assert_eq!(truncate_text("hello", 5), "hello");
}

#[test]
fn truncate_text_shortens_with_ellipsis() {
    assert_eq!(truncate_text("hello world", 8), "hello...");
    assert_eq!(truncate_text("abcdef", 3), "...");
}
