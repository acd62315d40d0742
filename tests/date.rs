use ilias_upload::date::{lookup_month, parse_date, parse_local_date, DateParseError, WallClock};

fn clock(year: i32, month: u32, day: u32, hour: u32, minute: u32, second: u32) -> WallClock {
    WallClock { year, month, day, hour, minute, second }
}

fn now() -> WallClock {
    clock(2024, 6, 15, 10, 0, 0)
}

#[test]
fn today_in_german_and_english() {
    assert_eq!(parse_date("Heute, 14:30:00", &now()), Ok(clock(2024, 6, 15, 14, 30, 0)));
    assert_eq!(parse_date("Today, 14:30:00", &now()), Ok(clock(2024, 6, 15, 14, 30, 0)));
}

#[test]
fn yesterday_and_tomorrow() {
    assert_eq!(parse_date("Gestern, 09:00:00", &now()), Ok(clock(2024, 6, 14, 9, 0, 0)));
    assert_eq!(parse_date("Yesterday, 09:00:00", &now()), Ok(clock(2024, 6, 14, 9, 0, 0)));
    assert_eq!(parse_date("Morgen, 23:59:59", &now()), Ok(clock(2024, 6, 16, 23, 59, 59)));
    assert_eq!(parse_date("Tomorrow, 00:00:00", &now()), Ok(clock(2024, 6, 16, 0, 0, 0)));
}

#[test]
fn day_shift_crosses_month_and_year() {
    let march_first = clock(2024, 3, 1, 8, 0, 0);
    assert_eq!(parse_date("Gestern, 12:00:00", &march_first), Ok(clock(2024, 2, 29, 12, 0, 0)));
    let new_year_eve = clock(2023, 12, 31, 8, 0, 0);
    assert_eq!(parse_date("Morgen, 12:00:00", &new_year_eve), Ok(clock(2024, 1, 1, 12, 0, 0)));
}

#[test]
fn calendar_dates() {
    assert_eq!(parse_date("5. Apr 2023, 12:00:00", &now()), Ok(clock(2023, 4, 5, 12, 0, 0)));
    assert_eq!(parse_date("5. Mai 2023, 08:15:00", &now()), Ok(clock(2023, 5, 5, 8, 15, 0)));
    assert_eq!(parse_date("17. Mär 2022, 01:02:03", &now()), Ok(clock(2022, 3, 17, 1, 2, 3)));
    assert_eq!(parse_date("1. Jul 2021, 00:00:00", &now()), Ok(clock(2021, 7, 1, 0, 0, 0)));
    assert_eq!(parse_date("31. Dec 2021, 18:00:00", &now()), Ok(clock(2021, 12, 31, 18, 0, 0)));
}

#[test]
fn surrounding_white_space_is_ignored() {
    assert_eq!(parse_date("  Heute ,   14:30:00  ", &now()), Ok(clock(2024, 6, 15, 14, 30, 0)));
}

#[test]
fn unknown_month_fails() {
    assert_eq!(parse_date("5. Foo 2023, 12:00:00", &now()), Err(DateParseError::UnknownMonth));
}

#[test]
fn missing_comma_fails() {
    assert_eq!(parse_date("Heute 14:30:00", &now()), Err(DateParseError::MissingSeparator));
}

#[test]
fn bad_time_fails() {
    assert_eq!(parse_date("Heute, 25:00:00", &now()), Err(DateParseError::InvalidTime));
    assert_eq!(parse_date("Heute, noon", &now()), Err(DateParseError::InvalidTime));
}

#[test]
fn bad_day_format_fails() {
    assert_eq!(parse_date("Someday, 12:00:00", &now()), Err(DateParseError::UnknownDateFormat));
    assert_eq!(parse_date("5 Apr 2023, 12:00:00", &now()), Err(DateParseError::UnknownDateFormat));
    assert_eq!(parse_date("5. Apr 20x3, 12:00:00", &now()), Err(DateParseError::UnknownDateFormat));
}

#[test]
fn out_of_range_numbers_fail() {
    assert_eq!(
        parse_date("99999999999. Apr 2023, 12:00:00", &now()),
        Err(DateParseError::NumberOutOfRange)
    );
    assert_eq!(
        parse_date("5. Apr 99999999999, 12:00:00", &now()),
        Err(DateParseError::NumberOutOfRange)
    );
}

#[test]
fn impossible_day_fails() {
    assert_eq!(parse_date("31. Feb 2023, 10:00:00", &now()), Err(DateParseError::InvalidDate));
    assert_eq!(parse_date("29. Feb 2023, 10:00:00", &now()), Err(DateParseError::InvalidDate));
    assert_eq!(parse_date("29. Feb 2024, 10:00:00", &now()), Ok(clock(2024, 2, 29, 10, 0, 0)));
}

#[test]
fn shift_past_last_date_fails() {
    let last = clock(262142, 12, 31, 0, 0, 0);
    assert_eq!(parse_date("Morgen, 10:00:00", &last), Err(DateParseError::DateOutOfRange));
    let first = clock(-262143, 1, 1, 0, 0, 0);
    assert_eq!(parse_date("Gestern, 10:00:00", &first), Err(DateParseError::DateOutOfRange));
}

#[test]
fn local_date_agrees_or_reports_gap() {
    let r = parse_local_date("5. Apr 2023, 12:00:00", &now());
    assert!(r == Ok(clock(2023, 4, 5, 12, 0, 0)) || r == Err(DateParseError::NonexistentLocalTime));
    assert_eq!(parse_local_date("5. Foo 2023, 12:00:00", &now()), Err(DateParseError::UnknownMonth));
}

#[test]
fn month_table() {
    assert_eq!(lookup_month("Jan"), Some(1));
    assert_eq!(lookup_month("Okt"), Some(10));
    assert_eq!(lookup_month("Oct"), Some(10));
    assert_eq!(lookup_month("Dez"), Some(12));
    assert_eq!(lookup_month("apr"), None);
}

#[test]
fn wall_clock_order() {
    assert!(clock(2024, 1, 1, 0, 0, 0).is_before(&clock(2024, 1, 1, 0, 0, 1)));
    assert!(!clock(2024, 1, 1, 0, 0, 1).is_before(&clock(2024, 1, 1, 0, 0, 1)));
    assert!(clock(2023, 12, 31, 23, 59, 59).is_before(&clock(2024, 1, 1, 0, 0, 0)));
}
