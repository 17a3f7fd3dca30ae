use chrono::{Datelike, Local, NaiveDate, TimeZone};
use clara::due_date::{
    civil_seconds_of, due_date_outcome, first_date, parse_due_date, read_dated, read_due_date,
    read_undated, with_year, CalendarDate, LocalMoment,
};

fn end_of_day(year: i32, month: u32, day: u32) -> i64 {
    let time = NaiveDate::from_ymd_opt(year, month, day).unwrap().and_hms_opt(23, 59, 59).unwrap();
    Local.from_local_datetime(&time).single().unwrap().timestamp()
}

#[test]
fn iso_date_is_the_end_of_that_day() {
    assert_eq!(parse_due_date("2025-08-10"), Ok(end_of_day(2025, 8, 10)));
}

#[test]
fn us_date_is_the_end_of_that_day() {
    assert_eq!(parse_due_date("08/10/2025"), Ok(end_of_day(2025, 8, 10)));
}

#[test]
fn short_date_is_a_day_of_the_current_year() {
    let year = Local::now().year();
    assert_eq!(parse_due_date("08-10"), Ok(end_of_day(year, 8, 10)));
}

#[test]
fn unreadable_date_names_the_notations() {
    assert_eq!(
        parse_due_date("tomorrow"),
        Err("Invalid date format: tomorrow. Use YYYY-MM-DD, MM/DD/YYYY, or MM-DD".to_string())
    );
    assert_eq!(
        parse_due_date("2025-02-30"),
        Err("Invalid date format: 2025-02-30. Use YYYY-MM-DD, MM/DD/YYYY, or MM-DD".to_string())
    );
}

#[test]
fn notations_are_tried_in_order() {
    let date = CalendarDate { year: 2025, month: 8, day: 10 };
    assert_eq!(read_due_date("2025-08-10", 1999), Some(date));
    assert_eq!(read_due_date("08/10/2025", 1999), Some(date));
    assert_eq!(read_due_date("08-10", 2025), Some(date));
    assert_eq!(read_due_date("02-29", 2024), Some(CalendarDate { year: 2024, month: 2, day: 29 }));
    assert_eq!(read_due_date("02-29", 2025), None);
    assert_eq!(read_due_date("soon", 2025), None);
}

#[test]
fn year_is_written_in_front() {
    assert_eq!(with_year(2025, "08-10"), "2025-08-10");
    assert_eq!(with_year(-44, "03-15"), "-44-03-15");
    assert_eq!(with_year(0, ""), "0-");
    assert_eq!(with_year(i32::MIN, "x"), "-2147483648-x");
}

#[test]
fn outcome_follows_what_the_machine_answered() {
    let date = Some(CalendarDate { year: 2025, month: 8, day: 10 });
    assert_eq!(
        due_date_outcome("2025-08-10", date, LocalMoment::At { seconds: 42, offset: 7 }),
        Ok(42)
    );
    assert_eq!(
        due_date_outcome("2025-08-10", date, LocalMoment::Unmapped),
        Err("Invalid date conversion".to_string())
    );
    assert_eq!(
        due_date_outcome("2025-08-10", date, LocalMoment::Invalid),
        Err("Invalid date".to_string())
    );
    assert_eq!(
        due_date_outcome("x", None, LocalMoment::At { seconds: 42, offset: 0 }),
        Err("Invalid date format: x. Use YYYY-MM-DD, MM/DD/YYYY, or MM-DD".to_string())
    );
}

#[test]
fn first_reading_that_found_a_date_wins() {
    let a = CalendarDate { year: 2025, month: 8, day: 10 };
    let b = CalendarDate { year: 2024, month: 1, day: 2 };
    assert_eq!(first_date(Some(a), Some(b)), Some(a));
    assert_eq!(first_date(Some(a), None), Some(a));
    assert_eq!(first_date(None, Some(b)), Some(b));
    assert_eq!(first_date(None, None), None);
}

#[test]
fn dated_and_undated_notations() {
    let date = CalendarDate { year: 2025, month: 8, day: 10 };
    assert_eq!(read_dated("2025-08-10"), Some(date));
    assert_eq!(read_dated("08/10/2025"), Some(date));
    assert_eq!(read_dated("08-10"), None);
    assert_eq!(read_undated("08-10", 2025), Some(date));
    assert_eq!(read_undated("8-10", 2025), Some(date));
    assert_eq!(read_undated("13-10", 2025), None);
}

#[test]
fn end_of_a_day_counted_as_utc() {
    let date = CalendarDate { year: 2025, month: 8, day: 10 };
    assert_eq!(civil_seconds_of(date, 23, 59, 59), 1754870399);
    assert_eq!(civil_seconds_of(date, 0, 0, 0), 1754784000);
    assert_eq!(civil_seconds_of(CalendarDate { year: 1970, month: 1, day: 1 }, 0, 0, 0), 0);
    assert_eq!(civil_seconds_of(CalendarDate { year: 1969, month: 12, day: 31 }, 23, 59, 59), -1);
    assert_eq!(civil_seconds_of(CalendarDate { year: 2000, month: 3, day: 1 }, 0, 0, 0), 951868800);
    assert_eq!(civil_seconds_of(CalendarDate { year: 1, month: 1, day: 1 }, 0, 0, 0), -62135596800);
}

#[test]
fn seconds_are_counted_as_chrono_counts_them() {
    let years = [
        -262142, -100000, -401, -400, -399, -101, -100, -5, -4, -1, 0, 1, 4, 99, 100, 101, 399,
        400, 401, 1600, 1899, 1900, 1969, 1970, 1999, 2000, 2023, 2024, 2025, 2100, 9999, 262141,
    ];
    for year in years {
        for month in 1..=12u32 {
            for day in [1u32, 2, 15, 28, 29, 30, 31] {
                if let Some(d) = NaiveDate::from_ymd_opt(year, month, day) {
                    for (h, m, s) in [(0u32, 0u32, 0u32), (12, 34, 56), (23, 59, 59)] {
                        let expected = d.and_hms_opt(h, m, s).unwrap().and_utc().timestamp();
                        let ours = civil_seconds_of(CalendarDate { year, month, day }, h, m, s);
                        assert_eq!(ours, expected, "{}-{}-{} {}:{}:{}", year, month, day, h, m, s);
                    }
                }
            }
        }
    }
}

#[test]
fn due_date_is_the_end_of_day_less_the_offset() {
    for text in ["2025-08-10", "01/31/2024", "1999-12-31"] {
        let date = read_dated(text).unwrap();
        let naive = NaiveDate::from_ymd_opt(date.year, date.month, date.day)
            .unwrap()
            .and_hms_opt(23, 59, 59)
            .unwrap();
        let offset = Local.from_local_datetime(&naive).single().unwrap().offset().local_minus_utc();
        assert!(-86_400 < offset && offset < 86_400);
        assert_eq!(
            parse_due_date(text),
            Ok(civil_seconds_of(date, 23, 59, 59) - offset as i64),
            "{}",
            text
        );
    }
}
