use open_dart::types::{BgnDe, Date};

fn ymd(year: u16, month: u8, day: u8) -> Date {
    Date::from_ymd(year, month, day).expect("a day of the calendar")
}

fn today() -> Date {
    let now = chrono::Local::now().date_naive();
    Date::from_civil(
        chrono::Datelike::year(&now),
        chrono::Datelike::month(&now),
        chrono::Datelike::day(&now),
    )
    .expect("the clock shows a day of the calendar")
}

fn days_in_month(year: u16, month: u8) -> u8 {
    match month {
        4 | 6 | 9 | 11 => 30,
        2 if year % 4 == 0 && (year % 100 != 0 || year % 400 == 0) => 29,
        2 => 28,
        _ => 31,
    }
}

#[test]
fn date_try_new_with_valid_date_should_succeed() {
    let expected_date = chrono::NaiveDate::from_ymd_opt(2021, 1, 1).expect("failed to create NaiveDate");
    let date = ymd(2021, 1, 1);
    assert_eq!(date.to_string(), expected_date.to_string());
    assert_eq!((date.year(), date.month(), date.day()), (2021, 1, 1));
}

#[test]
fn from_str_with_valid_date_should_succeed() {
    let date = Date::from_str("20210101").expect("failed to create Date");
    assert_eq!(date, ymd(2021, 1, 1));
}

#[test]
fn from_str_with_invalid_date_should_fail() {
    let date = Date::from_str("20231232");
    assert!(date.is_err());
}

#[test]
fn a_date_is_written_in_eight_digits() {
    assert_eq!(ymd(2021, 1, 1).as_wire(), "20210101");
    assert_eq!(ymd(2021, 12, 31).as_wire(), "20211231");
    assert_eq!(ymd(987, 6, 5).as_wire(), "09870605");
    assert_eq!(ymd(0, 1, 1).as_wire(), "00000101");
    assert_eq!(ymd(9999, 12, 31).as_wire(), "99991231");
    assert_eq!(ymd(987, 6, 5).to_string(), "0987-06-05");
}

#[test]
fn a_date_is_read_from_eight_digits_only() {
    for text in ["", "2021011", "202101011", "2021-01-01", "2021 1 1", "+2021011", "2021011x", "２０２１０１０１", "20210100", "20210001", "20211301", "20210132", "20210431", "20210229", "19000229", "21000229"] {
        let error = Date::from_str(text).expect_err("no date");
        assert_eq!(error.value, text);
        assert_eq!(error.message, "date must be a calendar day in the form YYYYMMDD");
    }
    for text in ["20200229", "20000229", "00000229", "20210228", "20210430", "99991231"] {
        assert_eq!(Date::from_str(text).expect("a date").as_wire(), text);
    }
}

#[test]
fn the_calendar_is_the_proleptic_gregorian_one() {
    for year in [0u16, 1, 4, 100, 400, 1582, 1899, 1900, 1999, 2000, 2023, 2024, 2100, 9999] {
        for month in 0..=13u8 {
            for day in 0..=32u8 {
                let expected = 1 <= month && month <= 12 && 1 <= day && day <= days_in_month(year, month);
                let date = Date::from_ymd(year, month, day);
                assert_eq!(date.is_some(), expected, "{}-{}-{}", year, month, day);
                assert_eq!(
                    date.is_some(),
                    chrono::NaiveDate::from_ymd_opt(year as i32, month as u32, day as u32).is_some()
                );
                if let Some(date) = date {
                    assert_eq!(Date::from_str(&date.as_wire()), Ok(date));
                    assert_eq!(Date::from_iso(&date.to_string()), Ok(date));
                    assert_eq!(
                        date.as_wire(),
                        format!("{:04}{:02}{:02}", year, month, day)
                    );
                }
            }
        }
    }
    assert!(Date::from_ymd(10000, 1, 1).is_none());
    assert!(Date::from_ymd(65535, 1, 1).is_none());
    assert!(Date::from_ymd(2021, 255, 1).is_none());
}

#[test]
fn dates_are_ordered_by_the_calendar() {
    let days = [ymd(1999, 12, 31), ymd(2000, 1, 1), ymd(2000, 1, 2), ymd(2000, 2, 1), ymd(2001, 1, 1)];
    for (i, a) in days.iter().enumerate() {
        for (j, b) in days.iter().enumerate() {
            assert_eq!(a.is_on_or_before(b), i <= j);
            assert_eq!(a <= b, i <= j);
        }
    }
}

#[test]
fn a_date_with_hyphens_is_read_from_ten_characters_only() {
    assert_eq!(Date::from_iso("2021-01-01"), Ok(ymd(2021, 1, 1)));
    for text in ["", "20210101", "2021-1-1", "2021/01/01", "2021-01-011", "2021-13-01", "1899-12-32", "2021-0a-01", "-021-01-01", "2021-01--1"] {
        let error = Date::from_iso(text).expect_err("no date");
        assert_eq!(error.value, text);
        assert_eq!(error.message, "date must be a calendar day in the form YYYY-MM-DD");
    }
}

#[test]
fn bgn_de_try_new_with_valid_date_should_succeed() {
    let date = ymd(2021, 1, 1);
    let bgn_de = BgnDe::try_new_on(date, &today()).expect("failed to create BgnDe");
    assert_eq!(bgn_de.into_inner(), date);
}

#[test]
fn try_new_with_future_date_should_fail() {
    let date = chrono::Local::now().naive_local() + chrono::Duration::days(1);
    let date = chrono::NaiveDate::from(date);
    let date = ymd(
        chrono::Datelike::year(&date) as u16,
        chrono::Datelike::month(&date) as u8,
        chrono::Datelike::day(&date) as u8,
    );
    let bgn_de = BgnDe::try_new_on(date, &today());
    assert!(bgn_de.is_err());
}

#[test]
fn try_new_with_string_should_succeed() {
    let bgn_de = BgnDe::from_str_on("2021-01-01", &today()).expect("failed to create BgnDe");
    assert_eq!(bgn_de.into_inner(), ymd(2021, 1, 1));
    assert_eq!(bgn_de.as_wire(), "2021-01-01");
    assert_eq!(bgn_de.to_string(), "2021-01-01");
}

#[test]
fn bgn_de_is_judged_against_the_given_day() {
    let today = ymd(2024, 2, 29);
    for date in [ymd(2024, 2, 29), ymd(2024, 2, 28), ymd(2024, 1, 31), ymd(2023, 12, 31), ymd(0, 1, 1)] {
        assert_eq!(BgnDe::try_new_on(date, &today).expect("not after today").into_inner(), date);
    }
    for date in [ymd(2024, 3, 1), ymd(2025, 1, 1), ymd(9999, 12, 31)] {
        let error = BgnDe::try_new_on(date, &today).expect_err("after today");
        assert_eq!(error.value, date.to_string());
        assert_eq!(error.message, "date must not be after today");
    }
}

#[test]
fn bgn_de_rejects_what_is_no_date() {
    for text in ["1899-12-32", "2021-13-01", "20210101", ""] {
        let error = BgnDe::from_str_on(text, &today()).expect_err("no date");
        assert_eq!(error.value, text);
        assert_eq!(error.message, "date must be a calendar day in the form YYYY-MM-DD");
    }
    let day = ymd(2024, 2, 29);
    assert_eq!(BgnDe::from_str_on("2024-02-29", &day).expect("today").into_inner(), day);
    assert_eq!(BgnDe::from_str_on("2024-02-28", &day).expect("before").to_string(), "2024-02-28");
    let error = BgnDe::from_str_on("2024-03-01", &day).expect_err("after today");
    assert_eq!(error.value, "2024-03-01");
    assert_eq!(error.message, "date must not be after today");
}

#[test]
fn eight_digits_are_read_as_chrono_reads_them() {
    let mut texts = Vec::new();
    for year in ["0000", "0001", "0400", "1900", "1999", "2000", "2020", "2021", "9999"] {
        for month in ["00", "01", "02", "04", "09", "11", "12", "13", "99"] {
            for day in ["00", "01", "28", "29", "30", "31", "32", "99"] {
                texts.push(format!("{}{}{}", year, month, day));
            }
        }
    }
    for text in texts {
        let expected = chrono::NaiveDate::parse_from_str(&text, "%Y%m%d").ok();
        let got = Date::from_str(&text).ok();
        assert_eq!(got.is_some(), expected.is_some(), "{}", text);
        if let (Some(got), Some(expected)) = (got, expected) {
            assert_eq!(got.to_string(), expected.to_string());
            assert_eq!(got.as_wire(), expected.format("%Y%m%d").to_string());
        }
    }
}

#[test]
fn a_clock_reading_is_a_date_only_within_the_calendar() {
    assert_eq!(Date::from_civil(2024, 2, 29), Some(ymd(2024, 2, 29)));
    assert_eq!(Date::from_civil(0, 1, 1), Some(ymd(0, 1, 1)));
    assert_eq!(Date::from_civil(9999, 12, 31), Some(ymd(9999, 12, 31)));
    for (year, month, day) in [
        (-1, 1, 1),
        (10000, 1, 1),
        (i32::MIN, 1, 1),
        (i32::MAX, 12, 31),
        (2023, 2, 29),
        (2024, 0, 1),
        (2024, 13, 1),
        (2024, 1, 0),
        (2024, 1, 32),
        (2024, 257, 1),
        (2024, 1, 257),
        (2024, u32::MAX, 1),
        (2024, 1, u32::MAX),
        (65536 + 2024, 1, 1),
    ] {
        assert_eq!(Date::from_civil(year, month, day), None, "{}-{}-{}", year, month, day);
    }
}
