use open_dart::json::{Json, Member};
use open_dart::endpoints::Message;
use open_dart::validate::fields::{
    bsns_year, corp_cls, corp_code, fs_div, optional_corp_cls, optional_corp_code,
    optional_pblntf_detail_ty, optional_pblntf_ty, optional_sort, optional_sort_mth, optional_yes_no,
    optional_yyyymmdd, pblntf_detail_ty, pblntf_ty, reprt_code, sort, sort_mth, yes_no, yyyymmdd,
};
use open_dart::validate::utils::{check_string_length, contains, is_digit, FieldError};
use open_dart::validate::{digit, string_length};

fn text(value: &str) -> Json {
    Json::Text(value.to_string())
}

fn number(value: &str) -> Json {
    Json::Number(value.to_string())
}

fn error(code: &str, params: Vec<(&str, Json)>) -> FieldError {
    FieldError {
        code: code.to_string(),
        params: params
            .into_iter()
            .map(|(name, value)| Member { name: name.to_string(), value })
            .collect(),
    }
}

#[test]
fn can_validate_status_ok() {
    let message = Message {
        status: "000".into(),
        message: "hello".into(),
    };
    assert!(message.validate().is_ok());
}

#[test]
fn can_fail_validate_status_known() {
    let message = Message {
        status: "010".into(),
        message: "hello".into(),
    };
    assert!(message.validate().is_err());
}

#[test]
fn can_fail_validate_status_unknown() {
    let message = Message {
        status: "999".into(),
        message: "hello".into(),
    };
    assert!(message.validate().is_err());
}

#[test]
fn the_catalogue_tells_failures_from_unknown_statuses() {
    let message = |status: &str| Message { status: status.to_string(), message: "m".to_string() };
    for status in ["000", "013"] {
        assert_eq!(message(status).validate(), Ok(()));
    }
    for status in ["010", "011", "012", "014", "020", "021", "100", "101", "800", "900", "901"] {
        assert_eq!(
            message(status).validate(),
            Err(error("error status received from OpenDart API", vec![]))
        );
    }
    for status in ["", "0", "001", "999", "0000", " 000", "OK"] {
        assert_eq!(
            message(status).validate(),
            Err(error("unknown status received from OpenDart API", vec![]))
        );
    }
    assert_eq!(message("010").to_string(), "status: 010, message: m");
}

#[test]
fn digits_are_checked() {
    assert_eq!(is_digit("0123456789"), Ok(()));
    assert_eq!(is_digit(""), Ok(()));
    assert_eq!(digit("42"), Ok(()));
    for value in ["12a", " 1", "1.0", "-1", "１２"] {
        assert_eq!(is_digit(value), Err(error("not_digits", vec![("value", text(value))])));
    }
}

#[test]
fn lengths_are_checked_in_bytes() {
    assert_eq!(check_string_length("abcd", 4, 4), Ok(()));
    assert_eq!(check_string_length("가", 3, 3), Ok(()));
    assert_eq!(string_length("", 0, 0), Ok(()));
    assert_eq!(
        check_string_length("abc", 4, 10),
        Err(error("invalid_length", vec![("value", text("abc")), ("min", number("4")), ("max", number("10"))]))
    );
    assert_eq!(
        check_string_length("가", 1, 2),
        Err(error("invalid_length", vec![("value", text("가")), ("min", number("1")), ("max", number("2"))]))
    );
}

#[test]
fn membership_is_checked() {
    assert_eq!(contains(&["a", "b"], "b"), Ok(()));
    assert_eq!(
        contains(&["a", "b"], "c"),
        Err(error(
            "not_in_list",
            vec![("available", Json::Array(vec![text("a"), text("b")])), ("needle", text("c"))]
        ))
    );
    assert_eq!(
        contains(&[], ""),
        Err(error("not_in_list", vec![("available", Json::Array(vec![])), ("needle", text(""))]))
    );
}

#[test]
fn fields_are_checked_against_their_lists() {
    let checks: [(fn(&str) -> Result<(), FieldError>, &[&str], &[&str]); 8] = [
        (corp_cls, &["Y", "K", "N", "E"], &["", "y", "A", "YK"]),
        (fs_div, &["CFS", "OFS"], &["", "cfs", "FS"]),
        (pblntf_ty, &["A", "B", "C", "D", "E", "F", "G", "H", "I", "J"], &["", "K", "a", "AB"]),
        (pblntf_detail_ty, &["A001", "C011", "F001", "J009"], &["", "A006", "J003", "J007", "F1", "f001"]),
        (reprt_code, &["11013", "11012", "11014", "11011"], &["", "11010", "Q1", "1101"]),
        (sort, &["date", "crp", "rpt"], &["", "Date", "name"]),
        (sort_mth, &["asc", "desc"], &["", "ASC", "up"]),
        (yes_no, &["Y", "N"], &["", "y", "yes"]),
    ];
    for (check, good, bad) in checks {
        for value in good {
            assert_eq!(check(value), Ok(()), "{}", value);
        }
        for value in bad {
            let e = check(value).expect_err("not in the list");
            assert_eq!(e.code, "not_in_list");
            assert_eq!(e.params[1], Member { name: "needle".to_string(), value: text(value) });
        }
    }
    assert_eq!(
        yes_no("x"),
        Err(error(
            "not_in_list",
            vec![("available", Json::Array(vec![text("Y"), text("N")])), ("needle", text("x"))]
        ))
    );
}

#[test]
fn absent_fields_pass() {
    let none: Option<String> = None;
    let checks: [fn(&Option<String>) -> Result<(), FieldError>; 8] = [
        optional_corp_cls,
        optional_corp_code,
        optional_pblntf_detail_ty,
        optional_pblntf_ty,
        optional_sort,
        optional_sort_mth,
        optional_yes_no,
        optional_yyyymmdd,
    ];
    for check in checks {
        assert_eq!(check(&none), Ok(()));
        assert!(check(&Some("?".to_string())).is_err());
    }
    assert_eq!(optional_corp_code(&Some("00126380".to_string())), Ok(()));
    assert_eq!(optional_yyyymmdd(&Some("20230101".to_string())), Ok(()));
    assert_eq!(optional_yes_no(&Some("Y".to_string())), Ok(()));
}

#[test]
fn a_company_code_is_eight_digits() {
    assert_eq!(corp_code("00126380"), Ok(()));
    assert_eq!(open_dart::validate::corp_code("00126380"), Ok(()));
    assert_eq!(corp_code("0012638a"), Err(error("not_digits", vec![("value", text("0012638a"))])));
    assert_eq!(
        corp_code("0012638"),
        Err(error("invalid_length", vec![("value", text("0012638")), ("min", number("8")), ("max", number("8"))]))
    );
    assert_eq!(
        corp_code(""),
        Err(error("invalid_length", vec![("value", text("")), ("min", number("8")), ("max", number("8"))]))
    );
}

#[test]
fn a_date_field_is_a_calendar_day() {
    assert_eq!(yyyymmdd("20230101"), Ok(()));
    for value in ["20230132", "2023-01-01", "", "2023011"] {
        assert_eq!(
            yyyymmdd(value),
            Err(error("invalid_date", vec![("value", text(value)), ("format", text("%Y%m%d"))]))
        );
    }
}

#[test]
fn a_business_year_field_is_a_year_of_this_century() {
    for value in ["2000", "2015", "2023", "2100"] {
        assert_eq!(bsns_year(value), Ok(()));
    }
    for value in ["1999", "2101", "0000", "9999"] {
        assert_eq!(bsns_year(value), Err(error("invalid_year", vec![("value", text(value))])));
    }
    assert_eq!(bsns_year("20a3"), Err(error("not_digits", vec![("value", text("20a3"))])));
    assert_eq!(
        bsns_year("202"),
        Err(error("invalid_length", vec![("value", text("202")), ("min", number("4")), ("max", number("4"))]))
    );
    assert_eq!(
        bsns_year("02023"),
        Err(error("invalid_length", vec![("value", text("02023")), ("min", number("4")), ("max", number("4"))]))
    );
}
