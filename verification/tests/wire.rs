use open_dart::json::Json;
use open_dart::types::{
    AccMt, AccountId, AnyText, BgnDe, BizrNo, BsnsYear, CorpCls, CorpCode, CorpName, CrtfcKey, Date,
    Digits, FsDiv, IndustryCode, JurirNo, Number, OptionalNumber, OptionalText, PageCount, PageNo,
    PblntfDetailTy, PblntfTy, ReportNm, ReprtCode, SjDiv, Sort, SortMth, StockCode, Text, YesNo,
};

type FiveDigit = Digits<5, false>;
type Name = Text<false>;
type TestAmount = Number;

fn today() -> Date {
    let now = chrono::Local::now().date_naive();
    Date::from_civil(
        chrono::Datelike::year(&now),
        chrono::Datelike::month(&now),
        chrono::Datelike::day(&now),
    )
    .expect("the clock shows a day of the calendar")
}

fn json(text: &str) -> Json {
    Json::parse(text).expect("failed to parse")
}

#[test]
#[allow(non_snake_case)]
fn PageNo_serialize() {
    let page_no = PageNo::try_new(10).expect("failed to create page_no");
    let serialized = page_no.to_json();
    assert_eq!(serialized, json("10"));
}

#[test]
#[allow(non_snake_case)]
fn PageNo_deserialize() {
    let page_no = PageNo::from_json(&json("10")).expect("failed to deserialize");
    assert_eq!(page_no.into_inner(), 10);
}

#[test]
fn acc_mt_serialize() {
    let acc_mt = AccMt::try_new("01").expect("failed to create acc_mt");
    let serialized = acc_mt.to_json();
    assert_eq!(serialized, json("\"01\""));
}

#[test]
fn acc_mt_deserialize() {
    let acc_mt = AccMt::from_json(&json("\"01\"")).expect("failed to deserialize");
    assert_eq!(acc_mt.into_inner(), "01");
}

#[test]
fn bgn_de_serialize() {
    let date = Date::from_ymd(2021, 1, 1).expect("failed to create NaiveDate");
    let bgn_de = BgnDe::try_new_on(date, &today()).expect("failed to create bgn_de");
    let serialized = bgn_de.to_json();
    assert_eq!(serialized, json("\"2021-01-01\""));
}

#[test]
fn bgn_de_deserialize() {
    let bgn_de =
        BgnDe::from_json_on(&json("\"2021-01-01\""), &today()).expect("failed to deserialize");
    let expected_date = Date::from_ymd(2021, 1, 1).expect("failed to create NaiveDate");
    assert_eq!(bgn_de.into_inner(), expected_date);
}

#[test]
fn bgn_de_deserialize_invalid_date_should_fail() {
    let result = BgnDe::from_json_on(&json("\"1899-12-32\""), &today());
    assert!(result.is_err());
}

#[test]
fn deserialize_invalid_format_should_fail() {
    let result = BgnDe::from_json_on(&json("\"2021-13-01\""), &today()); // Invalid month
    assert!(result.is_err());
}

#[test]
fn bizr_no_serialize() {
    let bizr_no = BizrNo::try_new("1234567890").expect("failed to create bizr_no");
    let serialized = bizr_no.to_json();
    assert_eq!(serialized, json("\"1234567890\""));
}

#[test]
fn bizr_no_deserialize() {
    let bizr_no = BizrNo::from_json(&json("\"1234567890\"")).expect("failed to deserialize");
    assert_eq!(bizr_no.into_inner(), "1234567890");
}

#[test]
fn bsns_year_serialize() {
    let bsns_year = BsnsYear::try_new("2023").expect("failed to create bsns_year");
    let serialized = bsns_year.to_json();
    assert_eq!(serialized, json("\"2023\""));
}

#[test]
fn bsns_year_deserialize() {
    let bsns_year = BsnsYear::from_json(&json("\"2023\"")).expect("failed to deserialize");
    assert_eq!(bsns_year.into_inner(), "2023");
}

#[test]
fn corp_cls_serialize() {
    let corp_cls = CorpCls::Y;
    let serialized = corp_cls.to_json();
    assert_eq!(serialized, json(r#""Y""#));
}

#[test]
fn corp_cls_deserialize() {
    let corp_cls = CorpCls::Y;
    let deserialized = CorpCls::from_json(&json(r#""Y""#)).expect("Failed to deserialize");
    assert_eq!(deserialized, corp_cls);
}

#[test]
fn corp_code_serialize() {
    let corp_code = CorpCode::try_new("00120182").expect("failed to create corp_code");
    let serialized = corp_code.to_json();
    assert_eq!(serialized, json("\"00120182\""));
}

#[test]
fn corp_code_deserialize() {
    let corp_code = CorpCode::from_json(&json("\"00120182\"")).expect("failed to deserialize");
    assert_eq!(corp_code.as_ref(), "00120182");
}

#[test]
fn corp_name_serialize() {
    let corp_name = CorpName::try_new("NH투자증권").expect("failed to create corp_name");
    let serialized = corp_name.to_json();
    assert_eq!(serialized, json("\"NH투자증권\""));
}

#[test]
fn corp_name_deserialize() {
    let corp_name = CorpName::from_json(&json("\"NH투자증권\"")).expect("failed to deserialize");
    assert_eq!(corp_name.into_inner(), "NH투자증권");
}

#[test]
fn date_serialize() {
    let date = Date::from_ymd(2021, 1, 1).expect("failed to create NaiveDate");
    let serialized = date.to_json();
    assert_eq!(serialized, json("\"20210101\""));
}

#[test]
fn date_deserialize() {
    let date = Date::from_json(&json("\"20210101\"")).expect("failed to deserialize");
    let expected_date = Date::from_ymd(2021, 1, 1).expect("failed to create NaiveDate");
    assert_eq!(date, expected_date);
}

#[test]
fn date_deserialize_invalid_date_should_fail() {
    let result = Date::from_json(&json("\"18991232\""));
    assert!(result.is_err());
}

#[test]
fn digits_serialize() {
    let name = FiveDigit::try_new("12345").expect("failed to create name");
    let serialized = name.to_json();
    assert_eq!(serialized, json("\"12345\""));
}

#[test]
fn digits_deserialize() {
    let name = FiveDigit::from_json(&json("\"12345\"")).expect("failed to deserialize");
    assert_eq!(name.into_inner(), "12345");
}

#[test]
fn fs_div_serialize() {
    let fs_div = FsDiv::OFS;
    let serialized = fs_div.to_json();
    assert_eq!(serialized, json(r#""OFS""#));
}

#[test]
fn fs_div_deserialize() {
    let fs_div = FsDiv::OFS;
    let deserialized = FsDiv::from_json(&json(r#""OFS""#)).expect("Failed to deserialize");
    assert_eq!(deserialized, fs_div);
}

#[test]
fn industry_code_serialize() {
    let industry_code = IndustryCode::try_new("123").expect("failed to create industry_code");
    let serialized = industry_code.to_json();
    assert_eq!(serialized, json("\"123\""));
}

#[test]
fn industry_code_deserialize() {
    let industry_code = IndustryCode::from_json(&json("\"123\"")).expect("failed to deserialize");
    assert_eq!(industry_code.into_inner(), "123");
}

#[test]
fn jurir_no_serialize() {
    let jurir_no = JurirNo::try_new("1234567890123").expect("failed to create jurir_no");
    let serialized = jurir_no.to_json();
    assert_eq!(serialized, json("\"1234567890123\""));
}

#[test]
fn jurir_no_deserialize() {
    let jurir_no = JurirNo::from_json(&json("\"1234567890123\"")).expect("failed to deserialize");
    assert_eq!(jurir_no.into_inner(), "1234567890123");
}

#[test]
fn mytext_serialize() {
    let name = Name::try_new("My Name").expect("failed to create name");
    let serialized = name.to_json();
    assert_eq!(serialized, json("\"My Name\""));
}

#[test]
fn mytext_deserialize() {
    let name = Name::from_json(&json("\"My Name\"")).expect("failed to deserialize");
    assert_eq!(name.into_inner(), "My Name");
}

#[test]
fn number_serialize() {
    let amount = TestAmount::new(1);
    let serialized = amount.to_json();
    assert_eq!(serialized, json(r#""1""#));
}

#[test]
fn number_deserialize() {
    let amount = TestAmount::new(1);
    let deserialized = TestAmount::from_json(&json(r#""1""#)).expect("Failed to deserialize");
    assert_eq!(deserialized, amount);
}

#[test]
fn empty_string_should_deserialize_none() {
    let amount = OptionalNumber::new(None);
    let deserialized = OptionalNumber::from_json(&json(r#""""#)).expect("Failed to deserialize");
    assert_eq!(deserialized, amount);
}

#[test]
fn page_count_serialize() {
    let page_count = PageCount::try_new(10).expect("failed to create page_count");
    let serialized = page_count.to_json();
    assert_eq!(serialized, json("10"));
}

#[test]
fn page_count_deserialize() {
    let page_count = PageCount::from_json(&json("10")).expect("failed to deserialize");
    assert_eq!(page_count.into_inner(), 10);
}

#[test]
fn page_no_serialize() {
    let page_no = PageNo::try_new(101).expect("failed to create page_no");
    let serialized = page_no.to_json();
    assert_eq!(serialized, json("101"));
}

#[test]
fn page_no_deserialize() {
    let page_no = PageNo::from_json(&json("101")).expect("failed to deserialize");
    assert_eq!(page_no.into_inner(), 101);
}

#[test]
fn pblntf_detail_ty_serialize() {
    let pblntf_detail_ty = PblntfDetailTy::new(PblntfTy::F, 1).expect("a detailed class");
    let serialized = pblntf_detail_ty.to_json();
    assert_eq!(serialized, json(r#""F001""#));
}

#[test]
fn pblntf_detail_ty_deserialize() {
    let pblntf_detail_ty = PblntfDetailTy::new(PblntfTy::F, 1).expect("a detailed class");
    let deserialized =
        PblntfDetailTy::from_json(&json(r#""F001""#)).expect("Failed to deserialize");
    assert_eq!(deserialized, pblntf_detail_ty);
}

#[test]
fn pblntf_ty_serialize() {
    let pblntf_ty = PblntfTy::F;
    let serialized = pblntf_ty.to_json();
    assert_eq!(serialized, json(r#""F""#));
}

#[test]
fn pblntf_ty_deserialize() {
    let pblntf_ty = PblntfTy::F;
    let deserialized = PblntfTy::from_json(&json(r#""F""#)).expect("Failed to deserialize");
    assert_eq!(deserialized, pblntf_ty);
}

#[test]
fn report_nm_serialize() {
    let report_nm = ReportNm::try_new("증권발행실적보고서").expect("failed to create report_nm");
    let serialized = report_nm.to_json();
    assert_eq!(serialized, json("\"증권발행실적보고서\""));
}

#[test]
fn report_nm_deserialize() {
    let report_nm =
        ReportNm::from_json(&json("\"증권발행실적보고서\"")).expect("failed to deserialize");
    assert_eq!(report_nm.into_inner(), "증권발행실적보고서");
}

#[test]
fn reprt_code_serialize() {
    let q1 = ReprtCode::Q1;
    let serialized = q1.to_json();
    assert_eq!(serialized, json(r#""11013""#));

    let q2 = ReprtCode::Q2;
    let serialized = q2.to_json();
    assert_eq!(serialized, json(r#""11012""#));

    let q3 = ReprtCode::Q3;
    let serialized = q3.to_json();
    assert_eq!(serialized, json(r#""11014""#));

    let ye = ReprtCode::YE;
    let serialized = ye.to_json();
    assert_eq!(serialized, json(r#""11011""#));
}

#[test]
fn reprt_code_deserialize() {
    let q1 = ReprtCode::Q1;
    let deserialized = ReprtCode::from_json(&json(r#""11013""#)).expect("Failed to deserialize");
    assert_eq!(deserialized, q1);

    let q2 = ReprtCode::Q2;
    let deserialized = ReprtCode::from_json(&json(r#""11012""#)).expect("Failed to deserialize");
    assert_eq!(deserialized, q2);

    let q3 = ReprtCode::Q3;
    let deserialized = ReprtCode::from_json(&json(r#""11014""#)).expect("Failed to deserialize");
    assert_eq!(deserialized, q3);

    let ye = ReprtCode::YE;
    let deserialized = ReprtCode::from_json(&json(r#""11011""#)).expect("Failed to deserialize");
    assert_eq!(deserialized, ye);
}

#[test]
fn sj_div_serialize() {
    let sj_div = SjDiv::IS;
    let serialized = sj_div.to_json();
    assert_eq!(serialized, json(r#""IS""#));
}

#[test]
fn sj_div_deserialize() {
    let sj_div = SjDiv::IS;
    let deserialized = SjDiv::from_json(&json(r#""IS""#)).expect("Failed to deserialize");
    assert_eq!(deserialized, sj_div);
}

#[test]
fn sort_serialize() {
    let sort = Sort::Date;
    let serialized = sort.to_json();
    assert_eq!(serialized, json(r#""date""#));
}

#[test]
fn sort_deserialize() {
    let deserialized = Sort::from_json(&json(r#""date""#)).expect("Failed to deserialize");
    println!("{:?}", &deserialized);
}

#[test]
fn sort_mth_serialize() {
    let sort = SortMth::Asc;
    let serialized = sort.to_json();
    assert_eq!(serialized, json(r#""asc""#));
}

#[test]
fn sort_mth_deserialize() {
    let deserialized = SortMth::from_json(&json(r#""asc""#)).expect("Failed to deserialize");
    assert_eq!(deserialized, SortMth::Asc);
}

#[test]
fn stock_code_serialize() {
    let stock_code = StockCode::try_new("005930").expect("failed to create stock_code");
    let serialized = stock_code.to_json();
    assert_eq!(serialized, json("\"005930\""));
}

#[test]
fn stock_code_deserialize() {
    let stock_code = StockCode::from_json(&json("\"005930\"")).expect("failed to deserialize");
    assert_eq!(stock_code.into_inner(), "005930");
}

#[test]
fn text_serialize() {
    let name = Name::try_new("My Name").expect("failed to create name");
    let serialized = name.to_json();
    assert_eq!(serialized, json("\"My Name\""));
}

#[test]
fn text_deserialize() {
    let name = Name::from_json(&json("\"My Name\"")).expect("failed to deserialize");
    assert_eq!(name.into_inner(), "My Name");
}

#[test]
fn yes_no_serialize() {
    let yes_no = YesNo::Y;
    let serialized = yes_no.to_json();
    assert_eq!(serialized, json(r#""Y""#));
}

#[test]
fn yes_no_deserialize() {
    let deserialized = YesNo::from_json(&json(r#""Y""#)).expect("Failed to deserialize");
    assert_eq!(deserialized, YesNo::Y);
}

#[test]
fn derive_newtype_works() {
    let my_new_type = AnyText::new("Hello");
    assert_eq!(my_new_type.to_string(), "Hello");
}

#[test]
fn reading_validates_like_the_constructor() {
    let error = CorpCode::from_json(&json("\"1234\"")).unwrap_err();
    assert_eq!(error.value, "1234");
    assert_eq!(error.message, "CorpCode must be 8 digits");
    assert_eq!(
        CorpCode::from_json(&json("\"\"")).unwrap_err().message,
        "Empty value is not allowed for CorpCode"
    );
    assert_eq!(StockCode::from_json(&json("\"\"")).expect("empty is allowed").as_wire(), "");
    assert!(CorpName::from_json(&json("\"\"")).is_err());
    assert!(CrtfcKey::from_json(&json("\"short\"")).is_err());
    assert!(PageCount::from_json(&json("0")).is_err());
    assert!(PageCount::from_json(&json("101")).is_err());
    assert_eq!(PageCount::from_json(&json("100")).expect("in range").into_inner(), 100);
    assert!(PageNo::from_json(&json("0")).is_err());
    assert!(BsnsYear::from_json(&json("\"2014\"")).is_err());
    assert!(CorpCls::from_json(&json("\"X\"")).is_err());
    assert!(Date::from_json(&json("\"20210229\"")).is_err());
}

#[test]
fn reading_rejects_values_of_another_kind() {
    for other in ["null", "1", "true", "[]", "{}"] {
        let error = CorpCode::from_json(&json(other)).unwrap_err();
        assert_eq!(error.value, "");
        assert_eq!(error.message, "a JSON string is expected");
        assert!(CorpCls::from_json(&json(other)).is_err());
        assert!(Date::from_json(&json(other)).is_err());
        assert!(BsnsYear::from_json(&json(other)).is_err());
    }
    for other in ["null", "\"10\"", "true", "[]", "{}"] {
        let error = PageCount::from_json(&json(other)).unwrap_err();
        assert_eq!(error.value, "");
        assert_eq!(error.message, "a JSON number is expected");
        assert!(PageNo::from_json(&json(other)).is_err());
    }
    for other in ["10.0", "-1", "1e2", "65536"] {
        let error = PageCount::from_json(&json(other)).unwrap_err();
        assert_eq!(error.message, "page_count must be between 1 and 100");
    }
    assert_eq!(
        PageNo::from_json(&json("18446744073709551615")).expect("fits").into_inner(),
        u64::MAX
    );
    assert!(PageNo::from_json(&json("18446744073709551616")).is_err());
}

#[test]
fn numbers_are_read_from_strings_and_numbers() {
    for (text, expected) in [
        ("\"1\"", 1i64),
        ("1", 1),
        ("\"-1\"", -1),
        ("-1", -1),
        ("\"+7\"", 7),
        ("\"0\"", 0),
        ("\"-0\"", 0),
        ("\"007\"", 7),
        ("\"9223372036854775807\"", i64::MAX),
        ("\"-9223372036854775808\"", i64::MIN),
        ("-9223372036854775808", i64::MIN),
    ] {
        assert_eq!(Number::from_json(&json(text)), Ok(Number::new(expected)), "{}", text);
        assert_eq!(
            OptionalNumber::from_json(&json(text)),
            Ok(OptionalNumber::new(Some(expected))),
            "{}",
            text
        );
    }
    for (text, value, message) in [
        ("\"\"", "", "cannot parse integer from empty string"),
        ("\"9,999\"", "9,999", "invalid digit found in string"),
        ("\"-\"", "-", "invalid digit found in string"),
        ("\"1.5\"", "1.5", "invalid digit found in string"),
        ("1.5", "1.5", "invalid digit found in string"),
        ("\"9223372036854775808\"", "9223372036854775808", "number too large to fit in target type"),
        ("\"-9223372036854775809\"", "-9223372036854775809", "number too small to fit in target type"),
        ("null", "", "a JSON string or number is expected"),
        ("[1]", "", "a JSON string or number is expected"),
    ] {
        let error = Number::from_json(&json(text)).unwrap_err();
        assert_eq!(error.value, value, "{}", text);
        assert_eq!(error.message, message, "{}", text);
    }
    assert_eq!(OptionalNumber::from_json(&json("null")), Ok(OptionalNumber::new(None)));
    assert!(OptionalNumber::from_json(&json("true")).is_err());
    assert!(OptionalNumber::from_json(&json("\"x\"")).is_err());
}

#[test]
fn numbers_agree_with_the_standard_parser_and_formatter() {
    for text in ["", "-", "+", "0", "-0", "+0", "12", "-12", "+-1", "--1", "9223372036854775807",
        "9223372036854775808", "-9223372036854775808", "-9223372036854775809", "92233720368547758070",
        "1x", "-1x", "9223372036854775808x", "-9223372036854775809x", "99999999999999999999x", " 1", "１"] {
        let value = Json::Text(text.to_string());
        match text.parse::<i64>() {
            Ok(expected) => assert_eq!(Number::from_json(&value), Ok(Number::new(expected)), "{:?}", text),
            Err(e) => {
                assert_eq!(Number::from_json(&value).unwrap_err().message, e.to_string(), "{:?}", text)
            }
        }
    }
    for number in [0i64, 1, -1, 9, 10, -10, 1234567890, i64::MAX, i64::MIN, i64::MIN + 1] {
        assert_eq!(Number::new(number).as_wire(), number.to_string());
        assert_eq!(Number::new(number).to_string(), number.to_string());
        assert_eq!(Number::new(number).to_json(), Json::Text(number.to_string()));
        assert_eq!(Number::new(number).into_inner(), number);
        assert_eq!(OptionalNumber::new(Some(number)).to_string(), format!("{:?}", Some(number)));
        assert_eq!(OptionalNumber::new(Some(number)).to_json(), Json::Text(number.to_string()));
    }
    assert_eq!(OptionalNumber::new(None).to_string(), "None");
    assert_eq!(OptionalNumber::new(None).to_json(), Json::Null);
    assert_eq!(OptionalNumber::new(Some(3)).into_inner(), Some(3));
}

#[test]
fn a_first_day_is_read_against_the_given_day() {
    let day = Date::from_ymd(2024, 2, 29).unwrap();
    let read = BgnDe::from_json_on(&json("\"2024-02-29\""), &day).expect("today");
    assert_eq!(read.to_json(), json("\"2024-02-29\""));
    let error = BgnDe::from_json_on(&json("\"2024-03-01\""), &day).unwrap_err();
    assert_eq!(error.value, "2024-03-01");
    assert_eq!(error.message, "date must not be after today");
    let error = BgnDe::from_json_on(&json("20240229"), &day).unwrap_err();
    assert_eq!(error.value, "");
    assert_eq!(error.message, "a JSON string is expected");
}

#[test]
fn optional_values_are_null_when_absent() {
    assert_eq!(AccountId::new("-표준계정코드 미사용-").to_json(), Json::Null);
    assert_eq!(AccountId::new("ifrs_Assets").to_json(), json("\"ifrs_Assets\""));
    assert_eq!(AccountId::from_json(&json("null")).unwrap().into_inner(), None);
    assert_eq!(
        AccountId::from_json(&json("\"-x\"")).unwrap().into_inner(),
        Some("-x".to_string())
    );
    assert_eq!(AccountId::from_json(&json("1")).unwrap_err().message, "a JSON string or null is expected");
    assert_eq!(OptionalText::new(None).to_json(), Json::Null);
    assert_eq!(OptionalText::new(Some("")).to_json(), json("\"\""));
    assert_eq!(OptionalText::from_json(&json("\"제 11 기말\"")), Ok(OptionalText::new(Some("제 11 기말"))));
    assert_eq!(OptionalText::from_json(&json("null")), Ok(OptionalText::new(None)));
    assert!(OptionalText::from_json(&json("[]")).is_err());
}
