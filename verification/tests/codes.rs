use open_dart::types::{BizrNo, CorpCode, Digits, IndustryCode, JurirNo, RceptNo, StockCode};

type FiveDigit = Digits<5, false>;
type EmptyDefault = Digits<6, true>;
type MyDigit = Digits<5, false>;

fn five_digit_mock_default() -> FiveDigit {
    let value = "54321";
    FiveDigit::try_new(value)
        .unwrap_or_else(|_| panic!("failed to create {} with: {}", "FiveDigit", value))
}

#[test]
fn bizr_no_try_new_with_valid_length_and_digits_should_succeed() {
    let bizr_no = BizrNo::try_new("1234567890").expect("failed to create bizr_no");
    assert_eq!(bizr_no.into_inner(), "1234567890");
}

#[test]
fn bizr_no_try_new_with_whitespace_should_fail() {
    let bizr_no = BizrNo::try_new("1234567890 ");
    assert!(bizr_no.is_err());
}

#[test]
fn bizr_no_try_new_with_invalid_length_should_fail() {
    // Invalid length of 7
    let bizr_no = BizrNo::try_new("1234567");
    assert!(bizr_no.is_err());
}

#[test]
fn bizr_no_try_new_with_invalid_char_should_fail() {
    let bizr_no = BizrNo::try_new("00593a");
    assert!(bizr_no.is_err());
}

#[test]
fn corp_code_try_new_with_valid_length_and_digits_should_succeed() {
    let corp_code = CorpCode::try_new("00120182").expect("failed to create corp_code");
    assert_eq!(corp_code.as_ref(), "00120182");
}

#[test]
fn corp_code_try_new_with_whitespace_should_fail() {
    let corp_code = CorpCode::try_new("00120182 ");
    assert!(corp_code.is_err());
}

#[test]
fn corp_code_try_new_with_invalid_length_should_fail() {
    // Invalid length of 7
    let corp_code = CorpCode::try_new("0012018");
    assert!(corp_code.is_err());
}

#[test]
fn corp_code_try_new_with_invalid_char_should_fail() {
    let corp_code = CorpCode::try_new("0012018a");
    assert!(corp_code.is_err());
}

#[test]
fn corp_code_round_trips_through_its_wire_form() {
    for raw in ["00000000", "00126380", "99999999"] {
        let corp_code = CorpCode::try_new(raw).expect("eight digits are a company code");
        assert_eq!(corp_code.as_wire(), raw);
    }
}

#[test]
fn corp_code_rejects_what_is_not_eight_digits() {
    for raw in ["", "1234", "123456789", "1234567x", "١٢٣٤٥٦٧٨", "+1234567", " 1234567"] {
        let error = CorpCode::try_new(raw).expect_err("not a company code");
        assert_eq!(error.value, raw);
    }
    assert_eq!(
        CorpCode::try_new("").unwrap_err().message,
        "Empty value is not allowed for CorpCode"
    );
    assert_eq!(CorpCode::try_new("1234").unwrap_err().message, "CorpCode must be 8 digits");
}

#[test]
fn industry_code_try_new_with_valid_length_and_digits_should_succeed() {
    let industry_code = IndustryCode::try_new("123").expect("failed to create industry_code");
    assert_eq!(industry_code.into_inner(), "123");
}

#[test]
fn industry_code_try_new_with_whitespace_should_fail() {
    let industry_code = IndustryCode::try_new("123 ");
    assert!(industry_code.is_err());
}

#[test]
fn industry_code_try_new_with_invalid_length_should_fail() {
    // Invalid length of 7
    let industry_code = IndustryCode::try_new("1234567");
    assert!(industry_code.is_err());
}

#[test]
fn industry_code_try_new_with_invalid_char_should_fail() {
    let industry_code = IndustryCode::try_new("00593a");
    assert!(industry_code.is_err());
}

#[test]
fn jurir_no_try_new_with_valid_length_and_digits_should_succeed() {
    let jurir_no = JurirNo::try_new("1234567890123").expect("failed to create jurir_no");
    assert_eq!(jurir_no.into_inner(), "1234567890123");
}

#[test]
fn jurir_no_try_new_with_whitespace_should_fail() {
    let jurir_no = JurirNo::try_new("1234567890123 ");
    assert!(jurir_no.is_err());
}

#[test]
fn jurir_no_try_new_with_invalid_length_should_fail() {
    // Invalid length of 7
    let jurir_no = JurirNo::try_new("1234567");
    assert!(jurir_no.is_err());
}

#[test]
fn jurir_no_try_new_with_invalid_char_should_fail() {
    let jurir_no = JurirNo::try_new("00593a");
    assert!(jurir_no.is_err());
}

#[test]
fn rcept_no_is_fourteen_digits() {
    let rcept_no = RceptNo::try_new("20200117000486").expect("failed to create rcept_no");
    assert_eq!(rcept_no.to_string(), "20200117000486");
    let error = RceptNo::try_new("2020011700048").unwrap_err();
    assert_eq!(error.value, "2020011700048");
    assert_eq!(error.message, "rcept_no must be 14 digits");
}

#[test]
fn stock_code_try_new_with_valid_length_and_digits_should_succeed() {
    let stock_code = StockCode::try_new("005930").expect("failed to create stock_code");
    assert_eq!(stock_code.into_inner(), "005930");
}

#[test]
fn stock_code_try_new_with_whitespace_should_fail() {
    let stock_code = StockCode::try_new("005930 ");
    assert!(stock_code.is_err());
}

#[test]
fn stock_code_try_new_with_invalid_length_should_fail() {
    // Invalid length of 7
    let stock_code = StockCode::try_new("0059301");
    assert!(stock_code.is_err());
}

#[test]
fn stock_code_try_new_with_invalid_char_should_fail() {
    let stock_code = StockCode::try_new("00593a");
    assert!(stock_code.is_err());
}

#[test]
fn stock_code_may_be_empty() {
    let stock_code = StockCode::try_new("").expect("an unlisted company has no stock code");
    assert_eq!(stock_code.as_wire(), "");
}

#[test]
fn digits_mock_default() {
    let name = five_digit_mock_default();
    assert_eq!(name.into_inner(), "54321");
}

#[test]
fn digits_text_without_doc_comment_should_not_panic() {
    let my_digit = MyDigit::try_new("12345").expect("failed to create MyText");
    assert_eq!(my_digit.into_inner(), "12345");
}

#[test]
fn try_new_should_not_allow_empty() {
    let _error = FiveDigit::try_new("").expect_err("empty name should not be allowed");
}

#[test]
fn try_new_with_zeros_should_work() {
    let name = FiveDigit::try_new("00000").expect("failed to create name");
    assert_eq!(name.into_inner(), "00000");
}

#[test]
fn digits_try_new_with_whitespace_should_fail() {
    let name = FiveDigit::try_new("12345 ");
    assert!(name.is_err());
}

#[test]
fn digits_try_new_with_invalid_length_should_fail() {
    let name = FiveDigit::try_new("1234");
    assert!(name.is_err());
}

#[test]
fn digits_try_new_with_invalid_char_should_fail() {
    let name = FiveDigit::try_new("1234a");
    assert!(name.is_err());
}

#[test]
fn should_be_able_to_create_default_empty_stock_code() {
    let stock_code = EmptyDefault::default();
    assert_eq!(stock_code.into_inner(), "");
}

#[test]
fn digits_error_names_the_length() {
    let error = FiveDigit::try_new("1234").unwrap_err();
    assert_eq!(error.value, "1234");
    assert_eq!(error.message, "value must be 5 digits");
    let error = Digits::<12, false>::try_new("x").unwrap_err();
    assert_eq!(error.message, "value must be 12 digits");
    let error = FiveDigit::try_new("").unwrap_err();
    assert_eq!(error.message, "Empty value is not allowed");
}

#[test]
fn a_code_of_no_digits_is_empty_only_if_empty_is_allowed() {
    assert!(Digits::<0, false>::try_new("").is_err());
    assert!(Digits::<0, true>::try_new("").is_ok());
}
