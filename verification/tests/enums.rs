use open_dart::types::{
    CorpCls, FsDiv, PblntfDetailTy, PblntfTy, ReprtCode, SjDiv, Sort, SortMth, YesNo,
};

#[test]
fn corp_cls_display() {
    assert_eq!(CorpCls::Y.to_string(), "Y");
}

#[test]
fn fs_div_display() {
    assert_eq!(FsDiv::OFS.to_string(), "OFS");
}

#[test]
fn pblntf_ty_display() {
    assert_eq!(PblntfTy::F.to_string(), "F");
}

#[test]
fn reprt_code_display() {
    assert_eq!(ReprtCode::YE.to_string(), "YE");
}

#[test]
fn sj_div_display() {
    assert_eq!(SjDiv::IS.to_string(), "IS");
}

#[test]
fn sort_display() {
    assert_eq!(Sort::Date.to_string(), "Date");
}

#[test]
fn sort_mth_display() {
    assert_eq!(SortMth::Asc.to_string(), "Asc");
}

#[test]
fn yes_no_display() {
    assert_eq!(YesNo::Y.to_string(), "Y");
}

#[test]
fn reprt_code_wire_codes() {
    assert_eq!(ReprtCode::Q1.as_wire(), "11013");
    assert_eq!(ReprtCode::Q2.as_wire(), "11012");
    assert_eq!(ReprtCode::Q3.as_wire(), "11014");
    assert_eq!(ReprtCode::YE.as_wire(), "11011");
    assert_eq!(ReprtCode::from_wire("11013"), Ok(ReprtCode::Q1));
    assert_eq!(ReprtCode::from_wire("11012"), Ok(ReprtCode::Q2));
    assert_eq!(ReprtCode::from_wire("11014"), Ok(ReprtCode::Q3));
    assert_eq!(ReprtCode::from_wire("11011"), Ok(ReprtCode::YE));
    let error = ReprtCode::from_wire("YE").unwrap_err();
    assert_eq!(error.value, "YE");
    assert_eq!(error.message, "reprt_code must be one of 11013, 11012, 11014, 11011");
}

#[test]
fn every_value_is_read_back_from_its_wire_code() {
    for value in [CorpCls::Y, CorpCls::K, CorpCls::N, CorpCls::E] {
        assert_eq!(CorpCls::from_wire(value.as_wire()), Ok(value));
    }
    for value in [FsDiv::OFS, FsDiv::CFS] {
        assert_eq!(FsDiv::from_wire(value.as_wire()), Ok(value));
    }
    for value in [
        PblntfTy::A,
        PblntfTy::B,
        PblntfTy::C,
        PblntfTy::D,
        PblntfTy::E,
        PblntfTy::F,
        PblntfTy::G,
        PblntfTy::H,
        PblntfTy::I,
        PblntfTy::J,
    ] {
        assert_eq!(PblntfTy::from_wire(value.as_wire()), Ok(value));
    }
    for value in [SjDiv::BS, SjDiv::IS, SjDiv::CIS, SjDiv::CF, SjDiv::SCE] {
        assert_eq!(SjDiv::from_wire(value.as_wire()), Ok(value));
    }
    for value in [Sort::Date, Sort::Crp, Sort::Rpt] {
        assert_eq!(Sort::from_wire(value.as_wire()), Ok(value));
    }
    for value in [SortMth::Asc, SortMth::Desc] {
        assert_eq!(SortMth::from_wire(value.as_wire()), Ok(value));
    }
    for value in [YesNo::Y, YesNo::N] {
        assert_eq!(YesNo::from_wire(value.as_wire()), Ok(value));
    }
}

#[test]
fn wire_codes_are_case_sensitive() {
    assert_eq!(Sort::Date.as_wire(), "date");
    assert_eq!(SortMth::Desc.as_wire(), "desc");
    assert!(Sort::from_wire("Date").is_err());
    assert!(CorpCls::from_wire("y").is_err());
    assert!(CorpCls::from_wire("").is_err());
    assert_eq!(CorpCls::from_wire("X").unwrap_err().message, "corp_cls must be one of Y, K, N, E");
}

#[test]
fn pblntf_detail_ty_display() {
    assert_eq!(PblntfDetailTy::from_wire("F001").unwrap().to_string(), "F001");
}

#[test]
fn pblntf_detail_ty_knows_the_detailed_classes() {
    let codes = [
        "A001", "A002", "A003", "A004", "A005", "B001", "B002", "B003", "C001", "C002", "C003",
        "C004", "C005", "C006", "C007", "C008", "C009", "C010", "C011", "D001", "D002", "D003",
        "D004", "D005", "E001", "E002", "E003", "E004", "E005", "E006", "E007", "E008", "E009",
        "F001", "F002", "F003", "F004", "F005", "G001", "G002", "G003", "H001", "H002", "H003",
        "H004", "H005", "H006", "I001", "I002", "I003", "I004", "I005", "I006", "J001", "J002",
        "J004", "J005", "J006", "J008", "J009",
    ];
    for code in codes {
        let detail = PblntfDetailTy::from_wire(code).expect("a detailed class");
        assert_eq!(detail.as_wire(), code);
        assert!(open_dart::validate::fields::pblntf_detail_ty(code).is_ok());
    }
    let mut known = 0;
    for (letter, class) in [
        ('A', PblntfTy::A),
        ('B', PblntfTy::B),
        ('C', PblntfTy::C),
        ('D', PblntfTy::D),
        ('E', PblntfTy::E),
        ('F', PblntfTy::F),
        ('G', PblntfTy::G),
        ('H', PblntfTy::H),
        ('I', PblntfTy::I),
        ('J', PblntfTy::J),
    ] {
        for number in 0..=255u8 {
            let code = format!("{}{:03}", letter, number);
            let by_parts = PblntfDetailTy::new(class, number);
            let by_code = PblntfDetailTy::from_wire(&code).ok();
            assert_eq!(by_parts, by_code, "{}", code);
            assert_eq!(by_parts.is_some(), codes.contains(&code.as_str()), "{}", code);
            if let Some(detail) = by_parts {
                known += 1;
                assert_eq!(detail.class(), class);
                assert_eq!(detail.number(), number);
            }
        }
    }
    assert_eq!(known, 60);
}

#[test]
fn pblntf_detail_ty_rejects_other_codes() {
    for code in ["", "F", "F01", "F0001", "f001", "K001", "F00a", "J003", "J007", "A000", "A006", "F256", "Ｆ001"] {
        let error = PblntfDetailTy::from_wire(code).expect_err("no detailed class");
        assert_eq!(error.value, code);
        assert_eq!(
            error.message,
            "pblntf_detail_ty must be the letter of a class and a number of that class"
        );
    }
}
