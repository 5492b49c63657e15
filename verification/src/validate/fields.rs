//! The checks of the single request fields.

use crate::json::{Json, JsonView};
use crate::text::{all_digits, decimal_value, lemma_scan_digits, parse_unsigned};
use crate::types::date::date_of;
use crate::types::pblntf_detail_ty::{detail_of, PblntfDetailTyView};
use crate::types::{CorpCls, Date, FsDiv, PblntfTy, ReprtCode, Sort, SortMth, YesNo};
use crate::validate::utils::{
    check_string_length, check_view, contains, is_digit, length_error, not_in_list, slices_view,
    value_error, FieldError, FieldErrorView,
};
use vstd::prelude::*;
use vstd::string::*;

verus! {

broadcast use vstd::string::group_string_axioms;

/// What checking `got` against the list `available` gives.
pub open spec fn listed(available: Seq<Seq<char>>, got: Seq<char>) -> Result<(), FieldErrorView> {
    if available.contains(got) {
        Ok(())
    } else {
        Err(not_in_list(available, got))
    }
}

/// What a check gives for a field that may be absent: an absent field
/// passes, a present one is checked.
pub open spec fn optional_check(
    value: Option<String>,
    check: spec_fn(Seq<char>) -> Result<(), FieldErrorView>,
) -> Result<(), FieldErrorView> {
    match value {
        Some(text) => check(text@),
        None => Ok(()),
    }
}

/// The texts that pass the check of `corp_cls` are the wire codes of
/// [`CorpCls`], no more and no fewer.
pub proof fn lemma_corp_cls_codes(code: Seq<char>)
    ensures
        corp_cls_codes().contains(code) <==> CorpCls::of_wire(code) is Some,
{
    assert(corp_cls_codes()[0] == "Y"@);
    assert(corp_cls_codes()[1] == "K"@);
    assert(corp_cls_codes()[2] == "N"@);
    assert(corp_cls_codes()[3] == "E"@);
}

/// The classes of companies.
pub open spec fn corp_cls_codes() -> Seq<Seq<char>> {
    seq![
        "Y"@, "K"@, "N"@, "E"@,
    ]
}

/// Checks that `value` is a class of companies.
pub fn corp_cls(value: &str) -> (r: Result<(), FieldError>)
    ensures
        check_view(r) == listed(corp_cls_codes(), value@),
{
    let available: [&str; 4] = [
        "Y", "K", "N", "E",
    ];
    assert(slices_view(available@) =~= corp_cls_codes());
    contains(&available, value)
}

/// Checks that `value`, if it is there, is a class of companies.
pub fn optional_corp_cls(value: &Option<String>) -> (r: Result<(), FieldError>)
    ensures
        check_view(r) == optional_check(*value, |text: Seq<char>| listed(corp_cls_codes(), text)),
{
    match value {
        Some(text) => corp_cls(text.as_str()),
        None => Ok(()),
    }
}

/// The texts that pass the check of `fs_div` are the wire codes of
/// [`FsDiv`], no more and no fewer.
pub proof fn lemma_fs_div_codes(code: Seq<char>)
    ensures
        fs_div_codes().contains(code) <==> FsDiv::of_wire(code) is Some,
{
    assert(fs_div_codes()[0] == "CFS"@);
    assert(fs_div_codes()[1] == "OFS"@);
}

/// The kinds of financial statements by scope.
pub open spec fn fs_div_codes() -> Seq<Seq<char>> {
    seq![
        "CFS"@, "OFS"@,
    ]
}

/// Checks that `value` is a scope of financial statements.
pub fn fs_div(value: &str) -> (r: Result<(), FieldError>)
    ensures
        check_view(r) == listed(fs_div_codes(), value@),
{
    let available: [&str; 2] = [
        "CFS", "OFS",
    ];
    assert(slices_view(available@) =~= fs_div_codes());
    contains(&available, value)
}

/// The texts that pass the check of `pblntf_ty` are the wire codes of
/// [`PblntfTy`], no more and no fewer.
pub proof fn lemma_pblntf_ty_codes(code: Seq<char>)
    ensures
        pblntf_ty_codes().contains(code) <==> PblntfTy::of_wire(code) is Some,
{
    assert(pblntf_ty_codes()[0] == "A"@);
    assert(pblntf_ty_codes()[1] == "B"@);
    assert(pblntf_ty_codes()[2] == "C"@);
    assert(pblntf_ty_codes()[3] == "D"@);
    assert(pblntf_ty_codes()[4] == "E"@);
    assert(pblntf_ty_codes()[5] == "F"@);
    assert(pblntf_ty_codes()[6] == "G"@);
    assert(pblntf_ty_codes()[7] == "H"@);
    assert(pblntf_ty_codes()[8] == "I"@);
    assert(pblntf_ty_codes()[9] == "J"@);
}

/// The classes of disclosures.
pub open spec fn pblntf_ty_codes() -> Seq<Seq<char>> {
    seq![
        "A"@, "B"@, "C"@, "D"@, "E"@, "F"@, "G"@, "H"@, "I"@, "J"@,
    ]
}

/// Checks that `value` is a class of disclosures.
pub fn pblntf_ty(value: &str) -> (r: Result<(), FieldError>)
    ensures
        check_view(r) == listed(pblntf_ty_codes(), value@),
{
    let available: [&str; 10] = [
        "A", "B", "C", "D", "E", "F", "G", "H", "I", "J",
    ];
    assert(slices_view(available@) =~= pblntf_ty_codes());
    contains(&available, value)
}

/// Checks that `value`, if it is there, is a class of disclosures.
pub fn optional_pblntf_ty(value: &Option<String>) -> (r: Result<(), FieldError>)
    ensures
        check_view(r) == optional_check(*value, |text: Seq<char>| listed(pblntf_ty_codes(), text)),
{
    match value {
        Some(text) => pblntf_ty(text.as_str()),
        None => Ok(()),
    }
}

/// The detailed classes of disclosures.
pub open spec fn pblntf_detail_ty_codes() -> Seq<Seq<char>> {
    seq![
        "A001"@, "A002"@, "A003"@, "A004"@, "A005"@, "B001"@, "B002"@, "B003"@, "C001"@,
        "C002"@, "C003"@, "C004"@, "C005"@, "C006"@, "C007"@, "C008"@, "C009"@, "C010"@,
        "C011"@, "D001"@, "D002"@, "D003"@, "D004"@, "D005"@, "E001"@, "E002"@, "E003"@,
        "E004"@, "E005"@, "E006"@, "E007"@, "E008"@, "E009"@, "F001"@, "F002"@, "F003"@,
        "F004"@, "F005"@, "G001"@, "G002"@, "G003"@, "H001"@, "H002"@, "H003"@, "H004"@,
        "H005"@, "H006"@, "I001"@, "I002"@, "I003"@, "I004"@, "I005"@, "I006"@, "J001"@,
        "J002"@, "J004"@, "J005"@, "J006"@, "J008"@, "J009"@,
    ]
}

/// Checks that `value` is a detailed class of disclosures.
pub fn pblntf_detail_ty(value: &str) -> (r: Result<(), FieldError>)
    ensures
        check_view(r) == listed(pblntf_detail_ty_codes(), value@),
{
    let available: [&str; 60] = [
        "A001", "A002", "A003", "A004", "A005", "B001", "B002", "B003", "C001", "C002", "C003",
        "C004", "C005", "C006", "C007", "C008", "C009", "C010", "C011", "D001", "D002", "D003",
        "D004", "D005", "E001", "E002", "E003", "E004", "E005", "E006", "E007", "E008", "E009",
        "F001", "F002", "F003", "F004", "F005", "G001", "G002", "G003", "H001", "H002", "H003",
        "H004", "H005", "H006", "I001", "I002", "I003", "I004", "I005", "I006", "J001", "J002",
        "J004", "J005", "J006", "J008", "J009",
    ];
    assert(slices_view(available@) =~= pblntf_detail_ty_codes());
    contains(&available, value)
}

/// Checks that `value`, if it is there, is a detailed class of disclosures.
pub fn optional_pblntf_detail_ty(value: &Option<String>) -> (r: Result<(), FieldError>)
    ensures
        check_view(r) == optional_check(
            *value,
            |text: Seq<char>| listed(pblntf_detail_ty_codes(), text),
        ),
{
    match value {
        Some(text) => pblntf_detail_ty(text.as_str()),
        None => Ok(()),
    }
}

/// The texts that pass the check of `reprt_code` are the wire codes of
/// [`ReprtCode`], no more and no fewer.
pub proof fn lemma_reprt_code_codes(code: Seq<char>)
    ensures
        reprt_code_codes().contains(code) <==> ReprtCode::of_wire(code) is Some,
{
    assert(reprt_code_codes()[0] == "11013"@);
    assert(reprt_code_codes()[1] == "11012"@);
    assert(reprt_code_codes()[2] == "11014"@);
    assert(reprt_code_codes()[3] == "11011"@);
}

/// The codes of the kinds of periodic reports.
pub open spec fn reprt_code_codes() -> Seq<Seq<char>> {
    seq![
        "11013"@, "11012"@, "11014"@, "11011"@,
    ]
}

/// Checks that `value` is the code of a kind of periodic report.
pub fn reprt_code(value: &str) -> (r: Result<(), FieldError>)
    ensures
        check_view(r) == listed(reprt_code_codes(), value@),
{
    let available: [&str; 4] = [
        "11013", "11012", "11014", "11011",
    ];
    assert(slices_view(available@) =~= reprt_code_codes());
    contains(&available, value)
}

/// The texts that pass the check of `sort` are the wire codes of
/// [`Sort`], no more and no fewer.
pub proof fn lemma_sort_codes(code: Seq<char>)
    ensures
        sort_codes().contains(code) <==> Sort::of_wire(code) is Some,
{
    assert(sort_codes()[0] == "date"@);
    assert(sort_codes()[1] == "crp"@);
    assert(sort_codes()[2] == "rpt"@);
}

/// The sort keys.
pub open spec fn sort_codes() -> Seq<Seq<char>> {
    seq![
        "date"@, "crp"@, "rpt"@,
    ]
}

/// Checks that `value` is a sort key.
pub fn sort(value: &str) -> (r: Result<(), FieldError>)
    ensures
        check_view(r) == listed(sort_codes(), value@),
{
    let available: [&str; 3] = [
        "date", "crp", "rpt",
    ];
    assert(slices_view(available@) =~= sort_codes());
    contains(&available, value)
}

/// Checks that `value`, if it is there, is a sort key.
pub fn optional_sort(value: &Option<String>) -> (r: Result<(), FieldError>)
    ensures
        check_view(r) == optional_check(*value, |text: Seq<char>| listed(sort_codes(), text)),
{
    match value {
        Some(text) => sort(text.as_str()),
        None => Ok(()),
    }
}

/// The texts that pass the check of `sort_mth` are the wire codes of
/// [`SortMth`], no more and no fewer.
pub proof fn lemma_sort_mth_codes(code: Seq<char>)
    ensures
        sort_mth_codes().contains(code) <==> SortMth::of_wire(code) is Some,
{
    assert(sort_mth_codes()[0] == "asc"@);
    assert(sort_mth_codes()[1] == "desc"@);
}

/// The sort directions.
pub open spec fn sort_mth_codes() -> Seq<Seq<char>> {
    seq![
        "asc"@, "desc"@,
    ]
}

/// Checks that `value` is a sort direction.
pub fn sort_mth(value: &str) -> (r: Result<(), FieldError>)
    ensures
        check_view(r) == listed(sort_mth_codes(), value@),
{
    let available: [&str; 2] = [
        "asc", "desc",
    ];
    assert(slices_view(available@) =~= sort_mth_codes());
    contains(&available, value)
}

/// Checks that `value`, if it is there, is a sort direction.
pub fn optional_sort_mth(value: &Option<String>) -> (r: Result<(), FieldError>)
    ensures
        check_view(r) == optional_check(*value, |text: Seq<char>| listed(sort_mth_codes(), text)),
{
    match value {
        Some(text) => sort_mth(text.as_str()),
        None => Ok(()),
    }
}

/// The texts that pass the check of `yes_no` are the wire codes of
/// [`YesNo`], no more and no fewer.
pub proof fn lemma_yes_no_codes(code: Seq<char>)
    ensures
        yes_no_codes().contains(code) <==> YesNo::of_wire(code) is Some,
{
    assert(yes_no_codes()[0] == "Y"@);
    assert(yes_no_codes()[1] == "N"@);
}

/// The two answers.
pub open spec fn yes_no_codes() -> Seq<Seq<char>> {
    seq![
        "Y"@, "N"@,
    ]
}

/// Checks that `value` is a yes-or-no answer.
pub fn yes_no(value: &str) -> (r: Result<(), FieldError>)
    ensures
        check_view(r) == listed(yes_no_codes(), value@),
{
    let available: [&str; 2] = [
        "Y", "N",
    ];
    assert(slices_view(available@) =~= yes_no_codes());
    contains(&available, value)
}

/// Checks that `value`, if it is there, is a yes-or-no answer.
pub fn optional_yes_no(value: &Option<String>) -> (r: Result<(), FieldError>)
    ensures
        check_view(r) == optional_check(*value, |text: Seq<char>| listed(yes_no_codes(), text)),
{
    match value {
        Some(text) => yes_no(text.as_str()),
        None => Ok(()),
    }
}

/// Every detailed class of the class `A` passes the check of
/// `pblntf_detail_ty`.
proof fn lemma_detail_codes_a(code: Seq<char>, number: int)
    requires
        detail_of(code) == Some(PblntfDetailTyView { group: PblntfTy::A, number }),
    ensures
        pblntf_detail_ty_codes().contains(code),
{
    reveal_strlit("A001");
    reveal_strlit("A002");
    reveal_strlit("A003");
    reveal_strlit("A004");
    reveal_strlit("A005");
    assert(pblntf_detail_ty_codes()[0] == "A001"@);
    if number == 1 {
        assert(code =~= "A001"@);
    }
    assert(pblntf_detail_ty_codes()[1] == "A002"@);
    if number == 2 {
        assert(code =~= "A002"@);
    }
    assert(pblntf_detail_ty_codes()[2] == "A003"@);
    if number == 3 {
        assert(code =~= "A003"@);
    }
    assert(pblntf_detail_ty_codes()[3] == "A004"@);
    if number == 4 {
        assert(code =~= "A004"@);
    }
    assert(pblntf_detail_ty_codes()[4] == "A005"@);
    if number == 5 {
        assert(code =~= "A005"@);
    }
}

/// Every detailed class of the class `B` passes the check of
/// `pblntf_detail_ty`.
proof fn lemma_detail_codes_b(code: Seq<char>, number: int)
    requires
        detail_of(code) == Some(PblntfDetailTyView { group: PblntfTy::B, number }),
    ensures
        pblntf_detail_ty_codes().contains(code),
{
    reveal_strlit("B001");
    reveal_strlit("B002");
    reveal_strlit("B003");
    assert(pblntf_detail_ty_codes()[5] == "B001"@);
    if number == 1 {
        assert(code =~= "B001"@);
    }
    assert(pblntf_detail_ty_codes()[6] == "B002"@);
    if number == 2 {
        assert(code =~= "B002"@);
    }
    assert(pblntf_detail_ty_codes()[7] == "B003"@);
    if number == 3 {
        assert(code =~= "B003"@);
    }
}

/// Every detailed class of the class `C` passes the check of
/// `pblntf_detail_ty`.
proof fn lemma_detail_codes_c(code: Seq<char>, number: int)
    requires
        detail_of(code) == Some(PblntfDetailTyView { group: PblntfTy::C, number }),
    ensures
        pblntf_detail_ty_codes().contains(code),
{
    reveal_strlit("C001");
    reveal_strlit("C002");
    reveal_strlit("C003");
    reveal_strlit("C004");
    reveal_strlit("C005");
    reveal_strlit("C006");
    reveal_strlit("C007");
    reveal_strlit("C008");
    reveal_strlit("C009");
    reveal_strlit("C010");
    reveal_strlit("C011");
    assert(pblntf_detail_ty_codes()[8] == "C001"@);
    if number == 1 {
        assert(code =~= "C001"@);
    }
    assert(pblntf_detail_ty_codes()[9] == "C002"@);
    if number == 2 {
        assert(code =~= "C002"@);
    }
    assert(pblntf_detail_ty_codes()[10] == "C003"@);
    if number == 3 {
        assert(code =~= "C003"@);
    }
    assert(pblntf_detail_ty_codes()[11] == "C004"@);
    if number == 4 {
        assert(code =~= "C004"@);
    }
    assert(pblntf_detail_ty_codes()[12] == "C005"@);
    if number == 5 {
        assert(code =~= "C005"@);
    }
    assert(pblntf_detail_ty_codes()[13] == "C006"@);
    if number == 6 {
        assert(code =~= "C006"@);
    }
    assert(pblntf_detail_ty_codes()[14] == "C007"@);
    if number == 7 {
        assert(code =~= "C007"@);
    }
    assert(pblntf_detail_ty_codes()[15] == "C008"@);
    if number == 8 {
        assert(code =~= "C008"@);
    }
    assert(pblntf_detail_ty_codes()[16] == "C009"@);
    if number == 9 {
        assert(code =~= "C009"@);
    }
    assert(pblntf_detail_ty_codes()[17] == "C010"@);
    if number == 10 {
        assert(code =~= "C010"@);
    }
    assert(pblntf_detail_ty_codes()[18] == "C011"@);
    if number == 11 {
        assert(code =~= "C011"@);
    }
}

/// Every detailed class of the class `D` passes the check of
/// `pblntf_detail_ty`.
proof fn lemma_detail_codes_d(code: Seq<char>, number: int)
    requires
        detail_of(code) == Some(PblntfDetailTyView { group: PblntfTy::D, number }),
    ensures
        pblntf_detail_ty_codes().contains(code),
{
    reveal_strlit("D001");
    reveal_strlit("D002");
    reveal_strlit("D003");
    reveal_strlit("D004");
    reveal_strlit("D005");
    assert(pblntf_detail_ty_codes()[19] == "D001"@);
    if number == 1 {
        assert(code =~= "D001"@);
    }
    assert(pblntf_detail_ty_codes()[20] == "D002"@);
    if number == 2 {
        assert(code =~= "D002"@);
    }
    assert(pblntf_detail_ty_codes()[21] == "D003"@);
    if number == 3 {
        assert(code =~= "D003"@);
    }
    assert(pblntf_detail_ty_codes()[22] == "D004"@);
    if number == 4 {
        assert(code =~= "D004"@);
    }
    assert(pblntf_detail_ty_codes()[23] == "D005"@);
    if number == 5 {
        assert(code =~= "D005"@);
    }
}

/// Every detailed class of the class `E` passes the check of
/// `pblntf_detail_ty`.
proof fn lemma_detail_codes_e(code: Seq<char>, number: int)
    requires
        detail_of(code) == Some(PblntfDetailTyView { group: PblntfTy::E, number }),
    ensures
        pblntf_detail_ty_codes().contains(code),
{
    reveal_strlit("E001");
    reveal_strlit("E002");
    reveal_strlit("E003");
    reveal_strlit("E004");
    reveal_strlit("E005");
    reveal_strlit("E006");
    reveal_strlit("E007");
    reveal_strlit("E008");
    reveal_strlit("E009");
    assert(pblntf_detail_ty_codes()[24] == "E001"@);
    if number == 1 {
        assert(code =~= "E001"@);
    }
    assert(pblntf_detail_ty_codes()[25] == "E002"@);
    if number == 2 {
        assert(code =~= "E002"@);
    }
    assert(pblntf_detail_ty_codes()[26] == "E003"@);
    if number == 3 {
        assert(code =~= "E003"@);
    }
    assert(pblntf_detail_ty_codes()[27] == "E004"@);
    if number == 4 {
        assert(code =~= "E004"@);
    }
    assert(pblntf_detail_ty_codes()[28] == "E005"@);
    if number == 5 {
        assert(code =~= "E005"@);
    }
    assert(pblntf_detail_ty_codes()[29] == "E006"@);
    if number == 6 {
        assert(code =~= "E006"@);
    }
    assert(pblntf_detail_ty_codes()[30] == "E007"@);
    if number == 7 {
        assert(code =~= "E007"@);
    }
    assert(pblntf_detail_ty_codes()[31] == "E008"@);
    if number == 8 {
        assert(code =~= "E008"@);
    }
    assert(pblntf_detail_ty_codes()[32] == "E009"@);
    if number == 9 {
        assert(code =~= "E009"@);
    }
}

/// Every detailed class of the class `F` passes the check of
/// `pblntf_detail_ty`.
proof fn lemma_detail_codes_f(code: Seq<char>, number: int)
    requires
        detail_of(code) == Some(PblntfDetailTyView { group: PblntfTy::F, number }),
    ensures
        pblntf_detail_ty_codes().contains(code),
{
    reveal_strlit("F001");
    reveal_strlit("F002");
    reveal_strlit("F003");
    reveal_strlit("F004");
    reveal_strlit("F005");
    assert(pblntf_detail_ty_codes()[33] == "F001"@);
    if number == 1 {
        assert(code =~= "F001"@);
    }
    assert(pblntf_detail_ty_codes()[34] == "F002"@);
    if number == 2 {
        assert(code =~= "F002"@);
    }
    assert(pblntf_detail_ty_codes()[35] == "F003"@);
    if number == 3 {
        assert(code =~= "F003"@);
    }
    assert(pblntf_detail_ty_codes()[36] == "F004"@);
    if number == 4 {
        assert(code =~= "F004"@);
    }
    assert(pblntf_detail_ty_codes()[37] == "F005"@);
    if number == 5 {
        assert(code =~= "F005"@);
    }
}

/// Every detailed class of the class `G` passes the check of
/// `pblntf_detail_ty`.
proof fn lemma_detail_codes_g(code: Seq<char>, number: int)
    requires
        detail_of(code) == Some(PblntfDetailTyView { group: PblntfTy::G, number }),
    ensures
        pblntf_detail_ty_codes().contains(code),
{
    reveal_strlit("G001");
    reveal_strlit("G002");
    reveal_strlit("G003");
    assert(pblntf_detail_ty_codes()[38] == "G001"@);
    if number == 1 {
        assert(code =~= "G001"@);
    }
    assert(pblntf_detail_ty_codes()[39] == "G002"@);
    if number == 2 {
        assert(code =~= "G002"@);
    }
    assert(pblntf_detail_ty_codes()[40] == "G003"@);
    if number == 3 {
        assert(code =~= "G003"@);
    }
}

/// Every detailed class of the class `H` passes the check of
/// `pblntf_detail_ty`.
proof fn lemma_detail_codes_h(code: Seq<char>, number: int)
    requires
        detail_of(code) == Some(PblntfDetailTyView { group: PblntfTy::H, number }),
    ensures
        pblntf_detail_ty_codes().contains(code),
{
    reveal_strlit("H001");
    reveal_strlit("H002");
    reveal_strlit("H003");
    reveal_strlit("H004");
    reveal_strlit("H005");
    reveal_strlit("H006");
    assert(pblntf_detail_ty_codes()[41] == "H001"@);
    if number == 1 {
        assert(code =~= "H001"@);
    }
    assert(pblntf_detail_ty_codes()[42] == "H002"@);
    if number == 2 {
        assert(code =~= "H002"@);
    }
    assert(pblntf_detail_ty_codes()[43] == "H003"@);
    if number == 3 {
        assert(code =~= "H003"@);
    }
    assert(pblntf_detail_ty_codes()[44] == "H004"@);
    if number == 4 {
        assert(code =~= "H004"@);
    }
    assert(pblntf_detail_ty_codes()[45] == "H005"@);
    if number == 5 {
        assert(code =~= "H005"@);
    }
    assert(pblntf_detail_ty_codes()[46] == "H006"@);
    if number == 6 {
        assert(code =~= "H006"@);
    }
}

/// Every detailed class of the class `I` passes the check of
/// `pblntf_detail_ty`.
proof fn lemma_detail_codes_i(code: Seq<char>, number: int)
    requires
        detail_of(code) == Some(PblntfDetailTyView { group: PblntfTy::I, number }),
    ensures
        pblntf_detail_ty_codes().contains(code),
{
    reveal_strlit("I001");
    reveal_strlit("I002");
    reveal_strlit("I003");
    reveal_strlit("I004");
    reveal_strlit("I005");
    reveal_strlit("I006");
    assert(pblntf_detail_ty_codes()[47] == "I001"@);
    if number == 1 {
        assert(code =~= "I001"@);
    }
    assert(pblntf_detail_ty_codes()[48] == "I002"@);
    if number == 2 {
        assert(code =~= "I002"@);
    }
    assert(pblntf_detail_ty_codes()[49] == "I003"@);
    if number == 3 {
        assert(code =~= "I003"@);
    }
    assert(pblntf_detail_ty_codes()[50] == "I004"@);
    if number == 4 {
        assert(code =~= "I004"@);
    }
    assert(pblntf_detail_ty_codes()[51] == "I005"@);
    if number == 5 {
        assert(code =~= "I005"@);
    }
    assert(pblntf_detail_ty_codes()[52] == "I006"@);
    if number == 6 {
        assert(code =~= "I006"@);
    }
}

/// Every detailed class of the class `J` passes the check of
/// `pblntf_detail_ty`.
proof fn lemma_detail_codes_j(code: Seq<char>, number: int)
    requires
        detail_of(code) == Some(PblntfDetailTyView { group: PblntfTy::J, number }),
    ensures
        pblntf_detail_ty_codes().contains(code),
{
    reveal_strlit("J001");
    reveal_strlit("J002");
    reveal_strlit("J004");
    reveal_strlit("J005");
    reveal_strlit("J006");
    reveal_strlit("J008");
    reveal_strlit("J009");
    assert(pblntf_detail_ty_codes()[53] == "J001"@);
    if number == 1 {
        assert(code =~= "J001"@);
    }
    assert(pblntf_detail_ty_codes()[54] == "J002"@);
    if number == 2 {
        assert(code =~= "J002"@);
    }
    assert(pblntf_detail_ty_codes()[55] == "J004"@);
    if number == 4 {
        assert(code =~= "J004"@);
    }
    assert(pblntf_detail_ty_codes()[56] == "J005"@);
    if number == 5 {
        assert(code =~= "J005"@);
    }
    assert(pblntf_detail_ty_codes()[57] == "J006"@);
    if number == 6 {
        assert(code =~= "J006"@);
    }
    assert(pblntf_detail_ty_codes()[58] == "J008"@);
    if number == 8 {
        assert(code =~= "J008"@);
    }
    assert(pblntf_detail_ty_codes()[59] == "J009"@);
    if number == 9 {
        assert(code =~= "J009"@);
    }
}

/// The texts that pass the check of `pblntf_detail_ty` are the wire
/// codes of [`crate::types::PblntfDetailTy`], no more and no fewer.
#[verifier::rlimit(40)]
pub proof fn lemma_pblntf_detail_ty_codes(code: Seq<char>)
    ensures
        pblntf_detail_ty_codes().contains(code) <==> detail_of(code) is Some,
{
    if pblntf_detail_ty_codes().contains(code) {
        reveal_strlit("A001");
        reveal_strlit("A002");
        reveal_strlit("A003");
        reveal_strlit("A004");
        reveal_strlit("A005");
        reveal_strlit("B001");
        reveal_strlit("B002");
        reveal_strlit("B003");
        reveal_strlit("C001");
        reveal_strlit("C002");
        reveal_strlit("C003");
        reveal_strlit("C004");
        reveal_strlit("C005");
        reveal_strlit("C006");
        reveal_strlit("C007");
        reveal_strlit("C008");
        reveal_strlit("C009");
        reveal_strlit("C010");
        reveal_strlit("C011");
        reveal_strlit("D001");
        reveal_strlit("D002");
        reveal_strlit("D003");
        reveal_strlit("D004");
        reveal_strlit("D005");
        reveal_strlit("E001");
        reveal_strlit("E002");
        reveal_strlit("E003");
        reveal_strlit("E004");
        reveal_strlit("E005");
        reveal_strlit("E006");
        reveal_strlit("E007");
        reveal_strlit("E008");
        reveal_strlit("E009");
        reveal_strlit("F001");
        reveal_strlit("F002");
        reveal_strlit("F003");
        reveal_strlit("F004");
        reveal_strlit("F005");
        reveal_strlit("G001");
        reveal_strlit("G002");
        reveal_strlit("G003");
        reveal_strlit("H001");
        reveal_strlit("H002");
        reveal_strlit("H003");
        reveal_strlit("H004");
        reveal_strlit("H005");
        reveal_strlit("H006");
        reveal_strlit("I001");
        reveal_strlit("I002");
        reveal_strlit("I003");
        reveal_strlit("I004");
        reveal_strlit("I005");
        reveal_strlit("I006");
        reveal_strlit("J001");
        reveal_strlit("J002");
        reveal_strlit("J004");
        reveal_strlit("J005");
        reveal_strlit("J006");
        reveal_strlit("J008");
        reveal_strlit("J009");
        assert(pblntf_detail_ty_codes()[0] == "A001"@);
        assert(detail_of("A001"@) is Some);
        assert(pblntf_detail_ty_codes()[1] == "A002"@);
        assert(detail_of("A002"@) is Some);
        assert(pblntf_detail_ty_codes()[2] == "A003"@);
        assert(detail_of("A003"@) is Some);
        assert(pblntf_detail_ty_codes()[3] == "A004"@);
        assert(detail_of("A004"@) is Some);
        assert(pblntf_detail_ty_codes()[4] == "A005"@);
        assert(detail_of("A005"@) is Some);
        assert(pblntf_detail_ty_codes()[5] == "B001"@);
        assert(detail_of("B001"@) is Some);
        assert(pblntf_detail_ty_codes()[6] == "B002"@);
        assert(detail_of("B002"@) is Some);
        assert(pblntf_detail_ty_codes()[7] == "B003"@);
        assert(detail_of("B003"@) is Some);
        assert(pblntf_detail_ty_codes()[8] == "C001"@);
        assert(detail_of("C001"@) is Some);
        assert(pblntf_detail_ty_codes()[9] == "C002"@);
        assert(detail_of("C002"@) is Some);
        assert(pblntf_detail_ty_codes()[10] == "C003"@);
        assert(detail_of("C003"@) is Some);
        assert(pblntf_detail_ty_codes()[11] == "C004"@);
        assert(detail_of("C004"@) is Some);
        assert(pblntf_detail_ty_codes()[12] == "C005"@);
        assert(detail_of("C005"@) is Some);
        assert(pblntf_detail_ty_codes()[13] == "C006"@);
        assert(detail_of("C006"@) is Some);
        assert(pblntf_detail_ty_codes()[14] == "C007"@);
        assert(detail_of("C007"@) is Some);
        assert(pblntf_detail_ty_codes()[15] == "C008"@);
        assert(detail_of("C008"@) is Some);
        assert(pblntf_detail_ty_codes()[16] == "C009"@);
        assert(detail_of("C009"@) is Some);
        assert(pblntf_detail_ty_codes()[17] == "C010"@);
        assert(detail_of("C010"@) is Some);
        assert(pblntf_detail_ty_codes()[18] == "C011"@);
        assert(detail_of("C011"@) is Some);
        assert(pblntf_detail_ty_codes()[19] == "D001"@);
        assert(detail_of("D001"@) is Some);
        assert(pblntf_detail_ty_codes()[20] == "D002"@);
        assert(detail_of("D002"@) is Some);
        assert(pblntf_detail_ty_codes()[21] == "D003"@);
        assert(detail_of("D003"@) is Some);
        assert(pblntf_detail_ty_codes()[22] == "D004"@);
        assert(detail_of("D004"@) is Some);
        assert(pblntf_detail_ty_codes()[23] == "D005"@);
        assert(detail_of("D005"@) is Some);
        assert(pblntf_detail_ty_codes()[24] == "E001"@);
        assert(detail_of("E001"@) is Some);
        assert(pblntf_detail_ty_codes()[25] == "E002"@);
        assert(detail_of("E002"@) is Some);
        assert(pblntf_detail_ty_codes()[26] == "E003"@);
        assert(detail_of("E003"@) is Some);
        assert(pblntf_detail_ty_codes()[27] == "E004"@);
        assert(detail_of("E004"@) is Some);
        assert(pblntf_detail_ty_codes()[28] == "E005"@);
        assert(detail_of("E005"@) is Some);
        assert(pblntf_detail_ty_codes()[29] == "E006"@);
        assert(detail_of("E006"@) is Some);
        assert(pblntf_detail_ty_codes()[30] == "E007"@);
        assert(detail_of("E007"@) is Some);
        assert(pblntf_detail_ty_codes()[31] == "E008"@);
        assert(detail_of("E008"@) is Some);
        assert(pblntf_detail_ty_codes()[32] == "E009"@);
        assert(detail_of("E009"@) is Some);
        assert(pblntf_detail_ty_codes()[33] == "F001"@);
        assert(detail_of("F001"@) is Some);
        assert(pblntf_detail_ty_codes()[34] == "F002"@);
        assert(detail_of("F002"@) is Some);
        assert(pblntf_detail_ty_codes()[35] == "F003"@);
        assert(detail_of("F003"@) is Some);
        assert(pblntf_detail_ty_codes()[36] == "F004"@);
        assert(detail_of("F004"@) is Some);
        assert(pblntf_detail_ty_codes()[37] == "F005"@);
        assert(detail_of("F005"@) is Some);
        assert(pblntf_detail_ty_codes()[38] == "G001"@);
        assert(detail_of("G001"@) is Some);
        assert(pblntf_detail_ty_codes()[39] == "G002"@);
        assert(detail_of("G002"@) is Some);
        assert(pblntf_detail_ty_codes()[40] == "G003"@);
        assert(detail_of("G003"@) is Some);
        assert(pblntf_detail_ty_codes()[41] == "H001"@);
        assert(detail_of("H001"@) is Some);
        assert(pblntf_detail_ty_codes()[42] == "H002"@);
        assert(detail_of("H002"@) is Some);
        assert(pblntf_detail_ty_codes()[43] == "H003"@);
        assert(detail_of("H003"@) is Some);
        assert(pblntf_detail_ty_codes()[44] == "H004"@);
        assert(detail_of("H004"@) is Some);
        assert(pblntf_detail_ty_codes()[45] == "H005"@);
        assert(detail_of("H005"@) is Some);
        assert(pblntf_detail_ty_codes()[46] == "H006"@);
        assert(detail_of("H006"@) is Some);
        assert(pblntf_detail_ty_codes()[47] == "I001"@);
        assert(detail_of("I001"@) is Some);
        assert(pblntf_detail_ty_codes()[48] == "I002"@);
        assert(detail_of("I002"@) is Some);
        assert(pblntf_detail_ty_codes()[49] == "I003"@);
        assert(detail_of("I003"@) is Some);
        assert(pblntf_detail_ty_codes()[50] == "I004"@);
        assert(detail_of("I004"@) is Some);
        assert(pblntf_detail_ty_codes()[51] == "I005"@);
        assert(detail_of("I005"@) is Some);
        assert(pblntf_detail_ty_codes()[52] == "I006"@);
        assert(detail_of("I006"@) is Some);
        assert(pblntf_detail_ty_codes()[53] == "J001"@);
        assert(detail_of("J001"@) is Some);
        assert(pblntf_detail_ty_codes()[54] == "J002"@);
        assert(detail_of("J002"@) is Some);
        assert(pblntf_detail_ty_codes()[55] == "J004"@);
        assert(detail_of("J004"@) is Some);
        assert(pblntf_detail_ty_codes()[56] == "J005"@);
        assert(detail_of("J005"@) is Some);
        assert(pblntf_detail_ty_codes()[57] == "J006"@);
        assert(detail_of("J006"@) is Some);
        assert(pblntf_detail_ty_codes()[58] == "J008"@);
        assert(detail_of("J008"@) is Some);
        assert(pblntf_detail_ty_codes()[59] == "J009"@);
        assert(detail_of("J009"@) is Some);
    }
    if detail_of(code) is Some {
        let detail = detail_of(code)->0;
        match detail.group {
                PblntfTy::A => lemma_detail_codes_a(code, detail.number),
                PblntfTy::B => lemma_detail_codes_b(code, detail.number),
                PblntfTy::C => lemma_detail_codes_c(code, detail.number),
                PblntfTy::D => lemma_detail_codes_d(code, detail.number),
                PblntfTy::E => lemma_detail_codes_e(code, detail.number),
                PblntfTy::F => lemma_detail_codes_f(code, detail.number),
                PblntfTy::G => lemma_detail_codes_g(code, detail.number),
                PblntfTy::H => lemma_detail_codes_h(code, detail.number),
                PblntfTy::I => lemma_detail_codes_i(code, detail.number),
                PblntfTy::J => lemma_detail_codes_j(code, detail.number),
        }
    }
}

/// The error that reports a text that is no date.

pub open spec fn invalid_date(value: Seq<char>) -> FieldErrorView {
    FieldErrorView {
        code: "invalid_date"@,
        params: seq![("value"@, JsonView::Text(value)), ("format"@, JsonView::Text("%Y%m%d"@))],
    }
}

/// What checking `value` as a date gives.
pub open spec fn yyyymmdd_spec(value: Seq<char>) -> Result<(), FieldErrorView> {
    if date_of(value) is Some {
        Ok(())
    } else {
        Err(invalid_date(value))
    }
}

/// Checks that `value` denotes a date in the form `YYYYMMDD`.
pub fn yyyymmdd(value: &str) -> (r: Result<(), FieldError>)
    ensures
        check_view(r) == yyyymmdd_spec(value@),
{
    match Date::from_str(value) {
        Ok(_) => Ok(()),
        Err(_) => {
            let mut err = FieldError::new("invalid_date");
            err.add_param("value", Json::Text(value.to_owned()));
            err.add_param("format", Json::Text("%Y%m%d".to_owned()));
            assert(err@.params =~= invalid_date(value@).params);
            Err(err)
        },
    }
}

/// Checks that `value`, if it is there, denotes a date in the form
/// `YYYYMMDD`.
pub fn optional_yyyymmdd(value: &Option<String>) -> (r: Result<(), FieldError>)
    ensures
        check_view(r) == optional_check(*value, |text: Seq<char>| yyyymmdd_spec(text)),
{
    match value {
        Some(text) => yyyymmdd(text.as_str()),
        None => Ok(()),
    }
}

/// What checking `value` as a company code gives: it must hold digits only,
/// and eight of them.
pub open spec fn corp_code_spec(value: Seq<char>) -> Result<(), FieldErrorView> {
    if !all_digits(value) {
        Err(value_error("not_digits"@, value))
    } else if vstd::utf8::encode_utf8(value).len() != 8 {
        Err(length_error(value, 8, 8))
    } else {
        Ok(())
    }
}

/// Checks that `value` is a company code: eight decimal digits.
pub fn corp_code(value: &str) -> (r: Result<(), FieldError>)
    ensures
        check_view(r) == corp_code_spec(value@),
{
    match is_digit(value) {
        Ok(()) => check_string_length(value, 8, 8),
        Err(e) => Err(e),
    }
}

/// Checks that `value`, if it is there, is a company code.
pub fn optional_corp_code(value: &Option<String>) -> (r: Result<(), FieldError>)
    ensures
        check_view(r) == optional_check(*value, |text: Seq<char>| corp_code_spec(text)),
{
    match value {
        Some(text) => corp_code(text.as_str()),
        None => Ok(()),
    }
}

/// What checking `value` as a business year gives: it must hold digits
/// only, four of them, and denote a year from 2000 to 2100.
pub open spec fn bsns_year_spec(value: Seq<char>) -> Result<(), FieldErrorView> {
    if !all_digits(value) {
        Err(value_error("not_digits"@, value))
    } else if vstd::utf8::encode_utf8(value).len() != 4 {
        Err(length_error(value, 4, 4))
    } else if !(2000 <= decimal_value(value) <= 2100) {
        Err(value_error("invalid_year"@, value))
    } else {
        Ok(())
    }
}

/// Checks that `value` is a business year: four decimal digits that denote
/// a year from 2000 to 2100.
pub fn bsns_year(value: &str) -> (r: Result<(), FieldError>)
    ensures
        check_view(r) == bsns_year_spec(value@),
{
    match is_digit(value) {
        Ok(()) => {},
        Err(e) => {
            return Err(e);
        },
    }
    match check_string_length(value, 4, 4) {
        Ok(()) => {},
        Err(e) => {
            return Err(e);
        },
    }
    proof {
        lemma_scan_digits(value@, 9999);
    }
    let in_range = match parse_unsigned(value, 9999) {
        Ok(year) => 2000 <= year && year <= 2100,
        Err(_) => false,
    };
    if in_range {
        Ok(())
    } else {
        let mut err = FieldError::new("invalid_year");
        err.add_param("value", Json::Text(value.to_owned()));
        assert(err@.params =~= value_error("invalid_year"@, value@).params);
        Err(err)
    }
}

} // verus!
