//! Validated primitives: values that exist only if they passed their
//! constructor's test.

pub mod acc_mt;
pub mod account_id;
pub mod bgn_de;
pub mod bizr_no;
pub mod bsns_year;
pub mod corp_cls;
pub mod corp_code;
pub mod corp_name;
pub mod crtfc_key;
pub mod date;
pub mod digits;
pub mod fs_div;
pub mod industry_code;
pub mod jurir_no;
pub mod number;
pub mod page_count;
pub mod page_no;
pub mod pblntf_detail_ty;
pub mod pblntf_ty;
pub mod rcept_no;
pub mod report_nm;
pub mod reprt_code;
pub mod sj_div;
pub mod sort;
pub mod sort_mth;
pub mod stock_code;
pub mod text;
pub mod yes_no;

pub use acc_mt::AccMt;
pub use account_id::AccountId;
pub use bgn_de::{BgnDe, EndDe};
pub use bizr_no::BizrNo;
pub use bsns_year::BsnsYear;
pub use corp_cls::CorpCls;
pub use corp_code::CorpCode;
pub use corp_name::CorpName;
pub use crtfc_key::CrtfcKey;
pub use date::Date;
pub use digits::Digits;
pub use fs_div::FsDiv;
pub use industry_code::IndustryCode;
pub use jurir_no::JurirNo;
pub use number::{Number, OptionalNumber};
pub use page_count::PageCount;
pub use page_no::{PageNo, TotalCount, TotalPage};
pub use pblntf_detail_ty::PblntfDetailTy;
pub use pblntf_ty::PblntfTy;
pub use rcept_no::RceptNo;
pub use report_nm::ReportNm;
pub use reprt_code::ReprtCode;
pub use sj_div::SjDiv;
pub use sort::Sort;
pub use sort_mth::SortMth;
pub use stock_code::StockCode;
pub use text::{AnyText, NonEmptyText, OptionalText, Text};
pub use yes_no::{LastReprtAt, YesNo};
