//! Checks on the raw text of request fields, before a request is sent.

pub mod fields;
pub mod utils;

pub use fields::corp_code;
pub use utils::{check_string_length as string_length, is_digit as digit};
