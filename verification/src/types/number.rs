//! Amounts and other whole numbers that the registry writes as strings.

use crate::error::MyValidationError;
use crate::json::{Json, JsonView};
use crate::text::{
    fault_message, i64_to_decimal, int_fault_message, parse_i64, parse_signed_spec, signed_decimal,
    IntFault,
};
use vstd::prelude::*;
use vstd::string::*;

verus! {

broadcast use vstd::string::group_string_axioms;

/// The whole number that a decimal text denotes, or why it denotes none.
pub open spec fn number_of(text: Seq<char>) -> Result<int, IntFault> {
    parse_signed_spec(text, i64::MIN as int, i64::MAX as int)
}

/// The error that rejects a text that denotes no whole number.
pub open spec fn no_number(text: Seq<char>) -> (Seq<char>, Seq<char>) {
    (text, int_fault_message(number_of(text)->Err_0))
}

/// The error that rejects a JSON value that is neither a string nor a
/// number.
pub open spec fn no_number_value() -> (Seq<char>, Seq<char>) {
    (Seq::empty(), "a JSON string or number is expected"@)
}

/// What reading a whole number from a JSON value gives: a string and a
/// number are read in decimal, any other value is rejected. The error is
/// given by its value and its message.
pub open spec fn read_number(value: JsonView) -> Result<int, (Seq<char>, Seq<char>)> {
    match value {
        JsonView::Text(text) => match number_of(text) {
            Ok(number) => Ok(number),
            Err(_) => Err(no_number(text)),
        },
        JsonView::Number(text) => match number_of(text) {
            Ok(number) => Ok(number),
            Err(_) => Err(no_number(text)),
        },
        _ => Err(no_number_value()),
    }
}

/// What reading a whole number that may be absent from a JSON value gives:
/// `null` and the empty string give none; everything else is read as
/// [`read_number`] says.
pub open spec fn read_optional_number(value: JsonView) -> Result<
    Option<int>,
    (Seq<char>, Seq<char>),
> {
    match value {
        JsonView::Null => Ok(None),
        JsonView::Text(text) => if text.len() == 0 {
            Ok(None)
        } else {
            match read_number(value) {
                Ok(number) => Ok(Some(number)),
                Err(e) => Err(e),
            }
        },
        _ => match read_number(value) {
            Ok(number) => Ok(Some(number)),
            Err(e) => Err(e),
        },
    }
}

/// Reads a whole number from a JSON value, as [`read_number`] says.
fn number_from_json(value: &Json) -> (r: Result<i64, MyValidationError>)
    ensures
        match r {
            Ok(number) => read_number(value@) == Ok::<int, (Seq<char>, Seq<char>)>(number as int),
            Err(e) => read_number(value@) == Err::<int, (Seq<char>, Seq<char>)>(
                (e.value@, e.message@),
            ),
        },
{
    let text = match value {
        Json::Text(text) => text,
        Json::Number(text) => text,
        _ => {
            proof {
                reveal_strlit("");
                assert(""@ =~= Seq::<char>::empty());
            }
            return Err(MyValidationError::new("", "a JSON string or number is expected"));
        },
    };
    match parse_i64(text.as_str()) {
        Ok(number) => Ok(number),
        Err(fault) => Err(MyValidationError::new(text.as_str(), fault_message(fault))),
    }
}

/// A whole number, such as an amount; the registry writes it as a string.
#[derive(Debug, Clone, Copy, Eq, PartialEq, Ord, PartialOrd, Hash)]
pub struct Number(i64);

/// The place of an account in the order of its statement.
pub type AccountOrd = Number;

/// The amount of the current term.
pub type ThstrmAmount = Number;

impl View for Number {
    type V = int;

    closed spec fn view(&self) -> int {
        self.0 as int
    }
}

impl Number {
    /// The number `value`.
    pub fn new(value: i64) -> (r: Self)
        ensures
            r@ == value,
    {
        Number(value)
    }

    /// Gives up the number.
    pub fn into_inner(self) -> (r: i64)
        ensures
            r == self@,
    {
        self.0
    }

    /// The number as it travels on the wire: its decimal text.
    pub fn as_wire(&self) -> (r: String)
        ensures
            r@ == signed_decimal(self@),
    {
        i64_to_decimal(self.0)
    }

    /// The number as a JSON value: the string of its decimal text.
    pub fn to_json(&self) -> (r: Json)
        ensures
            r@ == JsonView::Text(signed_decimal(self@)),
    {
        Json::Text(i64_to_decimal(self.0))
    }

    /// Reads a number from a JSON value, as [`read_number`] says.
    pub fn from_json(value: &Json) -> (r: Result<Self, MyValidationError>)
        ensures
            match r {
                Ok(number) => read_number(value@) == Ok::<int, (Seq<char>, Seq<char>)>(number@),
                Err(e) => read_number(value@) == Err::<int, (Seq<char>, Seq<char>)>(
                    (e.value@, e.message@),
                ),
            },
    {
        match number_from_json(value) {
            Ok(number) => Ok(Number(number)),
            Err(e) => Err(e),
        }
    }

    /// The number rendered for display: its decimal text.
    pub fn to_string(&self) -> (r: String)
        ensures
            r@ == signed_decimal(self@),
    {
        i64_to_decimal(self.0)
    }
}

/// A whole number that may be absent.
#[derive(Debug, Clone, Copy, Eq, PartialEq, Ord, PartialOrd, Hash)]
pub struct OptionalNumber(Option<i64>);

/// The amount of the term before the previous one, given for annual reports
/// only.
pub type BfefrmtrmAmount = OptionalNumber;

/// The amount of the previous term.
pub type FrmtrmAmount = OptionalNumber;

/// The accumulated amount of the previous term.
pub type FrmtrmAddAmount = OptionalNumber;

/// The amount of the previous term of a quarterly or half-year report.
pub type FrmtrmQAmount = OptionalNumber;

/// The accumulated amount of the current term.
pub type ThstrmAddAmount = OptionalNumber;

impl View for OptionalNumber {
    type V = Option<int>;

    closed spec fn view(&self) -> Option<int> {
        match self.0 {
            Some(number) => Some(number as int),
            None => None,
        }
    }
}

/// How an optional number is displayed: `None`, or `Some(..)` around its
/// decimal text.
pub open spec fn optional_number_shown(value: Option<int>) -> Seq<char> {
    match value {
        Some(number) => "Some("@ + signed_decimal(number) + ")"@,
        None => "None"@,
    }
}

impl OptionalNumber {
    /// The number `value`, or no number.
    pub fn new(value: Option<i64>) -> (r: Self)
        ensures
            r@ == match value {
                Some(number) => Some(number as int),
                None => None,
            },
    {
        OptionalNumber(value)
    }

    /// Gives up the number, if there is one.
    pub fn into_inner(self) -> (r: Option<i64>)
        ensures
            self@ == match r {
                Some(number) => Some(number as int),
                None => None,
            },
    {
        self.0
    }

    /// The number as a JSON value: the string of its decimal text, or
    /// `null`.
    pub fn to_json(&self) -> (r: Json)
        ensures
            r@ == match self@ {
                Some(number) => JsonView::Text(signed_decimal(number)),
                None => JsonView::Null,
            },
    {
        match self.0 {
            Some(number) => Json::Text(i64_to_decimal(number)),
            None => Json::Null,
        }
    }

    /// Reads a number that may be absent from a JSON value, as
    /// [`read_optional_number`] says.
    pub fn from_json(value: &Json) -> (r: Result<Self, MyValidationError>)
        ensures
            match r {
                Ok(number) => read_optional_number(value@) == Ok::<
                    Option<int>,
                    (Seq<char>, Seq<char>),
                >(number@),
                Err(e) => read_optional_number(value@) == Err::<
                    Option<int>,
                    (Seq<char>, Seq<char>),
                >((e.value@, e.message@)),
            },
    {
        match value {
            Json::Null => Ok(OptionalNumber(None)),
            Json::Text(text) => {
                if text.as_str().is_empty() {
                    Ok(OptionalNumber(None))
                } else {
                    match number_from_json(value) {
                        Ok(number) => Ok(OptionalNumber(Some(number))),
                        Err(e) => Err(e),
                    }
                }
            },
            _ => match number_from_json(value) {
                Ok(number) => Ok(OptionalNumber(Some(number))),
                Err(e) => Err(e),
            },
        }
    }

    /// The number rendered for display, as [`optional_number_shown`] says.
    pub fn to_string(&self) -> (r: String)
        ensures
            r@ == optional_number_shown(self@),
    {
        match self.0 {
            Some(number) => String::from_str("Some(").concat(
                i64_to_decimal(number).as_str(),
            ).concat(")"),
            None => String::from_str("None"),
        }
    }
}

} // verus!
