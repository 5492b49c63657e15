//! The month in which a company closes its books.

use crate::error::MyValidationError;
use crate::json::{text_of_json, Json, JsonView};
use crate::text::{parse_unsigned, parse_unsigned_spec};
use vstd::prelude::*;
use vstd::string::*;

verus! {

broadcast use vstd::string::group_string_axioms;

/// The settlement month of a company, written with two characters: `01` to
/// `12`.
#[derive(Debug, Eq, PartialEq, Ord, PartialOrd, Hash)]
pub struct AccMt(String);

impl View for AccMt {
    type V = Seq<char>;

    closed spec fn view(&self) -> Seq<char> {
        self.0@
    }
}

impl Clone for AccMt {
    fn clone(&self) -> (r: Self)
        ensures
            r@ == self@,
    {
        proof {
            use_type_invariant(self);
        }
        Self(self.0.clone())
    }
}

impl AccMt {
    /// The test a raw value must pass to be a settlement month: it is two
    /// characters long and reads as a number from 1 to 12.
    pub open spec fn accepts(value: Seq<char>) -> bool {
        value.len() == 2 && match parse_unsigned_spec(value, 255) {
            Ok(month) => 1 <= month <= 12,
            Err(_) => false,
        }
    }

    #[verifier::type_invariant]
    spec fn well_formed(&self) -> bool {
        Self::accepts(self.0@)
    }

    /// Validates `value` as a settlement month.
    ///
    /// Succeeds exactly when `value` passes the test, and the result then
    /// holds `value` unchanged. Otherwise the error carries `value` and
    /// names the format.
    pub fn try_new(value: &str) -> (r: Result<Self, MyValidationError>)
        ensures
            r is Ok <==> Self::accepts(value@),
            r matches Ok(month) ==> month@ == value@,
            r matches Err(e) ==> e.value@ == value@ && e.message@
                == "acc_mt must be of format MM(00~12)"@,
    {
        match parse_unsigned(value, 255) {
            Ok(month) => {
                if 1 <= month && month <= 12 && value.unicode_len() == 2 {
                    Ok(Self(value.to_owned()))
                } else {
                    Err(MyValidationError::new(value, "acc_mt must be of format MM(00~12)"))
                }
            },
            Err(_) => Err(MyValidationError::new(value, "acc_mt must be of format MM(00~12)")),
        }
    }

    /// The month as it travels on the wire: its two characters.
    pub fn as_wire(&self) -> (r: &str)
        ensures
            r@ == self@,
            Self::accepts(self@),
    {
        proof {
            use_type_invariant(self);
        }
        self.0.as_str()
    }

    /// Gives up the validated string.
    pub fn into_inner(self) -> (r: String)
        ensures
            r@ == self@,
            Self::accepts(r@),
    {
        proof {
            use_type_invariant(&self);
        }
        self.0
    }

    /// The month as a JSON value: the string of its wire form.
    pub fn to_json(&self) -> (r: Json)
        ensures
            r@ == JsonView::Text(self@),
    {
        Json::text(self.0.as_str())
    }

    /// Reads a month from a JSON value. A string is validated as
    /// [`Self::try_new`] validates it; any other value is rejected.
    pub fn from_json(value: &Json) -> (r: Result<Self, MyValidationError>)
        ensures
            match text_of_json(value@) {
                Some(text) => {
                    &&& r is Ok <==> Self::accepts(text)
                    &&& r matches Ok(read) ==> read@ == text
                    &&& r matches Err(e) ==> e.value@ == text && e.message@
                        == "acc_mt must be of format MM(00~12)"@
                },
                None => r matches Err(e) && e.value@ == Seq::<char>::empty() && e.message@
                    == "a JSON string is expected"@,
            },
    {
        match value.as_text() {
            Some(text) => Self::try_new(text.as_str()),
            None => {
                proof {
                    reveal_strlit("");
                    assert(""@ =~= Seq::<char>::empty());
                }
                Err(MyValidationError::new("", "a JSON string is expected"))
            },
        }
    }

    /// The month rendered for display: its two characters.
    pub fn to_string(&self) -> (r: String)
        ensures
            r@ == self@,
    {
        self.0.clone()
    }
}

} // verus!
