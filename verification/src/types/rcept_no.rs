//! The fourteen-digit receipt number of a filing.

use crate::error::MyValidationError;
use crate::json::{text_of_json, Json, JsonView};
use crate::text::{is_digit_char, is_digit_code, is_digit_code_str};
use vstd::prelude::*;
use vstd::string::*;

verus! {

broadcast use vstd::string::group_string_axioms;

/// The receipt number the registry gives a filing: exactly fourteen
/// decimal digits.
#[derive(Debug, Eq, PartialEq, Ord, PartialOrd, Hash)]
pub struct RceptNo(String);

impl View for RceptNo {
    type V = Seq<char>;

    closed spec fn view(&self) -> Seq<char> {
        self.0@
    }
}

impl Clone for RceptNo {
    fn clone(&self) -> (r: Self)
        ensures
            r@ == self@,
    {
        proof {
            use_type_invariant(self);
        }
        Self(self.0.clone())
    }
}

impl RceptNo {
    /// The test a raw value must pass to be a receipt number.
    pub open spec fn accepts(value: Seq<char>) -> bool {
        is_digit_code(value, 14)
    }

    /// The receipt number that the raw value `value` denotes, if it denotes one.
    pub open spec fn parse(value: Seq<char>) -> Option<Seq<char>> {
        if Self::accepts(value) {
            Some(value)
        } else {
            None
        }
    }

    /// The wire form of the receipt number `code`: its text.
    pub open spec fn wire(code: Seq<char>) -> Seq<char> {
        code
    }

    #[verifier::type_invariant]
    spec fn well_formed(&self) -> bool {
        Self::accepts(self.0@)
    }

    /// Validates `value` as a receipt number.
    ///
    /// Succeeds exactly when `value` is fourteen decimal digits, and the
    /// result then holds `value` unchanged. Otherwise the error carries
    /// `value` and names the constraint.
    pub fn try_new(value: &str) -> (r: Result<Self, MyValidationError>)
        ensures
            r is Ok <==> Self::accepts(value@),
            r matches Ok(code) ==> Self::parse(value@) == Some(code@),
            r matches Err(e) ==> e.value@ == value@ && e.message@ == "rcept_no must be 14 digits"@,
    {
        if is_digit_code_str(value, 14) {
            Ok(Self(value.to_owned()))
        } else {
            Err(MyValidationError::new(value, "rcept_no must be 14 digits"))
        }
    }

    /// The receipt number as it travels on the wire: its fourteen digits.
    pub fn as_wire(&self) -> (r: &str)
        ensures
            r@ == Self::wire(self@),
            Self::accepts(self@),
    {
        proof {
            use_type_invariant(self);
        }
        self.0.as_str()
    }

    /// The receipt number as a string reference.
    pub fn as_ref(&self) -> (r: &String)
        ensures
            r@ == self@,
    {
        &self.0
    }

    /// Gives up the validated string.
    pub fn into_inner(self) -> (r: String)
        ensures
            r@ == self@,
            Self::accepts(r@),
    {
        proof {
            use_type_invariant(&self);
        }
        self.0
    }

    /// The receipt number as a JSON value: the string of its wire form.
    pub fn to_json(&self) -> (r: Json)
        ensures
            r@ == JsonView::Text(Self::wire(self@)),
    {
        Json::text(self.0.as_str())
    }

    /// Reads a receipt number from a JSON value. A string is validated as
    /// [`Self::try_new`] validates it; any other value is rejected.
    pub fn from_json(value: &Json) -> (r: Result<Self, MyValidationError>)
        ensures
            match text_of_json(value@) {
                Some(text) => {
                    &&& r is Ok <==> Self::accepts(text)
                    &&& r matches Ok(read) ==> read@ == text
                    &&& r matches Err(e) ==> e.value@ == text && e.message@
                        == "rcept_no must be 14 digits"@
                },
                None => r matches Err(e) && e.value@ == Seq::<char>::empty() && e.message@
                    == "a JSON string is expected"@,
            },
    {
        match value.as_text() {
            Some(text) => Self::try_new(text.as_str()),
            None => {
                proof {
                    reveal_strlit("");
                    assert(""@ =~= Seq::<char>::empty());
                }
                Err(MyValidationError::new("", "a JSON string is expected"))
            },
        }
    }

    /// The receipt number rendered for display: its fourteen digits.
    pub fn to_string(&self) -> (r: String)
        ensures
            r@ == self@,
    {
        self.0.clone()
    }

    /// Every text of fourteen decimal digits is a receipt number, and the wire form
    /// of that receipt number is the text again.
    pub proof fn lemma_wire_round_trip(value: Seq<char>)
        requires
            is_digit_code(value, 14),
        ensures
            Self::parse(value) is Some,
            Self::wire(Self::parse(value)->0) == value,
    {
    }

    /// A text of another length than fourteen, and a text that
    /// holds a character that is no decimal digit, is no receipt number.
    pub proof fn lemma_rejects_malformed(value: Seq<char>)
        requires
            value.len() != 14 || exists|i: int| 0 <= i < value.len() && !is_digit_char(value[i]),
        ensures
            Self::parse(value) is None,
    {
    }

    /// Reading the wire form of a receipt number gives it back.
    pub proof fn lemma_reads_its_wire_form(code: Seq<char>)
        requires
            Self::accepts(code),
        ensures
            Self::parse(Self::wire(code)) == Some(code),
    {
    }
}

} // verus!
