//! Fixed-length numeric codes of any length.

use crate::error::MyValidationError;
use crate::json::{text_of_json, Json, JsonView};
use crate::text::{decimal_digits, is_digit_code, is_digit_code_str, to_decimal};
use vstd::prelude::*;
use vstd::string::*;

verus! {

broadcast use vstd::string::group_string_axioms;

/// A code of exactly `N` decimal digits. With `ALLOW_EMPTY`, the empty text
/// is a code too: it stands for "no code".
#[derive(Debug, Eq, PartialEq, Ord, PartialOrd, Hash)]
pub struct Digits<const N: usize, const ALLOW_EMPTY: bool>(String);

impl<const N: usize, const ALLOW_EMPTY: bool> View for Digits<N, ALLOW_EMPTY> {
    type V = Seq<char>;

    closed spec fn view(&self) -> Seq<char> {
        self.0@
    }
}

impl<const N: usize, const ALLOW_EMPTY: bool> Clone for Digits<N, ALLOW_EMPTY> {
    fn clone(&self) -> (r: Self)
        ensures
            r@ == self@,
    {
        proof {
            use_type_invariant(self);
        }
        Self(self.0.clone())
    }
}

impl<const N: usize> Default for Digits<N, true> {
    /// The empty code.
    fn default() -> (r: Self)
        ensures
            r@ == Seq::<char>::empty(),
    {
        Self(String::new())
    }
}

/// The message that rejects a text that is not `n` digits long.
pub open spec fn digits_message(n: nat) -> Seq<char> {
    "value must be "@ + decimal_digits(n) + " digits"@
}

impl<const N: usize, const ALLOW_EMPTY: bool> Digits<N, ALLOW_EMPTY> {
    /// The test a raw value must pass to be such a code.
    pub open spec fn accepts(value: Seq<char>) -> bool {
        if value.len() == 0 {
            ALLOW_EMPTY
        } else {
            is_digit_code(value, N as nat)
        }
    }

    #[verifier::type_invariant]
    spec fn well_formed(&self) -> bool {
        Self::accepts(self.0@)
    }

    /// Validates `value` as a code.
    ///
    /// Succeeds exactly when `value` passes the test, and the result then
    /// holds `value` unchanged. Otherwise the error carries `value`; its
    /// message reports an empty value as such and anything else as
    /// malformed.
    pub fn try_new(value: &str) -> (r: Result<Self, MyValidationError>)
        ensures
            r is Ok <==> Self::accepts(value@),
            r matches Ok(code) ==> code@ == value@,
            r matches Err(e) ==> e.value@ == value@ && e.message@ == (if value@.len() == 0 {
                "Empty value is not allowed"@
            } else {
                digits_message(N as nat)
            }),
    {
        if value.is_empty() {
            if ALLOW_EMPTY {
                return Ok(Self(value.to_owned()));
            } else {
                return Err(MyValidationError::new(value, "Empty value is not allowed"));
            }
        }
        if is_digit_code_str(value, N) {
            Ok(Self(value.to_owned()))
        } else {
            let message = String::from_str("value must be ").concat(
                to_decimal(N as u64).as_str(),
            ).concat(" digits");
            Err(MyValidationError::new(value, message.as_str()))
        }
    }

    /// The code as it travels on the wire: its digits, or nothing.
    pub fn as_wire(&self) -> (r: &str)
        ensures
            r@ == self@,
            Self::accepts(self@),
    {
        proof {
            use_type_invariant(self);
        }
        self.0.as_str()
    }

    /// Gives up the validated string.
    pub fn into_inner(self) -> (r: String)
        ensures
            r@ == self@,
            Self::accepts(r@),
    {
        proof {
            use_type_invariant(&self);
        }
        self.0
    }

    /// The code as a JSON value: the string of its wire form.
    pub fn to_json(&self) -> (r: Json)
        ensures
            r@ == JsonView::Text(self@),
    {
        Json::text(self.0.as_str())
    }

    /// Reads a code from a JSON value. A string is validated as
    /// [`Self::try_new`] validates it; any other value is rejected.
    pub fn from_json(value: &Json) -> (r: Result<Self, MyValidationError>)
        ensures
            match text_of_json(value@) {
                Some(text) => {
                    &&& r is Ok <==> Self::accepts(text)
                    &&& r matches Ok(read) ==> read@ == text
                    &&& r matches Err(e) ==> e.value@ == text && e.message@ == (if text.len() == 0 {
                        "Empty value is not allowed"@
                    } else {
                        digits_message(N as nat)
                    })
                },
                None => r matches Err(e) && e.value@ == Seq::<char>::empty() && e.message@
                    == "a JSON string is expected"@,
            },
    {
        match value.as_text() {
            Some(text) => Self::try_new(text.as_str()),
            None => {
                proof {
                    reveal_strlit("");
                    assert(""@ =~= Seq::<char>::empty());
                }
                Err(MyValidationError::new("", "a JSON string is expected"))
            },
        }
    }

    /// The code rendered for display: its digits, or nothing.
    pub fn to_string(&self) -> (r: String)
        ensures
            r@ == self@,
    {
        self.0.clone()
    }
}

} // verus!
