//! The business year a report covers.

use crate::error::MyValidationError;
use crate::json::{text_of_json, Json, JsonView};
use crate::text::{
    decimal_digits, fault_message, int_fault_message, parse_unsigned, parse_unsigned_spec,
    to_decimal,
};
use vstd::prelude::*;
use vstd::string::*;

verus! {

broadcast use vstd::string::group_string_axioms;

/// A business year: 2015, the first year the registry covers, or later.
///
/// Two texts that denote the same year give equal values, however they are
/// written.
#[derive(Debug, Clone, Copy, Eq, PartialEq, Ord, PartialOrd, Hash)]
pub struct BsnsYear(u16);

impl View for BsnsYear {
    type V = int;

    closed spec fn view(&self) -> int {
        self.0 as int
    }
}

impl BsnsYear {
    /// The year that the text `value` denotes, if it denotes a business
    /// year: a decimal number of at most 65535 that is at least 2015.
    pub open spec fn year_of(value: Seq<char>) -> Option<int> {
        match parse_unsigned_spec(value, 65535) {
            Ok(year) => if year >= 2015 {
                Some(year as int)
            } else {
                None
            },
            Err(_) => None,
        }
    }

    #[verifier::type_invariant]
    spec fn well_formed(&self) -> bool {
        self.0 >= 2015
    }

    /// Reads `value` as a business year.
    ///
    /// Succeeds exactly when `value` denotes a business year, and the result
    /// is then that year. A text that is no number is reported with the
    /// text and the reason; a year before 2015 with the year in decimal.
    pub fn try_new(value: &str) -> (r: Result<Self, MyValidationError>)
        ensures
            match r {
                Ok(year) => Self::year_of(value@) == Some(year@),
                Err(e) => Self::year_of(value@) is None && match parse_unsigned_spec(
                    value@,
                    65535,
                ) {
                    Ok(year) => e.value@ == decimal_digits(year) && e.message@
                        == "Year must be greater than or equal to 2015"@,
                    Err(fault) => e.value@ == value@ && e.message@ == int_fault_message(fault),
                },
            },
    {
        match parse_unsigned(value, 65535) {
            Ok(year) => {
                if 2015 <= year {
                    Ok(Self(year as u16))
                } else {
                    let shown = to_decimal(year);
                    Err(
                        MyValidationError::new(
                            shown.as_str(),
                            "Year must be greater than or equal to 2015",
                        ),
                    )
                }
            },
            Err(fault) => Err(MyValidationError::new(value, fault_message(fault))),
        }
    }

    /// The year as a number.
    pub fn year(&self) -> (r: u16)
        ensures
            r == self@,
            r >= 2015,
    {
        proof {
            use_type_invariant(self);
        }
        self.0
    }

    /// Gives up the year in its canonical form: the shortest decimal text.
    pub fn into_inner(self) -> (r: String)
        ensures
            r@ == decimal_digits(self@ as nat),
            self@ >= 2015,
    {
        proof {
            use_type_invariant(&self);
        }
        to_decimal(self.0 as u64)
    }

    /// The year as it travels on the wire: the shortest decimal text.
    pub fn as_wire(&self) -> (r: String)
        ensures
            r@ == decimal_digits(self@ as nat),
    {
        to_decimal(self.0 as u64)
    }

    /// The year as a JSON value: the string of its wire form.
    pub fn to_json(&self) -> (r: Json)
        ensures
            r@ == JsonView::Text(decimal_digits(self@ as nat)),
    {
        Json::Text(to_decimal(self.0 as u64))
    }

    /// Reads a business year from a JSON value. A string is read as
    /// [`Self::try_new`] reads it; any other value is rejected.
    pub fn from_json(value: &Json) -> (r: Result<Self, MyValidationError>)
        ensures
            match text_of_json(value@) {
                Some(text) => match r {
                    Ok(year) => Self::year_of(text) == Some(year@),
                    Err(e) => Self::year_of(text) is None,
                },
                None => r matches Err(e) && e.value@ == Seq::<char>::empty() && e.message@
                    == "a JSON string is expected"@,
            },
    {
        match value.as_text() {
            Some(text) => Self::try_new(text.as_str()),
            None => {
                proof {
                    reveal_strlit("");
                    assert(""@ =~= Seq::<char>::empty());
                }
                Err(MyValidationError::new("", "a JSON string is expected"))
            },
        }
    }

    /// The year rendered for display: the shortest decimal text.
    pub fn to_string(&self) -> (r: String)
        ensures
            r@ == decimal_digits(self@ as nat),
    {
        to_decimal(self.0 as u64)
    }

    /// Every business year is read back from its own wire form.
    pub proof fn lemma_wire_round_trip(year: int)
        requires
            2015 <= year <= 65535,
        ensures
            Self::year_of(decimal_digits(year as nat)) == Some(year),
    {
        crate::text::lemma_reads_its_decimal(year as nat, 65535);
    }

    /// Texts that are read as the same number denote the same business
    /// year, however they are written.
    pub proof fn lemma_value_is_canonical(a: Seq<char>, b: Seq<char>)
        requires
            parse_unsigned_spec(a, 65535) is Ok,
            parse_unsigned_spec(a, 65535) == parse_unsigned_spec(b, 65535),
        ensures
            Self::year_of(a) == Self::year_of(b),
    {
    }
}

} // verus!
