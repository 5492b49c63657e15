//! The number of entries on one page of a search result.

use crate::error::MyValidationError;
use crate::json::{number_of_json, Json, JsonView};
use crate::text::{decimal_digits, parse_unsigned, parse_unsigned_spec, to_decimal};
use vstd::prelude::*;
use vstd::string::*;

verus! {

broadcast use vstd::string::group_string_axioms;

/// How many entries a page of a search result holds: from 1 to 100.
#[derive(Debug, Clone, Copy, Eq, PartialEq, Ord, PartialOrd, Hash)]
pub struct PageCount(u16);

impl View for PageCount {
    type V = int;

    closed spec fn view(&self) -> int {
        self.0 as int
    }
}

impl PageCount {
    /// The test a number must pass to be a page count.
    pub open spec fn accepts(page_count: int) -> bool {
        1 <= page_count <= 100
    }

    #[verifier::type_invariant]
    spec fn well_formed(&self) -> bool {
        Self::accepts(self.0 as int)
    }

    /// Validates `page_count` as a page count.
    ///
    /// Succeeds exactly when it lies between 1 and 100, and the result then
    /// holds it. Otherwise the error carries the number in decimal.
    pub fn try_new(page_count: u16) -> (r: Result<Self, MyValidationError>)
        ensures
            r is Ok <==> Self::accepts(page_count as int),
            r matches Ok(count) ==> count@ == page_count,
            r matches Err(e) ==> e.value@ == decimal_digits(page_count as nat) && e.message@
                == "page_count must be between 1 and 100"@,
    {
        if 1 <= page_count && page_count <= 100 {
            Ok(Self(page_count))
        } else {
            let value = to_decimal(page_count as u64);
            Err(MyValidationError::new(value.as_str(), "page_count must be between 1 and 100"))
        }
    }

    /// Gives up the validated number.
    pub fn into_inner(self) -> (r: u16)
        ensures
            r == self@,
            Self::accepts(r as int),
    {
        proof {
            use_type_invariant(&self);
        }
        self.0
    }

    /// The page count as it travels on the wire: the bare number in decimal.
    pub fn as_wire(&self) -> (r: String)
        ensures
            r@ == decimal_digits(self@ as nat),
            Self::accepts(self@),
    {
        proof {
            use_type_invariant(self);
        }
        to_decimal(self.0 as u64)
    }

    /// The page count as a JSON value: the bare number.
    pub fn to_json(&self) -> (r: Json)
        ensures
            r@ == JsonView::Number(decimal_digits(self@ as nat)),
    {
        Json::Number(to_decimal(self.0 as u64))
    }

    /// The page count that the decimal text `text` of a JSON number denotes,
    /// if it denotes one.
    pub open spec fn of_number(text: Seq<char>) -> Option<int> {
        match parse_unsigned_spec(text, 65535) {
            Ok(number) => if Self::accepts(number as int) {
                Some(number as int)
            } else {
                None
            },
            Err(_) => None,
        }
    }

    /// Reads a page count from a JSON value. A number is read in decimal and
    /// validated as [`Self::try_new`] validates it; a number that is no
    /// unsigned integer of the right size, and any other value, is rejected.
    pub fn from_json(value: &Json) -> (r: Result<Self, MyValidationError>)
        ensures
            match number_of_json(value@) {
                Some(text) => match r {
                    Ok(read) => Self::of_number(text) == Some(read@),
                    Err(e) => Self::of_number(text) is None && e.value@ == text && e.message@
                        == "page_count must be between 1 and 100"@,
                },
                None => r matches Err(e) && e.value@ == Seq::<char>::empty() && e.message@
                    == "a JSON number is expected"@,
            },
    {
        match value.as_number() {
            Some(text) => match parse_unsigned(text.as_str(), 65535) {
                Ok(number) => {
                    if let Ok(read) = Self::try_new(number as u16) {
                        Ok(read)
                    } else {
                        Err(
                            MyValidationError::new(text.as_str(), "page_count must be between 1 and 100"),
                        )
                    }
                },
                Err(_) => Err(
                    MyValidationError::new(text.as_str(), "page_count must be between 1 and 100"),
                ),
            },
            None => {
                proof {
                    reveal_strlit("");
                    assert(""@ =~= Seq::<char>::empty());
                }
                Err(MyValidationError::new("", "a JSON number is expected"))
            },
        }
    }

    /// The page count rendered for display: the number in decimal.
    pub fn to_string(&self) -> (r: String)
        ensures
            r@ == decimal_digits(self@ as nat),
    {
        to_decimal(self.0 as u64)
    }

    /// Every accepted number is read back from its own wire form.
    pub proof fn lemma_wire_round_trip(number: int)
        requires
            Self::accepts(number),
            number <= 65535,
        ensures
            Self::of_number(decimal_digits(number as nat)) == Some(number),
    {
        crate::text::lemma_reads_its_decimal(number as nat, 65535);
    }
}

} // verus!
