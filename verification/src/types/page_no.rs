//! The number of a page of a search result.

use crate::error::MyValidationError;
use crate::json::{number_of_json, Json, JsonView};
use crate::text::{decimal_digits, parse_unsigned, parse_unsigned_spec, to_decimal};
use vstd::prelude::*;
use vstd::string::*;

verus! {

broadcast use vstd::string::group_string_axioms;

/// The number of a page of a search result, counted from 1.
#[derive(Debug, Clone, Copy, Eq, PartialEq, Ord, PartialOrd, Hash)]
pub struct PageNo(u64);

/// The number of entries a search found; counted like a page number.
pub type TotalCount = PageNo;

/// The number of pages a search result has.
pub type TotalPage = PageNo;

impl View for PageNo {
    type V = int;

    closed spec fn view(&self) -> int {
        self.0 as int
    }
}

impl PageNo {
    /// The test a number must pass to be a page number.
    pub open spec fn accepts(page_no: int) -> bool {
        page_no >= 1
    }

    #[verifier::type_invariant]
    spec fn well_formed(&self) -> bool {
        Self::accepts(self.0 as int)
    }

    /// Validates `page_no` as a page number.
    ///
    /// Succeeds exactly when it is not zero, and the result then holds it.
    /// Otherwise the error carries the number in decimal.
    pub fn try_new(page_no: u64) -> (r: Result<Self, MyValidationError>)
        ensures
            r is Ok <==> Self::accepts(page_no as int),
            r matches Ok(no) ==> no@ == page_no,
            r matches Err(e) ==> e.value@ == decimal_digits(page_no as nat) && e.message@
                == "page_no must be greater than 0"@,
    {
        if page_no == 0 {
            let value = to_decimal(page_no);
            Err(MyValidationError::new(value.as_str(), "page_no must be greater than 0"))
        } else {
            Ok(Self(page_no))
        }
    }

    /// Gives up the validated number.
    pub fn into_inner(self) -> (r: u64)
        ensures
            r == self@,
            Self::accepts(r as int),
    {
        proof {
            use_type_invariant(&self);
        }
        self.0
    }

    /// The page number as it travels on the wire: the bare number in decimal.
    pub fn as_wire(&self) -> (r: String)
        ensures
            r@ == decimal_digits(self@ as nat),
            Self::accepts(self@),
    {
        proof {
            use_type_invariant(self);
        }
        to_decimal(self.0)
    }

    /// The page number as a JSON value: the bare number.
    pub fn to_json(&self) -> (r: Json)
        ensures
            r@ == JsonView::Number(decimal_digits(self@ as nat)),
    {
        Json::Number(to_decimal(self.0 as u64))
    }

    /// The page number that the decimal text `text` of a JSON number denotes,
    /// if it denotes one.
    pub open spec fn of_number(text: Seq<char>) -> Option<int> {
        match parse_unsigned_spec(text, 0xffff_ffff_ffff_ffff) {
            Ok(number) => if Self::accepts(number as int) {
                Some(number as int)
            } else {
                None
            },
            Err(_) => None,
        }
    }

    /// Reads a page number from a JSON value. A number is read in decimal and
    /// validated as [`Self::try_new`] validates it; a number that is no
    /// unsigned integer of the right size, and any other value, is rejected.
    pub fn from_json(value: &Json) -> (r: Result<Self, MyValidationError>)
        ensures
            match number_of_json(value@) {
                Some(text) => match r {
                    Ok(read) => Self::of_number(text) == Some(read@),
                    Err(e) => Self::of_number(text) is None && e.value@ == text && e.message@
                        == "page_no must be greater than 0"@,
                },
                None => r matches Err(e) && e.value@ == Seq::<char>::empty() && e.message@
                    == "a JSON number is expected"@,
            },
    {
        match value.as_number() {
            Some(text) => match parse_unsigned(text.as_str(), 0xffff_ffff_ffff_ffff) {
                Ok(number) => {
                    if let Ok(read) = Self::try_new(number ) {
                        Ok(read)
                    } else {
                        Err(MyValidationError::new(text.as_str(), "page_no must be greater than 0"))
                    }
                },
                Err(_) => Err(
                    MyValidationError::new(text.as_str(), "page_no must be greater than 0"),
                ),
            },
            None => {
                proof {
                    reveal_strlit("");
                    assert(""@ =~= Seq::<char>::empty());
                }
                Err(MyValidationError::new("", "a JSON number is expected"))
            },
        }
    }

    /// The page number rendered for display: the number in decimal.
    pub fn to_string(&self) -> (r: String)
        ensures
            r@ == decimal_digits(self@ as nat),
    {
        to_decimal(self.0)
    }

    /// Every accepted number is read back from its own wire form.
    pub proof fn lemma_wire_round_trip(number: int)
        requires
            Self::accepts(number),
            number <= 0xffff_ffff_ffff_ffff,
        ensures
            Self::of_number(decimal_digits(number as nat)) == Some(number),
    {
        crate::text::lemma_reads_its_decimal(number as nat, 0xffff_ffff_ffff_ffff);
    }
}

} // verus!
