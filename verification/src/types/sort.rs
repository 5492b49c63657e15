//! The key a search result is sorted by.

use crate::error::MyValidationError;
use crate::json::{text_of_json, Json, JsonView};
use crate::text::same_text;
use vstd::prelude::*;
use vstd::string::*;

verus! {

broadcast use vstd::string::group_string_axioms;

/// The key by which a search result is sorted.
#[derive(Debug, Clone, Copy, Eq, PartialEq, Structural, Ord, PartialOrd, Hash)]
pub enum Sort {
    /// By the date of receipt.
    Date,
    /// By the name of the company.
    Crp,
    /// By the title of the report.
    Rpt,
}

impl Sort {
    /// The code that stands for this value on the wire.
    pub open spec fn wire(self) -> Seq<char> {
        match self {
            Sort::Date => "date"@,
            Sort::Crp => "crp"@,
            Sort::Rpt => "rpt"@,
        }
    }

    /// The value that the wire code `code` stands for, if it stands for one.
    pub open spec fn of_wire(code: Seq<char>) -> Option<Self> {
        if code == "date"@ {
            Some(Sort::Date)
        }         else if code == "crp"@ {
            Some(Sort::Crp)
        }         else if code == "rpt"@ {
            Some(Sort::Rpt)
        } else {
            None
        }
    }

    /// The name of this value, as it is displayed.
    pub open spec fn name(self) -> Seq<char> {
        match self {
            Sort::Date => "Date"@,
            Sort::Crp => "Crp"@,
            Sort::Rpt => "Rpt"@,
        }
    }

    /// The code that stands for this value on the wire.
    pub fn as_wire(&self) -> (r: &'static str)
        ensures
            r@ == self.wire(),
    {
        match self {
            Sort::Date => "date",
            Sort::Crp => "crp",
            Sort::Rpt => "rpt",
        }
    }

    /// Reads a value from its wire code.
    ///
    /// Succeeds exactly when `code` is the wire code of a value, and the
    /// result is then that value. Otherwise the error carries `code` and
    /// lists the codes there are.
    pub fn from_wire(code: &str) -> (r: Result<Self, MyValidationError>)
        ensures
            match r {
                Ok(value) => Self::of_wire(code@) == Some(value),
                Err(e) => Self::of_wire(code@) is None && e.value@ == code@ && e.message@
                    == "sort must be one of date, crp, rpt"@,
            },
    {
        if same_text(code, "date") {
            Ok(Sort::Date)
        }         else if same_text(code, "crp") {
            Ok(Sort::Crp)
        }         else if same_text(code, "rpt") {
            Ok(Sort::Rpt)
        } else {
            Err(MyValidationError::new(code, "sort must be one of date, crp, rpt"))
        }
    }

    /// The value as a JSON value: the string of its wire code.
    pub fn to_json(&self) -> (r: Json)
        ensures
            r@ == JsonView::Text(self.wire()),
    {
        Json::text(self.as_wire())
    }

    /// Reads a value from a JSON value. A string is read as
    /// [`Self::from_wire`] reads it; any other value is rejected.
    pub fn from_json(value: &Json) -> (r: Result<Self, MyValidationError>)
        ensures
            match text_of_json(value@) {
                Some(code) => match r {
                    Ok(read) => Self::of_wire(code) == Some(read),
                    Err(e) => Self::of_wire(code) is None && e.value@ == code && e.message@
                        == "sort must be one of date, crp, rpt"@,
                },
                None => r matches Err(e) && e.value@ == Seq::<char>::empty() && e.message@
                    == "a JSON string is expected"@,
            },
    {
        match value.as_text() {
            Some(code) => Self::from_wire(code.as_str()),
            None => {
                proof {
                    reveal_strlit("");
                    assert(""@ =~= Seq::<char>::empty());
                }
                Err(MyValidationError::new("", "a JSON string is expected"))
            },
        }
    }

    /// The value rendered for display: its name.
    pub fn to_string(&self) -> (r: String)
        ensures
            r@ == self.name(),
    {
        match self {
            Sort::Date => "Date".to_owned(),
            Sort::Crp => "Crp".to_owned(),
            Sort::Rpt => "Rpt".to_owned(),
        }
    }

    /// Every value is read back from its own wire code.
    pub proof fn lemma_wire_round_trip(value: Self)
        ensures
            Self::of_wire(value.wire()) == Some(value),
    {
        reveal_strlit("date");
        reveal_strlit("crp");
        reveal_strlit("rpt");
        assert("date"@.len() == 4);
        assert("date"@[0] == 'd');
        assert("date"@[1] == 'a');
        assert("date"@[2] == 't');
        assert("date"@[3] == 'e');
        assert("crp"@.len() == 3);
        assert("crp"@[0] == 'c');
        assert("crp"@[1] == 'r');
        assert("crp"@[2] == 'p');
        assert("rpt"@.len() == 3);
        assert("rpt"@[0] == 'r');
        assert("rpt"@[1] == 'p');
        assert("rpt"@[2] == 't');
    }
}

} // verus!
