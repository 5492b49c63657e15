//! The direction a search result is sorted in.

use crate::error::MyValidationError;
use crate::json::{text_of_json, Json, JsonView};
use crate::text::same_text;
use vstd::prelude::*;
use vstd::string::*;

verus! {

broadcast use vstd::string::group_string_axioms;

/// The direction in which a search result is sorted.
#[derive(Debug, Clone, Copy, Eq, PartialEq, Structural, Ord, PartialOrd, Hash)]
pub enum SortMth {
    /// Ascending.
    Asc,
    /// Descending.
    Desc,
}

impl SortMth {
    /// The code that stands for this value on the wire.
    pub open spec fn wire(self) -> Seq<char> {
        match self {
            SortMth::Asc => "asc"@,
            SortMth::Desc => "desc"@,
        }
    }

    /// The value that the wire code `code` stands for, if it stands for one.
    pub open spec fn of_wire(code: Seq<char>) -> Option<Self> {
        if code == "asc"@ {
            Some(SortMth::Asc)
        }         else if code == "desc"@ {
            Some(SortMth::Desc)
        } else {
            None
        }
    }

    /// The name of this value, as it is displayed.
    pub open spec fn name(self) -> Seq<char> {
        match self {
            SortMth::Asc => "Asc"@,
            SortMth::Desc => "Desc"@,
        }
    }

    /// The code that stands for this value on the wire.
    pub fn as_wire(&self) -> (r: &'static str)
        ensures
            r@ == self.wire(),
    {
        match self {
            SortMth::Asc => "asc",
            SortMth::Desc => "desc",
        }
    }

    /// Reads a value from its wire code.
    ///
    /// Succeeds exactly when `code` is the wire code of a value, and the
    /// result is then that value. Otherwise the error carries `code` and
    /// lists the codes there are.
    pub fn from_wire(code: &str) -> (r: Result<Self, MyValidationError>)
        ensures
            match r {
                Ok(value) => Self::of_wire(code@) == Some(value),
                Err(e) => Self::of_wire(code@) is None && e.value@ == code@ && e.message@
                    == "sort_mth must be one of asc, desc"@,
            },
    {
        if same_text(code, "asc") {
            Ok(SortMth::Asc)
        }         else if same_text(code, "desc") {
            Ok(SortMth::Desc)
        } else {
            Err(MyValidationError::new(code, "sort_mth must be one of asc, desc"))
        }
    }

    /// The value as a JSON value: the string of its wire code.
    pub fn to_json(&self) -> (r: Json)
        ensures
            r@ == JsonView::Text(self.wire()),
    {
        Json::text(self.as_wire())
    }

    /// Reads a value from a JSON value. A string is read as
    /// [`Self::from_wire`] reads it; any other value is rejected.
    pub fn from_json(value: &Json) -> (r: Result<Self, MyValidationError>)
        ensures
            match text_of_json(value@) {
                Some(code) => match r {
                    Ok(read) => Self::of_wire(code) == Some(read),
                    Err(e) => Self::of_wire(code) is None && e.value@ == code && e.message@
                        == "sort_mth must be one of asc, desc"@,
                },
                None => r matches Err(e) && e.value@ == Seq::<char>::empty() && e.message@
                    == "a JSON string is expected"@,
            },
    {
        match value.as_text() {
            Some(code) => Self::from_wire(code.as_str()),
            None => {
                proof {
                    reveal_strlit("");
                    assert(""@ =~= Seq::<char>::empty());
                }
                Err(MyValidationError::new("", "a JSON string is expected"))
            },
        }
    }

    /// The value rendered for display: its name.
    pub fn to_string(&self) -> (r: String)
        ensures
            r@ == self.name(),
    {
        match self {
            SortMth::Asc => "Asc".to_owned(),
            SortMth::Desc => "Desc".to_owned(),
        }
    }

    /// Every value is read back from its own wire code.
    pub proof fn lemma_wire_round_trip(value: Self)
        ensures
            Self::of_wire(value.wire()) == Some(value),
    {
        reveal_strlit("asc");
        reveal_strlit("desc");
        assert("asc"@.len() == 3);
        assert("asc"@[0] == 'a');
        assert("asc"@[1] == 's');
        assert("asc"@[2] == 'c');
        assert("desc"@.len() == 4);
        assert("desc"@[0] == 'd');
        assert("desc"@[1] == 'e');
        assert("desc"@[2] == 's');
        assert("desc"@[3] == 'c');
    }
}

} // verus!
