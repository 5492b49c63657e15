//! Separate or consolidated financial statements.

use crate::error::MyValidationError;
use crate::json::{text_of_json, Json, JsonView};
use crate::text::same_text;
use vstd::prelude::*;
use vstd::string::*;

verus! {

broadcast use vstd::string::group_string_axioms;

/// Whether financial statements are those of the company alone or
/// consolidated ones.
#[derive(Debug, Clone, Copy, Eq, PartialEq, Structural, Ord, PartialOrd, Hash)]
pub enum FsDiv {
    /// The statements of the company alone.
    OFS,
    /// The consolidated statements.
    CFS,
}

impl FsDiv {
    /// The code that stands for this value on the wire.
    pub open spec fn wire(self) -> Seq<char> {
        match self {
            FsDiv::OFS => "OFS"@,
            FsDiv::CFS => "CFS"@,
        }
    }

    /// The value that the wire code `code` stands for, if it stands for one.
    pub open spec fn of_wire(code: Seq<char>) -> Option<Self> {
        if code == "OFS"@ {
            Some(FsDiv::OFS)
        }         else if code == "CFS"@ {
            Some(FsDiv::CFS)
        } else {
            None
        }
    }

    /// The name of this value, as it is displayed.
    pub open spec fn name(self) -> Seq<char> {
        match self {
            FsDiv::OFS => "OFS"@,
            FsDiv::CFS => "CFS"@,
        }
    }

    /// The code that stands for this value on the wire.
    pub fn as_wire(&self) -> (r: &'static str)
        ensures
            r@ == self.wire(),
    {
        match self {
            FsDiv::OFS => "OFS",
            FsDiv::CFS => "CFS",
        }
    }

    /// Reads a value from its wire code.
    ///
    /// Succeeds exactly when `code` is the wire code of a value, and the
    /// result is then that value. Otherwise the error carries `code` and
    /// lists the codes there are.
    pub fn from_wire(code: &str) -> (r: Result<Self, MyValidationError>)
        ensures
            match r {
                Ok(value) => Self::of_wire(code@) == Some(value),
                Err(e) => Self::of_wire(code@) is None && e.value@ == code@ && e.message@
                    == "fs_div must be one of OFS, CFS"@,
            },
    {
        if same_text(code, "OFS") {
            Ok(FsDiv::OFS)
        }         else if same_text(code, "CFS") {
            Ok(FsDiv::CFS)
        } else {
            Err(MyValidationError::new(code, "fs_div must be one of OFS, CFS"))
        }
    }

    /// The value as a JSON value: the string of its wire code.
    pub fn to_json(&self) -> (r: Json)
        ensures
            r@ == JsonView::Text(self.wire()),
    {
        Json::text(self.as_wire())
    }

    /// Reads a value from a JSON value. A string is read as
    /// [`Self::from_wire`] reads it; any other value is rejected.
    pub fn from_json(value: &Json) -> (r: Result<Self, MyValidationError>)
        ensures
            match text_of_json(value@) {
                Some(code) => match r {
                    Ok(read) => Self::of_wire(code) == Some(read),
                    Err(e) => Self::of_wire(code) is None && e.value@ == code && e.message@
                        == "fs_div must be one of OFS, CFS"@,
                },
                None => r matches Err(e) && e.value@ == Seq::<char>::empty() && e.message@
                    == "a JSON string is expected"@,
            },
    {
        match value.as_text() {
            Some(code) => Self::from_wire(code.as_str()),
            None => {
                proof {
                    reveal_strlit("");
                    assert(""@ =~= Seq::<char>::empty());
                }
                Err(MyValidationError::new("", "a JSON string is expected"))
            },
        }
    }

    /// The value rendered for display: its name.
    pub fn to_string(&self) -> (r: String)
        ensures
            r@ == self.name(),
    {
        match self {
            FsDiv::OFS => "OFS".to_owned(),
            FsDiv::CFS => "CFS".to_owned(),
        }
    }

    /// Every value is read back from its own wire code.
    pub proof fn lemma_wire_round_trip(value: Self)
        ensures
            Self::of_wire(value.wire()) == Some(value),
    {
        reveal_strlit("OFS");
        reveal_strlit("CFS");
        assert("OFS"@.len() == 3);
        assert("OFS"@[0] == 'O');
        assert("OFS"@[1] == 'F');
        assert("OFS"@[2] == 'S');
        assert("CFS"@.len() == 3);
        assert("CFS"@[0] == 'C');
        assert("CFS"@[1] == 'F');
        assert("CFS"@[2] == 'S');
    }
}

} // verus!
