//! The kind of periodic report.

use crate::error::MyValidationError;
use crate::json::{text_of_json, Json, JsonView};
use crate::text::same_text;
use vstd::prelude::*;
use vstd::string::*;

verus! {

broadcast use vstd::string::group_string_axioms;

/// The kind of a periodic report, which the registry writes as a
/// five-digit code.
#[derive(Debug, Clone, Copy, Eq, PartialEq, Structural, Ord, PartialOrd, Hash)]
pub enum ReprtCode {
    /// The report of the first quarter.
    Q1,
    /// The half-year report.
    Q2,
    /// The report of the third quarter.
    Q3,
    /// The annual report.
    YE,
}

impl ReprtCode {
    /// The code that stands for this value on the wire.
    pub open spec fn wire(self) -> Seq<char> {
        match self {
            ReprtCode::Q1 => "11013"@,
            ReprtCode::Q2 => "11012"@,
            ReprtCode::Q3 => "11014"@,
            ReprtCode::YE => "11011"@,
        }
    }

    /// The value that the wire code `code` stands for, if it stands for one.
    pub open spec fn of_wire(code: Seq<char>) -> Option<Self> {
        if code == "11013"@ {
            Some(ReprtCode::Q1)
        }         else if code == "11012"@ {
            Some(ReprtCode::Q2)
        }         else if code == "11014"@ {
            Some(ReprtCode::Q3)
        }         else if code == "11011"@ {
            Some(ReprtCode::YE)
        } else {
            None
        }
    }

    /// The name of this value, as it is displayed.
    pub open spec fn name(self) -> Seq<char> {
        match self {
            ReprtCode::Q1 => "Q1"@,
            ReprtCode::Q2 => "Q2"@,
            ReprtCode::Q3 => "Q3"@,
            ReprtCode::YE => "YE"@,
        }
    }

    /// The code that stands for this value on the wire.
    pub fn as_wire(&self) -> (r: &'static str)
        ensures
            r@ == self.wire(),
    {
        match self {
            ReprtCode::Q1 => "11013",
            ReprtCode::Q2 => "11012",
            ReprtCode::Q3 => "11014",
            ReprtCode::YE => "11011",
        }
    }

    /// Reads a value from its wire code.
    ///
    /// Succeeds exactly when `code` is the wire code of a value, and the
    /// result is then that value. Otherwise the error carries `code` and
    /// lists the codes there are.
    pub fn from_wire(code: &str) -> (r: Result<Self, MyValidationError>)
        ensures
            match r {
                Ok(value) => Self::of_wire(code@) == Some(value),
                Err(e) => Self::of_wire(code@) is None && e.value@ == code@ && e.message@
                    == "reprt_code must be one of 11013, 11012, 11014, 11011"@,
            },
    {
        if same_text(code, "11013") {
            Ok(ReprtCode::Q1)
        }         else if same_text(code, "11012") {
            Ok(ReprtCode::Q2)
        }         else if same_text(code, "11014") {
            Ok(ReprtCode::Q3)
        }         else if same_text(code, "11011") {
            Ok(ReprtCode::YE)
        } else {
            Err(
                MyValidationError::new(code, "reprt_code must be one of 11013, 11012, 11014, 11011"),
            )
        }
    }

    /// The value as a JSON value: the string of its wire code.
    pub fn to_json(&self) -> (r: Json)
        ensures
            r@ == JsonView::Text(self.wire()),
    {
        Json::text(self.as_wire())
    }

    /// Reads a value from a JSON value. A string is read as
    /// [`Self::from_wire`] reads it; any other value is rejected.
    pub fn from_json(value: &Json) -> (r: Result<Self, MyValidationError>)
        ensures
            match text_of_json(value@) {
                Some(code) => match r {
                    Ok(read) => Self::of_wire(code) == Some(read),
                    Err(e) => Self::of_wire(code) is None && e.value@ == code && e.message@
                        == "reprt_code must be one of 11013, 11012, 11014, 11011"@,
                },
                None => r matches Err(e) && e.value@ == Seq::<char>::empty() && e.message@
                    == "a JSON string is expected"@,
            },
    {
        match value.as_text() {
            Some(code) => Self::from_wire(code.as_str()),
            None => {
                proof {
                    reveal_strlit("");
                    assert(""@ =~= Seq::<char>::empty());
                }
                Err(MyValidationError::new("", "a JSON string is expected"))
            },
        }
    }

    /// The value rendered for display: its name.
    pub fn to_string(&self) -> (r: String)
        ensures
            r@ == self.name(),
    {
        match self {
            ReprtCode::Q1 => "Q1".to_owned(),
            ReprtCode::Q2 => "Q2".to_owned(),
            ReprtCode::Q3 => "Q3".to_owned(),
            ReprtCode::YE => "YE".to_owned(),
        }
    }

    /// Every value is read back from its own wire code.
    pub proof fn lemma_wire_round_trip(value: Self)
        ensures
            Self::of_wire(value.wire()) == Some(value),
    {
        reveal_strlit("11013");
        reveal_strlit("11012");
        reveal_strlit("11014");
        reveal_strlit("11011");
        assert("11013"@.len() == 5);
        assert("11013"@[0] == '1');
        assert("11013"@[1] == '1');
        assert("11013"@[2] == '0');
        assert("11013"@[3] == '1');
        assert("11013"@[4] == '3');
        assert("11012"@.len() == 5);
        assert("11012"@[0] == '1');
        assert("11012"@[1] == '1');
        assert("11012"@[2] == '0');
        assert("11012"@[3] == '1');
        assert("11012"@[4] == '2');
        assert("11014"@.len() == 5);
        assert("11014"@[0] == '1');
        assert("11014"@[1] == '1');
        assert("11014"@[2] == '0');
        assert("11014"@[3] == '1');
        assert("11014"@[4] == '4');
        assert("11011"@.len() == 5);
        assert("11011"@[0] == '1');
        assert("11011"@[1] == '1');
        assert("11011"@[2] == '0');
        assert("11011"@[3] == '1');
        assert("11011"@[4] == '1');
    }
}

} // verus!
