//! The kind of financial statement.

use crate::error::MyValidationError;
use crate::json::{text_of_json, Json, JsonView};
use crate::text::same_text;
use vstd::prelude::*;
use vstd::string::*;

verus! {

broadcast use vstd::string::group_string_axioms;

/// The kind of a financial statement.
#[derive(Debug, Clone, Copy, Eq, PartialEq, Structural, Ord, PartialOrd, Hash)]
pub enum SjDiv {
    /// The balance sheet.
    BS,
    /// The income statement.
    IS,
    /// The statement of comprehensive income.
    CIS,
    /// The cash-flow statement.
    CF,
    /// The statement of changes in equity.
    SCE,
}

impl SjDiv {
    /// The code that stands for this value on the wire.
    pub open spec fn wire(self) -> Seq<char> {
        match self {
            SjDiv::BS => "BS"@,
            SjDiv::IS => "IS"@,
            SjDiv::CIS => "CIS"@,
            SjDiv::CF => "CF"@,
            SjDiv::SCE => "SCE"@,
        }
    }

    /// The value that the wire code `code` stands for, if it stands for one.
    pub open spec fn of_wire(code: Seq<char>) -> Option<Self> {
        if code == "BS"@ {
            Some(SjDiv::BS)
        }         else if code == "IS"@ {
            Some(SjDiv::IS)
        }         else if code == "CIS"@ {
            Some(SjDiv::CIS)
        }         else if code == "CF"@ {
            Some(SjDiv::CF)
        }         else if code == "SCE"@ {
            Some(SjDiv::SCE)
        } else {
            None
        }
    }

    /// The name of this value, as it is displayed.
    pub open spec fn name(self) -> Seq<char> {
        match self {
            SjDiv::BS => "BS"@,
            SjDiv::IS => "IS"@,
            SjDiv::CIS => "CIS"@,
            SjDiv::CF => "CF"@,
            SjDiv::SCE => "SCE"@,
        }
    }

    /// The code that stands for this value on the wire.
    pub fn as_wire(&self) -> (r: &'static str)
        ensures
            r@ == self.wire(),
    {
        match self {
            SjDiv::BS => "BS",
            SjDiv::IS => "IS",
            SjDiv::CIS => "CIS",
            SjDiv::CF => "CF",
            SjDiv::SCE => "SCE",
        }
    }

    /// Reads a value from its wire code.
    ///
    /// Succeeds exactly when `code` is the wire code of a value, and the
    /// result is then that value. Otherwise the error carries `code` and
    /// lists the codes there are.
    pub fn from_wire(code: &str) -> (r: Result<Self, MyValidationError>)
        ensures
            match r {
                Ok(value) => Self::of_wire(code@) == Some(value),
                Err(e) => Self::of_wire(code@) is None && e.value@ == code@ && e.message@
                    == "sj_div must be one of BS, IS, CIS, CF, SCE"@,
            },
    {
        if same_text(code, "BS") {
            Ok(SjDiv::BS)
        }         else if same_text(code, "IS") {
            Ok(SjDiv::IS)
        }         else if same_text(code, "CIS") {
            Ok(SjDiv::CIS)
        }         else if same_text(code, "CF") {
            Ok(SjDiv::CF)
        }         else if same_text(code, "SCE") {
            Ok(SjDiv::SCE)
        } else {
            Err(MyValidationError::new(code, "sj_div must be one of BS, IS, CIS, CF, SCE"))
        }
    }

    /// The value as a JSON value: the string of its wire code.
    pub fn to_json(&self) -> (r: Json)
        ensures
            r@ == JsonView::Text(self.wire()),
    {
        Json::text(self.as_wire())
    }

    /// Reads a value from a JSON value. A string is read as
    /// [`Self::from_wire`] reads it; any other value is rejected.
    pub fn from_json(value: &Json) -> (r: Result<Self, MyValidationError>)
        ensures
            match text_of_json(value@) {
                Some(code) => match r {
                    Ok(read) => Self::of_wire(code) == Some(read),
                    Err(e) => Self::of_wire(code) is None && e.value@ == code && e.message@
                        == "sj_div must be one of BS, IS, CIS, CF, SCE"@,
                },
                None => r matches Err(e) && e.value@ == Seq::<char>::empty() && e.message@
                    == "a JSON string is expected"@,
            },
    {
        match value.as_text() {
            Some(code) => Self::from_wire(code.as_str()),
            None => {
                proof {
                    reveal_strlit("");
                    assert(""@ =~= Seq::<char>::empty());
                }
                Err(MyValidationError::new("", "a JSON string is expected"))
            },
        }
    }

    /// The value rendered for display: its name.
    pub fn to_string(&self) -> (r: String)
        ensures
            r@ == self.name(),
    {
        match self {
            SjDiv::BS => "BS".to_owned(),
            SjDiv::IS => "IS".to_owned(),
            SjDiv::CIS => "CIS".to_owned(),
            SjDiv::CF => "CF".to_owned(),
            SjDiv::SCE => "SCE".to_owned(),
        }
    }

    /// Every value is read back from its own wire code.
    pub proof fn lemma_wire_round_trip(value: Self)
        ensures
            Self::of_wire(value.wire()) == Some(value),
    {
        reveal_strlit("BS");
        reveal_strlit("IS");
        reveal_strlit("CIS");
        reveal_strlit("CF");
        reveal_strlit("SCE");
        assert("BS"@.len() == 2);
        assert("BS"@[0] == 'B');
        assert("BS"@[1] == 'S');
        assert("IS"@.len() == 2);
        assert("IS"@[0] == 'I');
        assert("IS"@[1] == 'S');
        assert("CIS"@.len() == 3);
        assert("CIS"@[0] == 'C');
        assert("CIS"@[1] == 'I');
        assert("CIS"@[2] == 'S');
        assert("CF"@.len() == 2);
        assert("CF"@[0] == 'C');
        assert("CF"@[1] == 'F');
        assert("SCE"@.len() == 3);
        assert("SCE"@[0] == 'S');
        assert("SCE"@[1] == 'C');
        assert("SCE"@[2] == 'E');
    }
}

} // verus!
