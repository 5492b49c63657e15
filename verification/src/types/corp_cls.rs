//! The market a company is listed on.

use crate::error::MyValidationError;
use crate::json::{text_of_json, Json, JsonView};
use crate::text::same_text;
use vstd::prelude::*;
use vstd::string::*;

verus! {

broadcast use vstd::string::group_string_axioms;

/// The class of a company by the market it is listed on.
#[derive(Debug, Clone, Copy, Eq, PartialEq, Structural, Ord, PartialOrd, Hash)]
pub enum CorpCls {
    /// The main board (KOSPI).
    Y,
    /// KOSDAQ.
    K,
    /// KONEX.
    N,
    /// Any other company.
    E,
}

impl CorpCls {
    /// The code that stands for this value on the wire.
    pub open spec fn wire(self) -> Seq<char> {
        match self {
            CorpCls::Y => "Y"@,
            CorpCls::K => "K"@,
            CorpCls::N => "N"@,
            CorpCls::E => "E"@,
        }
    }

    /// The value that the wire code `code` stands for, if it stands for one.
    pub open spec fn of_wire(code: Seq<char>) -> Option<Self> {
        if code == "Y"@ {
            Some(CorpCls::Y)
        }         else if code == "K"@ {
            Some(CorpCls::K)
        }         else if code == "N"@ {
            Some(CorpCls::N)
        }         else if code == "E"@ {
            Some(CorpCls::E)
        } else {
            None
        }
    }

    /// The name of this value, as it is displayed.
    pub open spec fn name(self) -> Seq<char> {
        match self {
            CorpCls::Y => "Y"@,
            CorpCls::K => "K"@,
            CorpCls::N => "N"@,
            CorpCls::E => "E"@,
        }
    }

    /// The code that stands for this value on the wire.
    pub fn as_wire(&self) -> (r: &'static str)
        ensures
            r@ == self.wire(),
    {
        match self {
            CorpCls::Y => "Y",
            CorpCls::K => "K",
            CorpCls::N => "N",
            CorpCls::E => "E",
        }
    }

    /// Reads a value from its wire code.
    ///
    /// Succeeds exactly when `code` is the wire code of a value, and the
    /// result is then that value. Otherwise the error carries `code` and
    /// lists the codes there are.
    pub fn from_wire(code: &str) -> (r: Result<Self, MyValidationError>)
        ensures
            match r {
                Ok(value) => Self::of_wire(code@) == Some(value),
                Err(e) => Self::of_wire(code@) is None && e.value@ == code@ && e.message@
                    == "corp_cls must be one of Y, K, N, E"@,
            },
    {
        if same_text(code, "Y") {
            Ok(CorpCls::Y)
        }         else if same_text(code, "K") {
            Ok(CorpCls::K)
        }         else if same_text(code, "N") {
            Ok(CorpCls::N)
        }         else if same_text(code, "E") {
            Ok(CorpCls::E)
        } else {
            Err(MyValidationError::new(code, "corp_cls must be one of Y, K, N, E"))
        }
    }

    /// The value as a JSON value: the string of its wire code.
    pub fn to_json(&self) -> (r: Json)
        ensures
            r@ == JsonView::Text(self.wire()),
    {
        Json::text(self.as_wire())
    }

    /// Reads a value from a JSON value. A string is read as
    /// [`Self::from_wire`] reads it; any other value is rejected.
    pub fn from_json(value: &Json) -> (r: Result<Self, MyValidationError>)
        ensures
            match text_of_json(value@) {
                Some(code) => match r {
                    Ok(read) => Self::of_wire(code) == Some(read),
                    Err(e) => Self::of_wire(code) is None && e.value@ == code && e.message@
                        == "corp_cls must be one of Y, K, N, E"@,
                },
                None => r matches Err(e) && e.value@ == Seq::<char>::empty() && e.message@
                    == "a JSON string is expected"@,
            },
    {
        match value.as_text() {
            Some(code) => Self::from_wire(code.as_str()),
            None => {
                proof {
                    reveal_strlit("");
                    assert(""@ =~= Seq::<char>::empty());
                }
                Err(MyValidationError::new("", "a JSON string is expected"))
            },
        }
    }

    /// The value rendered for display: its name.
    pub fn to_string(&self) -> (r: String)
        ensures
            r@ == self.name(),
    {
        match self {
            CorpCls::Y => "Y".to_owned(),
            CorpCls::K => "K".to_owned(),
            CorpCls::N => "N".to_owned(),
            CorpCls::E => "E".to_owned(),
        }
    }

    /// Every value is read back from its own wire code.
    pub proof fn lemma_wire_round_trip(value: Self)
        ensures
            Self::of_wire(value.wire()) == Some(value),
    {
        reveal_strlit("Y");
        reveal_strlit("K");
        reveal_strlit("N");
        reveal_strlit("E");
        assert("Y"@.len() == 1);
        assert("Y"@[0] == 'Y');
        assert("K"@.len() == 1);
        assert("K"@[0] == 'K');
        assert("N"@.len() == 1);
        assert("N"@[0] == 'N');
        assert("E"@.len() == 1);
        assert("E"@[0] == 'E');
    }
}

} // verus!
