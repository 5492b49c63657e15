//! The class of a disclosure.

use crate::error::MyValidationError;
use crate::json::{text_of_json, Json, JsonView};
use crate::text::same_text;
use vstd::prelude::*;
use vstd::string::*;

verus! {

broadcast use vstd::string::group_string_axioms;

/// The class of a disclosure, which the registry writes as one letter.
#[derive(Debug, Clone, Copy, Eq, PartialEq, Structural, Ord, PartialOrd, Hash)]
pub enum PblntfTy {
    /// Periodic disclosure.
    A,
    /// Report on material matters.
    B,
    /// Disclosure of an issue of securities.
    C,
    /// Disclosure of holdings.
    D,
    /// Other disclosure.
    E,
    /// Disclosure on the external audit.
    F,
    /// Disclosure of a fund.
    G,
    /// Asset-backed securitisation.
    H,
    /// Disclosure by the exchange.
    I,
    /// Disclosure by the fair trade commission.
    J,
}

impl PblntfTy {
    /// The code that stands for this value on the wire.
    pub open spec fn wire(self) -> Seq<char> {
        match self {
            PblntfTy::A => "A"@,
            PblntfTy::B => "B"@,
            PblntfTy::C => "C"@,
            PblntfTy::D => "D"@,
            PblntfTy::E => "E"@,
            PblntfTy::F => "F"@,
            PblntfTy::G => "G"@,
            PblntfTy::H => "H"@,
            PblntfTy::I => "I"@,
            PblntfTy::J => "J"@,
        }
    }

    /// The value that the wire code `code` stands for, if it stands for one.
    pub open spec fn of_wire(code: Seq<char>) -> Option<Self> {
        if code == "A"@ {
            Some(PblntfTy::A)
        }         else if code == "B"@ {
            Some(PblntfTy::B)
        }         else if code == "C"@ {
            Some(PblntfTy::C)
        }         else if code == "D"@ {
            Some(PblntfTy::D)
        }         else if code == "E"@ {
            Some(PblntfTy::E)
        }         else if code == "F"@ {
            Some(PblntfTy::F)
        }         else if code == "G"@ {
            Some(PblntfTy::G)
        }         else if code == "H"@ {
            Some(PblntfTy::H)
        }         else if code == "I"@ {
            Some(PblntfTy::I)
        }         else if code == "J"@ {
            Some(PblntfTy::J)
        } else {
            None
        }
    }

    /// The name of this value, as it is displayed.
    pub open spec fn name(self) -> Seq<char> {
        match self {
            PblntfTy::A => "A"@,
            PblntfTy::B => "B"@,
            PblntfTy::C => "C"@,
            PblntfTy::D => "D"@,
            PblntfTy::E => "E"@,
            PblntfTy::F => "F"@,
            PblntfTy::G => "G"@,
            PblntfTy::H => "H"@,
            PblntfTy::I => "I"@,
            PblntfTy::J => "J"@,
        }
    }

    /// The code that stands for this value on the wire.
    pub fn as_wire(&self) -> (r: &'static str)
        ensures
            r@ == self.wire(),
    {
        match self {
            PblntfTy::A => "A",
            PblntfTy::B => "B",
            PblntfTy::C => "C",
            PblntfTy::D => "D",
            PblntfTy::E => "E",
            PblntfTy::F => "F",
            PblntfTy::G => "G",
            PblntfTy::H => "H",
            PblntfTy::I => "I",
            PblntfTy::J => "J",
        }
    }

    /// Reads a value from its wire code.
    ///
    /// Succeeds exactly when `code` is the wire code of a value, and the
    /// result is then that value. Otherwise the error carries `code` and
    /// lists the codes there are.
    pub fn from_wire(code: &str) -> (r: Result<Self, MyValidationError>)
        ensures
            match r {
                Ok(value) => Self::of_wire(code@) == Some(value),
                Err(e) => Self::of_wire(code@) is None && e.value@ == code@ && e.message@
                    == "pblntf_ty must be one of A, B, C, D, E, F, G, H, I, J"@,
            },
    {
        if same_text(code, "A") {
            Ok(PblntfTy::A)
        }         else if same_text(code, "B") {
            Ok(PblntfTy::B)
        }         else if same_text(code, "C") {
            Ok(PblntfTy::C)
        }         else if same_text(code, "D") {
            Ok(PblntfTy::D)
        }         else if same_text(code, "E") {
            Ok(PblntfTy::E)
        }         else if same_text(code, "F") {
            Ok(PblntfTy::F)
        }         else if same_text(code, "G") {
            Ok(PblntfTy::G)
        }         else if same_text(code, "H") {
            Ok(PblntfTy::H)
        }         else if same_text(code, "I") {
            Ok(PblntfTy::I)
        }         else if same_text(code, "J") {
            Ok(PblntfTy::J)
        } else {
            Err(
                MyValidationError::new(code, "pblntf_ty must be one of A, B, C, D, E, F, G, H, I, J"),
            )
        }
    }

    /// The value as a JSON value: the string of its wire code.
    pub fn to_json(&self) -> (r: Json)
        ensures
            r@ == JsonView::Text(self.wire()),
    {
        Json::text(self.as_wire())
    }

    /// Reads a value from a JSON value. A string is read as
    /// [`Self::from_wire`] reads it; any other value is rejected.
    pub fn from_json(value: &Json) -> (r: Result<Self, MyValidationError>)
        ensures
            match text_of_json(value@) {
                Some(code) => match r {
                    Ok(read) => Self::of_wire(code) == Some(read),
                    Err(e) => Self::of_wire(code) is None && e.value@ == code && e.message@
                        == "pblntf_ty must be one of A, B, C, D, E, F, G, H, I, J"@,
                },
                None => r matches Err(e) && e.value@ == Seq::<char>::empty() && e.message@
                    == "a JSON string is expected"@,
            },
    {
        match value.as_text() {
            Some(code) => Self::from_wire(code.as_str()),
            None => {
                proof {
                    reveal_strlit("");
                    assert(""@ =~= Seq::<char>::empty());
                }
                Err(MyValidationError::new("", "a JSON string is expected"))
            },
        }
    }

    /// The value rendered for display: its name.
    pub fn to_string(&self) -> (r: String)
        ensures
            r@ == self.name(),
    {
        match self {
            PblntfTy::A => "A".to_owned(),
            PblntfTy::B => "B".to_owned(),
            PblntfTy::C => "C".to_owned(),
            PblntfTy::D => "D".to_owned(),
            PblntfTy::E => "E".to_owned(),
            PblntfTy::F => "F".to_owned(),
            PblntfTy::G => "G".to_owned(),
            PblntfTy::H => "H".to_owned(),
            PblntfTy::I => "I".to_owned(),
            PblntfTy::J => "J".to_owned(),
        }
    }

    /// Every value is read back from its own wire code.
    pub proof fn lemma_wire_round_trip(value: Self)
        ensures
            Self::of_wire(value.wire()) == Some(value),
    {
        reveal_strlit("A");
        reveal_strlit("B");
        reveal_strlit("C");
        reveal_strlit("D");
        reveal_strlit("E");
        reveal_strlit("F");
        reveal_strlit("G");
        reveal_strlit("H");
        reveal_strlit("I");
        reveal_strlit("J");
        assert("A"@.len() == 1);
        assert("A"@[0] == 'A');
        assert("B"@.len() == 1);
        assert("B"@[0] == 'B');
        assert("C"@.len() == 1);
        assert("C"@[0] == 'C');
        assert("D"@.len() == 1);
        assert("D"@[0] == 'D');
        assert("E"@.len() == 1);
        assert("E"@[0] == 'E');
        assert("F"@.len() == 1);
        assert("F"@[0] == 'F');
        assert("G"@.len() == 1);
        assert("G"@[0] == 'G');
        assert("H"@.len() == 1);
        assert("H"@[0] == 'H');
        assert("I"@.len() == 1);
        assert("I"@[0] == 'I');
        assert("J"@.len() == 1);
        assert("J"@[0] == 'J');
    }
}

} // verus!
