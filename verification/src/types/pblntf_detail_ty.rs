//! The detailed class of a disclosure.

use crate::error::MyValidationError;
use crate::json::{text_of_json, Json, JsonView};
use crate::text::{digit_char, digit_str, digit_value, is_digit_char};
use crate::types::pblntf_ty::PblntfTy;
use vstd::prelude::*;
use vstd::string::*;

verus! {

broadcast use vstd::string::group_string_axioms;

/// The detailed class of a disclosure: the class it belongs to and its
/// number within that class. The registry writes it as the letter of the
/// class and the number in three digits, such as `F001`.
#[derive(Debug, Clone, Copy, Eq, PartialEq, Ord, PartialOrd, Hash)]
pub struct PblntfDetailTy {
    group: PblntfTy,
    number: u8,
}

/// Plain-value model of a [`PblntfDetailTy`].
pub struct PblntfDetailTyView {
    pub group: PblntfTy,
    pub number: int,
}

impl View for PblntfDetailTy {
    type V = PblntfDetailTyView;

    closed spec fn view(&self) -> PblntfDetailTyView {
        PblntfDetailTyView { group: self.group, number: self.number as int }
    }
}

/// Whether the class `group` has a detailed class with the number `number`.
pub open spec fn is_detail(group: PblntfTy, number: int) -> bool {
    match group {
        PblntfTy::A => 1 <= number <= 5,
        PblntfTy::B => 1 <= number <= 3,
        PblntfTy::C => 1 <= number <= 11,
        PblntfTy::D => 1 <= number <= 5,
        PblntfTy::E => 1 <= number <= 9,
        PblntfTy::F => 1 <= number <= 5,
        PblntfTy::G => 1 <= number <= 3,
        PblntfTy::H => 1 <= number <= 6,
        PblntfTy::I => 1 <= number <= 6,
        PblntfTy::J => 1 <= number <= 9 && number != 3 && number != 7,
    }
}

/// The letter that stands for a class.
pub open spec fn group_letter(group: PblntfTy) -> char {
    match group {
        PblntfTy::A => 'A',
        PblntfTy::B => 'B',
        PblntfTy::C => 'C',
        PblntfTy::D => 'D',
        PblntfTy::E => 'E',
        PblntfTy::F => 'F',
        PblntfTy::G => 'G',
        PblntfTy::H => 'H',
        PblntfTy::I => 'I',
        PblntfTy::J => 'J',
    }
}

/// The class that a letter stands for, if it stands for one.
pub open spec fn group_of(letter: char) -> Option<PblntfTy> {
    if letter == 'A' {
        Some(PblntfTy::A)
    } else if letter == 'B' {
        Some(PblntfTy::B)
    } else if letter == 'C' {
        Some(PblntfTy::C)
    } else if letter == 'D' {
        Some(PblntfTy::D)
    } else if letter == 'E' {
        Some(PblntfTy::E)
    } else if letter == 'F' {
        Some(PblntfTy::F)
    } else if letter == 'G' {
        Some(PblntfTy::G)
    } else if letter == 'H' {
        Some(PblntfTy::H)
    } else if letter == 'I' {
        Some(PblntfTy::I)
    } else if letter == 'J' {
        Some(PblntfTy::J)
    } else {
        None
    }
}

/// The wire code of a detailed class: the letter of its class and its
/// number in three digits.
pub open spec fn detail_wire(detail: PblntfDetailTyView) -> Seq<char> {
    seq![
        group_letter(detail.group),
        digit_char((detail.number / 100 % 10) as nat),
        digit_char((detail.number / 10 % 10) as nat),
        digit_char((detail.number % 10) as nat),
    ]
}

/// The detailed class that the wire code `code` stands for, if it stands
/// for one: a letter of a class, then three digits that give a number the
/// class has.
pub open spec fn detail_of(code: Seq<char>) -> Option<PblntfDetailTyView> {
    if code.len() == 4 && group_of(code[0]) is Some && is_digit_char(code[1]) && is_digit_char(
        code[2],
    ) && is_digit_char(code[3]) {
        let group = group_of(code[0])->0;
        let number = (digit_value(code[1]) * 100 + digit_value(code[2]) * 10 + digit_value(
            code[3],
        )) as int;
        if is_detail(group, number) {
            Some(PblntfDetailTyView { group, number })
        } else {
            None
        }
    } else {
        None
    }
}

impl PblntfDetailTy {
    #[verifier::type_invariant]
    spec fn well_formed(&self) -> bool {
        is_detail(self.group, self.number as int)
    }

    /// The detailed class of the class `group` with the number `number`, if
    /// the class has one.
    pub fn new(group: PblntfTy, number: u8) -> (r: Option<Self>)
        ensures
            r is Some <==> is_detail(group, number as int),
            r matches Some(detail) ==> detail@ == (PblntfDetailTyView {
                group,
                number: number as int,
            }),
    {
        let known = match group {
            PblntfTy::A => 1 <= number && number <= 5,
            PblntfTy::B => 1 <= number && number <= 3,
            PblntfTy::C => 1 <= number && number <= 11,
            PblntfTy::D => 1 <= number && number <= 5,
            PblntfTy::E => 1 <= number && number <= 9,
            PblntfTy::F => 1 <= number && number <= 5,
            PblntfTy::G => 1 <= number && number <= 3,
            PblntfTy::H => 1 <= number && number <= 6,
            PblntfTy::I => 1 <= number && number <= 6,
            PblntfTy::J => 1 <= number && number <= 9 && number != 3 && number != 7,
        };
        if known {
            Some(PblntfDetailTy { group, number })
        } else {
            None
        }
    }

    /// Reads a detailed class from its wire code.
    ///
    /// Succeeds exactly when `code` is the wire code of a detailed class,
    /// and the result is then that class. Otherwise the error carries
    /// `code`.
    pub fn from_wire(code: &str) -> (r: Result<Self, MyValidationError>)
        ensures
            match r {
                Ok(detail) => detail_of(code@) == Some(detail@),
                Err(e) => detail_of(code@) is None && e.value@ == code@ && e.message@
                    == "pblntf_detail_ty must be the letter of a class and a number of that class"@,
            },
    {
        if code.unicode_len() == 4 {
            let group = match Self::group(code.get_char(0)) {
                Some(group) => group,
                None => {
                    return Err(Self::unknown(code));
                },
            };
            let c1 = code.get_char(1);
            let c2 = code.get_char(2);
            let c3 = code.get_char(3);
            if '0' <= c1 && c1 <= '9' && '0' <= c2 && c2 <= '9' && '0' <= c3 && c3 <= '9' {
                let number = (c1 as u32 - '0' as u32) * 100 + (c2 as u32 - '0' as u32) * 10 + (
                c3 as u32 - '0' as u32);
                if number <= 255 {
                    if let Some(detail) = Self::new(group, number as u8) {
                        return Ok(detail);
                    }
                }
            }
        }
        Err(Self::unknown(code))
    }

    fn unknown(code: &str) -> (e: MyValidationError)
        ensures
            e.value@ == code@,
            e.message@
                == "pblntf_detail_ty must be the letter of a class and a number of that class"@,
    {
        MyValidationError::new(
            code,
            "pblntf_detail_ty must be the letter of a class and a number of that class",
        )
    }

    fn group(letter: char) -> (r: Option<PblntfTy>)
        ensures
            r == group_of(letter),
    {
        if letter == 'A' {
            Some(PblntfTy::A)
        } else if letter == 'B' {
            Some(PblntfTy::B)
        } else if letter == 'C' {
            Some(PblntfTy::C)
        } else if letter == 'D' {
            Some(PblntfTy::D)
        } else if letter == 'E' {
            Some(PblntfTy::E)
        } else if letter == 'F' {
            Some(PblntfTy::F)
        } else if letter == 'G' {
            Some(PblntfTy::G)
        } else if letter == 'H' {
            Some(PblntfTy::H)
        } else if letter == 'I' {
            Some(PblntfTy::I)
        } else if letter == 'J' {
            Some(PblntfTy::J)
        } else {
            None
        }
    }

    /// The class this detailed class belongs to.
    pub fn class(&self) -> (r: PblntfTy)
        ensures
            r == self@.group,
    {
        self.group
    }

    /// The number of this detailed class within its class.
    pub fn number(&self) -> (r: u8)
        ensures
            r == self@.number,
            is_detail(self@.group, self@.number),
    {
        proof {
            use_type_invariant(self);
        }
        self.number
    }

    /// The wire code of this detailed class.
    pub fn as_wire(&self) -> (r: String)
        ensures
            r@ == detail_wire(self@),
            is_detail(self@.group, self@.number),
    {
        proof {
            use_type_invariant(self);
            PblntfTy::lemma_wire_is_its_letter(self.group);
        }
        let out = self.group.as_wire().to_owned();
        let out = out.concat(digit_str(self.number / 100 % 10));
        let out = out.concat(digit_str(self.number / 10 % 10));
        let out = out.concat(digit_str(self.number % 10));
        assert(out@ =~= detail_wire(self@));
        out
    }

    /// The detailed class as a JSON value: the string of its wire code.
    pub fn to_json(&self) -> (r: Json)
        ensures
            r@ == JsonView::Text(detail_wire(self@)),
    {
        Json::Text(self.as_wire())
    }

    /// Reads a detailed class from a JSON value. A string is read as
    /// [`Self::from_wire`] reads it; any other value is rejected.
    pub fn from_json(value: &Json) -> (r: Result<Self, MyValidationError>)
        ensures
            match text_of_json(value@) {
                Some(code) => match r {
                    Ok(detail) => detail_of(code) == Some(detail@),
                    Err(e) => detail_of(code) is None && e.value@ == code,
                },
                None => r matches Err(e) && e.value@ == Seq::<char>::empty() && e.message@
                    == "a JSON string is expected"@,
            },
    {
        match value.as_text() {
            Some(code) => Self::from_wire(code.as_str()),
            None => {
                proof {
                    reveal_strlit("");
                    assert(""@ =~= Seq::<char>::empty());
                }
                Err(MyValidationError::new("", "a JSON string is expected"))
            },
        }
    }

    /// The detailed class rendered for display: its wire code.
    pub fn to_string(&self) -> (r: String)
        ensures
            r@ == detail_wire(self@),
    {
        self.as_wire()
    }

    /// Every detailed class is read back from its own wire code.
    pub proof fn lemma_wire_round_trip(detail: PblntfDetailTyView)
        requires
            is_detail(detail.group, detail.number),
        ensures
            detail_of(detail_wire(detail)) == Some(detail),
    {
    }
}

impl PblntfTy {
    /// The wire code of a class is its letter.
    pub proof fn lemma_wire_is_its_letter(group: PblntfTy)
        ensures
            group.wire() == seq![group_letter(group)],
    {
        reveal_strlit("A");
        reveal_strlit("B");
        reveal_strlit("C");
        reveal_strlit("D");
        reveal_strlit("E");
        reveal_strlit("F");
        reveal_strlit("G");
        reveal_strlit("H");
        reveal_strlit("I");
        reveal_strlit("J");
        assert(group.wire() =~= seq![group_letter(group)]);
    }
}

} // verus!
