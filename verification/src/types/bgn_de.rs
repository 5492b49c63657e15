//! The first day of a search period.

use crate::error::MyValidationError;
use crate::json::{text_of_json, Json, JsonView};
use crate::types::date::{date_le, iso_date_of, iso_of, Date, DateView};
use vstd::prelude::*;
use vstd::string::*;

verus! {

broadcast use vstd::string::group_string_axioms;

/// The first day of a search period: a date that was not after the day it
/// was validated against, which is the day the value was made. It is written
/// with hyphens, `YYYY-MM-DD`. The caller says which day today is; nothing
/// here reads a clock.
#[derive(Debug, Clone, Copy, Eq, PartialEq, Ord, PartialOrd, Hash)]
pub struct BgnDe(Date);

/// The last day of a search period; the same rule holds for it.
pub type EndDe = BgnDe;

impl View for BgnDe {
    type V = DateView;

    closed spec fn view(&self) -> DateView {
        self.0@
    }
}

impl BgnDe {
    /// Validates `date` against the day `today`.
    ///
    /// Succeeds exactly when `date` is `today` or a day before it, and the
    /// result then holds `date`. Otherwise the error carries `date` in its
    /// form with hyphens.
    pub fn try_new_on(date: Date, today: &Date) -> (r: Result<Self, MyValidationError>)
        ensures
            r is Ok <==> date_le(date@, today@),
            r matches Ok(day) ==> day@ == date@,
            r matches Err(e) ==> e.value@ == iso_of(date@) && e.message@
                == "date must not be after today"@,
    {
        if date.is_on_or_before(today) {
            Ok(BgnDe(date))
        } else {
            let shown = date.to_string();
            Err(MyValidationError::new(shown.as_str(), "date must not be after today"))
        }
    }

    /// Reads the first day of a search period from its form with hyphens
    /// and validates it against the day `today`.
    ///
    /// Succeeds exactly when `value` denotes a date that is `today` or a day
    /// before it, and the result then holds that date. A text that denotes
    /// no date is rejected with the text; a date after `today` with the date
    /// in its form with hyphens.
    pub fn from_str_on(value: &str, today: &Date) -> (r: Result<Self, MyValidationError>)
        ensures
            match r {
                Ok(day) => iso_date_of(value@) == Some(day@) && date_le(day@, today@),
                Err(e) => match iso_date_of(value@) {
                    Some(date) => !date_le(date, today@) && e.value@ == iso_of(date) && e.message@
                        == "date must not be after today"@,
                    None => e.value@ == value@ && e.message@
                        == "date must be a calendar day in the form YYYY-MM-DD"@,
                },
            },
    {
        match Date::from_iso(value) {
            Ok(date) => Self::try_new_on(date, today),
            Err(e) => Err(e),
        }
    }

    /// Gives up the validated date.
    pub fn into_inner(self) -> (r: Date)
        ensures
            r@ == self@,
    {
        self.0
    }

    /// The day as it travels on the wire: with hyphens, `YYYY-MM-DD`.
    pub fn as_wire(&self) -> (r: String)
        ensures
            r@ == iso_of(self@),
    {
        self.0.to_string()
    }

    /// The day as a JSON value: the string of its wire form.
    pub fn to_json(&self) -> (r: Json)
        ensures
            r@ == JsonView::Text(iso_of(self@)),
    {
        Json::Text(self.0.to_string())
    }

    /// Reads the first day of a search period from a JSON value and
    /// validates it against the day `today`. A string is read as
    /// [`Self::from_str_on`] reads it; any other value is rejected.
    pub fn from_json_on(value: &Json, today: &Date) -> (r: Result<Self, MyValidationError>)
        ensures
            match text_of_json(value@) {
                Some(text) => match r {
                    Ok(day) => iso_date_of(text) == Some(day@) && date_le(day@, today@),
                    Err(e) => match iso_date_of(text) {
                        Some(date) => !date_le(date, today@) && e.value@ == iso_of(date)
                            && e.message@ == "date must not be after today"@,
                        None => e.value@ == text && e.message@
                            == "date must be a calendar day in the form YYYY-MM-DD"@,
                    },
                },
                None => r matches Err(e) && e.value@ == Seq::<char>::empty() && e.message@
                    == "a JSON string is expected"@,
            },
    {
        match value.as_text() {
            Some(text) => Self::from_str_on(text.as_str(), today),
            None => {
                proof {
                    reveal_strlit("");
                    assert(""@ =~= Seq::<char>::empty());
                }
                Err(MyValidationError::new("", "a JSON string is expected"))
            },
        }
    }

    /// The day rendered for display: with hyphens, `YYYY-MM-DD`.
    pub fn to_string(&self) -> (r: String)
        ensures
            r@ == iso_of(self@),
    {
        self.0.to_string()
    }
}

} // verus!
