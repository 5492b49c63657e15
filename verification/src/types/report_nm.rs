//! The title of a filed report.

use crate::error::MyValidationError;
use crate::json::{text_of_json, Json, JsonView};
use vstd::prelude::*;
use vstd::string::*;

verus! {

broadcast use vstd::string::group_string_axioms;

/// The title of a filed report, with its disclosure class and remarks:
/// any text that is not empty.
#[derive(Debug, Eq, PartialEq, Ord, PartialOrd, Hash)]
pub struct ReportNm(String);

impl View for ReportNm {
    type V = Seq<char>;

    closed spec fn view(&self) -> Seq<char> {
        self.0@
    }
}

impl Clone for ReportNm {
    fn clone(&self) -> (r: Self)
        ensures
            r@ == self@,
    {
        proof {
            use_type_invariant(self);
        }
        Self(self.0.clone())
    }
}

impl ReportNm {
    /// The test a raw value must pass to be a report title: it is not empty.
    pub open spec fn accepts(value: Seq<char>) -> bool {
        value.len() > 0
    }

    #[verifier::type_invariant]
    spec fn well_formed(&self) -> bool {
        Self::accepts(self.0@)
    }

    /// Validates `value` as a report title.
    ///
    /// Succeeds exactly when `value` is not empty, and the result then holds
    /// `value` unchanged. Otherwise the error carries the empty value and
    /// says that it is not allowed.
    pub fn try_new(value: &str) -> (r: Result<Self, MyValidationError>)
        ensures
            r is Ok <==> Self::accepts(value@),
            r matches Ok(name) ==> name@ == value@,
            r matches Err(e) ==> e.value@ == value@ && e.message@ == "empty string is not allowed"@,
    {
        if value.is_empty() {
            return Err(MyValidationError::new(value, "empty string is not allowed"));
        }
        Ok(Self(value.to_owned()))
    }

    /// The report title as it travels on the wire: the text itself.
    pub fn as_wire(&self) -> (r: &str)
        ensures
            r@ == self@,
            Self::accepts(self@),
    {
        proof {
            use_type_invariant(self);
        }
        self.0.as_str()
    }

    /// The report title as a string reference.
    pub fn as_ref(&self) -> (r: &String)
        ensures
            r@ == self@,
    {
        &self.0
    }

    /// Gives up the validated string.
    pub fn into_inner(self) -> (r: String)
        ensures
            r@ == self@,
            Self::accepts(r@),
    {
        proof {
            use_type_invariant(&self);
        }
        self.0
    }

    /// The report title as a JSON value: the string of its wire form.
    pub fn to_json(&self) -> (r: Json)
        ensures
            r@ == JsonView::Text(self@),
    {
        Json::text(self.0.as_str())
    }

    /// Reads a report title from a JSON value. A string is validated as
    /// [`Self::try_new`] validates it; any other value is rejected.
    pub fn from_json(value: &Json) -> (r: Result<Self, MyValidationError>)
        ensures
            match text_of_json(value@) {
                Some(text) => {
                    &&& r is Ok <==> Self::accepts(text)
                    &&& r matches Ok(read) ==> read@ == text
                    &&& r matches Err(e) ==> e.value@ == text && e.message@
                        == "empty string is not allowed"@
                },
                None => r matches Err(e) && e.value@ == Seq::<char>::empty() && e.message@
                    == "a JSON string is expected"@,
            },
    {
        match value.as_text() {
            Some(text) => Self::try_new(text.as_str()),
            None => {
                proof {
                    reveal_strlit("");
                    assert(""@ =~= Seq::<char>::empty());
                }
                Err(MyValidationError::new("", "a JSON string is expected"))
            },
        }
    }

    /// The report title rendered for display: the text itself.
    pub fn to_string(&self) -> (r: String)
        ensures
            r@ == self@,
    {
        self.0.clone()
    }
}

} // verus!
