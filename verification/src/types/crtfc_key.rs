//! The key that authenticates a caller to the registry.

use crate::error::MyValidationError;
use crate::json::{text_of_json, Json, JsonView};
use vstd::prelude::*;
use vstd::string::*;

verus! {

broadcast use vstd::string::group_string_axioms;

/// The API key the registry issued to a caller: a text whose UTF-8
/// encoding is 40 bytes long.
#[derive(Debug, Eq, PartialEq, Ord, PartialOrd, Hash)]
pub struct CrtfcKey(String);

impl View for CrtfcKey {
    type V = Seq<char>;

    closed spec fn view(&self) -> Seq<char> {
        self.0@
    }
}

impl Clone for CrtfcKey {
    fn clone(&self) -> (r: Self)
        ensures
            r@ == self@,
    {
        proof {
            use_type_invariant(self);
        }
        Self(self.0.clone())
    }
}

impl CrtfcKey {
    /// The test a raw value must pass to be an API key.
    pub open spec fn accepts(value: Seq<char>) -> bool {
        vstd::utf8::encode_utf8(value).len() == 40
    }

    #[verifier::type_invariant]
    spec fn well_formed(&self) -> bool {
        Self::accepts(self.0@)
    }

    /// Validates `value` as an API key.
    ///
    /// Succeeds exactly when the encoding of `value` is 40 bytes long, and
    /// the result then holds `value` unchanged. Otherwise the error carries
    /// `value` and names the constraint.
    pub fn try_new(value: &str) -> (r: Result<Self, MyValidationError>)
        ensures
            r is Ok <==> Self::accepts(value@),
            r matches Ok(key) ==> key@ == value@,
            r matches Err(e) ==> e.value@ == value@ && e.message@
                == "crtfc_key must be 40 characters"@,
    {
        if value.as_bytes().len() == 40 {
            Ok(Self(value.to_owned()))
        } else {
            Err(MyValidationError::new(value, "crtfc_key must be 40 characters"))
        }
    }

    /// The key as it travels on the wire: the text itself.
    pub fn as_wire(&self) -> (r: &str)
        ensures
            r@ == self@,
            Self::accepts(self@),
    {
        proof {
            use_type_invariant(self);
        }
        self.0.as_str()
    }

    /// Gives up the validated string.
    pub fn into_inner(self) -> (r: String)
        ensures
            r@ == self@,
            Self::accepts(r@),
    {
        proof {
            use_type_invariant(&self);
        }
        self.0
    }

    /// The key as a JSON value: the string of its wire form.
    pub fn to_json(&self) -> (r: Json)
        ensures
            r@ == JsonView::Text(self@),
    {
        Json::text(self.0.as_str())
    }

    /// Reads a key from a JSON value. A string is validated as
    /// [`Self::try_new`] validates it; any other value is rejected.
    pub fn from_json(value: &Json) -> (r: Result<Self, MyValidationError>)
        ensures
            match text_of_json(value@) {
                Some(text) => {
                    &&& r is Ok <==> Self::accepts(text)
                    &&& r matches Ok(read) ==> read@ == text
                    &&& r matches Err(e) ==> e.value@ == text && e.message@
                        == "crtfc_key must be 40 characters"@
                },
                None => r matches Err(e) && e.value@ == Seq::<char>::empty() && e.message@
                    == "a JSON string is expected"@,
            },
    {
        match value.as_text() {
            Some(text) => Self::try_new(text.as_str()),
            None => {
                proof {
                    reveal_strlit("");
                    assert(""@ =~= Seq::<char>::empty());
                }
                Err(MyValidationError::new("", "a JSON string is expected"))
            },
        }
    }

    /// The key rendered for display: the text itself.
    pub fn to_string(&self) -> (r: String)
        ensures
            r@ == self@,
    {
        self.0.clone()
    }
}

} // verus!
