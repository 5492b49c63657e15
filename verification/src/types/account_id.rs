//! The identifier of an account in a financial statement.

use crate::error::MyValidationError;
use crate::json::{Json, JsonView};
use crate::text::{debug_optional, debug_text, optional_text};
use vstd::prelude::*;
use vstd::string::*;

verus! {

broadcast use vstd::string::group_string_axioms;

/// The standard XBRL identifier of an account. For an account that has no
/// standard identifier the registry sends a remark that starts with a
/// hyphen; such an account has none here.
#[derive(Debug, Clone, Eq, PartialEq, Ord, PartialOrd, Hash)]
pub struct AccountId(Option<String>);

impl View for AccountId {
    type V = Option<Seq<char>>;

    closed spec fn view(&self) -> Option<Seq<char>> {
        optional_text(self.0)
    }
}

impl AccountId {
    /// The identifier that the text `value` denotes: none if it starts with
    /// a hyphen, the text itself if not.
    pub open spec fn id_of(value: Seq<char>) -> Option<Seq<char>> {
        if value.len() > 0 && value[0] == '-' {
            None
        } else {
            Some(value)
        }
    }

    /// The identifier that `value` denotes.
    pub fn new(value: &str) -> (r: Self)
        ensures
            r@ == Self::id_of(value@),
    {
        if value.unicode_len() > 0 && value.get_char(0) == '-' {
            Self(None)
        } else {
            Self(Some(value.to_owned()))
        }
    }

    /// Gives up the identifier, if there is one.
    pub fn into_inner(self) -> (r: Option<String>)
        ensures
            optional_text(r) == self@,
    {
        self.0
    }

    /// The identifier as a JSON value: its text as a string, or `null`.
    pub fn to_json(&self) -> (r: Json)
        ensures
            r@ == match self@ {
                Some(text) => JsonView::Text(text),
                None => JsonView::Null,
            },
    {
        match &self.0 {
            Some(text) => Json::text(text.as_str()),
            None => Json::Null,
        }
    }

    /// Reads an identifier from a JSON value: a string gives its text as it is,
    /// `null` gives none, and any other value is rejected.
    pub fn from_json(value: &Json) -> (r: Result<Self, MyValidationError>)
        ensures
            match value@ {
                JsonView::Text(text) => r matches Ok(read) && read@ == Some(text),
                JsonView::Null => r matches Ok(read) && read@ is None,
                _ => r matches Err(e) && e.value@ == Seq::<char>::empty() && e.message@
                    == "a JSON string or null is expected"@,
            },
    {
        match value {
            Json::Text(text) => Ok(Self(Some(text.clone()))),
            Json::Null => Ok(Self(None)),
            _ => {
                proof {
                    reveal_strlit("");
                    assert(""@ =~= Seq::<char>::empty());
                }
                Err(MyValidationError::new("", "a JSON string or null is expected"))
            },
        }
    }

    /// The identifier rendered for display, as the debug formatting of an
    /// optional string shows it.
    pub fn to_string(&self) -> (r: String)
        ensures
            r@ == debug_text(self@),
    {
        debug_optional(&self.0)
    }
}

} // verus!
