//! Free text as the registry sends it: any text, text that must not be
//! empty, and text that may be absent.

use crate::error::MyValidationError;
use crate::json::{text_of_json, Json, JsonView};
use crate::text::{debug_optional, debug_text, optional_text};
use vstd::prelude::*;
use vstd::string::*;

verus! {

broadcast use vstd::string::group_string_axioms;

/// A text. Without `ALLOW_EMPTY`, it is never empty.
#[derive(Debug, Eq, PartialEq, Ord, PartialOrd, Hash)]
pub struct Text<const ALLOW_EMPTY: bool>(String);

/// A text that is never empty.
pub type NonEmptyText = Text<false>;

/// Any text, the empty one too.
pub type AnyText = Text<true>;

/// The name of an account.
pub type AccountNm = NonEmptyText;

/// The detailed name of an account, given for statements of changes in
/// equity.
pub type AccountDetail = AnyText;

/// The address of a company.
pub type Adres = NonEmptyText;

/// The name of a company's chief executive.
pub type CeoNm = NonEmptyText;

/// The official name of a company in English.
pub type CorpNameEng = NonEmptyText;

/// The currency of an amount.
pub type Currency = NonEmptyText;

/// The fax number of a company.
pub type FaxNo = NonEmptyText;

/// The name of the party that filed a disclosure.
pub type FlrNm = NonEmptyText;

/// The name of the previous term.
pub type FrmtrmNm = NonEmptyText;

/// The name of the previous term of a quarterly or half-year report.
pub type FrmtrmQNm = NonEmptyText;

/// The home page of a company.
pub type HmUrl = NonEmptyText;

/// The investor-relations page of a company.
pub type IrUrl = AnyText;

/// The telephone number of a company.
pub type PhnNo = NonEmptyText;

/// The remarks on a filing.
pub type RM = AnyText;

/// The name of a kind of financial statement.
pub type SjNm = NonEmptyText;

/// The name of a listed stock, or the short name of another company.
pub type StockName = NonEmptyText;

/// The name of the current term.
pub type ThstrmNm = NonEmptyText;

impl<const ALLOW_EMPTY: bool> View for Text<ALLOW_EMPTY> {
    type V = Seq<char>;

    closed spec fn view(&self) -> Seq<char> {
        self.0@
    }
}

impl<const ALLOW_EMPTY: bool> Clone for Text<ALLOW_EMPTY> {
    fn clone(&self) -> (r: Self)
        ensures
            r@ == self@,
    {
        proof {
            use_type_invariant(self);
        }
        Self(self.0.clone())
    }
}

impl<const ALLOW_EMPTY: bool> Text<ALLOW_EMPTY> {
    /// The test a raw value must pass to be such a text.
    pub open spec fn accepts(value: Seq<char>) -> bool {
        ALLOW_EMPTY || value.len() > 0
    }

    #[verifier::type_invariant]
    spec fn well_formed(&self) -> bool {
        Self::accepts(self.0@)
    }

    /// Validates `value` as a text.
    ///
    /// Succeeds exactly when `value` passes the test, and the result then
    /// holds `value` unchanged. Otherwise the error carries the empty value
    /// and says that it is not allowed.
    pub fn try_new(value: &str) -> (r: Result<Self, MyValidationError>)
        ensures
            r is Ok <==> Self::accepts(value@),
            r matches Ok(text) ==> text@ == value@,
            r matches Err(e) ==> e.value@ == value@ && e.message@ == "Empty value is not allowed"@,
    {
        if value.is_empty() && !ALLOW_EMPTY {
            return Err(MyValidationError::new(value, "Empty value is not allowed"));
        }
        Ok(Self(value.to_owned()))
    }

    /// The text as it travels on the wire: the text itself.
    pub fn as_wire(&self) -> (r: &str)
        ensures
            r@ == self@,
            Self::accepts(self@),
    {
        proof {
            use_type_invariant(self);
        }
        self.0.as_str()
    }

    /// Gives up the validated string.
    pub fn into_inner(self) -> (r: String)
        ensures
            r@ == self@,
            Self::accepts(r@),
    {
        proof {
            use_type_invariant(&self);
        }
        self.0
    }

    /// The text as a JSON value: the string of its wire form.
    pub fn to_json(&self) -> (r: Json)
        ensures
            r@ == JsonView::Text(self@),
    {
        Json::text(self.0.as_str())
    }

    /// Reads a text from a JSON value. A string is validated as
    /// [`Self::try_new`] validates it; any other value is rejected.
    pub fn from_json(value: &Json) -> (r: Result<Self, MyValidationError>)
        ensures
            match text_of_json(value@) {
                Some(text) => {
                    &&& r is Ok <==> Self::accepts(text)
                    &&& r matches Ok(read) ==> read@ == text
                    &&& r matches Err(e) ==> e.value@ == text && e.message@
                        == "Empty value is not allowed"@
                },
                None => r matches Err(e) && e.value@ == Seq::<char>::empty() && e.message@
                    == "a JSON string is expected"@,
            },
    {
        match value.as_text() {
            Some(text) => Self::try_new(text.as_str()),
            None => {
                proof {
                    reveal_strlit("");
                    assert(""@ =~= Seq::<char>::empty());
                }
                Err(MyValidationError::new("", "a JSON string is expected"))
            },
        }
    }

    /// The text rendered for display: the text itself.
    pub fn to_string(&self) -> (r: String)
        ensures
            r@ == self@,
    {
        self.0.clone()
    }
}

impl Text<true> {
    /// The text `value`; any text will do.
    pub fn new(value: &str) -> (r: Self)
        ensures
            r@ == value@,
    {
        Self(value.to_owned())
    }
}

/// A text that may be absent.
#[derive(Debug, Clone, Eq, PartialEq, Ord, PartialOrd, Hash)]
pub struct OptionalText(Option<String>);

/// The name of the term before the previous one, given for annual reports
/// only.
pub type BfefrmtrmNm = OptionalText;

impl View for OptionalText {
    type V = Option<Seq<char>>;

    closed spec fn view(&self) -> Option<Seq<char>> {
        optional_text(self.0)
    }
}

impl OptionalText {
    /// The text `value`, or no text.
    pub fn new(value: Option<&str>) -> (r: Self)
        ensures
            r@ == match value {
                Some(text) => Some(text@),
                None => None,
            },
    {
        match value {
            Some(text) => Self(Some(text.to_owned())),
            None => Self(None),
        }
    }

    /// Gives up the text, if there is one.
    pub fn into_inner(self) -> (r: Option<String>)
        ensures
            optional_text(r) == self@,
    {
        self.0
    }

    /// The text as a JSON value: its text as a string, or `null`.
    pub fn to_json(&self) -> (r: Json)
        ensures
            r@ == match self@ {
                Some(text) => JsonView::Text(text),
                None => JsonView::Null,
            },
    {
        match &self.0 {
            Some(text) => Json::text(text.as_str()),
            None => Json::Null,
        }
    }

    /// Reads an optional text from a JSON value: a string gives its text as it is,
    /// `null` gives none, and any other value is rejected.
    pub fn from_json(value: &Json) -> (r: Result<Self, MyValidationError>)
        ensures
            match value@ {
                JsonView::Text(text) => r matches Ok(read) && read@ == Some(text),
                JsonView::Null => r matches Ok(read) && read@ is None,
                _ => r matches Err(e) && e.value@ == Seq::<char>::empty() && e.message@
                    == "a JSON string or null is expected"@,
            },
    {
        match value {
            Json::Text(text) => Ok(Self(Some(text.clone()))),
            Json::Null => Ok(Self(None)),
            _ => {
                proof {
                    reveal_strlit("");
                    assert(""@ =~= Seq::<char>::empty());
                }
                Err(MyValidationError::new("", "a JSON string or null is expected"))
            },
        }
    }

    /// The text rendered for display, as the debug formatting of an
    /// optional string shows it.
    pub fn to_string(&self) -> (r: String)
        ensures
            r@ == debug_text(self@),
    {
        debug_optional(&self.0)
    }
}

} // verus!
