//! JSON values as plain data, and the parser that reads them from bytes.

use vstd::prelude::*;
use vstd::string::*;

verus! {

broadcast use vstd::string::group_string_axioms;

/// A JSON value.
#[derive(Debug, Eq, PartialEq)]
pub enum Json {
    /// `null`.
    Null,
    /// `true` or `false`.
    Bool(bool),
    /// A number, by its decimal text.
    Number(String),
    /// A string.
    Text(String),
    /// An array, with its items in order.
    Array(Vec<Json>),
    /// An object, with its members in the order they are held. The parser
    /// gives the members of an object sorted by name, not in the order of
    /// the document.
    Object(Vec<Member>),
}

/// One member of a JSON object: a name and its value.
#[derive(Debug, Eq, PartialEq)]
pub struct Member {
    pub name: String,
    pub value: Json,
}

/// Plain-value model of a [`Json`] value.
pub enum JsonView {
    Null,
    Bool(bool),
    Number(Seq<char>),
    Text(Seq<char>),
    Array(Seq<JsonView>),
    Object(Seq<(Seq<char>, JsonView)>),
}

/// Plain-value model of the members of a JSON object.
pub type MembersView = Seq<(Seq<char>, JsonView)>;

/// The model of a JSON value.
pub open spec fn json_view(json: Json) -> JsonView
    decreases json,
{
    match json {
        Json::Null => JsonView::Null,
        Json::Bool(b) => JsonView::Bool(b),
        Json::Number(text) => JsonView::Number(text@),
        Json::Text(text) => JsonView::Text(text@),
        Json::Array(items) => JsonView::Array(
            Seq::new(
                items@.len(),
                |i: int|
                    if 0 <= i < items@.len() {
                        json_view(items@[i])
                    } else {
                        JsonView::Null
                    },
            ),
        ),
        Json::Object(members) => JsonView::Object(
            Seq::new(
                members@.len(),
                |i: int|
                    if 0 <= i < members@.len() {
                        (members@[i].name@, json_view(members@[i].value))
                    } else {
                        (Seq::empty(), JsonView::Null)
                    },
            ),
        ),
    }
}

impl View for Json {
    type V = JsonView;

    open spec fn view(&self) -> JsonView {
        json_view(*self)
    }
}

/// The models of a list of members, in order.
pub open spec fn members_view(members: Seq<Member>) -> MembersView {
    Seq::new(members.len(), |i: int| (members[i].name@, members[i].value@))
}

/// The model of an object is the models of its members.
pub proof fn lemma_object_view(members: Vec<Member>)
    ensures
        Json::Object(members)@ == JsonView::Object(members_view(members@)),
{
    assert(json_view(Json::Object(members))->Object_0 =~= members_view(members@));
}

/// What parsing `bytes` as JSON gives: the document, or the parser's message
/// for bytes that are not JSON.
pub uninterp spec fn json_document(bytes: Seq<u8>) -> Result<JsonView, Seq<char>>;

/// What a value of serde_json holds: a number by its decimal text, the
/// members of an object in the order serde_json iterates them, which is
/// sorted by name.
pub uninterp spec fn value_model(value: serde_json::Value) -> JsonView;

/// The model of the outcome of parsing.
pub open spec fn parsed_view(r: Result<Json, String>) -> Result<JsonView, Seq<char>> {
    match r {
        Ok(doc) => Ok(doc@),
        Err(detail) => Err(detail@),
    }
}

/// The JSON value of serde_json, `serde_json::Value`; nothing of its inside
/// is known here.
#[verifier::external_type_specification]
#[verifier::external_body]
pub struct ExValue(serde_json::Value);

/// Parses `bytes` as one JSON document.
///
/// Wraps `serde_json::from_slice` at the type `serde_json::Value`. Its
/// outcome is a function of the bytes, named [`json_document`]; bytes that
/// are not JSON are reported with the parser's message.
#[verifier::external_body]
fn parse_value(bytes: &[u8]) -> (r: Result<serde_json::Value, String>)
    ensures
        match r {
            Ok(value) => json_document(bytes@) == Ok::<JsonView, Seq<char>>(value_model(value)),
            Err(detail) => json_document(bytes@) == Err::<JsonView, Seq<char>>(detail@),
        },
{
    match serde_json::from_slice::<serde_json::Value>(bytes) {
        Ok(value) => Ok(value),
        Err(e) => Err(e.to_string()),
    }
}

/// Turns a value of serde_json into a value of this library, variant by
/// variant and member by member: the result holds what the value held.
#[verifier::external_body]
fn lift(value: serde_json::Value) -> (r: Json)
    ensures
        r@ == value_model(value),
{
    match value {
        serde_json::Value::Null => Json::Null,
        serde_json::Value::Bool(b) => Json::Bool(b),
        serde_json::Value::Number(n) => Json::Number(n.to_string()),
        serde_json::Value::String(s) => Json::Text(s),
        serde_json::Value::Array(items) => Json::Array(items.into_iter().map(lift).collect()),
        serde_json::Value::Object(map) => Json::Object(
            map.into_iter().map(|(name, value)| Member { name, value: lift(value) }).collect(),
        ),
    }
}

/// Parses `bytes` as one JSON document, as [`json_document`] says.
pub fn parse_json(bytes: &[u8]) -> (r: Result<Json, String>)
    ensures
        parsed_view(r) == json_document(bytes@),
{
    match parse_value(bytes) {
        Ok(value) => Ok(lift(value)),
        Err(detail) => Err(detail),
    }
}

/// The text of a JSON string; nothing for any other value.
pub open spec fn text_of_json(value: JsonView) -> Option<Seq<char>> {
    match value {
        JsonView::Text(text) => Some(text),
        _ => None,
    }
}

/// The decimal text of a JSON number; nothing for any other value.
pub open spec fn number_of_json(value: JsonView) -> Option<Seq<char>> {
    match value {
        JsonView::Number(text) => Some(text),
        _ => None,
    }
}

impl Json {
    /// The text of this value, if it is a string.
    pub fn as_text(&self) -> (r: Option<&String>)
        ensures
            match r {
                Some(text) => text_of_json(self@) == Some(text@),
                None => text_of_json(self@) is None,
            },
    {
        match self {
            Json::Text(text) => Some(text),
            _ => None,
        }
    }

    /// The decimal text of this value, if it is a number.
    pub fn as_number(&self) -> (r: Option<&String>)
        ensures
            match r {
                Some(text) => number_of_json(self@) == Some(text@),
                None => number_of_json(self@) is None,
            },
    {
        match self {
            Json::Number(text) => Some(text),
            _ => None,
        }
    }

    /// Whether this value is `null`.
    pub fn is_null(&self) -> (r: bool)
        ensures
            r == (self@ == JsonView::Null),
    {
        match self {
            Json::Null => true,
            _ => false,
        }
    }

    /// The JSON string that holds `text`.
    pub fn text(text: &str) -> (r: Json)
        ensures
            r@ == JsonView::Text(text@),
    {
        Json::Text(text.to_owned())
    }

    /// Parses `text` as one JSON document, as [`json_document`] says of its
    /// UTF-8 encoding.
    pub fn parse(text: &str) -> (r: Result<Json, String>)
        ensures
            parsed_view(r) == json_document(text.spec_bytes()),
    {
        parse_json(text.as_bytes())
    }
}

} // verus!
