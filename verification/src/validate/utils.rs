//! The building blocks of the field checks.

use crate::json::{members_view, Json, JsonView, Member, MembersView};
use crate::text::{all_digits, decimal_digits, is_digits, same_text, to_decimal};
use vstd::prelude::*;
use vstd::string::*;

verus! {

broadcast use vstd::string::group_string_axioms;

/// A field failed a check: the code of the check and the values it was held
/// against, by name.
#[derive(Debug, Eq, PartialEq)]
pub struct FieldError {
    /// The code that names the failed check.
    pub code: String,
    /// The values the check was held against, in the order they were added.
    pub params: Vec<Member>,
}

/// Plain-value model of a [`FieldError`].
pub struct FieldErrorView {
    pub code: Seq<char>,
    pub params: MembersView,
}

impl View for FieldError {
    type V = FieldErrorView;

    open spec fn view(&self) -> FieldErrorView {
        FieldErrorView {
            code: self.code@,
            params: members_view(self.params@),
        }
    }
}

impl FieldError {
    /// An error of the check `code`, with no values yet.
    pub fn new(code: &str) -> (e: Self)
        ensures
            e@ == (FieldErrorView { code: code@, params: Seq::empty() }),
    {
        let e = FieldError { code: code.to_owned(), params: Vec::new() };
        assert(e@.params =~= Seq::empty());
        e
    }

    /// Adds the value `value` under the name `name`.
    pub fn add_param(&mut self, name: &str, value: Json)
        ensures
            final(self)@ == (FieldErrorView {
                code: old(self)@.code,
                params: old(self)@.params.push((name@, value@)),
            }),
    {
        self.params.push(Member { name: name.to_owned(), value });
        assert(final(self)@.params =~= old(self)@.params.push((name@, value@)));
    }
}

/// The model of the outcome of a check.
pub open spec fn check_view(r: Result<(), FieldError>) -> Result<(), FieldErrorView> {
    match r {
        Ok(()) => Ok(()),
        Err(e) => Err(e@),
    }
}

/// The error of a check `code` that was held against `value` alone.
pub open spec fn value_error(code: Seq<char>, value: Seq<char>) -> FieldErrorView {
    FieldErrorView { code, params: seq![("value"@, JsonView::Text(value))] }
}

/// Checks that `value` holds nothing but decimal digits; the empty text
/// passes.
pub fn is_digit(value: &str) -> (r: Result<(), FieldError>)
    ensures
        check_view(r) == if all_digits(value@) {
            Ok::<(), FieldErrorView>(())
        } else {
            Err::<(), FieldErrorView>(value_error("not_digits"@, value@))
        },
{
    if is_digits(value) {
        Ok(())
    } else {
        let mut err = FieldError::new("not_digits");
        err.add_param("value", Json::Text(value.to_owned()));
        assert(err@.params =~= value_error("not_digits"@, value@).params);
        Err(err)
    }
}

/// The error that reports a text whose length is not between `min` and
/// `max`.
pub open spec fn length_error(value: Seq<char>, min: nat, max: nat) -> FieldErrorView {
    FieldErrorView {
        code: "invalid_length"@,
        params: seq![
            ("value"@, JsonView::Text(value)),
            ("min"@, JsonView::Number(decimal_digits(min))),
            ("max"@, JsonView::Number(decimal_digits(max))),
        ],
    }
}

/// Checks that the UTF-8 encoding of `value` is at least `min` and at most
/// `max` bytes long.
pub fn check_string_length(value: &str, min: usize, max: usize) -> (r: Result<(), FieldError>)
    ensures
        check_view(r) == if min <= vstd::utf8::encode_utf8(value@).len() <= max {
            Ok::<(), FieldErrorView>(())
        } else {
            Err::<(), FieldErrorView>(length_error(value@, min as nat, max as nat))
        },
{
    let len = value.as_bytes().len();
    if len >= min && len <= max {
        Ok(())
    } else {
        let mut err = FieldError::new("invalid_length");
        err.add_param("value", Json::Text(value.to_owned()));
        err.add_param("min", Json::Number(to_decimal(min as u64)));
        err.add_param("max", Json::Number(to_decimal(max as u64)));
        assert(err@.params =~= length_error(value@, min as nat, max as nat).params);
        Err(err)
    }
}

/// The texts of a list of string slices, in order.
pub open spec fn slices_view(items: Seq<&str>) -> Seq<Seq<char>> {
    Seq::new(items.len(), |i: int| items[i]@)
}

/// The JSON array of the texts `items`.
pub open spec fn text_array(items: Seq<Seq<char>>) -> JsonView {
    JsonView::Array(Seq::new(items.len(), |i: int| JsonView::Text(items[i])))
}

/// The error that reports a text that is not in a list.
pub open spec fn not_in_list(available: Seq<Seq<char>>, got: Seq<char>) -> FieldErrorView {
    FieldErrorView {
        code: "not_in_list"@,
        params: seq![("available"@, text_array(available)), ("needle"@, JsonView::Text(got))],
    }
}

/// Checks that `got` is one of `available`.
pub fn contains(available: &[&str], got: &str) -> (r: Result<(), FieldError>)
    ensures
        check_view(r) == if slices_view(available@).contains(got@) {
            Ok::<(), FieldErrorView>(())
        } else {
            Err::<(), FieldErrorView>(not_in_list(slices_view(available@), got@))
        },
{
    let mut listed: Vec<Json> = Vec::new();
    let mut i: usize = 0;
    while i < available.len()
        invariant
            0 <= i <= available@.len(),
            forall|j: int| 0 <= j < i ==> slices_view(available@)[j] != got@,
            listed@.len() == i,
            forall|j: int|
                0 <= j < i ==> (#[trigger] listed@[j])@ == JsonView::Text(available@[j]@),
        decreases available@.len() - i,
    {
        if same_text(available[i], got) {
            assert(slices_view(available@)[i as int] == got@);
            return Ok(());
        }
        listed.push(Json::Text(available[i].to_owned()));
        i = i + 1;
    }
    let shown = Json::Array(listed);
    assert(shown@ == text_array(slices_view(available@))) by {
        assert(shown@->Array_0 =~= text_array(slices_view(available@))->Array_0);
    }
    let mut err = FieldError::new("not_in_list");
    err.add_param("available", shown);
    err.add_param("needle", Json::Text(got.to_owned()));
    assert(err@.params =~= not_in_list(slices_view(available@), got@).params);
    Err(err)
}

} // verus!
