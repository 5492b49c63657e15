//! Response envelopes: telling a successful response from a business
//! failure by the shape of its JSON alone.
//!
//! The registry sends one JSON object for both outcomes and no field that
//! says which it is. Three shapes are tried in order and the first that fits
//! decides:
//!
//! 1. a nested failure, `{"message": {"status": S, "message": M}}`;
//! 2. a flat failure, `{"status": S, "message": M}` and nothing else;
//! 3. a flat success, `status` and `message` with exactly the fields of the
//!    expected body beside them.

use crate::endpoints::base::{is_success_status, status_is_success, Message, MessageView};
use crate::error::{
    texts_of, MessageError, OpenDartError, OpenDartErrorView, ShapeFault, ShapeFaultView,
    ShapeMismatch, ShapeMismatchView,
};
use crate::json::{
    json_document, lemma_object_view, members_view, parse_json, parsed_view, Json, JsonView, Member,
    MembersView,
};
use crate::text::same_text;
use vstd::prelude::*;
use vstd::string::*;

verus! {

broadcast use vstd::string::group_string_axioms;

/// The index of the first member from `from` on that is named `name`.
pub open spec fn index_of(members: MembersView, name: Seq<char>, from: int) -> Option<int>
    decreases members.len() - from,
{
    if from < 0 || from >= members.len() {
        None
    } else if members[from].0 == name {
        Some(from)
    } else {
        index_of(members, name, from + 1)
    }
}

/// The text of the first member named `name`, if there is such a member
/// and its value is a string.
pub open spec fn text_of(members: MembersView, name: Seq<char>) -> Option<Seq<char>> {
    match index_of(members, name, 0) {
        Some(i) => match members[i].1 {
            JsonView::Text(text) => Some(text),
            _ => None,
        },
        None => None,
    }
}

/// The message that an object with exactly the two members `status` and
/// `message`, both strings, carries; nothing for any other object.
pub open spec fn as_message(members: MembersView) -> Option<MessageView> {
    if members.len() == 2 && text_of(members, "status"@) is Some && text_of(
        members,
        "message"@,
    ) is Some {
        Some(
            MessageView {
                status: text_of(members, "status"@)->0,
                message: text_of(members, "message"@)->0,
            },
        )
    } else {
        None
    }
}

/// The message of a nested failure: an object whose only member is
/// `message`, itself an object that carries a message.
pub open spec fn as_nested_failure(members: MembersView) -> Option<MessageView> {
    if members.len() == 1 && members[0].0 == "message"@ {
        match members[0].1 {
            JsonView::Object(inner) => as_message(inner),
            _ => None,
        }
    } else {
        None
    }
}

/// Whether `name` is one of the two members every envelope has.
pub open spec fn is_envelope_field(name: Seq<char>) -> bool {
    name == "status"@ || name == "message"@
}

/// The name of the first member from `from` on that is neither an envelope
/// member nor a field of the body.
pub open spec fn first_unknown(members: MembersView, fields: Seq<Seq<char>>, from: int) -> Option<
    Seq<char>,
>
    decreases members.len() - from,
{
    if from < 0 || from >= members.len() {
        None
    } else if !is_envelope_field(members[from].0) && !fields.contains(members[from].0) {
        Some(members[from].0)
    } else {
        first_unknown(members, fields, from + 1)
    }
}

/// The first field of the body from `from` on that no member is named
/// after.
pub open spec fn first_missing(members: MembersView, fields: Seq<Seq<char>>, from: int) -> Option<
    Seq<char>,
>
    decreases fields.len() - from,
{
    if from < 0 || from >= fields.len() {
        None
    } else if index_of(members, fields[from], 0) is None {
        Some(fields[from])
    } else {
        first_missing(members, fields, from + 1)
    }
}

/// Why an object is no flat success for a body with the fields `fields`, if
/// it is none: `status` and `message` must be strings, every other member
/// must be a field of the body, and every field of the body must be there.
pub open spec fn success_fault(members: MembersView, fields: Seq<Seq<char>>) -> Option<
    ShapeFaultView,
> {
    if text_of(members, "status"@) is None {
        Some(ShapeFaultView::NoStatus)
    } else if text_of(members, "message"@) is None {
        Some(ShapeFaultView::NoMessage)
    } else if first_unknown(members, fields, 0) is Some {
        Some(ShapeFaultView::UnknownField(first_unknown(members, fields, 0)->0))
    } else if first_missing(members, fields, 0) is Some {
        Some(ShapeFaultView::MissingField(first_missing(members, fields, 0)->0))
    } else {
        None
    }
}

/// The first `upto` members without the two envelope members, in order.
pub open spec fn body_of(members: MembersView, upto: int) -> MembersView
    decreases upto,
{
    if upto <= 0 {
        Seq::empty()
    } else if is_envelope_field(members[upto - 1].0) {
        body_of(members, upto - 1)
    } else {
        body_of(members, upto - 1).push(members[upto - 1])
    }
}

/// A successful response: its status message and the members of its body.
#[derive(Debug, Eq, PartialEq)]
pub struct Envelope {
    /// The status message, whose status denotes success.
    pub message: Message,
    /// The members of the body, in the order the resolved object held
    /// them: sorted by name for a parsed response.
    pub body: Vec<Member>,
}

/// Plain-value model of an [`Envelope`].
pub struct EnvelopeView {
    pub message: MessageView,
    pub body: MembersView,
}

impl View for Envelope {
    type V = EnvelopeView;

    open spec fn view(&self) -> EnvelopeView {
        EnvelopeView { message: self.message@, body: members_view(self.body@) }
    }
}

/// The error that reports the payload `payload` as no envelope.
pub open spec fn mismatch(fault: ShapeFaultView, payload: Seq<u8>) -> OpenDartErrorView {
    OpenDartErrorView::Deserialize(ShapeMismatchView { fault, payload })
}

/// What an object with the members `members` resolves to, for a body with
/// the fields `fields`. The shapes are tried in order and the first that
/// fits decides:
///
/// 1. a nested failure is a business failure with its message;
/// 2. a flat failure is a business failure with its message;
/// 3. a flat success is a success if its status denotes success, and a
///    business failure with its message if not.
///
/// An object of none of these shapes is a shape mismatch.
pub open spec fn resolve_members(
    members: MembersView,
    payload: Seq<u8>,
    fields: Seq<Seq<char>>,
) -> Result<EnvelopeView, OpenDartErrorView> {
    if as_nested_failure(members) is Some {
        Err(OpenDartErrorView::Message(as_nested_failure(members)->0))
    } else if as_message(members) is Some {
        Err(OpenDartErrorView::Message(as_message(members)->0))
    } else if success_fault(members, fields) is Some {
        Err(mismatch(success_fault(members, fields)->0, payload))
    } else {
        let message = MessageView {
            status: text_of(members, "status"@)->0,
            message: text_of(members, "message"@)->0,
        };
        if is_success_status(message.status) {
            Ok(EnvelopeView { message, body: body_of(members, members.len() as int) })
        } else {
            Err(OpenDartErrorView::Message(message))
        }
    }
}

/// What a parsed payload resolves to: bytes that are not JSON, and JSON
/// that is not an object, are shape mismatches; an object resolves as
/// [`resolve_members`] says.
pub open spec fn resolve_spec(
    document: Result<JsonView, Seq<char>>,
    payload: Seq<u8>,
    fields: Seq<Seq<char>>,
) -> Result<EnvelopeView, OpenDartErrorView> {
    match document {
        Err(detail) => Err(mismatch(ShapeFaultView::NotJson(detail), payload)),
        Ok(JsonView::Object(members)) => resolve_members(members, payload, fields),
        Ok(_) => Err(mismatch(ShapeFaultView::NotAnObject, payload)),
    }
}

/// The model of the outcome of resolving.
pub open spec fn resolved_view(r: Result<Envelope, OpenDartError>) -> Result<
    EnvelopeView,
    OpenDartErrorView,
> {
    match r {
        Ok(envelope) => Ok(envelope@),
        Err(e) => Err(e@),
    }
}

/// Whether `name` is among `fields`.
fn has_name(fields: &[String], name: &str) -> (r: bool)
    ensures
        r == texts_of(fields@).contains(name@),
{
    let mut i: usize = 0;
    while i < fields.len()
        invariant
            0 <= i <= fields@.len(),
            forall|j: int| 0 <= j < i ==> texts_of(fields@)[j] != name@,
        decreases fields@.len() - i,
    {
        if same_text(fields[i].as_str(), name) {
            assert(texts_of(fields@)[i as int] == name@);
            return true;
        }
        i = i + 1;
    }
    false
}

/// The position of the first member named `name`.
fn position(members: &Vec<Member>, name: &str) -> (r: Option<usize>)
    ensures
        match r {
            Some(i) => i < members@.len() && index_of(members_view(members@), name@, 0) == Some(
                i as int,
            ),
            None => index_of(members_view(members@), name@, 0) is None,
        },
{
    let ghost view = members_view(members@);
    let mut i: usize = 0;
    while i < members.len()
        invariant
            view == members_view(members@),
            0 <= i <= members@.len(),
            index_of(view, name@, 0) == index_of(view, name@, i as int),
        decreases members@.len() - i,
    {
        if same_text(members[i].name.as_str(), name) {
            return Some(i);
        }
        i = i + 1;
    }
    None
}

/// The text of the first member named `name`, if its value is a string.
fn find_text<'a>(members: &'a Vec<Member>, name: &str) -> (r: Option<&'a String>)
    ensures
        r is Some <==> text_of(members_view(members@), name@) is Some,
        r matches Some(text) ==> text@ == text_of(members_view(members@), name@)->0,
{
    match position(members, name) {
        Some(i) => match &members[i].value {
            Json::Text(text) => Some(text),
            _ => None,
        },
        None => None,
    }
}

/// The message of an object that is exactly a status message.
fn message_of(members: &Vec<Member>) -> (r: Option<Message>)
    ensures
        r is Some <==> as_message(members_view(members@)) is Some,
        r matches Some(m) ==> m@ == as_message(members_view(members@))->0,
{
    if members.len() != 2 {
        return None;
    }
    match find_text(members, "status") {
        Some(status) => match find_text(members, "message") {
            Some(message) => Some(Message { status: status.clone(), message: message.clone() }),
            None => None,
        },
        None => None,
    }
}

/// The message of an object that is a nested failure.
fn nested_failure(members: &Vec<Member>) -> (r: Option<Message>)
    ensures
        r is Some <==> as_nested_failure(members_view(members@)) is Some,
        r matches Some(m) ==> m@ == as_nested_failure(members_view(members@))->0,
{
    if members.len() == 1 && same_text(members[0].name.as_str(), "message") {
        match &members[0].value {
            Json::Object(inner) => {
                proof {
                    lemma_object_view(*inner);
                }
                message_of(inner)
            },
            _ => None,
        }
    } else {
        None
    }
}

/// The name of the first member that the body does not have.
fn unknown_member(members: &Vec<Member>, fields: &[String]) -> (r: Option<String>)
    ensures
        r is Some <==> first_unknown(members_view(members@), texts_of(fields@), 0) is Some,
        r matches Some(name) ==> name@ == first_unknown(
            members_view(members@),
            texts_of(fields@),
            0,
        )->0,
{
    let ghost view = members_view(members@);
    let mut i: usize = 0;
    while i < members.len()
        invariant
            view == members_view(members@),
            0 <= i <= members@.len(),
            first_unknown(view, texts_of(fields@), 0) == first_unknown(
                view,
                texts_of(fields@),
                i as int,
            ),
        decreases members@.len() - i,
    {
        let name = members[i].name.as_str();
        if !same_text(name, "status") && !same_text(name, "message") && !has_name(fields, name) {
            return Some(members[i].name.clone());
        }
        i = i + 1;
    }
    None
}

/// The first field of the body that no member is named after.
fn missing_field(members: &Vec<Member>, fields: &[String]) -> (r: Option<String>)
    ensures
        r is Some <==> first_missing(members_view(members@), texts_of(fields@), 0) is Some,
        r matches Some(name) ==> name@ == first_missing(
            members_view(members@),
            texts_of(fields@),
            0,
        )->0,
{
    let ghost view = members_view(members@);
    let mut i: usize = 0;
    while i < fields.len()
        invariant
            view == members_view(members@),
            0 <= i <= fields@.len(),
            first_missing(view, texts_of(fields@), 0) == first_missing(
                view,
                texts_of(fields@),
                i as int,
            ),
        decreases fields@.len() - i,
    {
        if position(members, fields[i].as_str()).is_none() {
            return Some(fields[i].clone());
        }
        i = i + 1;
    }
    None
}

/// The members without the two envelope members, in order.
fn into_body(members: Vec<Member>) -> (r: Vec<Member>)
    ensures
        members_view(r@) == body_of(members_view(members@), members@.len() as int),
{
    let ghost view = members_view(members@);
    let mut body: Vec<Member> = Vec::new();
    assert(members_view(body@) =~= body_of(view, 0));
    for member in it: members.into_iter()
        invariant
            it.seq() == members@,
            view == members_view(members@),
            members_view(body@) == body_of(view, it.index() as int),
    {
        let ghost before = body@;
        let name = member.name.as_str();
        if !same_text(name, "status") && !same_text(name, "message") {
            body.push(member);
            assert(members_view(body@) =~= members_view(before).push(view[it.index() as int]));
        }
    }
    body
}

/// Resolves a parsed response against a body with the fields `fields`, as
/// [`resolve_spec`] says. `payload` is the response as it was received, for
/// the report of a shape mismatch.
pub fn resolve_document(document: Result<Json, String>, payload: &[u8], fields: &[String]) -> (r:
    Result<Envelope, OpenDartError>)
    ensures
        resolved_view(r) == resolve_spec(parsed_view(document), payload@, texts_of(fields@)),
{
    let members = match document {
        Err(detail) => {
            return Err(reject(ShapeFault::NotJson(detail), payload));
        },
        Ok(Json::Object(members)) => members,
        Ok(_) => {
            return Err(reject(ShapeFault::NotAnObject, payload));
        },
    };
    proof {
        lemma_object_view(members);
    }
    if let Some(message) = nested_failure(&members) {
        return Err(OpenDartError::Message(MessageError { message }));
    }
    if let Some(message) = message_of(&members) {
        return Err(OpenDartError::Message(MessageError { message }));
    }
    let status = match find_text(&members, "status") {
        Some(status) => status.clone(),
        None => {
            return Err(reject(ShapeFault::NoStatus, payload));
        },
    };
    let text = match find_text(&members, "message") {
        Some(text) => text.clone(),
        None => {
            return Err(reject(ShapeFault::NoMessage, payload));
        },
    };
    if let Some(name) = unknown_member(&members, fields) {
        return Err(reject(ShapeFault::UnknownField(name), payload));
    }
    if let Some(name) = missing_field(&members, fields) {
        return Err(reject(ShapeFault::MissingField(name), payload));
    }
    let message = Message { status, message: text };
    if status_is_success(message.status.as_str()) {
        Ok(Envelope { message, body: into_body(members) })
    } else {
        Err(OpenDartError::Message(MessageError { message }))
    }
}

/// The error that reports `payload` as no envelope.
fn reject(fault: ShapeFault, payload: &[u8]) -> (e: OpenDartError)
    ensures
        e@ == mismatch(fault@, payload@),
{
    OpenDartError::Deserialize(ShapeMismatch { fault, payload: vstd::slice::slice_to_vec(payload) })
}

/// Resolves the payload of one response against a body with the fields
/// `fields`: parses it as JSON and resolves the document, as
/// [`resolve_spec`] says of what parsing gives.
pub fn resolve(bytes: &[u8], fields: &[String]) -> (r: Result<Envelope, OpenDartError>)
    ensures
        resolved_view(r) == resolve_spec(json_document(bytes@), bytes@, texts_of(fields@)),
{
    resolve_document(parse_json(bytes), bytes, fields)
}

/// The members of a flat failure with the given status and explanation.
pub open spec fn flat_failure(status: Seq<char>, message: Seq<char>) -> MembersView {
    seq![("status"@, JsonView::Text(status)), ("message"@, JsonView::Text(message))]
}

/// The members of a nested failure with the given status and explanation.
pub open spec fn nested_failure_of(status: Seq<char>, message: Seq<char>) -> MembersView {
    seq![("message"@, JsonView::Object(flat_failure(status, message)))]
}

/// The two failure shapes are the same outcome: a flat failure and a nested
/// failure with the same status and explanation both resolve to the
/// business failure that carries them, whatever body is expected.
pub proof fn lemma_failure_shapes_agree(
    status: Seq<char>,
    message: Seq<char>,
    payload: Seq<u8>,
    fields: Seq<Seq<char>>,
)
    ensures
        resolve_members(flat_failure(status, message), payload, fields) == Err::<
            EnvelopeView,
            OpenDartErrorView,
        >(OpenDartErrorView::Message(MessageView { status, message })),
        resolve_members(nested_failure_of(status, message), payload, fields) == resolve_members(
            flat_failure(status, message),
            payload,
            fields,
        ),
{
    reveal_strlit("status");
    reveal_strlit("message");
    assert("status"@.len() != "message"@.len());
    reveal_with_fuel(index_of, 3);
    let flat = flat_failure(status, message);
    assert(index_of(flat, "status"@, 0) == Some(0int));
    assert(index_of(flat, "message"@, 0) == Some(1int));
    assert(as_message(flat) == Some(MessageView { status, message }));
    let nested = nested_failure_of(status, message);
    assert(as_nested_failure(nested) == Some(MessageView { status, message }));
    assert(as_nested_failure(flat) is None);
}

/// A member is looked for from the front: no member before the one that is
/// found has the name.
proof fn lemma_index_of(members: MembersView, name: Seq<char>, from: int)
    requires
        0 <= from,
    ensures
        match index_of(members, name, from) {
            Some(i) => from <= i < members.len() && members[i].0 == name,
            None => forall|j: int| from <= j < members.len() ==> (#[trigger] members[j]).0 != name,
        },
    decreases members.len() - from,
{
    if from < members.len() && members[from].0 != name {
        lemma_index_of(members, name, from + 1);
    }
}

/// With no unknown member from `from` on, every member from there on is an
/// envelope member or a field of the body.
proof fn lemma_no_unknown(members: MembersView, fields: Seq<Seq<char>>, from: int)
    requires
        0 <= from,
        first_unknown(members, fields, from) is None,
    ensures
        forall|j: int|
            from <= j < members.len() ==> is_envelope_field((#[trigger] members[j]).0)
                || fields.contains(members[j].0),
    decreases members.len() - from,
{
    if from < members.len() {
        lemma_no_unknown(members, fields, from + 1);
    }
}

/// With no missing field from `from` on, every field from there on names a
/// member.
proof fn lemma_no_missing(members: MembersView, fields: Seq<Seq<char>>, from: int)
    requires
        0 <= from,
        first_missing(members, fields, from) is None,
    ensures
        forall|k: int|
            from <= k < fields.len() ==> index_of(members, #[trigger] fields[k], 0) is Some,
    decreases fields.len() - from,
{
    if from < fields.len() {
        lemma_no_missing(members, fields, from + 1);
    }
}

/// The body keeps, of the first `upto` members, exactly those that are no
/// envelope members.
proof fn lemma_body_of(members: MembersView, upto: int)
    requires
        0 <= upto <= members.len(),
    ensures
        forall|j: int|
            0 <= j < body_of(members, upto).len() ==> !is_envelope_field(
                (#[trigger] body_of(members, upto)[j]).0,
            ) && exists|i: int| 0 <= i < upto && members[i] == body_of(members, upto)[j],
    decreases upto,
{
    if upto > 0 {
        lemma_body_of(members, upto - 1);
        let rest = body_of(members, upto - 1);
        let all = body_of(members, upto);
        assert forall|j: int| 0 <= j < all.len() implies !is_envelope_field((#[trigger] all[j]).0)
            && exists|i: int| 0 <= i < upto && members[i] == all[j] by {
            if j < rest.len() {
                assert(all[j] == rest[j]);
                let i = choose|i: int| 0 <= i < upto - 1 && members[i] == rest[j];
                assert(0 <= i < upto && members[i] == all[j]);
            } else {
                assert(members[upto - 1] == all[j]);
            }
        }
    }
}

/// A response resolves to a success only if it is exactly a success: its
/// status denotes success, every member beside `status` and `message` is a
/// field of the expected body, every field of the expected body is there,
/// and the body that is returned holds members of the response only.
pub proof fn lemma_success_is_exact(members: MembersView, payload: Seq<u8>, fields: Seq<Seq<char>>)
    requires
        resolve_members(members, payload, fields) is Ok,
    ensures
        is_success_status(resolve_members(members, payload, fields)->Ok_0.message.status),
        forall|j: int|
            0 <= j < members.len() ==> is_envelope_field((#[trigger] members[j]).0)
                || fields.contains(members[j].0),
        forall|k: int|
            0 <= k < fields.len() ==> exists|i: int|
                0 <= i < members.len() && members[i].0 == #[trigger] fields[k],
        forall|j: int|
            0 <= j < resolve_members(members, payload, fields)->Ok_0.body.len()
                ==> fields.contains(
                (#[trigger] resolve_members(members, payload, fields)->Ok_0.body[j]).0,
            ),
{
    lemma_no_unknown(members, fields, 0);
    lemma_no_missing(members, fields, 0);
    assert forall|k: int| 0 <= k < fields.len() implies exists|i: int|
        0 <= i < members.len() && members[i].0 == #[trigger] fields[k] by {
        lemma_index_of(members, fields[k], 0);
        let i = index_of(members, fields[k], 0)->0;
        assert(0 <= i < members.len() && members[i].0 == fields[k]);
    }
    lemma_body_of(members, members.len() as int);
    let body = resolve_members(members, payload, fields)->Ok_0.body;
    assert forall|j: int| 0 <= j < body.len() implies fields.contains((#[trigger] body[j]).0) by {
        let i = choose|i: int| 0 <= i < members.len() && members[i] == body[j];
        assert(is_envelope_field(members[i].0) || fields.contains(members[i].0));
    }
}

/// A member that the expected body does not have makes a response a shape
/// mismatch, unless the response is a failure of one of the two failure
/// shapes.
pub proof fn lemma_unknown_field_is_rejected(
    members: MembersView,
    payload: Seq<u8>,
    fields: Seq<Seq<char>>,
    at: int,
)
    requires
        0 <= at < members.len(),
        !is_envelope_field(members[at].0),
        !fields.contains(members[at].0),
        as_nested_failure(members) is None,
    ensures
        resolve_members(members, payload, fields) matches Err(OpenDartErrorView::Deserialize(_)),
{
    if first_unknown(members, fields, 0) is None {
        lemma_no_unknown(members, fields, 0);
        assert(is_envelope_field(members[at].0) || fields.contains(members[at].0));
    }
    if as_message(members) is Some {
        lemma_index_of(members, "status"@, 0);
        lemma_index_of(members, "message"@, 0);
        reveal_strlit("status");
        reveal_strlit("message");
        assert("status"@.len() != "message"@.len());
        let i = index_of(members, "status"@, 0)->0;
        let j = index_of(members, "message"@, 0)->0;
        assert(i != j);
        assert(at == i || at == j);
    }
}

/// With every member from `from` on an envelope member or a field of the
/// body, no member from there on is unknown.
proof fn lemma_all_known(members: MembersView, fields: Seq<Seq<char>>, from: int)
    requires
        0 <= from,
        forall|j: int|
            from <= j < members.len() ==> is_envelope_field((#[trigger] members[j]).0)
                || fields.contains(members[j].0),
    ensures
        first_unknown(members, fields, from) is None,
    decreases members.len() - from,
{
    if from < members.len() {
        assert(is_envelope_field(members[from].0) || fields.contains(members[from].0));
        lemma_all_known(members, fields, from + 1);
    }
}

/// A member that has the name is found, whatever stands before it.
proof fn lemma_member_is_found(members: MembersView, name: Seq<char>, from: int, at: int)
    requires
        0 <= from <= at < members.len(),
        members[at].0 == name,
    ensures
        index_of(members, name, from) is Some,
    decreases at - from,
{
    if members[from].0 != name {
        lemma_member_is_found(members, name, from + 1, at);
    }
}

/// With every field from `from` on the name of a member, no field from
/// there on is missing.
proof fn lemma_all_present(members: MembersView, fields: Seq<Seq<char>>, from: int)
    requires
        0 <= from,
        forall|k: int|
            from <= k < fields.len() ==> exists|i: int|
                0 <= i < members.len() && members[i].0 == #[trigger] fields[k],
    ensures
        first_missing(members, fields, from) is None,
    decreases fields.len() - from,
{
    if from < fields.len() {
        let i = choose|i: int| 0 <= i < members.len() && members[i].0 == fields[from];
        lemma_member_is_found(members, fields[from], 0, i);
        lemma_all_present(members, fields, from + 1);
    }
}

/// Of a status message followed by members that are no envelope members,
/// the body is those members.
proof fn lemma_body_after_message(head: MembersView, body: MembersView, upto: int)
    requires
        forall|j: int| 0 <= j < head.len() ==> is_envelope_field((#[trigger] head[j]).0),
        forall|j: int| 0 <= j < body.len() ==> !is_envelope_field((#[trigger] body[j]).0),
        0 <= upto <= head.len() + body.len(),
    ensures
        body_of(head + body, upto) == if upto <= head.len() {
            Seq::<(Seq<char>, JsonView)>::empty()
        } else {
            body.subrange(0, upto - head.len())
        },
    decreases upto,
{
    if upto > 0 {
        lemma_body_after_message(head, body, upto - 1);
        let all = head + body;
        if upto <= head.len() {
            assert(all[upto - 1] == head[upto - 1]);
        } else {
            let k = upto - head.len();
            assert(all[upto - 1] == body[k - 1]);
            assert(body.subrange(0, k) =~= body.subrange(0, k - 1).push(body[k - 1]));
            assert(body.subrange(0, 0) =~= Seq::<(Seq<char>, JsonView)>::empty());
        }
    }
}

/// Success is owed to a flat success: a response that holds `status` and
/// `message` as strings, then the members `body`, resolves to the success
/// with that message and that body, provided the status denotes success,
/// there is a body, no member of the body is named like an envelope member,
/// and the names of the body are the fields that are expected.
pub proof fn lemma_flat_success_resolves(
    status: Seq<char>,
    message: Seq<char>,
    body: MembersView,
    payload: Seq<u8>,
    fields: Seq<Seq<char>>,
)
    requires
        is_success_status(status),
        body.len() > 0,
        forall|j: int|
            0 <= j < body.len() ==> !is_envelope_field((#[trigger] body[j]).0) && fields.contains(
                body[j].0,
            ),
        forall|k: int|
            0 <= k < fields.len() ==> exists|i: int|
                0 <= i < body.len() && body[i].0 == #[trigger] fields[k],
    ensures
        resolve_members(flat_failure(status, message) + body, payload, fields) == Ok::<
            EnvelopeView,
            OpenDartErrorView,
        >(EnvelopeView { message: MessageView { status, message }, body }),
{
    reveal_strlit("status");
    reveal_strlit("message");
    assert("status"@.len() != "message"@.len());
    reveal_with_fuel(index_of, 3);
    let head = flat_failure(status, message);
    let members = head + body;
    assert(members[0] == head[0]);
    assert(members[1] == head[1]);
    assert(index_of(members, "status"@, 0) == Some(0int));
    assert(index_of(members, "message"@, 0) == Some(1int));
    assert(members[2] == body[0]);
    assert(as_nested_failure(members) is None);
    assert(as_message(members) is None);
    assert forall|j: int| 0 <= j < members.len() implies is_envelope_field(
        (#[trigger] members[j]).0,
    ) || fields.contains(members[j].0) by {
        if j >= 2 {
            assert(members[j] == body[j - 2]);
        }
    }
    lemma_all_known(members, fields, 0);
    assert forall|k: int| 0 <= k < fields.len() implies exists|i: int|
        0 <= i < members.len() && members[i].0 == #[trigger] fields[k] by {
        let i = choose|i: int| 0 <= i < body.len() && body[i].0 == fields[k];
        assert(members[i + 2] == body[i]);
    }
    lemma_all_present(members, fields, 0);
    lemma_body_after_message(head, body, members.len() as int);
    assert(body.subrange(0, body.len() as int) =~= body);
}

} // verus!
