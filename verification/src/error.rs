//! The typed errors of the library.

use crate::endpoints::base::{Message, MessageView};
use vstd::prelude::*;
use vstd::string::*;

verus! {

broadcast use vstd::string::group_string_axioms;

/// A raw value failed a domain constraint: the offending value and a
/// description of the constraint it broke.
#[derive(Debug, Clone, Eq, PartialEq, Ord, PartialOrd, Hash)]
pub struct MyValidationError {
    /// The raw value that was rejected.
    pub value: String,
    /// The constraint the value failed.
    pub message: String,
}

/// Short name for [`MyValidationError`].
pub type ValidationError = MyValidationError;

impl MyValidationError {
    /// An error for the rejected `value` with the constraint `message`.
    pub fn new(value: &str, message: &str) -> (e: MyValidationError)
        ensures
            e.value@ == value@,
            e.message@ == message@,
    {
        MyValidationError { value: value.to_owned(), message: message.to_owned() }
    }
}

/// A well-formed response reported a status that does not denote success.
#[derive(Debug, Clone, Eq, PartialEq, Ord, PartialOrd, Hash)]
pub struct MessageError {
    /// The status and explanation the registry sent.
    pub message: Message,
}

/// A registry archive did not hold exactly one XML entry.
#[derive(Debug, Clone, Eq, PartialEq, Ord, PartialOrd, Hash)]
pub struct UnexpectedZipContentError {
    /// The names of the entries that were found, in archive order.
    pub files: Vec<String>,
}

/// The XML stream of a registry dump is malformed.
#[derive(Debug, Clone, Eq, PartialEq, Ord, PartialOrd, Hash)]
pub struct XmlFault {
    /// What the XML reader reported.
    pub detail: String,
    /// The byte offset in the stream at which the fault was found.
    pub position: u64,
}

/// Plain-value model of an [`XmlFault`].
pub struct XmlFaultView {
    pub detail: Seq<char>,
    pub position: int,
}

impl View for XmlFault {
    type V = XmlFaultView;

    open spec fn view(&self) -> XmlFaultView {
        XmlFaultView { detail: self.detail@, position: self.position as int }
    }
}

/// A ZIP archive, or one of its entries, cannot be read.
#[derive(Debug, Clone, Eq, PartialEq, Ord, PartialOrd, Hash)]
pub struct ZipFault {
    /// What the archive reader reported.
    pub detail: String,
}

/// Why a payload is none of the recognised envelope shapes. The flat
/// success shape, the widest of the three, is the one the payload is held
/// against.
#[derive(Debug, Clone, Eq, PartialEq, Ord, PartialOrd, Hash)]
pub enum ShapeFault {
    /// The payload is not JSON; the parser's message, with line and column.
    NotJson(String),
    /// The payload is JSON but not an object.
    NotAnObject,
    /// The object has no `status` member that is a string.
    NoStatus,
    /// The object has no `message` member that is a string.
    NoMessage,
    /// The object has a member that the expected body does not have.
    UnknownField(String),
    /// The object lacks a member that the expected body has.
    MissingField(String),
}

/// Plain-value model of a [`ShapeFault`].
pub enum ShapeFaultView {
    NotJson(Seq<char>),
    NotAnObject,
    NoStatus,
    NoMessage,
    UnknownField(Seq<char>),
    MissingField(Seq<char>),
}

impl View for ShapeFault {
    type V = ShapeFaultView;

    open spec fn view(&self) -> ShapeFaultView {
        match self {
            ShapeFault::NotJson(detail) => ShapeFaultView::NotJson(detail@),
            ShapeFault::NotAnObject => ShapeFaultView::NotAnObject,
            ShapeFault::NoStatus => ShapeFaultView::NoStatus,
            ShapeFault::NoMessage => ShapeFaultView::NoMessage,
            ShapeFault::UnknownField(name) => ShapeFaultView::UnknownField(name@),
            ShapeFault::MissingField(name) => ShapeFaultView::MissingField(name@),
        }
    }
}

/// A response payload matches none of the recognised envelope shapes.
#[derive(Debug, Clone, Eq, PartialEq, Ord, PartialOrd, Hash)]
pub struct ShapeMismatch {
    /// Why the payload was rejected.
    pub fault: ShapeFault,
    /// The payload as it was received.
    pub payload: Vec<u8>,
}

/// Plain-value model of a [`ShapeMismatch`].
pub struct ShapeMismatchView {
    pub fault: ShapeFaultView,
    pub payload: Seq<u8>,
}

impl View for ShapeMismatch {
    type V = ShapeMismatchView;

    open spec fn view(&self) -> ShapeMismatchView {
        ShapeMismatchView { fault: self.fault@, payload: self.payload@ }
    }
}

/// Every failure the library reports.
#[derive(Debug, Clone, Eq, PartialEq)]
pub enum OpenDartError {
    /// A response payload matches none of the recognised envelope shapes.
    Deserialize(ShapeMismatch),
    /// A raw value, or a record of the registry dump, failed validation.
    MyValidation(MyValidationError),
    /// The registry answered with a status that does not denote success.
    Message(MessageError),
    /// The XML stream of a registry dump is malformed.
    QuickXml(XmlFault),
    /// A registry archive did not hold exactly one XML entry.
    UnexpectedZipContent(UnexpectedZipContentError),
    /// A registry archive cannot be read.
    Zip(ZipFault),
}

/// Plain-value model of an [`OpenDartError`].
pub enum OpenDartErrorView {
    Deserialize(ShapeMismatchView),
    MyValidation { value: Seq<char>, message: Seq<char> },
    Message(MessageView),
    QuickXml(XmlFaultView),
    UnexpectedZipContent(Seq<Seq<char>>),
    Zip(Seq<char>),
}

/// The texts of a list of strings, in order.
pub open spec fn texts_of(names: Seq<String>) -> Seq<Seq<char>> {
    Seq::new(names.len(), |i: int| names[i]@)
}

impl View for OpenDartError {
    type V = OpenDartErrorView;

    open spec fn view(&self) -> OpenDartErrorView {
        match self {
            OpenDartError::Deserialize(e) => OpenDartErrorView::Deserialize(e@),
            OpenDartError::MyValidation(e) => OpenDartErrorView::MyValidation {
                value: e.value@,
                message: e.message@,
            },
            OpenDartError::Message(e) => OpenDartErrorView::Message(e.message@),
            OpenDartError::QuickXml(e) => OpenDartErrorView::QuickXml(e@),
            OpenDartError::UnexpectedZipContent(e) => OpenDartErrorView::UnexpectedZipContent(
                texts_of(e.files@),
            ),
            OpenDartError::Zip(e) => OpenDartErrorView::Zip(e.detail@),
        }
    }
}

} // verus!
