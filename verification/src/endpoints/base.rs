//! The status message of a registry response and the success test on it.

use crate::error::MessageError;
use crate::text::same_text;
use crate::validate::utils::{check_view, FieldError, FieldErrorView};
use vstd::prelude::*;
use vstd::string::*;

verus! {

broadcast use vstd::string::group_string_axioms;

/// The status carrier of every registry response: a three-digit status code
/// and its human-readable explanation.
#[derive(Debug, Clone, Eq, PartialEq, Ord, PartialOrd, Hash)]
pub struct Message {
    /// Status code, `"000"` for a normal response.
    pub status: String,
    /// Explanation that accompanies the status code.
    pub message: String,
}

/// Plain-value model of a [`Message`].
pub struct MessageView {
    pub status: Seq<char>,
    pub message: Seq<char>,
}

impl View for Message {
    type V = MessageView;

    open spec fn view(&self) -> MessageView {
        MessageView { status: self.status@, message: self.message@ }
    }
}

/// The status codes that denote success: the normal code `"000"` and, by
/// convention, `"013"`, which reports that no row matched.
pub open spec fn is_success_status(status: Seq<char>) -> bool {
    status == "000"@ || status == "013"@
}

/// The status codes that denote a failure and have a published meaning.
pub open spec fn is_failure_status(status: Seq<char>) -> bool {
    status == "010"@ || status == "011"@ || status == "012"@ || status == "014"@ || status
        == "020"@ || status == "021"@ || status == "100"@ || status == "101"@ || status == "800"@
        || status == "900"@ || status == "901"@
}

/// What the registry's catalogue says of a status code.
#[derive(Debug, Clone, Copy, Eq, PartialEq, Structural)]
pub enum StatusClass {
    /// The code denotes success.
    Success,
    /// The code denotes a failure with a published meaning.
    Failure,
    /// The catalogue does not have the code.
    Unknown,
}

/// The class of a status code.
pub open spec fn class_of(status: Seq<char>) -> StatusClass {
    if is_success_status(status) {
        StatusClass::Success
    } else if is_failure_status(status) {
        StatusClass::Failure
    } else {
        StatusClass::Unknown
    }
}

/// Whether `status` is one of the codes that denote success.
pub fn status_is_success(status: &str) -> (r: bool)
    ensures
        r == is_success_status(status@),
{
    same_text(status, "000") || same_text(status, "013")
}

/// Whether `status` is one of the failure codes of the catalogue.
fn status_is_failure(status: &str) -> (r: bool)
    ensures
        r == is_failure_status(status@),
{
    same_text(status, "010") || same_text(status, "011") || same_text(status, "012") || same_text(
        status,
        "014",
    ) || same_text(status, "020") || same_text(status, "021") || same_text(status, "100")
        || same_text(status, "101") || same_text(status, "800") || same_text(status, "900")
        || same_text(status, "901")
}

impl Message {
    /// Looks the status of this message up in the registry's catalogue.
    pub fn status_class(&self) -> (r: StatusClass)
        ensures
            r == class_of(self.status@),
    {
        if status_is_success(self.status.as_str()) {
            StatusClass::Success
        } else if status_is_failure(self.status.as_str()) {
            StatusClass::Failure
        } else {
            StatusClass::Unknown
        }
    }

    /// Checks the status of this message against the registry's catalogue:
    /// a status that denotes success passes, a failure of the catalogue and
    /// a status the catalogue does not have are told apart by the code of
    /// the error.
    pub fn validate(&self) -> (r: Result<(), FieldError>)
        ensures
            check_view(r) == match class_of(self.status@) {
                StatusClass::Success => Ok::<(), FieldErrorView>(()),
                StatusClass::Failure => Err::<(), FieldErrorView>(
                    FieldErrorView {
                        code: "error status received from OpenDart API"@,
                        params: Seq::empty(),
                    },
                ),
                StatusClass::Unknown => Err::<(), FieldErrorView>(
                    FieldErrorView {
                        code: "unknown status received from OpenDart API"@,
                        params: Seq::empty(),
                    },
                ),
            },
    {
        match self.status_class() {
            StatusClass::Success => Ok(()),
            StatusClass::Failure => Err(FieldError::new("error status received from OpenDart API")),
            StatusClass::Unknown => Err(
                FieldError::new("unknown status received from OpenDart API"),
            ),
        }
    }

    /// The message rendered for display: its status and its explanation.
    pub fn to_string(&self) -> (r: String)
        ensures
            r@ == "status: "@ + self.status@ + ", message: "@ + self.message@,
    {
        String::from_str("status: ").concat(self.status.as_str()).concat(", message: ").concat(
            self.message.as_str(),
        )
    }
}

/// Anything that carries a registry status and can say whether that status
/// reports success.
pub trait ResponseCheck {
    /// The status code this value carries.
    spec fn status_code(&self) -> Seq<char>;

    /// `Ok` exactly when the carried status denotes success; otherwise the
    /// error names that status.
    fn is_success(&self) -> (r: Result<(), MessageError>)
        ensures
            r is Ok <==> is_success_status(self.status_code()),
            r matches Err(e) ==> e.message.status@ == self.status_code(),
    ;
}

impl ResponseCheck for Message {
    open spec fn status_code(&self) -> Seq<char> {
        self.status@
    }

    /// On failure the error carries this message whole, status and text.
    fn is_success(&self) -> (r: Result<(), MessageError>)
        ensures
            r matches Err(e) ==> e.message@ == self@,
    {
        if status_is_success(self.status.as_str()) {
            Ok(())
        } else {
            Err(
                MessageError {
                    message: Message { status: self.status.clone(), message: self.message.clone() },
                },
            )
        }
    }
}

/// Judges a bare status code: `Ok` when it denotes success, otherwise an
/// error that holds the code with an empty explanation.
pub fn is_success(status: &str) -> (r: Result<(), MessageError>)
    ensures
        r is Ok <==> is_success_status(status@),
        r matches Err(e) ==> e.message.status@ == status@ && e.message.message@ == Seq::<
            char,
        >::empty(),
{
    if status_is_success(status) {
        Ok(())
    } else {
        Err(MessageError { message: Message { status: status.to_owned(), message: String::new() } })
    }
}

} // verus!
