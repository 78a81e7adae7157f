//! Errors of the controllers, which work on top of the connection layer.

use crate::errors::{PulseCtlError, PulseCtlErrorView};
use crate::text::{
    contains_text, lemma_contains_transitive, lemma_middle_occurs, quoted, tag, tagged,
};
use vstd::prelude::*;
use vstd::std_specs::convert::FromSpecImpl;

verus! {

/// The failure that a [`ControllerError`] reports.
#[derive(Debug, Clone, Copy, PartialEq, Eq, Structural)]
pub enum ControllerErrorType {
    /// An error of the connection layer, handed upward.
    ConnectionLayerError,
    /// A request for information about an entity failed.
    GetInfoError,
}

impl ControllerErrorType {
    /// The name of the variant, as it is displayed.
    pub open spec fn spec_name(self) -> Seq<char> {
        match self {
            ControllerErrorType::ConnectionLayerError => "ConnectionLayerError"@,
            ControllerErrorType::GetInfoError => "GetInfoError"@,
        }
    }

    /// The name of the variant, as it is displayed.
    pub fn name(self) -> (n: &'static str)
        ensures
            n@ == self.spec_name(),
    {
        match self {
            ControllerErrorType::ConnectionLayerError => "ConnectionLayerError",
            ControllerErrorType::GetInfoError => "GetInfoError",
        }
    }
}

/// An error of a controller: a kind and a message for the reader.
#[derive(Debug)]
pub struct ControllerError {
    error: ControllerErrorType,
    message: String,
}

/// What a [`ControllerError`] holds: its kind and the characters of its
/// message.
pub struct ControllerErrorView {
    pub kind: ControllerErrorType,
    pub message: Seq<char>,
}

impl ControllerErrorView {
    /// The controller error that carries the connection-layer error `inner`
    /// upward: its message is the `Debug` form of `inner`.
    pub open spec fn wrapping(inner: PulseCtlErrorView) -> ControllerErrorView {
        ControllerErrorView {
            kind: ControllerErrorType::ConnectionLayerError,
            message: inner.debug_rendering(),
        }
    }

    /// The displayed form: the kind's name in square brackets, a colon, a
    /// space, and the message.
    pub open spec fn rendering(self) -> Seq<char> {
        tagged(self.kind.spec_name(), self.message)
    }
}

impl View for ControllerError {
    type V = ControllerErrorView;

    closed spec fn view(&self) -> ControllerErrorView {
        ControllerErrorView { kind: self.error, message: self.message@ }
    }
}

impl ControllerError {
    /// An error of kind `err` with the message `msg`.
    pub fn new(err: ControllerErrorType, msg: &'static str) -> (e: Self)
        ensures
            e@ == (ControllerErrorView { kind: err, message: msg@ }),
    {
        ControllerError { error: err, message: msg.to_string() }
    }

    /// The kind of failure.
    pub fn kind(&self) -> (k: ControllerErrorType)
        ensures
            k == self@.kind,
    {
        self.error
    }

    /// The message.
    pub fn message(&self) -> (m: &str)
        ensures
            m@ == self@.message,
    {
        self.message.as_str()
    }

    /// The displayed form of the error.
    pub fn to_string(&self) -> (s: String)
        ensures
            s@ == self@.rendering(),
    {
        tag(self.error.name(), self.message.as_str())
    }
}

/// An error of the connection layer becomes a controller error of kind
/// `ConnectionLayerError`, with the `Debug` form of the whole error as its
/// message.
impl From<PulseCtlError> for ControllerError {
    fn from(error: PulseCtlError) -> (e: ControllerError)
        ensures
            e@ == ControllerErrorView::wrapping(error@),
    {
        ControllerError {
            error: ControllerErrorType::ConnectionLayerError,
            message: error.debug_string(),
        }
    }
}

/// What `from` returns is stated by its own `ensures`, over the views. A
/// spec function cannot name the value itself: in ghost code a `String` is
/// known by its characters only, and cannot be made from them.
impl FromSpecImpl<PulseCtlError> for ControllerError {
    open spec fn obeys_from_spec() -> bool {
        false
    }

    open spec fn from_spec(v: PulseCtlError) -> Self {
        arbitrary()
    }
}

/// An error with the kind `kind` and the message `message` is displayed as
/// the kind's name in square brackets, then a colon, a space and the message.
pub proof fn lemma_rendering_of_fields(kind: ControllerErrorType, message: Seq<char>)
    ensures
        (ControllerErrorView { kind, message }).rendering() == "["@ + kind.spec_name() + "]: "@
            + message,
{
}

/// The displayed form depends on the two fields alone: errors that agree in
/// kind and message are displayed alike.
pub proof fn lemma_rendering_determined_by_fields(a: ControllerError, b: ControllerError)
    requires
        a@.kind == b@.kind,
        a@.message == b@.message,
    ensures
        a@.rendering() == b@.rendering(),
{
}

/// Whatever error of the connection layer is wrapped, the result is of kind
/// `ConnectionLayerError`, and its displayed form holds the name of the
/// wrapped error's kind and the wrapped message as quoted. The message as
/// it was written is held too wherever its quoted form holds it.
pub proof fn lemma_wrapping_displays_inner(inner: PulseCtlError)
    ensures
        ControllerErrorView::wrapping(inner@).kind == ControllerErrorType::ConnectionLayerError,
        contains_text(ControllerErrorView::wrapping(inner@).rendering(), inner@.kind.spec_name()),
        contains_text(ControllerErrorView::wrapping(inner@).rendering(), quoted(inner@.message)),
        contains_text(quoted(inner@.message), inner@.message) ==> contains_text(
            ControllerErrorView::wrapping(inner@).rendering(),
            inner@.message,
        ),
{
    let outer = ControllerErrorView::wrapping(inner@);
    let shown = outer.rendering();
    let name = inner@.kind.spec_name();
    let quoted_message = quoted(inner@.message);
    let head = "["@ + outer.kind.spec_name() + "]: "@ + "PulseCtlError { error: "@;

    assert(shown =~= head + name + (", message: "@ + quoted_message + " }"@));
    lemma_middle_occurs(head, name, ", message: "@ + quoted_message + " }"@);

    assert(shown =~= (head + name + ", message: "@) + quoted_message + " }"@);
    lemma_middle_occurs(head + name + ", message: "@, quoted_message, " }"@);

    if contains_text(quoted_message, inner@.message) {
        lemma_contains_transitive(shown, quoted_message, inner@.message);
    }
}

} // verus!
