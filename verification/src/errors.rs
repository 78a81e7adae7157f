//! Errors of the connection layer: what went wrong while talking to the
//! audio server.

use crate::text::{contains_text, lemma_tail_occurs, quote, quoted, tag, tagged};
use vstd::prelude::*;
use vstd::string::StringExecFns;

verus! {

/// The failure that a [`PulseCtlError`] reports.
#[derive(Debug, Clone, Copy, PartialEq, Eq, Structural)]
pub enum PulseCtlErrorType {
    /// No connection to the server could be established.
    ConnectError,
    /// A requested operation was cancelled or ended abnormally.
    OperationError,
    /// The server answered with an error code.
    PulseAudioError,
}

impl PulseCtlErrorType {
    /// The name of the variant, as it is displayed.
    pub open spec fn spec_name(self) -> Seq<char> {
        match self {
            PulseCtlErrorType::ConnectError => "ConnectError"@,
            PulseCtlErrorType::OperationError => "OperationError"@,
            PulseCtlErrorType::PulseAudioError => "PulseAudioError"@,
        }
    }

    /// The name of the variant, as it is displayed.
    pub fn name(self) -> (n: &'static str)
        ensures
            n@ == self.spec_name(),
    {
        match self {
            PulseCtlErrorType::ConnectError => "ConnectError",
            PulseCtlErrorType::OperationError => "OperationError",
            PulseCtlErrorType::PulseAudioError => "PulseAudioError",
        }
    }
}

/// An error of the connection layer: a kind and a message for the reader.
#[derive(Debug)]
pub struct PulseCtlError {
    error: PulseCtlErrorType,
    message: String,
}

/// What a [`PulseCtlError`] holds: its kind and the characters of its message.
pub struct PulseCtlErrorView {
    pub kind: PulseCtlErrorType,
    pub message: Seq<char>,
}

/// The label under which a code of the server is reported: the name that
/// the binding to the server has for it, or `Unknown` where it has none.
pub open spec fn native_code_label(name: Option<&str>) -> Seq<char> {
    match name {
        Some(n) => n@,
        None => "Unknown"@,
    }
}

/// The message of an error that reports a code of the server: a fixed
/// sentence followed by the label of the code.
pub open spec fn native_code_message(label: Seq<char>) -> Seq<char> {
    "server returned error code "@ + label
}

/// The `Debug` form of an error of kind `kind` whose message, once quoted,
/// reads `quoted_message`.
pub open spec fn debug_layout(kind: PulseCtlErrorType, quoted_message: Seq<char>) -> Seq<char> {
    "PulseCtlError { error: "@ + kind.spec_name() + ", message: "@ + quoted_message + " }"@
}

impl PulseCtlErrorView {
    /// The error that stands for the server's code labelled `label`.
    pub open spec fn of_native_code(label: Seq<char>) -> PulseCtlErrorView {
        PulseCtlErrorView {
            kind: PulseCtlErrorType::PulseAudioError,
            message: native_code_message(label),
        }
    }

    /// The displayed form: the kind's name in square brackets, a colon, a
    /// space, and the message.
    pub open spec fn rendering(self) -> Seq<char> {
        tagged(self.kind.spec_name(), self.message)
    }

    /// The `Debug` form: the type's name and both fields, the message quoted.
    pub open spec fn debug_rendering(self) -> Seq<char> {
        debug_layout(self.kind, quoted(self.message))
    }
}

impl View for PulseCtlError {
    type V = PulseCtlErrorView;

    closed spec fn view(&self) -> PulseCtlErrorView {
        PulseCtlErrorView { kind: self.error, message: self.message@ }
    }
}

impl PulseCtlError {
    /// An error of kind `err` with the message `msg`.
    pub fn new(err: PulseCtlErrorType, msg: &str) -> (e: Self)
        ensures
            e@ == (PulseCtlErrorView { kind: err, message: msg@ }),
    {
        PulseCtlError { error: err, message: msg.to_string() }
    }

    /// The error for a code that the server returned. `name` is the name
    /// that the binding to the server has for that code, if it has one; it
    /// ends the message unchanged. A code without a name is reported as
    /// `Unknown`.
    pub fn from_native_code(name: Option<&str>) -> (e: Self)
        ensures
            e@ == PulseCtlErrorView::of_native_code(native_code_label(name)),
    {
        let label = match name {
            Some(n) => n,
            None => "Unknown",
        };
        let mut message = String::from_str("server returned error code ");
        message.append(label);
        PulseCtlError { error: PulseCtlErrorType::PulseAudioError, message }
    }

    /// The kind of failure.
    pub fn kind(&self) -> (k: PulseCtlErrorType)
        ensures
            k == self@.kind,
    {
        self.error
    }

    /// The message.
    pub fn message(&self) -> (m: &str)
        ensures
            m@ == self@.message,
    {
        self.message.as_str()
    }

    /// The displayed form of the error.
    pub fn to_string(&self) -> (s: String)
        ensures
            s@ == self@.rendering(),
    {
        tag(self.error.name(), self.message.as_str())
    }

    /// Lays out the `Debug` form of an error from its kind and its message
    /// as already quoted.
    pub fn format_debug(kind: PulseCtlErrorType, quoted_message: &str) -> (s: String)
        ensures
            s@ == debug_layout(kind, quoted_message@),
    {
        let mut s = String::from_str("PulseCtlError { error: ");
        s.append(kind.name());
        s.append(", message: ");
        s.append(quoted_message);
        s.append(" }");
        s
    }

    /// The `Debug` form of the error, as a string.
    pub fn debug_string(&self) -> (s: String)
        ensures
            s@ == self@.debug_rendering(),
    {
        let quoted_message = quote(self.message.as_str());
        Self::format_debug(self.error, quoted_message.as_str())
    }
}

/// An error with the kind `kind` and the message `message` is displayed as
/// the kind's name in square brackets, then a colon, a space and the message.
pub proof fn lemma_rendering_of_fields(kind: PulseCtlErrorType, message: Seq<char>)
    ensures
        (PulseCtlErrorView { kind, message }).rendering() == "["@ + kind.spec_name() + "]: "@
            + message,
{
}

/// The displayed form depends on the two fields alone: errors that agree in
/// kind and message are displayed alike.
pub proof fn lemma_rendering_determined_by_fields(a: PulseCtlError, b: PulseCtlError)
    requires
        a@.kind == b@.kind,
        a@.message == b@.message,
    ensures
        a@.rendering() == b@.rendering(),
{
}

/// Whatever code the server returned, named or not, the error made from it
/// is of kind `PulseAudioError`, and the label of the code can be read in
/// its message and in its displayed form.
pub proof fn lemma_native_code_is_displayed(name: Option<&str>)
    ensures
        PulseCtlErrorView::of_native_code(native_code_label(name)).kind
            == PulseCtlErrorType::PulseAudioError,
        contains_text(
            PulseCtlErrorView::of_native_code(native_code_label(name)).message,
            native_code_label(name),
        ),
        contains_text(
            PulseCtlErrorView::of_native_code(native_code_label(name)).rendering(),
            native_code_label(name),
        ),
{
    let label = native_code_label(name);
    let e = PulseCtlErrorView::of_native_code(label);
    lemma_tail_occurs("server returned error code "@, label);
    let head = "["@ + e.kind.spec_name() + "]: "@ + "server returned error code "@;
    assert(e.rendering() =~= head + label);
    lemma_tail_occurs(head, label);
}

} // verus!
