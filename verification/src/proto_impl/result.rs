//! The one error type that every fallible operation of the runtime returns.
use crate::ffi::ffi_result::{kind_description, kind_name, FFIResultKind};
use std::fmt::Display;
use vstd::prelude::*;
use vstd::string::*;

verus! {

/// What went wrong inside the runtime.
#[derive(Debug)]
pub enum FFIErrorKind {
    /// A result kind that is handed to the host as it is, without a recorded reason.
    KindCode(FFIResultKind),
    /// An error of the QUIC protocol, with its code and reason.
    Protocol { code: u32, reason: String },
    /// An invariant of the binding layer was violated.
    Ffi,
    /// An I/O or channel error, with its message.
    Io(String),
}

/// Mathematical model of an [`FFIErrorKind`]: texts are sequences of characters.
pub enum ErrorView {
    KindCode(FFIResultKind),
    Protocol { code: u32, reason: Seq<char> },
    Ffi,
    Io(Seq<char>),
}

impl View for FFIErrorKind {
    type V = ErrorView;

    open spec fn view(&self) -> ErrorView {
        match self {
            FFIErrorKind::KindCode(kind) => ErrorView::KindCode(*kind),
            FFIErrorKind::Protocol { code, reason } => ErrorView::Protocol {
                code: *code,
                reason: reason@,
            },
            FFIErrorKind::Ffi => ErrorView::Ffi,
            FFIErrorKind::Io(message) => ErrorView::Io(message@),
        }
    }
}

/// Reason of an error that carries none of its own: an invariant of the binding
/// layer did not hold.
pub open spec fn ffi_layer_reason() -> Seq<char> {
    "Error occurred in the FFI layer"@
}

/// The human-readable reason of an error, as the host retrieves it.
pub open spec fn reason_of(error: ErrorView) -> Seq<char> {
    match error {
        ErrorView::KindCode(kind) => kind_description(kind),
        ErrorView::Protocol { code, reason } => reason,
        ErrorView::Ffi => ffi_layer_reason(),
        ErrorView::Io(message) => message,
    }
}

/// The sentence that describes an error. `code` is the code of an error of the
/// protocol, written as a decimal number.
pub open spec fn description_of(error: ErrorView, code: Seq<char>) -> Seq<char> {
    match error {
        ErrorView::KindCode(kind) => "Quinn error kind Occurred: "@ + kind_name(kind),
        ErrorView::Protocol { reason, .. } => "QuinnError Error; code: "@ + code + " reason: "@
            + reason,
        ErrorView::Ffi => ffi_layer_reason(),
        ErrorView::Io(message) => "Io Error Occurred: "@ + message,
    }
}

impl FFIErrorKind {
    /// An I/O error with the given message.
    pub fn io_error(str: &str) -> (error: FFIErrorKind)
        ensures
            error@ == ErrorView::Io(str@),
    {
        FFIErrorKind::Io(String::from_str(str))
    }

    /// Turns any displayable error (of the protocol library, of a channel or of the
    /// variable-length integer codec) into an I/O error that carries its text.
    pub fn from_display<E: Display>(error: &E) -> (converted: FFIErrorKind)
        ensures
            converted matches FFIErrorKind::Io(message) && to_string_from_display_ensures::<
                E,
            >(error, message),
    {
        FFIErrorKind::Io(error.to_string())
    }

    /// The sentence that describes this error: its category, and its code and
    /// reason where it has them.
    pub fn to_string(&self) -> (text: String)
        ensures
            self matches FFIErrorKind::Protocol { code, .. } ==> exists|digits: String|
                to_string_from_display_ensures::<u32>(code, digits) && text@ == description_of(
                    self@,
                    digits@,
                ),
            !(self is Protocol) ==> text@ == description_of(self@, Seq::empty()),
    {
        match self {
            FFIErrorKind::KindCode(kind) => {
                let mut text = String::from_str("Quinn error kind Occurred: ");
                text.append(kind.name());
                text
            },
            FFIErrorKind::Protocol { code, reason } => {
                let digits = code.to_string();
                let mut text = String::from_str("QuinnError Error; code: ");
                text.append(digits.as_str());
                text.append(" reason: ");
                text.append(reason.as_str());
                text
            },
            FFIErrorKind::Ffi => String::from_str("Error occurred in the FFI layer"),
            FFIErrorKind::Io(message) => {
                let mut text = String::from_str("Io Error Occurred: ");
                text.append(message.as_str());
                text
            },
        }
    }

    /// The reason that is reported to the host for this error.
    pub fn reason(&self) -> (text: String)
        ensures
            text@ == reason_of(self@),
    {
        match self {
            FFIErrorKind::KindCode(kind) => kind.description(),
            FFIErrorKind::Protocol { code: _, reason } => reason.clone(),
            FFIErrorKind::Ffi => String::from_str("Error occurred in the FFI layer"),
            FFIErrorKind::Io(message) => message.clone(),
        }
    }
}

} // verus!
