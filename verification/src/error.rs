//! The error type shared by every fallible operation of the crate.

use vstd::prelude::*;
use vstd::std_specs::convert::FromSpecImpl;
use vstd::string::StringExecFns;

verus! {

/// What went wrong, independent of the wording of the message.
#[derive(Clone, Copy, Debug, PartialEq, Eq, Structural)]
pub enum ErrorKind {
    /// The accessibility or automation permission has not been granted.
    PermissionDenied,
    /// The focused element is missing, was destroyed during the query, or
    /// lacks the capability that was asked for.
    ElementUnavailable,
    /// Nothing is selected, so there is nothing to locate.
    NoSelection,
    /// A rectangle failed the geometry sanity check.
    InvalidBounds,
    /// A shortcut string could not be parsed.
    ParseError,
    /// The shortcut is already in the registry.
    AlreadyRegistered,
    /// The shortcut is not in the registry.
    NotRegistered,
    /// A lock guarding shared state was poisoned.
    LockPoisoned,
    /// The channel to the owner thread was closed.
    ChannelClosed,
    /// Any other failure reported by a collaborator.
    Other,
}

/// The mathematical value of an [`AppError`].
pub ghost struct ErrorView {
    pub kind: ErrorKind,
    pub message: Seq<char>,
}

/// An error with its kind and a message for the user.
#[derive(Clone, Debug)]
pub struct AppError {
    kind: ErrorKind,
    message: String,
}

impl View for AppError {
    type V = ErrorView;

    closed spec fn view(&self) -> ErrorView {
        ErrorView { kind: self.kind, message: self.message@ }
    }
}

impl AppError {
    /// An error of the given kind with the given message.
    pub fn new(kind: ErrorKind, message: String) -> (e: AppError)
        ensures
            e@ == (ErrorView { kind, message: message@ }),
    {
        AppError { kind, message }
    }

    /// An error of the given kind with the given fixed message.
    pub fn with_text(kind: ErrorKind, message: &str) -> (e: AppError)
        ensures
            e@ == (ErrorView { kind, message: message@ }),
    {
        AppError { kind, message: String::from_str(message) }
    }

    /// The kind of the error.
    pub fn kind(&self) -> (k: ErrorKind)
        ensures
            k == self@.kind,
    {
        self.kind
    }

    /// The message of the error.
    pub fn message(&self) -> (m: &str)
        ensures
            m@ == self@.message,
    {
        self.message.as_str()
    }

    /// The text shown for the error: its message.
    pub fn to_string(&self) -> (s: String)
        ensures
            s@ == self@.message,
    {
        self.message.clone()
    }
}

impl From<String> for AppError {
    fn from(message: String) -> (e: AppError) {
        AppError { kind: ErrorKind::Other, message }
    }
}

impl FromSpecImpl<String> for AppError {
    open spec fn obeys_from_spec() -> bool {
        true
    }

    open spec fn from_spec(message: String) -> AppError {
        AppError::spec_other(message)
    }
}

impl From<&str> for AppError {
    fn from(message: &str) -> (e: AppError)
        ensures
            e@ == (ErrorView { kind: ErrorKind::Other, message: message@ }),
    {
        AppError { kind: ErrorKind::Other, message: String::from_str(message) }
    }
}

impl FromSpecImpl<&str> for AppError {
    /// Two strings with the same characters need not be the same value, so
    /// the result is described by its view, on `from` itself.
    open spec fn obeys_from_spec() -> bool {
        false
    }

    open spec fn from_spec(message: &str) -> AppError {
        arbitrary()
    }
}

impl AppError {
    /// The error that `From<String>` builds: kind `Other`, the given message.
    pub closed spec fn spec_other(message: String) -> AppError {
        AppError { kind: ErrorKind::Other, message }
    }

    /// What `spec_other` holds.
    pub broadcast proof fn lemma_spec_other(message: String)
        ensures
            (#[trigger] AppError::spec_other(message))@ == (ErrorView {
                kind: ErrorKind::Other,
                message: message@,
            }),
    {
    }
}

} // verus!
