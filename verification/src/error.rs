//! The error every operation of the substrate reports, and the response the
//! transport boundary makes of it.

use vstd::prelude::*;
use vstd::string::StringExecFns;

verus! {

/// What went wrong. Hook vetoes are not errors and have no kind here: they
/// travel as the `abort` and `keep` booleans of the hook protocol.
#[derive(Clone, Copy, Debug, PartialEq, Eq, Structural)]
pub enum ErrorKind {
    /// The registry holds no repository for an entity that an operation needs.
    RepositoryNotConfigured,
    /// A uniqueness check ran without the name of the field it stands for.
    FieldNotSet,
    /// The `Authorization` header does not carry a bearer token.
    TokenFormat,
    /// A path segment is not a 24-digit hexadecimal identifier.
    Identifier,
    /// The document store failed.
    Storage,
    /// An outbound call to another service failed.
    Transport,
    /// A response body that must decode did not.
    Decode,
}

impl ErrorKind {
    /// Configuration errors are fatal to the operation and never worth a retry.
    pub open spec fn is_configuration(self) -> bool {
        self == ErrorKind::RepositoryNotConfigured || self == ErrorKind::FieldNotSet
    }
}

/// A failed operation: its kind and a message for humans.
#[derive(Debug, PartialEq, Eq)]
pub struct ServiceError {
    pub kind: ErrorKind,
    pub message: String,
}

/// The mathematical content of a [`ServiceError`].
pub struct ServiceErrorView {
    pub kind: ErrorKind,
    pub message: Seq<char>,
}

impl View for ServiceError {
    type V = ServiceErrorView;

    open spec fn view(&self) -> ServiceErrorView {
        ServiceErrorView { kind: self.kind, message: self.message@ }
    }
}

impl DeepView for ServiceError {
    type V = ServiceErrorView;

    open spec fn deep_view(&self) -> ServiceErrorView {
        self@
    }
}

impl Clone for ServiceError {
    fn clone(&self) -> (copy: ServiceError)
        ensures
            copy == *self,
    {
        ServiceError { kind: self.kind, message: self.message.clone() }
    }
}

/// The status every propagated error collapses to at the HTTP boundary.
pub const FAILURE_STATUS: u16 = 500;

/// The text that precedes the message in a failure response.
pub open spec fn failure_prefix() -> Seq<char> {
    "Error message: "@
}

impl ServiceError {
    pub fn new(kind: ErrorKind, message: &str) -> (e: ServiceError)
        ensures
            e@ == (ServiceErrorView { kind, message: message@ }),
    {
        ServiceError { kind, message: String::from_str(message) }
    }

    /// Status and body of the response that reports this error: always the one
    /// generic failure status, with the message behind a fixed prefix.
    pub fn into_response(self) -> (response: (u16, String))
        ensures
            response.0 == FAILURE_STATUS,
            response.1@ == failure_prefix() + self.message@,
    {
        let body = String::from_str("Error message: ").concat(self.message.as_str());
        (FAILURE_STATUS, body)
    }
}

} // verus!
