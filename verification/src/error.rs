//! What can go wrong, by kind, with the message shown to the user.

use vstd::prelude::*;

verus! {

/// The kinds of failure.
#[derive(Clone, Copy, Debug, PartialEq, Eq, Structural)]
pub enum ErrorKind {
    /// A unit file or the synchronised document is absent.
    NotFound,
    /// The remote store refused the credentials.
    AuthFailure,
    /// A process could not be started, a command failed, or the file
    /// system or the network refused.
    PermissionOrTransport,
    /// The operation is not implemented on this platform.
    Unsupported,
    /// A document is malformed.
    ParseFailure,
    /// The remote store answered with an unexpected status.
    RemoteProtocolError,
}

/// A failure: its kind and a message for the user.
#[derive(Debug, PartialEq, Eq)]
pub struct ServiceError {
    pub kind: ErrorKind,
    pub message: String,
}

/// Mathematical form of [`ServiceError`].
pub struct ServiceErrorView {
    pub kind: ErrorKind,
    pub message: Seq<char>,
}

impl View for ServiceError {
    type V = ServiceErrorView;

    open spec fn view(&self) -> ServiceErrorView {
        ServiceErrorView { kind: self.kind, message: self.message@ }
    }
}

impl DeepView for ServiceError {
    type V = ServiceErrorView;

    open spec fn deep_view(&self) -> ServiceErrorView {
        self@
    }
}

/// A failure of the given kind with the given message.
pub open spec fn failure(kind: ErrorKind, message: Seq<char>) -> ServiceErrorView {
    ServiceErrorView { kind, message }
}

impl ServiceError {
    /// A failure of the given kind with the given message.
    pub fn new(kind: ErrorKind, message: String) -> (r: ServiceError)
        ensures
            r@ == failure(kind, message@),
    {
        ServiceError { kind, message }
    }

    /// A failure of the given kind with a fixed message.
    pub fn of(kind: ErrorKind, message: &str) -> (r: ServiceError)
        ensures
            r@ == failure(kind, message@),
    {
        ServiceError { kind, message: message.to_owned() }
    }
}

/// The outcome of an operation that reports a message on success.
pub open spec fn outcome_view(r: Result<String, ServiceError>) -> Result<
    Seq<char>,
    ServiceErrorView,
> {
    match r {
        Ok(s) => Ok(s@),
        Err(e) => Err(e@),
    }
}

} // verus!
