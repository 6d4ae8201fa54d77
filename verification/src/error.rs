//! The errors that a handler, and the interceptor in front of it, can return.

use vstd::prelude::*;

verus! {

/// The category of an application-level error.
#[derive(Clone, Copy, Debug, PartialEq, Eq, Structural)]
pub enum ApplicationErrorKind {
    /// Catch-all application error.
    Unknown,
    /// A call was made to a method that the service does not know.
    UnknownMethod,
    /// A message of an unknown type was received.
    InvalidMessageType,
    /// The method name of a reply does not match the method called.
    WrongMethodName,
    /// A message was received out of order.
    BadSequenceId,
    /// A reply lacks its result.
    MissingResult,
    /// The handler on the serving side failed.
    InternalError,
    /// The protocol was violated.
    ProtocolError,
    /// A transform is not valid.
    InvalidTransform,
    /// An encoding was requested that is not supported.
    InvalidProtocol,
    /// A client type was requested that is not supported.
    UnsupportedClientType,
}

/// An application-level error: a kind and a message for a human reader.
#[derive(Clone, Debug, PartialEq, Eq)]
pub struct ApplicationError {
    pub kind: ApplicationErrorKind,
    pub message: String,
}

impl ApplicationError {
    /// An application error of the given kind whose message is a copy of `message`.
    pub fn new(kind: ApplicationErrorKind, message: &str) -> (e: ApplicationError)
        ensures
            e.kind == kind,
            e.message@ == message@,
    {
        ApplicationError { kind, message: message.to_owned() }
    }
}

/// What a call can fail with.
///
/// `T` is the error type of the transport and protocol underneath; the
/// interceptor never looks inside it.
#[derive(Clone, Debug, PartialEq, Eq)]
pub enum Error<T> {
    /// An error raised at the application level.
    Application(ApplicationError),
    /// A failure of the transport or the protocol, carried as it came.
    Transport(T),
}

} // verus!
