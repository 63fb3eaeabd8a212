//! The errors the bridge hands to its callers.

use vstd::prelude::*;

verus! {

/// Why an operation on a session did not produce a result.
#[derive(Debug, PartialEq, Eq)]
pub enum Error {
    /// A malformed request from the engine, or a buffer of the wrong size.
    InvalidInput,
    /// The transport failed while the engine was reading or writing.
    Io,
    /// No progress is possible until the transport is ready again. This is
    /// not a failure: a driven operation turns it into a suspension.
    Blocked,
    /// The negotiation failed. The session cannot continue.
    Negotiation,
    /// A private-key operation was given up before its output was set.
    Abandoned,
    /// The engine can no longer serve this session.
    Unusable,
    /// An error raised by a handler that the caller supplied.
    Application(String),
}

impl Error {
    /// An error that carries a handler's own message.
    pub fn application(message: String) -> (e: Error)
        ensures
            e == Error::Application(message),
    {
        Error::Application(message)
    }

    pub open spec fn spec_is_blocked(&self) -> bool {
        self is Blocked
    }

    /// Whether this value only says "not yet".
    #[verifier::when_used_as_spec(spec_is_blocked)]
    pub fn is_blocked(&self) -> (b: bool)
        ensures
            b == self.spec_is_blocked(),
    {
        match self {
            Error::Blocked => true,
            _ => false,
        }
    }

    /// The message of an error raised by a handler, and nothing for the rest.
    pub fn message(&self) -> (m: Option<&String>)
        ensures
            match *self {
                Error::Application(s) => m == Some(&s),
                _ => m.is_none(),
            },
    {
        match self {
            Error::Application(s) => Some(s),
            _ => None,
        }
    }
}

/// Why a read, write, flush or close of the wrapped stream failed.
#[derive(Debug, PartialEq, Eq)]
pub enum IoError {
    /// The session failed; the transport may be sound.
    Session(Error),
    /// The transport itself failed, with the code it reported.
    Transport(i32),
}

impl IoError {
    /// Wraps a session error for a caller that expects stream errors.
    pub fn other(e: Error) -> (io: IoError)
        ensures
            io == IoError::Session(e),
    {
        IoError::Session(e)
    }
}

} // verus!
